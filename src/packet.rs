use vstd::prelude::*;
use crate::mac::MacAddress;

verus! {

/// The Wake-on-LAN payload for one address.
#[derive(Clone, Debug, PartialEq, Eq)]
pub struct MagicPacket {
    pub bytes: Vec<u8>,
}

/// Six bytes of `0xFF`, then `mac` sixteen times over.
pub open spec fn magic_bytes(mac: Seq<u8>) -> Seq<u8> {
    Seq::new(102, |i: int| if i < 6 { 0xFFu8 } else { mac[(i - 6) % 6] })
}

/// wakey's error type, carried opaquely.
#[verifier::external_type_specification]
#[verifier::external_body]
pub struct ExWakeyError(wakey::WakeyError);

/// Relies on wakey::WolPacket::from_bytes, which for a six-byte address
/// returns the header of six `0xFF` bytes followed by sixteen copies of the
/// address, and on WolPacket::into_inner, which hands those bytes back.
#[verifier::external_body]
fn wol_packet_bytes(mac: &[u8; 6]) -> (r: Result<Vec<u8>, wakey::WakeyError>)
    ensures
        r is Ok,
        r is Ok ==> r->Ok_0@ == magic_bytes(mac@),
{
    match wakey::WolPacket::from_bytes(mac) {
        Ok(p) => Ok(p.into_inner().to_vec()),
        Err(e) => Err(e),
    }
}

impl MagicPacket {
    /// Frames the magic packet for `mac`; it cannot fail.
    pub fn build(mac: &MacAddress) -> (r: MagicPacket)
        ensures
            r.bytes@ == magic_bytes(mac.octets@),
    {
        match wol_packet_bytes(&mac.octets) {
            Ok(bytes) => MagicPacket { bytes },
            Err(_) => {
                proof {
                    assert(false);
                }
                MagicPacket { bytes: Vec::new() }
            },
        }
    }
}

/// A magic packet is 102 bytes long, starts with six `0xFF` bytes, and holds
/// the address at each of the sixteen six-byte slots after that.
pub proof fn lemma_magic_packet_layout(mac: MacAddress)
    ensures
        magic_bytes(mac.octets@).len() == 102,
        forall|i: int| 0 <= i < 6 ==> #[trigger] magic_bytes(mac.octets@)[i] == 0xFFu8,
        forall|k: int|
            0 <= k < 16 ==> #[trigger] magic_bytes(mac.octets@).subrange(6 + 6 * k, 12 + 6 * k)
                == mac.octets@,
{
    let p = magic_bytes(mac.octets@);
    assert forall|k: int| 0 <= k < 16 implies #[trigger] p.subrange(6 + 6 * k, 12 + 6 * k)
        == mac.octets@ by {
        assert forall|j: int| 0 <= j < 6 implies p.subrange(6 + 6 * k, 12 + 6 * k)[j]
            == mac.octets@[j] by {
            assert((6 + 6 * k + j - 6) % 6 == j) by (nonlinear_arith)
                requires
                    0 <= j < 6,
                    0 <= k,
            ;
        }
        assert(p.subrange(6 + 6 * k, 12 + 6 * k) =~= mac.octets@);
    }
}

} // verus!
