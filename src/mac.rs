use vstd::prelude::*;

verus! {

/// Number of octets in a hardware address.
pub const MAC_LEN: usize = 6;

/// Number of characters in the textual form: six two-digit fields and five separators.
pub const MAC_TEXT_LEN: usize = 17;

/// A hardware address: exactly six octets.
#[derive(Clone, Copy, Debug, PartialEq, Eq)]
pub struct MacAddress {
    pub octets: [u8; 6],
}

/// The textual form could not be read as six separated two-digit hex fields.
#[derive(Clone, Copy, Debug, PartialEq, Eq)]
pub enum MacError {
    InvalidFormat,
}

/// Value of a hexadecimal digit, either case; `None` for any other character.
pub open spec fn hex_value(c: char) -> Option<u8> {
    if '0' <= c && c <= '9' {
        Some((c as u32 - '0' as u32) as u8)
    } else if 'a' <= c && c <= 'f' {
        Some((c as u32 - 'a' as u32 + 10) as u8)
    } else if 'A' <= c && c <= 'F' {
        Some((c as u32 - 'A' as u32 + 10) as u8)
    } else {
        None
    }
}

pub open spec fn is_hex_digit(c: char) -> bool {
    hex_value(c) is Some
}

/// Character `j` (0 or 1) of field `i` of a textual address.
pub open spec fn field_char(text: Seq<char>, i: int, j: int) -> char {
    text[3 * i + j]
}

/// `text` split on `sep` gives exactly six fields of two hex digits each:
/// the text is 17 characters long, the separator sits after every field but
/// the last, and every field character is a hex digit other than `sep`.
pub open spec fn well_formed(text: Seq<char>, sep: char) -> bool {
    &&& text.len() == 17
    &&& forall|i: int| 0 <= i < 5 ==> #[trigger] text[3 * i + 2] == sep
    &&& forall|i: int, j: int|
        0 <= i < 6 && 0 <= j < 2 ==> is_hex_digit(#[trigger] field_char(text, i, j))
            && field_char(text, i, j) != sep
}

/// The octet that field `i` of a well-formed text encodes.
pub open spec fn field_octet(text: Seq<char>, i: int) -> u8 {
    (hex_value(field_char(text, i, 0))->0 * 16 + hex_value(field_char(text, i, 1))->0) as u8
}

/// The six octets that a well-formed text encodes.
pub open spec fn decoded(text: Seq<char>) -> Seq<u8> {
    Seq::new(6, |i: int| field_octet(text, i))
}

/// Upper-case hex digit for a value below 16.
pub open spec fn hex_digit(v: u8) -> char {
    if v < 10 {
        (('0' as u8) + v) as char
    } else {
        (('A' as u8) + v - 10) as char
    }
}

/// The conventional text of `octets`: upper-case hex pairs joined by `sep`.
pub open spec fn mac_text(octets: Seq<u8>, sep: char) -> Seq<char> {
    Seq::new(
        17,
        |p: int|
            if p % 3 == 2 {
                sep
            } else if p % 3 == 0 {
                hex_digit(octets[p / 3] / 16)
            } else {
                hex_digit(octets[p / 3] % 16)
            },
    )
}

proof fn lemma_hex_digit_value(v: u8)
    requires
        v < 16,
    ensures
        hex_value(hex_digit(v)) == Some(v),
{
}

/// Parsing the conventional text of any address with any separator gives the
/// address back, unless the separator is itself one of the digits written.
pub proof fn lemma_parse_text_round_trip(mac: MacAddress, sep: char)
    requires
        forall|p: int| 0 <= p < 17 && p % 3 != 2 ==> #[trigger] mac_text(mac.octets@, sep)[p] != sep,
    ensures
        well_formed(mac_text(mac.octets@, sep), sep),
        decoded(mac_text(mac.octets@, sep)) == mac.octets@,
{
    let t = mac_text(mac.octets@, sep);
    assert forall|i: int, j: int| 0 <= i < 6 && 0 <= j < 2 implies is_hex_digit(
        #[trigger] field_char(t, i, j),
    ) && field_char(t, i, j) != sep && hex_value(field_char(t, i, j)) == Some(
        if j == 0 { mac.octets@[i] / 16 } else { mac.octets@[i] % 16 },
    ) by {
        assert((3 * i + j) % 3 == j && (3 * i + j) / 3 == i) by (nonlinear_arith)
            requires
                0 <= j < 2,
        ;
        lemma_hex_digit_value(mac.octets@[i] / 16);
        lemma_hex_digit_value(mac.octets@[i] % 16);
        assert(t[3 * i + j] != sep);
    }
    assert forall|i: int| 0 <= i < 5 implies #[trigger] t[3 * i + 2] == sep by {
        assert((3 * i + 2) % 3 == 2) by (nonlinear_arith);
    }
    assert(decoded(t) =~= mac.octets@);
}

/// Text of the wrong length, with something other than the separator
/// between fields, or with a field character that is not a hex digit, is
/// rejected.
pub proof fn lemma_malformed_text_rejected(text: Seq<char>, sep: char)
    requires
        text.len() != 17 || (exists|i: int| 0 <= i < 5 && #[trigger] text[3 * i + 2] != sep) || (
        exists|i: int, j: int|
            0 <= i < 6 && 0 <= j < 2 && !is_hex_digit(#[trigger] field_char(text, i, j))),
    ensures
        !well_formed(text, sep),
{
}

fn hex_digit_value(c: char) -> (r: Option<u8>)
    ensures
        r == hex_value(c),
{
    if '0' <= c && c <= '9' {
        Some((c as u32 - '0' as u32) as u8)
    } else if 'a' <= c && c <= 'f' {
        Some((c as u32 - 'a' as u32 + 10) as u8)
    } else if 'A' <= c && c <= 'F' {
        Some((c as u32 - 'A' as u32 + 10) as u8)
    } else {
        None
    }
}

/// Reads field `i` of `text`: its two characters must be hex digits other than `sep`.
fn read_field(text: &str, i: usize, sep: char) -> (r: Option<u8>)
    requires
        i < 6,
        text@.len() == 17,
    ensures
        r is Some <==> (forall|j: int| 0 <= j < 2 ==> is_hex_digit(#[trigger] field_char(text@, i as int, j))
            && field_char(text@, i as int, j) != sep),
        r is Some ==> r->0 == field_octet(text@, i as int),
{
    let hi_c = text.get_char(3 * i);
    let lo_c = text.get_char(3 * i + 1);
    assert(hi_c == field_char(text@, i as int, 0));
    assert(lo_c == field_char(text@, i as int, 1));
    if hi_c == sep || lo_c == sep {
        return None;
    }
    match (hex_digit_value(hi_c), hex_digit_value(lo_c)) {
        (Some(hi), Some(lo)) => Some(hi * 16 + lo),
        _ => None,
    }
}

impl MacAddress {
    /// Parses `text` as six two-digit hex fields (either case) separated by `sep`.
    pub fn parse(text: &str, sep: char) -> (r: Result<MacAddress, MacError>)
        ensures
            r is Ok <==> well_formed(text@, sep),
            r matches Ok(m) ==> m.octets@ == decoded(text@),
    {
        let n = text.unicode_len();
        if n != MAC_TEXT_LEN {
            return Err(MacError::InvalidFormat);
        }
        let mut octets: [u8; 6] = [0u8; 6];
        let mut i: usize = 0;
        while i < MAC_LEN
            invariant
                text@.len() == 17,
                i <= 6,
                forall|k: int| 0 <= k < i ==> #[trigger] octets@[k] == field_octet(text@, k),
                forall|k: int| 0 <= k < i && k < 5 ==> #[trigger] text@[3 * k + 2] == sep,
                forall|k: int, j: int|
                    0 <= k < i && 0 <= j < 2 ==> is_hex_digit(#[trigger] field_char(text@, k, j))
                        && field_char(text@, k, j) != sep,
            decreases 6 - i,
        {
            match read_field(text, i, sep) {
                Some(v) => {
                    octets.set(i, v);
                },
                None => {
                    return Err(MacError::InvalidFormat);
                },
            }
            if i < 5 {
                let c = text.get_char(3 * i + 2);
                if c != sep {
                    return Err(MacError::InvalidFormat);
                }
            }
            i = i + 1;
        }
        let m = MacAddress { octets };
        assert(m.octets@ =~= decoded(text@));
        Ok(m)
    }
}

} // verus!
