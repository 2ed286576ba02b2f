use vstd::prelude::*;
use crate::registry::{DeviceConfig, RegistryError};

verus! {

#[derive(Clone, Copy, Debug, PartialEq, Eq)]
pub enum AuthorizationDecision {
    Authorized,
    Unauthorized,
    /// The device could not be looked up, or its entry is incomplete.
    DeviceMisconfigured,
}

/// An owner id of `0` lets any sender in; any other lets in only itself.
pub open spec fn authorizes(owner_id: int, sender_id: int) -> bool {
    owner_id == 0 || owner_id == sender_id
}

/// Decides whether `sender_id` may wake `device`.
pub fn check(sender_id: i64, device: &DeviceConfig) -> (r: AuthorizationDecision)
    ensures
        r == (if authorizes(device.owner_id as int, sender_id as int) {
            AuthorizationDecision::Authorized
        } else {
            AuthorizationDecision::Unauthorized
        }),
{
    if device.owner_id == 0 || device.owner_id == sender_id {
        AuthorizationDecision::Authorized
    } else {
        AuthorizationDecision::Unauthorized
    }
}

/// Decides on the outcome of a device lookup: a failed lookup is a
/// misconfigured device, a found one goes through `check`.
pub fn decide(sender_id: i64, found: &Result<DeviceConfig, RegistryError>) -> (r:
    AuthorizationDecision)
    ensures
        found is Err ==> r == AuthorizationDecision::DeviceMisconfigured,
        found matches Ok(d) ==> r == (if authorizes(d.owner_id as int, sender_id as int) {
            AuthorizationDecision::Authorized
        } else {
            AuthorizationDecision::Unauthorized
        }),
{
    match found {
        Ok(d) => check(sender_id, d),
        Err(_) => AuthorizationDecision::DeviceMisconfigured,
    }
}

/// Owner id `0` authorizes every sender; owner id `42` authorizes sender
/// `42` and no other.
pub proof fn lemma_owner_rule(sender_id: int)
    ensures
        authorizes(0, sender_id),
        authorizes(42, sender_id) <==> sender_id == 42,
{
}

} // verus!
