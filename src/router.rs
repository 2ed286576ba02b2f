use vstd::prelude::*;
use crate::auth::{authorizes, decide, AuthorizationDecision};
use crate::mac::{decoded, well_formed, MacAddress};
use crate::packet::{magic_bytes, MagicPacket};
use crate::registry::{configured, load_separator, lookup, separator_setting, DeviceConfig, RegistryError};
use crate::text::{append_decimal, decimal};

verus! {

/// A chat command, as the transport delivers it.
#[derive(Clone, Debug, PartialEq, Eq)]
pub enum Command {
    Help,
    /// The device named by the argument; an absent argument is the empty string.
    Wake(String),
}

/// What to do first for a command.
#[derive(Clone, Debug, PartialEq, Eq)]
pub enum Step {
    /// Send this reply; there is nothing else to do.
    Reply(String),
    /// Look this device up, then decide with `wake_decision`.
    LookUp(String),
}

/// What to do for a wake request once the device has been looked up.
#[derive(Clone, Debug, PartialEq, Eq)]
pub enum WakeAction {
    /// Send this reply and nothing else.
    Reply(String),
    /// Record the refused sender and device, and send the reply.
    Reject { sender_id: i64, device: String, reply: String },
    /// Broadcast the packet framed for `address`, then reply with `broadcast_reply`.
    Broadcast { device: String, address: MacAddress, packet: MagicPacket },
}

pub open spec fn help_text() -> Seq<char> {
    "These commands are supported:\n\n/help \u{2014} display this text.\n/wake \u{2014} wake a device."@
}

pub open spec fn prompt_text() -> Seq<char> {
    "Please specify a device, e.g.\n<code>/wake mydevice</code>"@
}

pub open spec fn not_configured_text(device: Seq<char>) -> Seq<char> {
    "Device \""@ + device + "\" is not correctly configured."@
}

pub open spec fn not_authorized_text(sender_id: int, device: Seq<char>) -> Seq<char> {
    "You ("@ + decimal(sender_id) + ") are not authorized to wake "@ + device + "."@
}

pub open spec fn sent_text(device: Seq<char>) -> Seq<char> {
    "Sent magic packet to "@ + device + "!"@
}

pub open spec fn problem_text(device: Seq<char>) -> Seq<char> {
    "There was a problem waking "@ + device + "."@
}

/// A looked-up device as the decision sees it: its address text and owner id.
pub open spec fn entry_of(found: Result<DeviceConfig, RegistryError>) -> Option<(Seq<char>, int)> {
    match found {
        Ok(d) => Some((d.mac_address@, d.owner_id as int)),
        Err(_) => None,
    }
}

/// `r` is the right action for a wake request for `device` from `sender_id`,
/// given the device's entry (`None` when it is not configured) and the
/// address separator (`None` when it is not configured).
pub open spec fn wake_result(
    device: Seq<char>,
    sender_id: int,
    entry: Option<(Seq<char>, int)>,
    sep: Option<char>,
    r: WakeAction,
) -> bool {
    match entry {
        None => r matches WakeAction::Reply(t) && t@ == not_configured_text(device),
        Some((mac, owner)) => if !authorizes(owner, sender_id) {
            r matches WakeAction::Reject { sender_id: s, device: d, reply: t } && s == sender_id
                && d@ == device && t@ == not_authorized_text(sender_id, device)
        } else if !(sep matches Some(c) && well_formed(mac, c)) {
            r matches WakeAction::Reply(t) && t@ == not_configured_text(device)
        } else {
            r matches WakeAction::Broadcast { device: d, address: a, packet: p } && d@ == device
                && a.octets@ == decoded(mac) && p.bytes@ == magic_bytes(decoded(mac))
        },
    }
}

pub fn help_reply() -> (r: String)
    ensures
        r@ == help_text(),
{
    String::from_str(
        "These commands are supported:\n\n/help \u{2014} display this text.\n/wake \u{2014} wake a device.",
    )
}

pub fn prompt_reply() -> (r: String)
    ensures
        r@ == prompt_text(),
{
    String::from_str("Please specify a device, e.g.\n<code>/wake mydevice</code>")
}

pub fn not_configured_reply(device: &str) -> (r: String)
    ensures
        r@ == not_configured_text(device@),
{
    let mut t = String::from_str("Device \"");
    t.append(device);
    t.append("\" is not correctly configured.");
    t
}

pub fn not_authorized_reply(sender_id: i64, device: &str) -> (r: String)
    ensures
        r@ == not_authorized_text(sender_id as int, device@),
{
    let mut t = String::from_str("You (");
    append_decimal(&mut t, sender_id);
    t.append(") are not authorized to wake ");
    t.append(device);
    t.append(".");
    t
}

/// The reply once the packet for `device` has been handed to the network,
/// `sent` telling whether that succeeded.
pub fn broadcast_reply(device: &str, sent: bool) -> (r: String)
    ensures
        r@ == (if sent {
            sent_text(device@)
        } else {
            problem_text(device@)
        }),
{
    if sent {
        let mut t = String::from_str("Sent magic packet to ");
        t.append(device);
        t.append("!");
        t
    } else {
        let mut t = String::from_str("There was a problem waking ");
        t.append(device);
        t.append(".");
        t
    }
}

/// First step for a command: help and an empty wake are answered at once,
/// without a lookup; a named device is to be looked up.
pub fn handle(command: &Command) -> (r: Step)
    ensures
        command is Help ==> (r matches Step::Reply(t) && t@ == help_text()),
        command is Wake && command->Wake_0@.len() == 0 ==> (r matches Step::Reply(t) && t@
            == prompt_text()),
        command is Wake && command->Wake_0@.len() > 0 ==> (r matches Step::LookUp(n) && n@
            == command->Wake_0@),
{
    match command {
        Command::Help => Step::Reply(help_reply()),
        Command::Wake(device) => {
            if device.as_str().unicode_len() == 0 {
                Step::Reply(prompt_reply())
            } else {
                Step::LookUp(device.clone())
            }
        },
    }
}

/// Decides a wake request for `device` from `sender_id` on the outcome of
/// its lookup: an unknown or incomplete device and a malformed address get
/// the same reply, as does a missing separator; a sender other than the
/// owner is refused; otherwise the magic packet for the address is to be
/// broadcast.
pub fn wake_decision(
    device: &str,
    sender_id: i64,
    found: Result<DeviceConfig, RegistryError>,
    separator: Option<char>,
) -> (r: WakeAction)
    ensures
        wake_result(device@, sender_id as int, entry_of(found), separator, r),
{
    match decide(sender_id, &found) {
        AuthorizationDecision::DeviceMisconfigured => WakeAction::Reply(not_configured_reply(device)),
        AuthorizationDecision::Unauthorized => WakeAction::Reject {
            sender_id,
            device: String::from_str(device),
            reply: not_authorized_reply(sender_id, device),
        },
        AuthorizationDecision::Authorized => {
            let d = match found {
                Ok(d) => d,
                Err(_) => {
                    proof {
                        assert(false);
                    }
                    return WakeAction::Reply(not_configured_reply(device));
                },
            };
            let sep = match separator {
                Some(c) => c,
                None => {
                    return WakeAction::Reply(not_configured_reply(device));
                },
            };
            match MacAddress::parse(d.mac_address.as_str(), sep) {
                Ok(mac) => WakeAction::Broadcast {
                    device: String::from_str(device),
                    address: mac,
                    packet: MagicPacket::build(&mac),
                },
                Err(_) => WakeAction::Reply(not_configured_reply(device)),
            }
        },
    }
}

/// Looks `device` and the address separator up afresh in `settings` and
/// decides the request on what they hold.
pub fn wake(settings: &config::Config, device: &str, sender_id: i64) -> (r: WakeAction)
    ensures
        wake_result(
            device@,
            sender_id as int,
            configured(*settings, device@),
            separator_setting(*settings),
            r,
        ),
{
    let found = lookup(settings, device);
    let separator = load_separator(settings);
    wake_decision(device, sender_id, found, separator)
}

} // verus!
