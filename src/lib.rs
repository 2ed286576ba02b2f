//! Wake-on-LAN over chat commands: MAC text parsing, magic packet framing,
//! device lookup, owner authorization and the per-command decision pipeline.

pub mod mac;
pub mod packet;
pub mod registry;
pub mod auth;
pub mod text;
pub mod router;
