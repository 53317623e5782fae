//! Target settings for one session: the principal (username) and the
//! endpoint address of the device, with the port fixed to the standard
//! secure-shell port.

use vstd::prelude::*;

verus! {

/// The standard secure-shell port; the endpoint port is fixed to it by
/// convention of this domain and is not user-configurable.
pub const SSH_PORT: u16 = 22;

/// A host address, held as plain values: four octets for a version-4
/// address, eight 16-bit segments for a version-6 address.
#[derive(Clone, Copy, Debug, PartialEq, Eq)]
pub enum IpAddress {
    V4 { octets: [u8; 4] },
    V6 { segments: [u16; 8] },
}

/// The raw, caller-supplied pair before the endpoint is fixed:
/// a principal and a bare host address.
#[derive(Clone, Debug)]
pub struct SessionFlags {
    pub username: String,
    pub router_address: IpAddress,
}

/// A fully resolved endpoint: host address plus port.
#[derive(Clone, Copy, Debug, PartialEq, Eq)]
pub struct SocketEndpoint {
    pub ip: IpAddress,
    pub port: u16,
}

/// Validated settings consumed exactly once by the connector.
#[derive(Clone, Debug)]
pub struct SessionSettings {
    pub username: String,
    pub router_address: SocketEndpoint,
}

impl SessionSettings {
    /// The principal must be a non-empty string and the endpoint must
    /// carry the standard secure-shell port.
    pub open spec fn wf(self) -> bool {
        &&& self.username@.len() > 0
        &&& self.router_address.port == SSH_PORT
    }
}

/// Builds the settings the connector consumes: the principal is taken
/// over unchanged and the endpoint is the given address at the standard
/// secure-shell port.
pub fn combine_to_session_settings(flags: SessionFlags) -> (settings: SessionSettings)
    ensures
        settings.username@ == flags.username@,
        settings.router_address.ip == flags.router_address,
        settings.router_address.port == SSH_PORT,
        settings.wf() <==> flags.username@.len() > 0,
{
    let username = flags.username;
    let router_address = SocketEndpoint { ip: flags.router_address, port: SSH_PORT };
    SessionSettings { username, router_address }
}

} // verus!
