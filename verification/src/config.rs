//! The settings that the daemon and the client read at start-up.

use vstd::prelude::*;

verus! {

/// The port that a daemon listens on unless told otherwise.
pub fn default_config_path() -> (port: u16)
    ensures
        port == 45729,
{
    45729
}

/// An IP address: four octets, or sixteen.
#[derive(Debug, Clone, Copy, PartialEq, Eq)]
pub enum IpAddress {
    V4([u8; 4]),
    V6([u8; 16]),
}

/// An IP address and a port.
#[derive(Debug, Clone, Copy, PartialEq, Eq)]
pub struct SocketAddress {
    pub host: IpAddress,
    pub port: u16,
}

/// The settings shared by both sides: the pre-shared key and the daemon's
/// address.
pub struct ConfigInner {
    pub key: [u8; 32],
    host: IpAddress,
    port: u16,
}

/// What the client reads: the key and the daemon's address.
pub type ClientConfig = ConfigInner;

/// Calls `rand::random` for 32 bytes from the thread-local generator. Nothing
/// is claimed of them.
#[verifier::external_body]
fn random_key() -> (key: [u8; 32]) {
    rand::random()
}

impl ConfigInner {
    /// Settings with the given key and address.
    pub fn new(key: [u8; 32], host: IpAddress, port: u16) -> (config: ConfigInner)
        ensures
            config.psk() == key,
            config.host() == host,
            config.port() == port,
    {
        ConfigInner { key, host, port }
    }

    /// The pre-shared key.
    pub closed spec fn psk(&self) -> [u8; 32] {
        self.key
    }

    /// The daemon's host.
    pub closed spec fn host(&self) -> IpAddress {
        self.host
    }

    /// The daemon's port.
    pub closed spec fn port(&self) -> u16 {
        self.port
    }

    /// The daemon's socket address.
    pub fn address(&self) -> (address: SocketAddress)
        ensures
            address.host == self.host(),
            address.port == self.port(),
    {
        SocketAddress { host: self.host, port: self.port }
    }

    /// The same settings with `key` in place of the current key.
    pub fn with_key(self, key: [u8; 32]) -> (config: ConfigInner)
        ensures
            config.psk() == key,
            config.host() == self.host(),
            config.port() == self.port(),
    {
        ConfigInner { key, host: self.host, port: self.port }
    }

    /// The same settings with a freshly drawn random key, so that a default
    /// configuration never carries a key that is known in advance. Which key
    /// is drawn is up to the generator; everything else is kept.
    pub fn with_random_key(self) -> (config: ConfigInner)
        ensures
            config.host() == self.host(),
            config.port() == self.port(),
    {
        let key = random_key();
        self.with_key(key)
    }
}

/// What the daemon reads: the key, its own address and the repository it
/// deploys from.
pub struct ServerConfig {
    pub key: [u8; 32],
    pub host: IpAddress,
    pub port: u16,
    pub repo_url: String,
}

impl ServerConfig {
    /// The daemon's socket address.
    pub fn address(&self) -> (address: SocketAddress)
        ensures
            address.host == self.host,
            address.port == self.port,
    {
        SocketAddress { host: self.host, port: self.port }
    }
}

} // verus!
