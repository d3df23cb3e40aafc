//! Core logic of the coeus deployment daemon and its client: the packet
//! protocol, the encrypted stream's framing and nonce discipline, the
//! pre-shared key text format, and the deployment command plan.

pub mod cli;
pub mod command;
pub mod config;
pub mod deploy;
pub mod envelope;
pub mod frame;
pub mod handshake;
pub mod ids;
pub mod noise;
pub mod options;
pub mod packet;
pub mod psk;
pub mod session;
pub mod stream;
pub mod variant;
pub mod wire;
