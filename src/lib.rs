//! A secure, connection-bearing datagram transport: the wire header codec,
//! the mutual-authentication handshake decisions, the address registry that
//! demultiplexes datagrams, and the receive-side framing of decrypted data.

pub mod error;
pub mod protocol;
pub mod utils;
pub mod netcore;
pub mod registry;
pub mod handshake;
pub mod stream;
pub mod keys;
pub mod verify;
pub mod config;

pub use config::{ArtificeConfig, ArtificeHostData};
pub use error::NetworkError;
pub use keys::{PrivKeyComp, PubKeyComp};
pub use verify::{AsyncRequest, ConnectionRequest, PeerList};
pub use protocol::{PacketType, StreamHeader};
pub use netcore::{L3Addr, L4Addr};
pub use registry::Registry;
pub use utils::{random_string, sync_channel, Query, SyncQuery};
