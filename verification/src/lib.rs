//! Core logic of an OSP (open syndication protocol) node: length-delimited
//! packet framing, the packet families exchanged during the handshake and
//! transfer phases, the typed data registry, and the connection state
//! machines, all with verified contracts.

pub mod crypto;
pub mod data_packet;
pub mod frame;
pub mod handshake;
pub mod inbound;
pub mod object_transfer;
pub mod outbound;
pub mod registry;
pub mod transfer;
pub mod url;
pub mod utils;
pub mod wire;
