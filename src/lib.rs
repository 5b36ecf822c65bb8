//! Agile HPKE channels: the wire packet codec, ciphersuite negotiation, the pre-shared key
//! store, the algorithm agility layer, the session key hierarchy and the per-connection
//! state machines that tie them together.

pub mod agility;
pub mod algorithms;
pub mod catalog;
pub mod ciphersuite_client;
pub mod ciphersuite_server;
pub mod client_labels;
pub mod client_packets;
pub mod codes;
pub mod errors;
pub mod hierarchy;
pub mod negotiation;
pub mod psk;
pub mod server_labels;
pub mod server_packets;
pub mod session;
pub mod wire;
