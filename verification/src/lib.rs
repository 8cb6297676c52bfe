//! A dialogue turns one ordered, reliable stream of packets between two
//! peers into many independent conversations: messages that nobody answers,
//! requests with their responses, and duplexes in which both sides send a
//! stream of items and end it on their own.
//!
//! The `Dialogue` keeps the books and stages the packets; it performs no
//! input or output itself. Whoever owns the transport hands it every
//! incoming packet and takes from it the packets to send.

pub mod dialogue;
pub mod error;
pub mod laws;
pub mod model;
pub mod outside;
pub mod packet;
pub mod preservation;
pub mod request;
pub mod role;
pub mod sub_duplex;
pub mod transport_error;

pub use dialogue::Dialogue;
pub use error::ClosedDialogue;
pub use error::ProtocolViolation;
pub use error::SubStreamError;
pub use packet::Frame;
pub use packet::PacketId;
pub use packet::PacketReadable;
pub use packet::PacketType;
pub use packet::PacketWritable;
pub use request::Request;
pub use request::Response;
pub use role::Client;
pub use role::Role;
pub use role::Server;
pub use sub_duplex::InSubDuplex;
pub use sub_duplex::OutSubDuplex;
pub use sub_duplex::SubDuplex;
pub use sub_duplex::SubDuplexType;
pub use transport_error::TransportError;
