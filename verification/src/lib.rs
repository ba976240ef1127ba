//! A WebRTC transport for connections between browsers that find each other over a relay.
//!
//! The library decides: which addresses are served, what is sent to a relay and what its answer
//! means, in which order a connection to a peer is set up, and how messages lie on a stream.  It
//! performs no input or output.  Where some is needed, a function returns an action, and takes
//! the event that tells what came of it.
pub mod address_map;
pub mod config;
pub mod dial;
pub mod error;
pub mod event;
pub mod extract;
pub mod hop;
pub mod multiaddr;
pub mod proto_stream;
pub mod reservation;
pub mod text;
pub mod transport;

pub use self::config::Config;
pub use self::proto_stream::ProtobufStream;
pub use self::transport::Transport;
