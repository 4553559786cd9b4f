//! A STOMP 1.2 server library: frame parsing, session decisions and
//! in-memory destinations, each with a proved contract.
pub mod error;
pub mod text;
pub mod frame;
pub mod client;
pub mod destinations;
pub mod table;
pub mod session;
pub mod codec;
pub mod inmemory;
pub mod timer;
pub mod websocket;
pub mod frame_handler;
