//! VAINA: a small control protocol that tells routers, over IPv6 multicast,
//! which entries to add to or remove from their Router Client Set and their
//! Network Information Base.
//!
//! This crate is the protocol core: the messages and their wire encoding, and
//! the client that numbers the messages and remembers which of them still
//! await an acknowledgment. It opens no socket. The client hands out each
//! datagram as bytes, and whoever owns the socket transmits them.

pub mod addr;
pub mod buf;
pub mod client;
pub mod command;
pub mod error;
pub mod msg;
pub mod nib;
pub mod rcs;

pub use client::VainaClient;
pub use error::Error;
pub use msg::Message;
