//! The decision core of a dual-mode datagram transport.
//!
//! A transport sends and receives byte payloads as datagrams, either over a
//! socket of the operating system or through the datagram relay of a SOCKS5
//! proxy. This crate holds everything such a transport decides and nothing it
//! performs: which address to bind and with which options, how to authenticate
//! to a relay, which frame goes on the wire, and what the caller is told when
//! the backend delivers, fails, closes or stays silent. Each operation that
//! needs the outside world is split in two. The first function returns a plan
//! or a frame for the caller's I/O driver; the second takes what the driver
//! observed and returns the caller-visible result.

pub mod address;
pub mod error;
pub mod laws;
pub mod multicast;
pub mod payload;
pub mod socket;
pub mod text;
pub mod transport;
