//! Peers that find each other through a rendezvous server and then send each
//! other datagrams directly, without acknowledgement.
//!
//! This crate holds the protocol and none of the sockets. `envelope` and
//! `message` say what the datagrams are and how they are written and read;
//! `server` is the registry of the rendezvous server and its answers;
//! `client` is a peer: its identity, the addresses it has discovered and the
//! messages that wait to be shown. The program around the crate receives and
//! sends the datagrams and calls in here to learn what to do with them.
//!
//! The datagrams are JSON. The crate relies on the `json` crate to read and
//! write them, on `uuid` for identifiers and on `chrono` for timestamps; what
//! it takes for granted of each is said where the call is made, in
//! `document`, `identifier` and `timestamp`.

pub mod address;
pub mod client;
pub mod document;
pub mod envelope;
pub mod error;
pub mod fields;
pub mod identifier;
pub mod message;
pub mod server;
pub mod text;
pub mod timestamp;
