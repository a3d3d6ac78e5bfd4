//! Message validation and wire encoding for the "get peers" exchange of a
//! Kademlia-style distributed hash table.
//!
//! Inbound, a bencoded dictionary is checked field by field and turned into a
//! typed request or response value, or a typed error; outbound, a typed value
//! is assembled into a dictionary and serialized. The bencode value tree is
//! modeled by [`bencode::BencodeValue`]; serialization itself is done by the
//! `bip_bencode` crate.

pub mod bencode;
pub mod compact;
pub mod error;
pub mod get_peers;
pub mod iter;
pub mod laws;
pub mod message;
pub mod validate;
