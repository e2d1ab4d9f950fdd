//! Peers, their addresses, and the table of known peers.
pub mod ip;
pub mod peer;
pub mod peer_table;
