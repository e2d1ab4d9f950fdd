//! The protocol core of a LAN peer-to-peer messaging and file-transfer
//! daemon: wire formats, the peer table, and the decisions of the discovery,
//! data and file-transfer services.
pub mod endian;
pub mod lib_util;
pub mod network;
pub mod packet;
pub mod service;
pub mod strings;
