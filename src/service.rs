//! The decisions of the daemon's services; the sockets that carry them out
//! stay with the caller.
pub mod airx_service;
pub mod data_service;
pub mod discovery_service;
pub mod file_transfer;
pub mod transport;
