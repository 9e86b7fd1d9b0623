//! Data returned by the qBittorrent Web API, and the pure computations the client performs on it:
//! tracker status decoding, hash lists for bulk requests, and endpoint addresses.

pub mod endpoint;
pub mod hash;
pub mod server;
pub mod state;
pub mod tracker;
pub mod transfer;
