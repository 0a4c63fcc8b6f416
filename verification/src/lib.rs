//! A node of a permissioned peer-to-peer network: the data model, the stored
//! byte formats, the rules of the storage engine and the per-connection
//! admission protocol of the overlay, each with a contract that Verus proves.

pub mod codec;
pub mod crypto;
pub mod database;
pub mod model;
pub mod network;
pub mod overlay;
pub mod protocol;
