//! The decision core of a distribution database: given a distribution (a
//! requirement resolved to a location), it decides which cached wheel can be
//! reused, which wheel has to be fetched or built, and how each failure on the
//! way is classified. The filesystem, the network and the build backend are
//! driven by the caller, one step at a time.

pub mod cache;
pub mod dist;
pub mod distribution_database;
pub mod download;
pub mod error;
pub mod fetch;
pub mod laws;
pub mod locks;
pub mod policy;
pub mod resolve;
pub mod web;
pub mod world;

pub use distribution_database::DistributionDatabase;
pub use download::{BuiltWheel, DiskWheel, LocalWheel, UnzippedWheel};
pub use error::Error;
pub use locks::Locks;
