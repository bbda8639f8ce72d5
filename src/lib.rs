//! Safe-harbor disclosure registry: the data model of registry and agreement
//! records, their validation and authorization rules, storage sizing, and the
//! adopter-to-agreement index keyed by derived addresses.

pub mod address;
pub mod errors;
pub mod events;
pub mod types;
pub mod sizing;
pub mod state;
pub mod helpers;
pub mod registry;
pub mod adoption;
pub mod agreements;
pub mod laws;
pub mod v2;
