//! What the library promises as a whole.

pub mod admission;
pub mod agent;
pub mod decisions;
pub mod freshness;
pub mod identities;
pub mod layout;
pub mod messages;
pub mod mutual;
pub mod operations;
pub mod tasks;
