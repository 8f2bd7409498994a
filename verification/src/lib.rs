//! A query layer over a shared, concurrently mutated registry of multi-stage
//! jobs. Clients ask for the state of one, several, or all tracked jobs; the
//! answer is a consistent snapshot, copied out under a single lock hold.

pub mod assoc;
pub mod laws;
pub mod registry;
pub mod request;
pub mod result_map;
pub mod shared;
pub mod stage;
