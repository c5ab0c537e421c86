pub mod types;
pub mod counting;
pub mod rng;
pub mod memory;
pub mod store;
pub mod laws;
