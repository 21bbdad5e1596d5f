//! Process start-up for shielded-proof work: the names of the shared
//! worker threads, and the one-time loading of the Orchard circuit keys.

pub mod laws;
pub mod naming;
pub mod params;
pub mod pool;
