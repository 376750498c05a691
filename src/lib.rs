//! Supervision of background runs: the record of each run, the store that
//! names and resolves runs, the launch protocol, signal delivery and the
//! follower that streams a run's growing output.

pub mod launch;
pub mod listing;
pub mod record;
pub mod signal;
pub mod store;
pub mod summary;
pub mod tail;
