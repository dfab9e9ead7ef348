//! Scheduling and load-distribution core for a fleet of simulated
//! experiments: configuration checks, start-offset planning, document intake
//! into a growing registry, the load-generation cycle's decisions and the
//! requestors' reaction to broadcast events.

pub mod config;
pub mod cycle;
pub mod registry;
pub mod requestor;
pub mod schedule;
