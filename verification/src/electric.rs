//! The Lompoc electric distribution system, bounded at the PG&E
//! transmission interconnect.

pub mod domain;
pub mod observables;
pub mod pilot;
pub mod wholesale_cost;
