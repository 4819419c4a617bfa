//! Background jobs: which may run, what each one does, and what its outcome
//! means for the cluster.

pub mod action;
pub mod agent;
pub mod create;
pub mod creation;
pub mod join;
pub mod lab;
pub mod lab_laws;
pub mod node_laws;
pub mod node_upgrade;
pub mod nodes;
pub mod os_walk;
pub mod os_walk_laws;
pub mod progress;
pub mod provider;
pub mod removal;
pub mod resize;
pub mod rounds;
pub mod rows;
pub mod scan;
pub mod sched;
pub mod upgrade;
pub mod walk;
pub mod walk_laws;
