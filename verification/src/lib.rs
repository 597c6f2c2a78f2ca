//! The comms-CPU runtime of a two-CPU instrument controller: the rules of the
//! host session, the state that outlives a session, watchdogs, the mailbox to
//! the kernel CPU and the cooperative scheduler, each stated as a contract and
//! proved.

pub mod cache;
pub mod error;
pub mod handler;
pub mod laws;
pub mod mailbox;
pub mod proto;
pub mod sched;
pub mod session;
pub mod socket;
pub mod startup;
pub mod trap;
pub mod watchdog;
