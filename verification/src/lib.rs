//! Convergence-verification engine for a two-way asset bridge between two
//! independently advancing ledgers. The library holds the decision logic of
//! the harness — bounded poll-until-predicate waits, progress-counter
//! watching, adopted-asset metadata validation, the governance pause
//! protocol, and the two scenario scripts — as verified state machines and
//! combinators over plain values. A thin unverified driver performs the
//! chain I/O and feeds events back to these machines.

pub mod adoption;
pub mod amount;
pub mod coin;
pub mod fault;
pub mod governance;
pub mod happy_path;
pub mod pause_bridge;
pub mod poll;
pub mod token;
pub mod watcher;
