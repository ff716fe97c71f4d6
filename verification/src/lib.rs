//! A threshold-gated, budget-constrained collective-decision core.
//!
//! The crate models a family of ledger-execution modules as pure state
//! transitions: every operation takes the current state and a call,
//! validates it, and either returns the new state together with a
//! success acknowledgment or fails with a typed error and leaves the
//! state untouched. A host supplies persistence and caller
//! authentication around these functions.
//!
//! The load-bearing pieces:
//! - [`voting`]: a budget-capped, single-choice voting ledger over a
//!   fixed set of named scenarios;
//! - [`latch`]: named latches that open permanently once enough
//!   authorized participants have voted, the role store gating
//!   reconfiguration, and the actor-synchronization side channel;
//! - [`contract`]: the two above behind one state value and one closed
//!   union of calls;
//! - [`storage`]: a keyed data store with an ownership rule and a
//!   placeholder masking transform;
//! - [`graph`]: a node store with sequential id allocation and links.

pub mod contract;
pub mod error;
pub mod graph;
pub mod latch;
pub mod reasoning;
pub mod species;
pub mod storage;
pub mod taxonomy;
pub mod voting;
