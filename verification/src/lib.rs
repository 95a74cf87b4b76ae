//! Verified core of an online-judge execution engine.
//!
//! The library holds the judging logic: resource-limit validation and
//! application, verdict classification, construction of checker and
//! interactor argument vectors, the batch-judge decision phases, and the
//! multiplexed byte pump of the interactive driver.  Process creation
//! (fork/exec) cannot be expressed here and is left to the embedding
//! program, which drives these functions.

pub mod error;
pub mod limits;
pub mod verdict;
pub mod sys;
pub mod sandbox;
pub mod monitor;
pub mod interact;
