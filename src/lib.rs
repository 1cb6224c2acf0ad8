//! A host agent's verified core: machine identity selection and trimming,
//! address collection, the report payload and its outcome, short-link lookup
//! and the run-mode decisions of the reporting loop.

pub mod identity;
pub mod json;
pub mod addresses;
pub mod report;
pub mod link;
pub mod runner;
