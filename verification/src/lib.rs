//! Verified logic for driving a step-based database engine from outside:
//! what a caller does after each step or flush outcome, how parameters are
//! bound and kept over a reset, how row identifiers and payloads that were
//! read back are checked, and how the payloads and statements of a run are
//! built.

pub mod outcome;
pub mod drive;
pub mod history;
pub mod bind;
pub mod value;
pub mod expect;
pub mod payload;
pub mod text;
pub mod sql;
