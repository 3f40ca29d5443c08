//! Vanity mint-address search: the suffix predicate, the worker's search
//! loop, the batch bookkeeping that fills one or two quotas of matches, and
//! the decisions and text of the output files.

pub mod target;
pub mod keys;
pub mod search;
pub mod batch;
pub mod persist;
