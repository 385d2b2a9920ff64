//! Linux back end.

pub mod policy;
