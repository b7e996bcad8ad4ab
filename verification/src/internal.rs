//! Internal data structures: the buffering cursor itself.

pub mod buffer;
