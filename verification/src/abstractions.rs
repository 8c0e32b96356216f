//! Base abstractions that the group, ring and module layers refine.

pub mod object;
