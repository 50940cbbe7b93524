//! A fixed-capacity array: storage for `N` elements is laid out once, elements
//! are appended at the tail, and running out of room is reported rather than
//! answered by growing.
//!
//! [`array`] holds the array and its operations, each with its contract.
//! [`model`] holds the mathematical value that the contracts speak of, and
//! [`laws`] what is proved of that value for calls in a row.

pub mod array;
pub mod laws;
pub mod model;
