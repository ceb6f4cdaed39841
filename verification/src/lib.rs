//! A verified core of a small Python virtual machine: the object model,
//! argument binding for native functions, and the decisions of the
//! `socket` module.

pub mod args;
pub mod bigint;
pub mod display;
pub mod iter;
pub mod object;
pub mod socket;
pub mod strmap;
