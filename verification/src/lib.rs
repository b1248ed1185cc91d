//! Stack allocation and raw stack construction for the Aero kernel, together
//! with the userland syscall wrappers.
//!
//! The kernel's external collaborators (the physical frame source, the
//! address-space mapper and the heap source) are passed in as explicit,
//! fully modelled capabilities, so every allocation path is verified against
//! a precise account of what those collaborators do.

pub mod abi;
pub mod consts;
pub mod errno;
pub mod paging;
pub mod stack;
pub mod syscall;
