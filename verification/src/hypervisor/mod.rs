//! Virtual machines of reduced authority for agents, and their runtime.

pub mod authority_vm;
pub mod isolation;
pub mod runtime;
