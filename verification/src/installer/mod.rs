//! Sandboxed installation of packages and supervision of what was installed.

pub mod isolation;
pub mod runtime;
pub mod sandbox_installer;
pub mod seccomp;
