//! Host-OS query library: pure resolution logic for a small set of
//! host queries (shell path, username, remote endpoint, platform name,
//! OS type, CPU architecture). Reading the process environment and the
//! build target happens at the caller's edge; this crate holds the
//! verified selection and defaulting rules.

pub mod commands;
pub mod platform;
