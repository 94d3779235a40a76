//! Verified core of a COM-style window-attachment interop layer.
//!
//! The library models the discipline that binding to a reference-counted,
//! vtable-dispatched foreign runtime demands: interface identity (128-bit
//! identifiers and slot layouts), reference-counted handle ownership,
//! status-code translation, activation of new object instances, and the
//! protocol that parents a hosted UI surface under a native window.
//!
//! The raw foreign calls themselves live outside the library; everything
//! here is plain data and verified logic that a driver feeds with the
//! values those calls produce.

pub mod descriptor;
pub mod iid;
pub mod runtime;
pub mod session;
pub mod status;
pub mod xaml_source;
