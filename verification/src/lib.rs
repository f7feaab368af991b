//! Metering and diagnostics for guest programs run on the CKB virtual machine.
//!
//! [`cost_model`] prices every retired instruction and every byte moved
//! between guest and host. [`machine`] states what the verified code relies on
//! from the virtual machine itself. [`debugger`] services the debug-print
//! trap: it scans a zero-terminated buffer out of guest memory, charges for
//! it, and hands the decoded text back for the host to emit. [`meter`]
//! charges instruction costs against a machine's cycle budget.

pub mod cost_model;
pub mod debugger;
pub mod machine;
pub mod meter;
