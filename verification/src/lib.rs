//! A probe for the entry of the `clone` system call.
//!
//! When the kernel's tracing subsystem enters the probe, the probe asks the
//! host for one service, printing a fixed line to the trace buffer, and
//! reports the event as handled. The crate holds the decision and the data
//! that a loader reads; binding the symbols and reaching the host's helper
//! table are left to the code that embeds it.
//!
//! - [`cstr`]: what it means for bytes to be the C string of a text.
//! - [`metadata`]: the license and version declarations.
//! - [`helper`]: the helper slot, the diagnostic message and a request to the host.
//! - [`probe`]: the entry point.

pub mod cstr;
pub mod helper;
pub mod metadata;
pub mod probe;

pub use helper::{HelperCall, MESSAGE, MESSAGE_LEN, TRACE_PRINTK};
pub use metadata::{metadata, Metadata, LICENSE, VERSION};
pub use probe::{kprobe__sys_clone, on_trace_event, Outcome, HANDLED};
