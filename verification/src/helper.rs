//! The host's helper table, as far as the probe uses it.
//!
//! The host offers its services under fixed numbers. The probe uses one of
//! them, the trace print, and always with the same message.

use crate::cstr::{c_string, lemma_c_string_terminated, nul_terminated};
use vstd::prelude::*;

verus! {

/// Number of the trace-print helper in the host's table of services.
pub const TRACE_PRINTK: u64 = 6;

/// The diagnostic message: `hello from rust`, a line feed and the closing
/// zero byte.
pub const MESSAGE: [u8; 17] = [
    104, 101, 108, 108, 111, 32, 102, 114, 111, 109, 32, 114, 117, 115, 116, 10, 0,
];

/// The length that the probe declares for [`MESSAGE`], its zero byte counted.
pub const MESSAGE_LEN: i32 = 17;

/// A request to the host: run the helper found in `slot` on the buffer
/// `message`, declared as `len` bytes long.
#[derive(Clone, Copy, Debug, PartialEq, Eq)]
pub struct HelperCall {
    pub slot: u64,
    pub message: [u8; 17],
    pub len: i32,
}

impl HelperCall {
    /// The declared length is the buffer's own, so that the host reads the
    /// whole message and nothing behind it, and the buffer is closed by its
    /// last byte.
    pub open spec fn well_formed(&self) -> bool {
        &&& self.len == self.message@.len()
        &&& nul_terminated(self.message@)
    }
}

/// The one request that the probe makes: print [`MESSAGE`] to the trace.
pub open spec fn trace_print_call() -> HelperCall {
    HelperCall { slot: TRACE_PRINTK, message: MESSAGE, len: MESSAGE_LEN }
}

/// The message is the C string of the line `hello from rust`: 17 bytes, of
/// which only the last is zero, and the declared length counts them all.
pub proof fn lemma_message_text()
    ensures
        MESSAGE@ == c_string("hello from rust\n"@),
        MESSAGE@.len() == 17,
        MESSAGE@[16] == 0,
        nul_terminated(MESSAGE@),
        MESSAGE_LEN == MESSAGE@.len(),
{
    reveal_strlit("hello from rust\n");
    assert(MESSAGE@ =~= c_string("hello from rust\n"@));
    lemma_c_string_terminated("hello from rust\n"@);
}

/// The probe's request is well formed, names slot 6 and declares 17 bytes.
pub proof fn lemma_trace_print_call()
    ensures
        trace_print_call().well_formed(),
        trace_print_call().slot == 6,
        trace_print_call().len == 17,
        trace_print_call().message@ == c_string("hello from rust\n"@),
{
    lemma_message_text();
}

} // verus!
