//! Structured errors, and the codes and messages of each kind of failure.
use vstd::prelude::*;
use crate::text::{push_signed_decimal, signed_decimal_text};

verus! {

/// Code of a session call made before the SDK was initialized.
pub const NOT_INITIALIZED: i32 = -3;

/// Code of a session call made while no native instance is held.
pub const INSTANCE_UNAVAILABLE: i32 = -5;

/// A failure: a native result code, or a negative code reserved for failures
/// found before any native call, and a message for people.
#[derive(Debug, Clone, PartialEq, Eq)]
pub struct ZoomSDKError {
    pub code: i32,
    pub message: String,
}

impl View for ZoomSDKError {
    type V = (i32, Seq<char>);

    open spec fn view(&self) -> (i32, Seq<char>) {
        (self.code, self.message@)
    }
}

/// The abstract value of an operation's result.
pub open spec fn outcome(r: Result<(), ZoomSDKError>) -> Result<(), (i32, Seq<char>)> {
    match r {
        Ok(()) => Ok(()),
        Err(e) => Err(e@),
    }
}

pub open spec fn not_initialized_error() -> (i32, Seq<char>) {
    (NOT_INITIALIZED, "SDK not initialized"@)
}

pub open spec fn instance_unavailable_error() -> (i32, Seq<char>) {
    (INSTANCE_UNAVAILABLE, "SDK instance not available"@)
}

pub open spec fn initialization_failed_error(code: i32) -> (i32, Seq<char>) {
    (code, "SDK initialization failed with code: "@ + signed_decimal_text(code as int))
}

pub open spec fn join_failed_error(code: i32) -> (i32, Seq<char>) {
    (code, "Failed to join session with code: "@ + signed_decimal_text(code as int))
}

pub open spec fn leave_failed_error(code: i32) -> (i32, Seq<char>) {
    (code, "Failed to leave session with code: "@ + signed_decimal_text(code as int))
}

fn with_code(prefix: &str, code: i32) -> (e: ZoomSDKError)
    ensures
        e@ == (code, prefix@ + signed_decimal_text(code as int)),
{
    let mut message = String::from_str(prefix);
    push_signed_decimal(&mut message, code);
    ZoomSDKError { code, message }
}

impl ZoomSDKError {
    /// A session call was made before the SDK was initialized.
    pub fn not_initialized() -> (e: Self)
        ensures
            e@ == not_initialized_error(),
    {
        ZoomSDKError { code: NOT_INITIALIZED, message: String::from_str("SDK not initialized") }
    }

    /// A session call found no native instance to send to.
    pub fn instance_unavailable() -> (e: Self)
        ensures
            e@ == instance_unavailable_error(),
    {
        ZoomSDKError {
            code: INSTANCE_UNAVAILABLE,
            message: String::from_str("SDK instance not available"),
        }
    }

    /// Native initialization answered with a nonzero code.
    pub fn initialization_failed(code: i32) -> (e: Self)
        ensures
            e@ == initialization_failed_error(code),
    {
        with_code("SDK initialization failed with code: ", code)
    }

    /// The native join answered with a nonzero code.
    pub fn join_failed(code: i32) -> (e: Self)
        ensures
            e@ == join_failed_error(code),
    {
        with_code("Failed to join session with code: ", code)
    }

    /// The native leave answered with a nonzero code.
    pub fn leave_failed(code: i32) -> (e: Self)
        ensures
            e@ == leave_failed_error(code),
    {
        with_code("Failed to leave session with code: ", code)
    }
}

} // verus!
