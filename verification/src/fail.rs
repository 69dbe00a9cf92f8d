//! Errors.

use vstd::prelude::*;

verus! {

/// What went wrong, as an operating system would number it.
#[derive(Clone, Copy, Debug, PartialEq, Eq, Structural)]
pub enum Errno {
    /// A message came that the protocol does not allow at this point.
    BadMessage,
    /// An error number that the runtime or a socket reported.
    Os(i32),
}

/// The number that the platform gives to "bad message".
///
/// Reads `libc::EBADMSG`. The number differs between platforms, so nothing is
/// claimed of it.
#[verifier::external_body]
fn bad_message_number() -> i32 {
    libc::EBADMSG
}

/// An error with its cause in words.
#[derive(Debug)]
pub struct Fail {
    /// The kind of error.
    pub code: Errno,
    /// The cause.
    pub cause: String,
}

impl Fail {
    /// An error of kind `code` with cause `cause`.
    pub fn new(code: Errno, cause: &str) -> (fail: Self)
        ensures
            fail.code == code,
            fail.cause@ == cause@,
    {
        Fail { code, cause: cause.to_owned() }
    }

    /// The error number, as the platform counts.
    ///
    /// Of [`Errno::BadMessage`] the contract leaves the number open, because
    /// each platform has its own.
    pub fn errno(&self) -> (number: i32)
        ensures
            self.code matches Errno::Os(n) ==> number == n,
    {
        match self.code {
            Errno::BadMessage => bad_message_number(),
            Errno::Os(number) => number,
        }
    }
}

} // verus!
