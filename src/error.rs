//! The non-zero status code that the host receives on failure.
use vstd::prelude::*;

verus! {

/// Generic failure, carrying no address.
pub const ERROR_FAILED: u32 = 1;

/// The requested range lies outside the flash array.
pub const ERROR_OUT_OF_RANGE: u32 = 2;

/// The requested address is not aligned to the unit it names.
pub const ERROR_MISALIGNED: u32 = 3;

/// A non-zero numeric code reported to the host.
///
/// For verify, the code is an address: the end of the matching prefix.
#[derive(Clone, Copy, Debug, PartialEq, Eq, Structural)]
pub struct ErrorCode {
    code: u32,
}

impl ErrorCode {
    /// A code is never zero.
    #[verifier::type_invariant]
    spec fn nonzero(self) -> bool {
        self.code != 0
    }

    /// The numeric value of the code.
    pub closed spec fn value(self) -> u32 {
        self.code
    }

    /// Builds a code from a number; zero is not a code.
    pub fn new(code: u32) -> (r: Option<ErrorCode>)
        ensures
            r.is_some() <==> code != 0,
            r matches Some(e) ==> e.value() == code,
    {
        if code == 0 {
            None
        } else {
            Some(ErrorCode { code })
        }
    }

    /// The numeric value of the code.
    pub fn get(&self) -> (r: u32)
        ensures
            r == self.value(),
            r != 0,
    {
        proof {
            use_type_invariant(self);
        }
        self.code
    }

    /// Builds a code from a number known to be non-zero.
    pub fn from_nonzero(code: u32) -> (r: ErrorCode)
        requires
            code != 0,
        ensures
            r.value() == code,
    {
        ErrorCode { code }
    }
}

} // verus!
