//! The fatal error conditions a mock can report.
//!
//! None of them is recoverable inside the mock: configuration is infallible,
//! and every failure names the offending method, so that misuse of an
//! interface contract fails fast and legibly.

use vstd::prelude::*;
use vstd::string::StringExecFns;

use crate::text::decimal_digits;
use crate::text::u32_to_decimal;

verus! {

/// A fatal condition detected by a mock.
#[derive(Debug, PartialEq, Eq)]
pub enum MockError {
    /// A call was dispatched to a method with no configured stub.
    /// Raised at call time, independently of the expected call count.
    MissingStub { method: String },
    /// At teardown, a method's actual call count differed from its expected
    /// call count.
    ExpectationMismatch { method: String, called: u32, expecting: u32 },
    /// A record's lock was found poisoned: a prior holder terminated
    /// abnormally while holding it, which signals an unrecoverable earlier
    /// failure.
    PoisonedState { method: String },
}

/// The message reported for a call to `method` with no configured stub.
pub open spec fn missing_stub_message(method: Seq<char>) -> Seq<char> {
    "Missing returning function for `"@ + method + "`"@
}

/// The message reported at teardown when `method` was called `called` times
/// while `expecting` calls were configured.
pub open spec fn mismatch_message(method: Seq<char>, called: u32, expecting: u32) -> Seq<char> {
    "Failed expectation for `"@ + method + "`. Called "@ + decimal_digits(called as nat)
        + " times but expecting "@ + decimal_digits(expecting as nat) + "."@
}

/// The message reported when `method`'s record lock was found poisoned.
pub open spec fn poisoned_message(method: Seq<char>) -> Seq<char> {
    "Poisoned inner mocking state for `"@ + method + "`."@
}

impl MockError {
    /// The full message this error reports.
    pub open spec fn spec_message(&self) -> Seq<char> {
        match self {
            MockError::MissingStub { method } => missing_stub_message(method@),
            MockError::ExpectationMismatch { method, called, expecting } => mismatch_message(
                method@,
                *called,
                *expecting,
            ),
            MockError::PoisonedState { method } => poisoned_message(method@),
        }
    }

    /// Renders the error's message.
    pub fn message(&self) -> (r: String)
        ensures
            r@ == self.spec_message(),
    {
        match self {
            MockError::MissingStub { method } => {
                let r = String::from_str("Missing returning function for `").concat(
                    method.as_str(),
                ).concat("`");
                proof {
                    assert(r@ =~= self.spec_message());
                }
                r
            },
            MockError::ExpectationMismatch { method, called, expecting } => {
                let r = String::from_str("Failed expectation for `").concat(method.as_str()).concat(
                    "`. Called ",
                ).concat(u32_to_decimal(*called).as_str()).concat(" times but expecting ").concat(
                    u32_to_decimal(*expecting).as_str(),
                ).concat(".");
                proof {
                    assert(r@ =~= self.spec_message());
                }
                r
            },
            MockError::PoisonedState { method } => {
                let r = String::from_str("Poisoned inner mocking state for `").concat(
                    method.as_str(),
                ).concat("`.");
                proof {
                    assert(r@ =~= self.spec_message());
                }
                r
            },
        }
    }
}

} // verus!
