//! The reasons for which an entry point of the engine can refuse to act.
//!
//! Every failure is synchronous and fully reverting: a call that returns one
//! of these errors leaves the engine's state exactly as it found it.

use vstd::prelude::*;

verus! {

/// Why an entry point refused a call.
///
/// The first five variants are validation errors on the inputs of
/// `open_order`; `OutOfBounds` is returned by every positional access whose
/// index does not name a live order; `SwapFailed` is the fatal outcome of a
/// settlement callback whose venue call reported failure.
#[derive(Clone, Copy, Debug, PartialEq, Eq, Structural)]
pub enum OrderError {
    /// The desired output asset is not a valid fungible-asset identifier.
    InvalidTokenOut,
    /// The minimum acceptable output is zero.
    ZeroLimit,
    /// The deposited asset is not a valid fungible-asset identifier.
    InvalidTokenIn,
    /// The deposited amount is zero.
    ZeroAmountIn,
    /// The desired output asset equals the deposited asset.
    SameToken,
    /// The index does not name a live order.
    OutOfBounds,
    /// The swap venue reported failure for a dispatched execution.
    SwapFailed,
}

impl OrderError {
    /// A descriptive reason, suitable for the host to report to the caller.
    pub fn message(&self) -> (r: &'static str)
        ensures
            r@ == self.message_spec(),
    {
        match self {
            OrderError::InvalidTokenOut => "Invalid token out provided",
            OrderError::ZeroLimit => "Limit must be greater than 0",
            OrderError::InvalidTokenIn => "Invalid token in provided",
            OrderError::ZeroAmountIn => "Amount in must be greater than 0",
            OrderError::SameToken => "Token out must differ from token in",
            OrderError::OutOfBounds => "No order at the given index",
            OrderError::SwapFailed => "Error while executing the swap",
        }
    }

    /// What [`OrderError::message`] returns for each variant.
    pub open spec fn message_spec(&self) -> Seq<char> {
        match self {
            OrderError::InvalidTokenOut => "Invalid token out provided"@,
            OrderError::ZeroLimit => "Limit must be greater than 0"@,
            OrderError::InvalidTokenIn => "Invalid token in provided"@,
            OrderError::ZeroAmountIn => "Amount in must be greater than 0"@,
            OrderError::SameToken => "Token out must differ from token in"@,
            OrderError::OutOfBounds => "No order at the given index"@,
            OrderError::SwapFailed => "Error while executing the swap"@,
        }
    }
}

} // verus!
