use vstd::prelude::*;

verus! {

/// The failure conditions the kernel can report.
///
/// Every failure is a local, recoverable condition surfaced as an explicit
/// `Result` value; no kernel operation panics on malformed input.
#[derive(Clone, Copy, Debug, PartialEq, Eq, Structural)]
pub enum KernelError {
    /// A division whose divisor is zero was requested: normalizing a
    /// zero-length vector, a ray parallel to a plane, or a homogeneous
    /// point whose weight came out zero.
    DivisionByZero,
    /// A matrix element access outside the 4x4 range.
    IndexOutOfRange,
    /// A value that violates a constructor's documented range.
    InvalidConstruction,
}

} // verus!
