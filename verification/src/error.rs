use vstd::prelude::*;

use crate::text::{decimal, push_decimal};

verus! {

/// Errors produced by checked SIMD operations.
#[derive(Debug, Clone, Copy, PartialEq, Eq)]
pub enum SimdError {
    /// Two input slices have different lengths.
    InputLengthMismatch { left: usize, right: usize },
    /// An output slice does not match the input length.
    OutputLengthMismatch { expected: usize, actual: usize },
    /// A requested backend is not supported by the current CPU.
    UnsupportedBackend { backend: &'static str },
}

pub type Result<T> = core::result::Result<T, SimdError>;

impl SimdError {
    /// The human-readable description of the error.
    pub open spec fn text(self) -> Seq<char> {
        match self {
            SimdError::InputLengthMismatch { left, right } => "input lengths must match: left="@
                + decimal(left as nat) + ", right="@ + decimal(right as nat),
            SimdError::OutputLengthMismatch { expected, actual } =>
                "output length must match input length: expected="@ + decimal(expected as nat)
                + ", actual="@ + decimal(actual as nat),
            SimdError::UnsupportedBackend { backend } => "backend is not supported by this CPU: "@
                + backend@,
        }
    }

    /// Renders the error's description.
    pub fn message(&self) -> (text: String)
        ensures
            text@ == self.text(),
    {
        let mut out = String::new();
        match *self {
            SimdError::InputLengthMismatch { left, right } => {
                out.append("input lengths must match: left=");
                push_decimal(&mut out, left as u64);
                out.append(", right=");
                push_decimal(&mut out, right as u64);
            },
            SimdError::OutputLengthMismatch { expected, actual } => {
                out.append("output length must match input length: expected=");
                push_decimal(&mut out, expected as u64);
                out.append(", actual=");
                push_decimal(&mut out, actual as u64);
            },
            SimdError::UnsupportedBackend { backend } => {
                out.append("backend is not supported by this CPU: ");
                out.append(backend);
            },
        }
        out
    }
}

/// The outcome of checking two inputs (and optionally an output) of one length.
pub open spec fn binary_check(a_len: usize, b_len: usize, out_len: Option<usize>) -> Result<()> {
    if a_len != b_len {
        Err(SimdError::InputLengthMismatch { left: a_len, right: b_len })
    } else if out_len is Some && out_len->0 != a_len {
        Err(SimdError::OutputLengthMismatch { expected: a_len, actual: out_len->0 })
    } else {
        Ok(())
    }
}

/// The outcome of checking the three inputs and the output of a fused multiply-add.
pub open spec fn fma_check(a_len: usize, b_len: usize, c_len: usize, out_len: usize) -> Result<()> {
    match binary_check(a_len, b_len, Some(out_len)) {
        Err(error) => Err(error),
        Ok(()) => if c_len != a_len {
            Err(SimdError::InputLengthMismatch { left: a_len, right: c_len })
        } else {
            Ok(())
        },
    }
}

/// Checks the lengths of the two inputs and, when given, the output of an
/// element-wise operation.
pub fn validate_binary_inputs(a_len: usize, b_len: usize, out_len: Option<usize>) -> (result: Result<()>)
    ensures
        result == binary_check(a_len, b_len, out_len),
        result is Ok <==> (a_len == b_len && (out_len is Some ==> out_len->0 == a_len)),
{
    if a_len != b_len {
        return Err(SimdError::InputLengthMismatch { left: a_len, right: b_len });
    }
    if let Some(out_len) = out_len {
        if out_len != a_len {
            return Err(SimdError::OutputLengthMismatch { expected: a_len, actual: out_len });
        }
    }
    Ok(())
}

/// Checks the lengths of the inputs and the output of a fused multiply-add.
pub fn validate_fma_inputs(a_len: usize, b_len: usize, c_len: usize, out_len: usize) -> (result: Result<()>)
    ensures
        result == fma_check(a_len, b_len, c_len, out_len),
        result is Ok <==> (a_len == b_len && b_len == c_len && c_len == out_len),
{
    match validate_binary_inputs(a_len, b_len, Some(out_len)) {
        Err(error) => return Err(error),
        Ok(()) => {},
    }
    if c_len != a_len {
        return Err(SimdError::InputLengthMismatch { left: a_len, right: c_len });
    }
    Ok(())
}

} // verus!
