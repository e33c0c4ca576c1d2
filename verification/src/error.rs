//! Errors of the networking evaluation harness.

use vstd::prelude::*;

verus! {

#[derive(Debug, Clone, Copy, PartialEq, Eq, Structural)]
pub enum EvalError {
    Setup,
    Connect,
    ChannelBinding,
    Control,
    Bulk,
    Timeout,
    InvalidCommand,
    InvalidArgument,
    InvalidValue,
}

/// The human-readable text of each evaluation error.
pub open spec fn eval_error_text(error: EvalError) -> Seq<char> {
    match error {
        EvalError::Setup => "failed to set up networking evaluation fixture"@,
        EvalError::Connect => "failed to establish protected transport connection"@,
        EvalError::ChannelBinding => "failed to derive protected transport channel binding"@,
        EvalError::Control => "control round trip failed"@,
        EvalError::Bulk => "bulk transfer failed"@,
        EvalError::Timeout => "networking evaluation timed out"@,
        EvalError::InvalidCommand => "unknown networking evaluation command"@,
        EvalError::InvalidArgument => "invalid networking evaluation argument"@,
        EvalError::InvalidValue => "invalid networking evaluation value"@,
    }
}

impl EvalError {
    /// The text that the error displays as.
    pub fn message(&self) -> (r: &'static str)
        ensures
            r@ == eval_error_text(*self),
    {
        match self {
            EvalError::Setup => "failed to set up networking evaluation fixture",
            EvalError::Connect => "failed to establish protected transport connection",
            EvalError::ChannelBinding => "failed to derive protected transport channel binding",
            EvalError::Control => "control round trip failed",
            EvalError::Bulk => "bulk transfer failed",
            EvalError::Timeout => "networking evaluation timed out",
            EvalError::InvalidCommand => "unknown networking evaluation command",
            EvalError::InvalidArgument => "invalid networking evaluation argument",
            EvalError::InvalidValue => "invalid networking evaluation value",
        }
    }
}

} // verus!
