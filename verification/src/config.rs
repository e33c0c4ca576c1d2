//! Limits of a networking evaluation run.

use std::time::Duration;

use vstd::prelude::*;

use crate::error::EvalError;
use crate::time::{duration_from_secs, seconds};

verus! {

/// The bulk payload of the quick test configuration.
pub const TEST_BULK_BYTES: usize = 65536;

/// The bulk payload of the default configuration.
pub const DEFAULT_BULK_BYTES: usize = 4194304;

/// The number of samples of the default configuration.
pub const DEFAULT_SAMPLES: usize = 5;

/// The per-run timeout of the default configuration and of configurations with given limits.
pub const DEFAULT_TIMEOUT_SECS: u64 = 15;

/// The per-run timeout of the quick test configuration.
pub const TEST_TIMEOUT_SECS: u64 = 5;

/// How many samples a run takes, how large its bulk payload is and how long it may take.
#[derive(Debug, Clone, Copy, PartialEq, Eq, Structural)]
pub struct EvalConfig {
    samples: usize,
    bulk_payload_bytes: usize,
    timeout_secs: u64,
}

impl View for EvalConfig {
    /// Samples, bulk payload bytes and timeout in seconds.
    type V = (usize, usize, u64);

    closed spec fn view(&self) -> (usize, usize, u64) {
        (self.samples, self.bulk_payload_bytes, self.timeout_secs)
    }
}

/// The configuration that given limits make: both must be nonzero, and the timeout is the
/// default one.
pub open spec fn limits_config(samples: usize, bulk_payload_bytes: usize) -> Result<
    (usize, usize, u64),
    EvalError,
> {
    if samples == 0 || bulk_payload_bytes == 0 {
        Err(EvalError::InvalidValue)
    } else {
        Ok((samples, bulk_payload_bytes, DEFAULT_TIMEOUT_SECS))
    }
}

impl EvalConfig {
    #[verifier::type_invariant]
    spec fn nonzero_limits(self) -> bool {
        self.samples > 0 && self.bulk_payload_bytes > 0
    }

    /// The quick configuration used by tests: one sample of 64 KiB within five seconds.
    pub fn test() -> (r: Self)
        ensures
            r@ == (1usize, TEST_BULK_BYTES, TEST_TIMEOUT_SECS),
    {
        EvalConfig {
            samples: 1,
            bulk_payload_bytes: TEST_BULK_BYTES,
            timeout_secs: TEST_TIMEOUT_SECS,
        }
    }

    /// A configuration with the given number of samples and bulk payload size.
    pub fn with_limits(samples: usize, bulk_payload_bytes: usize) -> (r: Result<Self, EvalError>)
        ensures
            match r {
                Ok(c) => limits_config(samples, bulk_payload_bytes) == Ok::<_, EvalError>(c@),
                Err(e) => limits_config(samples, bulk_payload_bytes) == Err::<
                    (usize, usize, u64),
                    _,
                >(e),
            },
    {
        if samples == 0 || bulk_payload_bytes == 0 {
            return Err(EvalError::InvalidValue);
        }
        Ok(EvalConfig { samples, bulk_payload_bytes, timeout_secs: DEFAULT_TIMEOUT_SECS })
    }

    pub fn samples(self) -> (r: usize)
        ensures
            r == self@.0,
            r > 0,
    {
        proof {
            use_type_invariant(&self);
        }
        self.samples
    }

    pub fn bulk_payload_bytes(self) -> (r: usize)
        ensures
            r == self@.1,
            r > 0,
    {
        proof {
            use_type_invariant(&self);
        }
        self.bulk_payload_bytes
    }

    pub fn timeout(self) -> (r: Duration)
        ensures
            r == duration_from_secs(self@.2),
    {
        seconds(self.timeout_secs)
    }
}

impl Default for EvalConfig {
    /// Five samples of 4 MiB within fifteen seconds.
    fn default() -> (r: Self)
        ensures
            r@ == (DEFAULT_SAMPLES, DEFAULT_BULK_BYTES, DEFAULT_TIMEOUT_SECS),
    {
        EvalConfig {
            samples: DEFAULT_SAMPLES,
            bulk_payload_bytes: DEFAULT_BULK_BYTES,
            timeout_secs: DEFAULT_TIMEOUT_SECS,
        }
    }
}

} // verus!
