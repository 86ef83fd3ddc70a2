//! The rotation interval as read from the configuration store, and why a requested one is refused.
use vstd::prelude::*;

verus! {

/// Fallback rotation interval, in seconds.
pub const DEFAULT_INTERVAL_SECS: u64 = 300;

/// Why a requested interval was refused.
#[derive(Debug, Clone, Copy, PartialEq, Eq, Structural)]
pub enum IntervalError {
    /// The interval must be at least one second.
    NonPositive,
}

/// The interval that a stored value stands for: the value itself when it is a
/// positive number of seconds, the fallback otherwise.
pub open spec fn stored_interval_spec(stored: Option<u64>) -> u64 {
    match stored {
        Some(n) => if n > 0 { n } else { DEFAULT_INTERVAL_SECS },
        None => DEFAULT_INTERVAL_SECS,
    }
}

/// The interval to start with, given the number that the configuration store
/// held (if it held one). A stored zero is treated as missing, since no
/// successful reconfiguration can have written it.
pub fn interval_from_stored(stored: Option<u64>) -> (r: u64)
    ensures
        r == stored_interval_spec(stored),
        r > 0,
{
    match stored {
        Some(n) => if n > 0 { n } else { DEFAULT_INTERVAL_SECS },
        None => DEFAULT_INTERVAL_SECS,
    }
}

/// A value held by the configuration store.
#[verifier::external_type_specification]
#[verifier::external_body]
pub struct ExValue(serde_json::Value);

/// What serde_json's `Value::as_u64` gives for a value: the number as a
/// `u64` where the value is one that fits, `None` otherwise.
pub uninterp spec fn json_as_u64(v: serde_json::Value) -> Option<u64>;

/// Relies on serde_json's `Value::as_u64`, which reads a stored number as a
/// `u64` where it is one; its result depends on the value alone.
pub assume_specification[ serde_json::Value::as_u64 ](v: &serde_json::Value) -> (r: Option<u64>)
    ensures
        r == json_as_u64(*v),
;

/// The interval to start with, given the value that the configuration store
/// held under the interval's key, if any: a positive whole number of seconds
/// is taken as it is; a missing value, or one of another type, gives the
/// fallback.
pub fn interval_from_value(stored: Option<&serde_json::Value>) -> (r: u64)
    ensures
        r > 0,
        stored is None ==> r == DEFAULT_INTERVAL_SECS,
        stored matches Some(v) ==> r == stored_interval_spec(json_as_u64(*v)),
{
    match stored {
        Some(v) => interval_from_stored(v.as_u64()),
        None => DEFAULT_INTERVAL_SECS,
    }
}

} // verus!
