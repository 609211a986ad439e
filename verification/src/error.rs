use vstd::prelude::*;

verus! {

/// HLC error type.
#[derive(Clone, Copy, Debug, PartialEq, Eq, Structural)]
pub enum HlcError {
    /// Timestamp is out of range.
    OutOfRangeTimestamp,
    /// Drift exceeded the maximum allowed: holds the observed drift and the
    /// configured bound, in milliseconds.
    DriftTooLarge(usize, usize),
    /// Physical time exceeds the maximum value: holds the offending value and
    /// the maximum.
    PhysicalTimeExceedsMax(i64, u64),
    /// Logical clock exceeds the maximum value: holds the offending value and
    /// the maximum.
    LogicalClockExceedsMax(u64, u64),
    /// Timestamp is below the minimum value: holds the offending value and the
    /// minimum.
    TimestampBelowMin(i64, i64),
    /// The compare-and-swap retry protocol observed a concurrent writer on
    /// an enormous, practically unreachable number of consecutive attempts
    /// and gave up without mutating the register.
    RetryLimitExceeded,
}

/// HLC result type.
pub type HlcResult<T> = Result<T, HlcError>;

} // verus!
