use crate::error::{HlcError, HlcResult};
use vstd::prelude::*;

verus! {

/// Pre-calculated custom epoch.
///
/// 2024-01-01 00:00:00 UTC in milliseconds since Unix epoch.
pub const EPOCH: i64 = 1_704_067_200_000;

/// Timestamps in milliseconds since a custom epoch (2024-01-01 00:00:00 UTC).
#[derive(Clone, Copy, Debug, PartialEq, Eq, Structural)]
pub struct CustomEpochTimestamp(u64);

impl CustomEpochTimestamp {
    /// The stored count of milliseconds since the custom epoch, as seen by
    /// specifications.
    pub closed spec fn spec_millis(self) -> u64 {
        self.0
    }

    /// Creates a new `CustomEpochTimestamp` from the given milliseconds since
    /// the custom epoch.
    pub fn from_millis(ms: u64) -> (r: Self)
        ensures
            r.spec_millis() == ms,
    {
        Self(ms)
    }

    /// Returns the stored timestamp in milliseconds since the custom epoch.
    pub fn millis(&self) -> (r: u64)
        ensures
            r == self.spec_millis(),
    {
        self.0
    }

    /// Creates a new `CustomEpochTimestamp` from the given Unix timestamp in
    /// milliseconds; instants before the custom epoch are rejected.
    pub fn from_unix_timestamp(unix_timestamp: i64) -> (r: HlcResult<Self>)
        ensures
            unix_timestamp < EPOCH ==> r == Err::<Self, HlcError>(
                HlcError::TimestampBelowMin(unix_timestamp, EPOCH),
            ),
            unix_timestamp >= EPOCH ==> (r matches Ok(t) && t.spec_millis()
                == unix_timestamp - EPOCH),
    {
        if unix_timestamp < EPOCH {
            return Err(HlcError::TimestampBelowMin(unix_timestamp, EPOCH));
        }
        Ok(Self::from_millis((unix_timestamp - EPOCH) as u64))
    }

    /// Returns the timestamp in milliseconds since the Unix epoch for a given
    /// number of milliseconds since the custom epoch.
    pub fn to_unix_timestamp(ms: u64) -> (r: i64)
        requires
            ms + EPOCH <= i64::MAX,
        ensures
            r == ms + EPOCH,
    {
        ms as i64 + EPOCH
    }
}

} // verus!
