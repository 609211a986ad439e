use crate::epoch::EPOCH;
use vstd::prelude::*;

verus! {

/// Provides the current timestamp in milliseconds since the Unix epoch.
pub trait TimestampSource {
    /// Returns the current timestamp in milliseconds since the Unix epoch.
    ///
    /// The reading is whatever the source observes at this moment; nothing is
    /// promised of the value, and callers tolerate non-monotonic sources.
    fn current_timestamp(&self) -> i64;
}

/// Implementation of the `TimestampSource` trait using UTC wall-clock time.
#[derive(Default)]
pub struct UtcTimestamp;

/// Relies on chrono's `Utc::now().timestamp_millis()`: the wall clock now, in
/// milliseconds since the Unix epoch. The value depends on the machine's
/// clock, so nothing is promised of it.
#[verifier::external_body]
fn utc_now_millis() -> i64 {
    chrono::Utc::now().timestamp_millis()
}

impl TimestampSource for UtcTimestamp {
    fn current_timestamp(&self) -> i64 {
        utc_now_millis()
    }
}

#[verifier::external_type_specification]
#[verifier::external_body]
pub struct ExRawRwLock(parking_lot::RawRwLock);

#[verifier::external_type_specification]
#[verifier::external_body]
#[verifier::reject_recursive_types(R)]
#[verifier::reject_recursive_types(T)]
pub struct ExRwLock<R, T: ?Sized>(lock_api::RwLock<R, T>);

/// Relies on `lock_api::RwLock::new` (re-exported by parking_lot): creates a
/// fresh lock holding the given value.
#[verifier::external_body]
fn rwlock_new_i64(value: i64) -> parking_lot::RwLock<i64> {
    parking_lot::RwLock::new(value)
}

/// Relies on `lock_api::RwLock::read` (re-exported by parking_lot): returns
/// the value the lock holds at this moment. A concurrent writer may replace
/// it at any time, so nothing is promised of the value.
#[verifier::external_body]
fn rwlock_read_i64(lock: &parking_lot::RwLock<i64>) -> i64 {
    *lock.read()
}

/// Relies on `lock_api::RwLock::write` (re-exported by parking_lot): stores
/// the given value in the lock.
#[verifier::external_body]
fn rwlock_write_i64(lock: &parking_lot::RwLock<i64>, value: i64) {
    *lock.write() = value;
}

/// Implementation of the `TimestampSource` trait using a manual timestamp.
///
/// Useful for testing purposes.
pub struct ManualTimestamp {
    /// The current timestamp in milliseconds since the Unix epoch.
    timestamp: parking_lot::RwLock<i64>,
}

impl Default for ManualTimestamp {
    fn default() -> Self {
        Self::new(EPOCH)
    }
}

impl TimestampSource for ManualTimestamp {
    fn current_timestamp(&self) -> i64 {
        rwlock_read_i64(&self.timestamp)
    }
}

impl ManualTimestamp {
    /// Creates a new `ManualTimestamp` with the specified timestamp.
    pub fn new(timestamp: i64) -> Self {
        Self { timestamp: rwlock_new_i64(timestamp) }
    }

    /// Sets the current timestamp.
    pub fn set_current_timestamp(&self, timestamp: i64) {
        rwlock_write_i64(&self.timestamp, timestamp);
    }
}

} // verus!
