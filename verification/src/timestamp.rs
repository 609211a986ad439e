use crate::epoch::{CustomEpochTimestamp, EPOCH};
use crate::error::{HlcError, HlcResult};
use std::sync::atomic::AtomicU64;
use vstd::arithmetic::div_mod::{lemma_fundamental_div_mod, lemma_mod_mod};
use vstd::prelude::*;

verus! {

/// Number of bits to represent physical time in milliseconds since the custom
/// epoch.
pub const PT_BITS: u64 = 42;

/// Maximum value for physical time: 2^42 - 1.
pub const PT_MAX: u64 = 0x3FF_FFFF_FFFF;

/// Number of bits to represent the logical clock counter.
pub const LC_BITS: u64 = 22;

/// Maximum value for the logical clock: 2^22 - 1.
pub const LC_MAX: u64 = 0x3F_FFFF;

/// One more than `LC_MAX`: the weight of one physical-time millisecond in the
/// packed 64-bit word.
pub const LC_RANGE: u64 = 0x40_0000;

/// One more than `PT_MAX`: the modulus of the physical-time field.
pub const PT_RANGE: u64 = 0x400_0000_0000;

/// Hybrid logical clock (HLC) timestamp.
///
/// This is a wrapper around the raw `u64` word of an HLC timestamp.
///
/// The timestamp is represented as a 64-bit unsigned integer. The upper 42
/// bits hold the physical time in milliseconds since a custom epoch, and the
/// lower 22 bits hold the logical clock count. Comparing two raw words
/// therefore orders timestamps by physical time first and logical count
/// second.
#[derive(Debug, Clone, Copy, PartialEq, Eq, PartialOrd, Ord, Hash, Structural)]
pub struct HlcTimestamp(u64);

impl Default for HlcTimestamp {
    /// The zero timestamp: the custom epoch with a zero logical counter.
    fn default() -> (r: Self)
        ensures
            r.spec_raw() == 0,
    {
        HlcTimestamp(0)
    }
}

impl HlcTimestamp {
    /// The raw 64-bit word, as seen by specifications.
    pub closed spec fn spec_raw(self) -> u64 {
        self.0
    }

    /// The physical-time field: milliseconds since the custom epoch.
    pub open spec fn spec_offset(self) -> u64 {
        self.spec_raw() / LC_RANGE
    }

    /// The logical clock count field.
    pub open spec fn spec_count(self) -> u64 {
        self.spec_raw() % LC_RANGE
    }

    /// The physical time as milliseconds since the Unix epoch.
    pub open spec fn spec_timestamp(self) -> int {
        self.spec_offset() + EPOCH
    }

    /// Creates a new HLC timestamp from incoming physical time.
    pub fn new(unix_timestamp: i64) -> (r: HlcResult<Self>)
        ensures
            unix_timestamp > EPOCH + PT_MAX ==> r == Err::<Self, HlcError>(
                HlcError::PhysicalTimeExceedsMax(unix_timestamp, PT_MAX),
            ),
            unix_timestamp <= EPOCH + PT_MAX && unix_timestamp < EPOCH ==> r == Err::<
                Self,
                HlcError,
            >(HlcError::TimestampBelowMin(unix_timestamp, EPOCH)),
            EPOCH <= unix_timestamp <= EPOCH + PT_MAX ==> (r matches Ok(t) && t.spec_offset()
                == unix_timestamp - EPOCH && t.spec_count() == 0),
    {
        Self::from_parts(unix_timestamp, 0)
    }

    /// Creates a new HLC timestamp from the given physical time and logical
    /// clock count. The physical time is accepted exactly when its offset
    /// from the custom epoch fits the 42-bit field.
    pub fn from_parts(pt: i64, lc: u64) -> (r: HlcResult<Self>)
        ensures
            pt > EPOCH + PT_MAX ==> r == Err::<Self, HlcError>(
                HlcError::PhysicalTimeExceedsMax(pt, PT_MAX),
            ),
            pt <= EPOCH + PT_MAX && lc > LC_MAX ==> r == Err::<Self, HlcError>(
                HlcError::LogicalClockExceedsMax(lc, LC_MAX),
            ),
            pt <= EPOCH + PT_MAX && lc <= LC_MAX && pt < EPOCH ==> r == Err::<Self, HlcError>(
                HlcError::TimestampBelowMin(pt, EPOCH),
            ),
            EPOCH <= pt <= EPOCH + PT_MAX && lc <= LC_MAX ==> (r matches Ok(t) && t.spec_offset()
                == pt - EPOCH && t.spec_count() == lc),
    {
        if pt > EPOCH + PT_MAX as i64 {
            return Err(HlcError::PhysicalTimeExceedsMax(pt, PT_MAX));
        }
        if lc > LC_MAX {
            return Err(HlcError::LogicalClockExceedsMax(lc, LC_MAX));
        }
        // Convert the physical time to milliseconds since the custom epoch.
        let ts = match CustomEpochTimestamp::from_unix_timestamp(pt) {
            Ok(ts) => ts,
            Err(e) => {
                return Err(e);
            },
        };
        let millis = ts.millis();
        let combined = (millis << LC_BITS) | lc;
        proof {
            lemma_pack_fields(millis, lc);
        }
        Ok(Self(combined))
    }

    /// Re-validates a raw 64-bit word as an HLC timestamp, for untrusted
    /// input. Both fields of any 64-bit word fit their bit widths, so every
    /// word reconstructs a timestamp.
    pub fn from_raw(value: u64) -> (r: HlcResult<Self>)
        ensures
            r matches Ok(t) && t.spec_raw() == value,
    {
        let pt = (value >> LC_BITS) & PT_MAX;
        let lc = value & LC_MAX;
        proof {
            lemma_unpack_fields(value);
        }
        let r = Self::from_parts(CustomEpochTimestamp::to_unix_timestamp(pt), lc);
        proof {
            let t = r->Ok_0;
            lemma_raw_is_packed_fields(t);
            lemma_fundamental_div_mod(value as int, LC_RANGE as int);
        }
        r
    }

    /// Unix timestamp in milliseconds.
    pub fn timestamp(&self) -> (r: i64)
        ensures
            r == self.spec_timestamp(),
    {
        proof {
            lemma_unpack_fields(self.0);
        }
        CustomEpochTimestamp::to_unix_timestamp((self.0 >> LC_BITS) & PT_MAX)
    }

    /// Logical clock count.
    pub fn count(&self) -> (r: u64)
        ensures
            r == self.spec_count(),
    {
        proof {
            lemma_unpack_fields(self.0);
        }
        self.0 & LC_MAX
    }

    /// Returns the physical time and logical clock count as a tuple.
    pub fn parts(&self) -> (r: (i64, u64))
        ensures
            r.0 == self.spec_timestamp(),
            r.1 == self.spec_count(),
    {
        (self.timestamp(), self.count())
    }

    /// Returns the raw `u64` value of the HLC timestamp.
    pub fn as_u64(&self) -> (r: u64)
        ensures
            r == self.spec_raw(),
    {
        self.0
    }

    /// Returns *raw* physical time and logical clock count parts.
    fn split(&self) -> (r: (u64, u64))
        ensures
            r.0 == self.spec_offset(),
            r.1 == self.spec_count(),
    {
        proof {
            lemma_unpack_fields(self.0);
        }
        let pt = (self.0 >> LC_BITS) & PT_MAX;
        let lc = self.0 & LC_MAX;
        (pt, lc)
    }
}

/// Packing the two fields into one word and reading them back are inverse:
/// shifting a 42-bit offset left and OR-ing a 22-bit count equals
/// `offset * LC_RANGE + count`, whose division and remainder by `LC_RANGE`
/// recover the fields.
pub proof fn lemma_pack_fields(offset: u64, count: u64)
    requires
        offset <= PT_MAX,
        count <= LC_MAX,
    ensures
        ((offset << LC_BITS) | count) == offset * LC_RANGE + count,
        ((offset << LC_BITS) | count) / LC_RANGE == offset,
        ((offset << LC_BITS) | count) % LC_RANGE == count,
{
    assert(((offset << 22u64) | count) == offset * 0x40_0000 + count && ((offset << 22u64)
        | count) / 0x40_0000 == offset && ((offset << 22u64) | count) % 0x40_0000 == count)
        by (bit_vector)
        requires
            offset <= 0x3FF_FFFF_FFFFu64,
            count <= 0x3F_FFFFu64,
    ;
}

/// Reading the fields of a raw word with shift and mask equals division and
/// remainder by `LC_RANGE`, and the offset so read never exceeds `PT_MAX`.
pub proof fn lemma_unpack_fields(raw: u64)
    ensures
        ((raw >> LC_BITS) & PT_MAX) == raw / LC_RANGE,
        (raw & LC_MAX) == raw % LC_RANGE,
        raw / LC_RANGE <= PT_MAX,
        raw % LC_RANGE <= LC_MAX,
{
    assert(((raw >> 22u64) & 0x3FF_FFFF_FFFFu64) == raw / 0x40_0000 && (raw & 0x3F_FFFFu64) == raw
        % 0x40_0000 && raw / 0x40_0000 <= 0x3FF_FFFF_FFFFu64 && raw % 0x40_0000
        <= 0x3F_FFFFu64) by (bit_vector);
}

/// A timestamp's raw word is exactly its offset field weighted by `LC_RANGE`
/// plus its count field.
pub proof fn lemma_raw_is_packed_fields(t: HlcTimestamp)
    ensures
        t.spec_raw() == t.spec_offset() * LC_RANGE + t.spec_count(),
{
    lemma_fundamental_div_mod(t.spec_raw() as int, LC_RANGE as int);
}

/// Packing a wrapped 64-bit physical value keeps only its low 42 bits in
/// the physical field and leaves the count field untouched.
proof fn lemma_pack_wrapped(w: u64, count: u64)
    requires
        count <= LC_MAX,
    ensures
        ((w << LC_BITS) | count) / LC_RANGE == w % PT_RANGE,
        ((w << LC_BITS) | count) % LC_RANGE == count,
{
    assert(((w << 22u64) | count) / 0x40_0000 == w % 0x400_0000_0000 && ((w << 22u64) | count)
        % 0x40_0000 == count) by (bit_vector)
        requires
            count <= 0x3F_FFFFu64,
    ;
}

/// A 64-bit wrapped sum or difference of physical offsets, reduced modulo
/// the 42-bit field width, equals the mathematical sum or difference so
/// reduced.
proof fn lemma_wrap_reduces(s: int, w: u64)
    requires
        w == s % 0x1_0000_0000_0000_0000,
    ensures
        w % PT_RANGE == s % (PT_RANGE as int),
{
    lemma_mod_mod(s, PT_RANGE as int, LC_RANGE as int);
}

impl core::ops::Add<u64> for HlcTimestamp {
    type Output = HlcTimestamp;

    /// Adds `ts` milliseconds to the physical field, modulo the 42-bit field
    /// width (wrapping silently, by design); the logical field is untouched.
    fn add(self, ts: u64) -> (r: HlcTimestamp)
        ensures
            r.spec_offset() == (self.spec_offset() + ts) % (PT_RANGE as int),
            r.spec_count() == self.spec_count(),
    {
        let (pt, lc) = self.split();
        let w = pt.wrapping_add(ts);
        proof {
            lemma_pack_wrapped(w, lc);
            lemma_wrap_reduces(pt + ts, w);
        }
        HlcTimestamp((w << LC_BITS) | lc)
    }
}

impl vstd::std_specs::ops::AddSpecImpl<u64> for HlcTimestamp {
    open spec fn obeys_add_spec() -> bool {
        false
    }

    open spec fn add_req(self, ts: u64) -> bool {
        true
    }

    open spec fn add_spec(self, ts: u64) -> HlcTimestamp {
        vstd::pervasive::arbitrary()
    }
}

impl core::ops::Sub<u64> for HlcTimestamp {
    type Output = HlcTimestamp;

    /// Subtracts `ts` milliseconds from the physical field, modulo the
    /// 42-bit field width (wrapping silently, by design); the logical field
    /// is untouched.
    fn sub(self, ts: u64) -> (r: HlcTimestamp)
        ensures
            r.spec_offset() == (self.spec_offset() - ts) % (PT_RANGE as int),
            r.spec_count() == self.spec_count(),
    {
        let (pt, lc) = self.split();
        let w = pt.wrapping_sub(ts);
        proof {
            lemma_pack_wrapped(w, lc);
            lemma_wrap_reduces(pt - ts, w);
        }
        HlcTimestamp((w << LC_BITS) | lc)
    }
}

impl vstd::std_specs::ops::SubSpecImpl<u64> for HlcTimestamp {
    open spec fn obeys_sub_spec() -> bool {
        false
    }

    open spec fn sub_req(self, ts: u64) -> bool {
        true
    }

    open spec fn sub_spec(self, ts: u64) -> HlcTimestamp {
        vstd::pervasive::arbitrary()
    }
}

impl core::ops::Sub<HlcTimestamp> for HlcTimestamp {
    type Output = i64;

    /// The signed millisecond delta of the physical components only; the
    /// logical counters are ignored. Intended for staleness measurement, not
    /// causal comparison.
    fn sub(self, rhs: HlcTimestamp) -> (r: i64)
        ensures
            r == self.spec_offset() - rhs.spec_offset(),
    {
        proof {
            lemma_unpack_fields(self.0);
            lemma_unpack_fields(rhs.0);
        }
        let pt1 = ((self.0 >> LC_BITS) & PT_MAX) as i64;
        let pt2 = ((rhs.0 >> LC_BITS) & PT_MAX) as i64;
        pt1 - pt2
    }
}

impl vstd::std_specs::ops::SubSpecImpl<HlcTimestamp> for HlcTimestamp {
    open spec fn obeys_sub_spec() -> bool {
        false
    }

    open spec fn sub_req(self, rhs: HlcTimestamp) -> bool {
        true
    }

    open spec fn sub_spec(self, rhs: HlcTimestamp) -> i64 {
        vstd::pervasive::arbitrary()
    }
}

impl<'a, 'b> core::ops::Sub<&'b HlcTimestamp> for &'a HlcTimestamp {
    type Output = i64;

    /// The signed millisecond delta of the physical components only, taken
    /// through references.
    fn sub(self, rhs: &'b HlcTimestamp) -> (r: i64)
        ensures
            r == self.spec_offset() - rhs.spec_offset(),
    {
        *self - *rhs
    }
}

impl<'a, 'b> vstd::std_specs::ops::SubSpecImpl<&'b HlcTimestamp> for &'a HlcTimestamp {
    open spec fn obeys_sub_spec() -> bool {
        false
    }

    open spec fn sub_req(self, rhs: &'b HlcTimestamp) -> bool {
        true
    }

    open spec fn sub_spec(self, rhs: &'b HlcTimestamp) -> i64 {
        vstd::pervasive::arbitrary()
    }
}

impl<'a> core::ops::Sub<&'a HlcTimestamp> for HlcTimestamp {
    type Output = i64;

    /// The signed millisecond delta of the physical components only, with
    /// the subtrahend taken through a reference.
    fn sub(self, rhs: &'a HlcTimestamp) -> (r: i64)
        ensures
            r == self.spec_offset() - rhs.spec_offset(),
    {
        self - *rhs
    }
}

impl<'a> vstd::std_specs::ops::SubSpecImpl<&'a HlcTimestamp> for HlcTimestamp {
    open spec fn obeys_sub_spec() -> bool {
        false
    }

    open spec fn sub_req(self, rhs: &'a HlcTimestamp) -> bool {
        true
    }

    open spec fn sub_spec(self, rhs: &'a HlcTimestamp) -> i64 {
        vstd::pervasive::arbitrary()
    }
}

impl<'a> core::ops::Sub<HlcTimestamp> for &'a HlcTimestamp {
    type Output = i64;

    /// The signed millisecond delta of the physical components only, with
    /// the minuend taken through a reference.
    fn sub(self, rhs: HlcTimestamp) -> (r: i64)
        ensures
            r == self.spec_offset() - rhs.spec_offset(),
    {
        *self - rhs
    }
}

impl<'a> vstd::std_specs::ops::SubSpecImpl<HlcTimestamp> for &'a HlcTimestamp {
    open spec fn obeys_sub_spec() -> bool {
        false
    }

    open spec fn sub_req(self, rhs: HlcTimestamp) -> bool {
        true
    }

    open spec fn sub_spec(self, rhs: HlcTimestamp) -> i64 {
        vstd::pervasive::arbitrary()
    }
}

/// True when a pair fits both fields of the packed word: the physical time
/// lies between the custom epoch and the epoch plus `PT_MAX` milliseconds
/// (its offset fits 42 bits), and the counter fits 22 bits. Exactly these
/// pairs can be packed, and every decoded stored word yields one.
pub open spec fn fields_in_range(pt: i64, lc: u64) -> bool {
    EPOCH <= pt <= EPOCH + PT_MAX && lc <= LC_MAX
}

/// The error with which a pair outside `fields_in_range` is rejected: the
/// physical bound is checked first, then the logical bound, then the epoch.
pub open spec fn field_error(pt: i64, lc: u64) -> HlcError {
    if pt > EPOCH + PT_MAX {
        HlcError::PhysicalTimeExceedsMax(pt, PT_MAX)
    } else if lc > LC_MAX {
        HlcError::LogicalClockExceedsMax(lc, LC_MAX)
    } else {
        HlcError::TimestampBelowMin(pt, EPOCH)
    }
}

/// Holds when `t` is the outcome of one consistent register transition: some
/// decodable pair was observed, the merge function `f` mapped it to a pair
/// within both field bounds, and `t` packs that pair.
pub open spec fn merge_applied<F: Fn(i64, u64) -> HlcResult<(i64, u64)>>(
    f: F,
    t: HlcTimestamp,
) -> bool {
    exists|pt0: i64, lc0: u64, pt1: i64, lc1: u64|
        fields_in_range(pt0, lc0) && #[trigger] call_ensures(f, (pt0, lc0), Ok((pt1, lc1)))
            && fields_in_range(pt1, lc1) && t.spec_offset() == pt1 - EPOCH && t.spec_count() == lc1
}

/// Holds when `e` is an error a register update can surface for the merge
/// function `f`: either `f` itself rejected an observed pair with `e`, or `f`
/// produced a pair outside the field bounds and `e` reports the violated
/// bound.
pub open spec fn merge_rejected<F: Fn(i64, u64) -> HlcResult<(i64, u64)>>(
    f: F,
    e: HlcError,
) -> bool {
    exists|pt0: i64, lc0: u64|
        #![trigger call_ensures(f, (pt0, lc0), Err(e))]
        #![trigger fields_in_range(pt0, lc0)]
        fields_in_range(pt0, lc0) && (call_ensures(f, (pt0, lc0), Err(e)) || exists|
            pt1: i64,
            lc1: u64,
        |
            #[trigger] call_ensures(f, (pt0, lc0), Ok((pt1, lc1))) && !fields_in_range(pt1, lc1)
                && e == field_error(pt1, lc1))
}

/// The shared state register of a generator: one 64-bit word holding a packed
/// HLC timestamp, mutated only through a compare-and-swap retry protocol.
#[derive(Debug)]
pub struct HlcAtomicTimestamp(AtomicU64);

impl From<HlcTimestamp> for HlcAtomicTimestamp {
    fn from(ts: HlcTimestamp) -> Self {
        HlcAtomicTimestamp(AtomicU64::new(ts.0))
    }
}

impl vstd::std_specs::convert::FromSpecImpl<HlcTimestamp> for HlcAtomicTimestamp {
    open spec fn obeys_from_spec() -> bool {
        false
    }

    open spec fn from_spec(ts: HlcTimestamp) -> Self {
        vstd::pervasive::arbitrary()
    }
}

impl HlcAtomicTimestamp {
    /// Sets the physical time and logical clock count.
    ///
    /// The closure gets the physical time and logical clock count that the
    /// register held at the moment of the call and must return the new values
    /// for both, or a domain error, which is returned with zero mutation.
    ///
    /// This is an atomic operation that ensures thread safety in a lock-free
    /// fashion. Either both values are updated or none are: the new word is
    /// compare-and-swapped against the observed one, and on a concurrent
    /// write the whole step restarts from a fresh observation. The returned
    /// timestamp is always the result of the closure on one consistent
    /// snapshot, re-validated against both field bounds.
    pub fn update<F: Fn(i64, u64) -> HlcResult<(i64, u64)>>(&self, new_values: F) -> (r: HlcResult<
        HlcTimestamp,
    >)
        requires
            forall|pt: i64, lc: u64|
                fields_in_range(pt, lc) ==> #[trigger] call_requires(new_values, (pt, lc)),
        ensures
            r matches Ok(t) ==> merge_applied(new_values, t),
            r matches Err(e) ==> merge_rejected(new_values, e) || e
                == HlcError::RetryLimitExceeded,
    {
        let mut retries: u64 = u64::MAX;
        loop
            invariant
                forall|pt: i64, lc: u64|
                    fields_in_range(pt, lc) ==> #[trigger] call_requires(new_values, (pt, lc)),
            decreases retries,
        {
            let current = self.0.load(std::sync::atomic::Ordering::Acquire);
            proof {
                lemma_unpack_fields(current);
            }
            // Obtain new values for physical time and logical clock count.
            let observed_pt = CustomEpochTimestamp::to_unix_timestamp((current >> LC_BITS)
                & PT_MAX);
            let observed_lc = current & LC_MAX;
            let res = new_values(observed_pt, observed_lc);
            proof {
                assert(fields_in_range(observed_pt, observed_lc));
                assert(call_ensures(new_values, (observed_pt, observed_lc), res));
            }
            let (pt, lc) = match res {
                Ok(v) => v,
                Err(e) => {
                    proof {
                        assert(merge_rejected(new_values, e));
                    }
                    return Err(e);
                },
            };
            proof {
                assert(call_ensures(new_values, (observed_pt, observed_lc), Ok((pt, lc))));
            }
            if pt > EPOCH + PT_MAX as i64 {
                proof {
                    assert(merge_rejected(
                        new_values,
                        HlcError::PhysicalTimeExceedsMax(pt, PT_MAX),
                    ));
                }
                return Err(HlcError::PhysicalTimeExceedsMax(pt, PT_MAX));
            }
            if lc > LC_MAX {
                proof {
                    assert(merge_rejected(new_values, HlcError::LogicalClockExceedsMax(lc, LC_MAX)));
                }
                return Err(HlcError::LogicalClockExceedsMax(lc, LC_MAX));
            }
            let ts = match CustomEpochTimestamp::from_unix_timestamp(pt) {
                Ok(ts) => ts,
                Err(e) => {
                    proof {
                        assert(merge_rejected(new_values, e));
                    }
                    return Err(e);
                },
            };
            let millis = ts.millis();
            let new_combined = (millis << LC_BITS) | lc;
            proof {
                lemma_pack_fields(millis, lc);
            }
            let swapped = self.0.compare_exchange(
                current,
                new_combined,
                std::sync::atomic::Ordering::AcqRel,
                std::sync::atomic::Ordering::Acquire,
            );
            if swapped.is_ok() {
                let result = HlcTimestamp(new_combined);
                proof {
                    assert(merge_applied(new_values, result));
                }
                return Ok(result);
            }
            if retries == 0 {
                return Err(HlcError::RetryLimitExceeded);
            }
            retries = retries - 1;
        }
    }

    /// Creates a new HLC timestamp snapshot of the register's current word.
    /// Another writer may replace the word at any moment, so nothing more is
    /// promised of the value than of any stored word.
    pub fn snapshot(&self) -> HlcTimestamp {
        HlcTimestamp(self.0.load(std::sync::atomic::Ordering::Acquire))
    }
}

/// The raw word determines the timestamp: two timestamps with the same raw
/// word are the same timestamp, so the 64-bit word is a faithful wire form.
pub proof fn lemma_raw_injective(a: HlcTimestamp, b: HlcTimestamp)
    requires
        a.spec_raw() == b.spec_raw(),
    ensures
        a == b,
{
}

/// Raw 64-bit comparison orders timestamps lexicographically: physical time
/// first, logical count second.
pub proof fn lemma_order_is_lexicographic(a: HlcTimestamp, b: HlcTimestamp)
    ensures
        a.spec_raw() < b.spec_raw() <==> (a.spec_offset() < b.spec_offset() || (a.spec_offset()
            == b.spec_offset() && a.spec_count() < b.spec_count())),
{
    let x = a.spec_raw();
    let y = b.spec_raw();
    assert(x < y <==> (x / 0x40_0000 < y / 0x40_0000 || (x / 0x40_0000 == y / 0x40_0000 && x
        % 0x40_0000 < y % 0x40_0000))) by (bit_vector);
}

} // verus!
