use hlc_gen::HlcError;
use hlc_gen::HlcTimestamp;
use hlc_gen::EPOCH;

/// Maximum value of the 42-bit physical-time field.
const PT_MAX: u64 = (1u64 << 42) - 1;

/// Maximum value of the 22-bit logical-counter field.
const LC_MAX: u64 = (1u64 << 22) - 1;

#[test]
fn from_parts() {
    let timestamp = HlcTimestamp::from_parts(EPOCH + 12345, 67890).unwrap();
    assert_eq!(timestamp.timestamp(), EPOCH + 12345);
    assert_eq!(timestamp.count(), 67890);
}

#[test]
fn from_and_to_u64() {
    let timestamp = HlcTimestamp::from_parts(EPOCH + 12345, 67890).unwrap();
    let u64_timestamp = timestamp.as_u64();
    let back_to_timestamp = HlcTimestamp::from_raw(u64_timestamp).unwrap();

    assert_eq!(timestamp, back_to_timestamp);
}

#[test]
fn arithmetics() {
    let start = chrono::Utc::now().timestamp_millis();
    let t1 = HlcTimestamp::from_parts(start, 123).unwrap();

    let t2 = t1 + 1000;
    assert_eq!(t2.timestamp(), start + 1000);
    assert_eq!(t2.count(), 123);

    let mut t3 = t2 - 1000u64;
    assert_eq!(t3, t1);
    assert_eq!(t3.timestamp(), start);
    assert_eq!(t3.count(), 123);

    t3 = t3 + 1000;
    assert_eq!(t3.timestamp(), start + 1000);
    assert_eq!(t3.count(), 123);

    t3 = t3 - 1000u64;
    assert_eq!(t3, t1);
    assert_eq!(t3.timestamp(), start);

    assert_eq!(t2 - t1, 1000i64);
    assert_eq!(t1 - t2, -1000i64);

    assert_eq!(&t2 - &t1, 1000i64);
    assert_eq!(&t1 - &t2, -1000i64);

    assert_eq!(&t2 - t1, 1000i64);
    assert_eq!(&t1 - t2, -1000i64);

    assert_eq!(t2 - &t1, 1000i64);
    assert_eq!(t1 - &t2, -1000i64);
}

#[test]
fn arithmetics_wrap_physical_field_only() {
    // Subtracting past the custom epoch wraps the 42-bit physical field
    // silently and leaves the counter untouched.
    let t = HlcTimestamp::from_parts(EPOCH, 5).unwrap();
    let wrapped = t - 1000u64;
    assert_eq!(wrapped.timestamp(), EPOCH + PT_MAX as i64 + 1 - 1000);
    assert_eq!(wrapped.count(), 5);

    // Every raw word round-trips, the wrapped one included.
    assert_eq!(HlcTimestamp::from_raw(wrapped.as_u64()).unwrap(), wrapped);

    // Adding the same amount wraps back.
    let back = wrapped + 1000;
    assert_eq!(back, t);
}

#[test]
fn round_trip_pairs() {
    // Round trip: decoding an encoded pair returns the pair, across the
    // whole valid range of both fields.
    let pairs: Vec<(i64, u64)> = vec![
        (EPOCH, 0),
        (EPOCH, LC_MAX),
        (EPOCH + 1, 1),
        (EPOCH + 123_456_789, 42),
        (PT_MAX as i64, 0),
        (PT_MAX as i64, LC_MAX),
        (EPOCH + PT_MAX as i64, 0),
        (EPOCH + PT_MAX as i64, LC_MAX),
    ];
    for (pt, lc) in pairs {
        let t = HlcTimestamp::from_parts(pt, lc).unwrap();
        assert_eq!(t.parts(), (pt, lc));
        assert_eq!(t.timestamp(), pt);
        assert_eq!(t.count(), lc);

        // Raw round trip: the raw word reconstructs the same timestamp.
        let back = HlcTimestamp::from_raw(t.as_u64()).unwrap();
        assert_eq!(back, t);
    }
}

#[test]
fn field_overflow_errors() {
    // One more than the largest offset the 42-bit physical field can hold.
    let over = EPOCH + PT_MAX as i64 + 1;
    let r = HlcTimestamp::from_parts(over, 0);
    assert_eq!(r, Err(HlcError::PhysicalTimeExceedsMax(over, PT_MAX)));

    // A Unix time above 2^42 but whose offset fits 42 bits is accepted: the
    // bound constrains the offset from the custom epoch, not the raw value.
    let t = HlcTimestamp::from_parts(PT_MAX as i64 + 1, 3).unwrap();
    assert_eq!(t.parts(), (PT_MAX as i64 + 1, 3));

    // One more than the logical maximum.
    let r = HlcTimestamp::from_parts(EPOCH, LC_MAX + 1);
    assert_eq!(r, Err(HlcError::LogicalClockExceedsMax(LC_MAX + 1, LC_MAX)));

    // Physical time before the custom epoch.
    let r = HlcTimestamp::from_parts(EPOCH - 1, 0);
    assert_eq!(r, Err(HlcError::TimestampBelowMin(EPOCH - 1, EPOCH)));

    // The `new` constructor validates the same way.
    let r = HlcTimestamp::new(EPOCH - 1);
    assert_eq!(r, Err(HlcError::TimestampBelowMin(EPOCH - 1, EPOCH)));
    let t = HlcTimestamp::new(EPOCH + 7).unwrap();
    assert_eq!(t.parts(), (EPOCH + 7, 0));
}

#[test]
fn ordering_is_physical_major() {
    // Raw comparison orders by physical time first, logical count second.
    let a = HlcTimestamp::from_parts(EPOCH + 10, 7).unwrap();
    let b = HlcTimestamp::from_parts(EPOCH + 10, 8).unwrap();
    let c = HlcTimestamp::from_parts(EPOCH + 11, 0).unwrap();
    assert!(a < b);
    assert!(b < c);
    assert!(a.as_u64() < b.as_u64());
    assert!(b.as_u64() < c.as_u64());
}
