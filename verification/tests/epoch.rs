use chrono::TimeZone;
use hlc_gen::CustomEpochTimestamp;
use hlc_gen::EPOCH;

#[test]
fn custom_epoch_is_correct() {
    // Calculate the expected epoch using chrono
    let expected_epoch = chrono::Utc
        .with_ymd_and_hms(2024, 1, 1, 0, 0, 0)
        .unwrap()
        .timestamp_millis();

    // Assert that the pre-calculated epoch matches the expected value
    assert_eq!(EPOCH, expected_epoch);
}

#[test]
fn conversion_to_and_from_unix_timestamp() {
    let unix_ts = 1704067200123; // 2024-01-01 00:00:00.123 UTC
    let custom_ts = CustomEpochTimestamp::from_unix_timestamp(unix_ts).unwrap();

    // Check milliseconds from custom epoch
    assert_eq!(custom_ts.millis(), 123);

    // Convert back to Unix timestamp
    let back_to_unix = CustomEpochTimestamp::to_unix_timestamp(custom_ts.millis());
    assert_eq!(back_to_unix, unix_ts);
}

#[test]
fn conversion_rejects_instants_before_epoch() {
    let r = CustomEpochTimestamp::from_unix_timestamp(EPOCH - 1);
    assert_eq!(r, Err(hlc_gen::HlcError::TimestampBelowMin(EPOCH - 1, EPOCH)));

    let r = CustomEpochTimestamp::from_unix_timestamp(EPOCH);
    assert_eq!(r.unwrap().millis(), 0);
}
