use hlc_gen::HlcError;
use hlc_gen::HlcGenerator;
use hlc_gen::HlcTimestamp;
use hlc_gen::EPOCH;

#[test]
fn local_tick_counter() {
    // If the wall clock strictly advances between two ticks, the new counter
    // is 0; if not, the physical component stays pinned and the counter
    // strictly increments.
    let g = HlcGenerator::manual(0);

    g.set_current_timestamp(EPOCH + 5);
    let t1 = g.next_timestamp().unwrap();
    assert_eq!(t1.parts(), (EPOCH + 5, 0));

    // Clock unchanged: counter increments, physical pinned.
    let t2 = g.next_timestamp().unwrap();
    assert_eq!(t2.parts(), (EPOCH + 5, 1));
    let t3 = g.next_timestamp().unwrap();
    assert_eq!(t3.parts(), (EPOCH + 5, 2));

    // Clock advanced: counter resets to zero.
    g.set_current_timestamp(EPOCH + 6);
    let t4 = g.next_timestamp().unwrap();
    assert_eq!(t4.parts(), (EPOCH + 6, 0));

    // The produced sequence is strictly increasing.
    assert!(t1 < t2);
    assert!(t2 < t3);
    assert!(t3 < t4);
}

#[test]
fn concrete_merge() {
    // Local register at offset 10 / logical 7; update with remote
    // (offset 10, logical 4) while the wall clock reads offset 6 yields
    // (offset 10, logical 8).
    let g = HlcGenerator::manual(0);

    g.set_current_timestamp(EPOCH + 10);
    let t = g.next_timestamp().unwrap();
    assert_eq!(t.parts(), (EPOCH + 10, 0));
    for expected in 1..=7u64 {
        let t = g.next_timestamp().unwrap();
        assert_eq!(t.parts(), (EPOCH + 10, expected));
    }

    g.set_current_timestamp(EPOCH + 6);
    let remote = HlcTimestamp::from_parts(EPOCH + 10, 4).unwrap();
    let merged = g.update(&remote).unwrap();
    assert_eq!(merged.parts(), (EPOCH + 10, 8));
}

#[test]
fn rejection_is_no_op() {
    // A failed update leaves subsequent behavior identical to as if the
    // failed call never occurred: drive one generator through a rejected
    // update and a twin generator without it, and compare every following
    // outcome.
    let g1 = HlcGenerator::manual(1000);
    let g2 = HlcGenerator::manual(1000);

    g1.set_current_timestamp(EPOCH + 100);
    g2.set_current_timestamp(EPOCH + 100);
    assert_eq!(g1.next_timestamp().unwrap(), g2.next_timestamp().unwrap());

    // Only g1 sees the implausible remote timestamp; the update is rejected
    // with zero mutation.
    let far_remote = HlcTimestamp::from_parts(EPOCH + 100 + 1002, 5).unwrap();
    assert_eq!(
        g1.update(&far_remote),
        Err(HlcError::DriftTooLarge(1002, 1000))
    );
    assert_eq!(g1.timestamp(), g2.timestamp());

    // Every subsequent call behaves exactly as on the untouched twin.
    let t1 = g1.next_timestamp().unwrap();
    let t2 = g2.next_timestamp().unwrap();
    assert_eq!(t1, t2);
    assert_eq!(t1.parts(), (EPOCH + 100, 1));

    let near_remote = HlcTimestamp::from_parts(EPOCH + 100 + 50, 9).unwrap();
    assert_eq!(g1.update(&near_remote), g2.update(&near_remote));
    assert_eq!(g1.timestamp(), g2.timestamp());
    assert_eq!(g1.timestamp().parts(), (EPOCH + 150, 10));
}

#[test]
fn sequential_outputs_strictly_increase() {
    // A single caller interleaving ticks and updates, under a wall clock
    // that jumps back and forth, still sees a strictly increasing,
    // duplicate-free output sequence.
    let g = HlcGenerator::manual(0);
    let clock_readings: Vec<i64> = vec![7, 3, 9, 9, 2, 14, 14, 1];
    let mut outputs: Vec<HlcTimestamp> = Vec::new();
    for (i, ms) in clock_readings.iter().enumerate() {
        g.set_current_timestamp(EPOCH + ms);
        if i % 2 == 0 {
            outputs.push(g.next_timestamp().unwrap());
        } else {
            let remote = HlcTimestamp::from_parts(EPOCH + ms + 1, 3).unwrap();
            outputs.push(g.update(&remote).unwrap());
        }
    }
    for pair in outputs.windows(2) {
        assert!(pair[0] < pair[1]);
        assert!(pair[0].as_u64() < pair[1].as_u64());
    }
}
