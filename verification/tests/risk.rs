use coaching_contract::ClientStats;

fn stats(total: u64, attended: u64, missed: u64, at_risk: bool) -> ClientStats {
    ClientStats {
        total_sessions: total,
        attended_sessions: attended,
        missed_sessions: missed,
        at_risk,
    }
}

fn after(mut record: ClientStats, new_session: bool, attended: bool) -> ClientStats {
    record.update(new_session, attended);
    record
}

#[test]
fn an_update_increments_exactly_one_counter() {
    assert_eq!(after(stats(0, 0, 0, false), true, false), stats(1, 0, 0, false));
    assert_eq!(after(stats(0, 0, 0, false), true, true), stats(1, 0, 0, false));
    assert_eq!(after(stats(1, 0, 0, false), false, true), stats(1, 1, 0, false));
    assert_eq!(after(stats(1, 0, 0, false), false, false), stats(1, 0, 1, false));
    assert_eq!(after(stats(10, 6, 1, false), true, false), stats(11, 6, 1, false));
}

#[test]
fn the_second_miss_sets_the_flag() {
    assert_eq!(after(stats(1, 0, 1, false), false, false), stats(1, 0, 2, true));
    assert_eq!(after(stats(10, 9, 1, false), false, false), stats(10, 9, 2, true));
    assert_eq!(after(stats(10, 9, 0, false), false, false), stats(10, 9, 1, false));
}

#[test]
fn two_misses_keep_the_flag_whatever_follows() {
    let mut record = stats(2, 0, 2, true);
    record.update(true, false);
    assert!(record.at_risk);
    for _ in 0..50 {
        record.update(false, true);
        assert!(record.at_risk);
    }
    assert_eq!(record, stats(3, 50, 2, true));
    assert_eq!(after(stats(4, 4, 2, false), true, false), stats(5, 4, 2, true));
}

#[test]
fn the_rate_rule_starts_with_the_third_booking() {
    assert_eq!(after(stats(1, 0, 0, false), true, false), stats(2, 0, 0, false));
    assert_eq!(after(stats(2, 0, 0, false), true, false), stats(3, 0, 0, true));
    assert_eq!(after(stats(2, 1, 0, false), true, false), stats(3, 1, 0, true));
    assert_eq!(after(stats(2, 2, 0, false), true, false), stats(3, 2, 0, false));
}

#[test]
fn the_rate_is_cut_to_whole_percent_and_compared_with_fifty() {
    assert_eq!(after(stats(4, 1, 0, false), false, true), stats(4, 2, 0, false));
    assert_eq!(after(stats(200, 98, 0, false), false, true), stats(200, 99, 0, true));
    assert_eq!(after(stats(200, 99, 0, true), false, true), stats(200, 100, 0, false));
    assert_eq!(after(stats(201, 99, 0, true), false, true), stats(201, 100, 0, true));
    assert_eq!(after(stats(201, 100, 0, true), false, true), stats(201, 101, 0, false));
    assert_eq!(after(stats(3, 0, 1, false), false, true), stats(3, 1, 1, true));
    assert_eq!(after(stats(3, 1, 1, true), false, true), stats(3, 2, 1, false));
}

#[test]
fn short_histories_keep_the_flag_as_it_was() {
    assert_eq!(after(stats(1, 0, 0, true), true, false), stats(2, 0, 0, true));
    assert_eq!(after(stats(2, 0, 0, true), false, true), stats(2, 1, 0, true));
    assert_eq!(after(stats(2, 0, 0, false), false, false), stats(2, 0, 1, false));
}

#[test]
fn the_rate_rule_can_clear_the_flag() {
    let mut record = ClientStats::new();
    record.update(true, false);
    record.update(true, false);
    record.update(true, false);
    assert_eq!(record, stats(3, 0, 0, true));
    record.update(false, true);
    assert_eq!(record, stats(3, 1, 0, true));
    record.update(false, true);
    assert_eq!(record, stats(3, 2, 0, false));
}

#[test]
fn large_counters_do_not_overflow_the_rate() {
    let high = u64::MAX - 1;
    assert_eq!(
        after(stats(u64::MAX, high, 0, true), false, true),
        stats(u64::MAX, u64::MAX, 0, false)
    );
    assert_eq!(after(stats(high, 0, 0, false), true, false), stats(u64::MAX, 0, 0, true));
    assert_eq!(
        after(stats(u64::MAX, u64::MAX / 2, 0, false), false, true),
        stats(u64::MAX, u64::MAX / 2 + 1, 0, false)
    );
    assert_eq!(
        after(stats(u64::MAX, u64::MAX / 2 - 1, 0, false), false, true),
        stats(u64::MAX, u64::MAX / 2, 0, true)
    );
}
