use dannesk::timestamps::{
    btc_display_order, btc_time_key, format_timestamp, newest_first, xrp_display_order,
    xrp_time_key,
};

#[test]
fn empty_and_zero_timestamps_show_a_dash() {
    assert_eq!(format_timestamp(""), "—");
    assert_eq!(format_timestamp("0"), "—");
}

#[test]
fn seconds_show_as_utc_minutes() {
    assert_eq!(format_timestamp("1431648000"), "2015-05-15 00:00");
    assert_eq!(format_timestamp("+1431648061"), "2015-05-15 00:01");
    assert_eq!(format_timestamp("-60"), "1969-12-31 23:59");
}

#[test]
fn unreadable_timestamps_show_the_earliest_instant() {
    assert_eq!(format_timestamp("yesterday"), "-262143-01-01 00:00");
    assert_eq!(format_timestamp("99999999999999999"), "-262143-01-01 00:00");
    assert_eq!(format_timestamp("99999999999999999999"), "-262143-01-01 00:00");
}

#[test]
fn keys_of_timestamps() {
    assert_eq!(btc_time_key("1431648000"), Some((1431648000, 0)));
    assert_eq!(btc_time_key("-5"), Some((-5, 0)));
    assert_eq!(btc_time_key("12a"), None);
    assert_eq!(btc_time_key("-"), None);
    assert_eq!(xrp_time_key("2015-05-15T00:00:00Z"), Some((1431648000, 0)));
    assert_eq!(xrp_time_key("2015-05-15T02:00:00.5+02:00"), Some((1431648000, 500_000_000)));
    assert_eq!(xrp_time_key("not a date"), None);
}

#[test]
fn lists_show_newest_first() {
    let ts: Vec<String> = vec!["100".into(), "junk".into(), "300".into(), "200".into()];
    assert_eq!(btc_display_order(&ts), vec![2, 3, 0, 1]);
    let xs: Vec<String> = vec![
        "2024-01-01T00:00:00Z".into(),
        "2025-01-01T00:00:00Z".into(),
        "".into(),
    ];
    assert_eq!(xrp_display_order(&xs), vec![1, 0, 2]);
}

#[test]
fn lists_show_at_most_a_hundred() {
    let ts: Vec<String> = (0..150).map(|i| format!("{}", i * 10)).collect();
    let order = btc_display_order(&ts);
    assert_eq!(order.len(), 100);
    assert_eq!(order[0], 149);
    assert_eq!(order[99], 50);
}

#[test]
fn newest_first_respects_nanoseconds_and_limit() {
    let keys = vec![Some((5, 1)), None, Some((5, 2)), Some((4, 999))];
    assert_eq!(newest_first(&keys, 2), vec![2, 0]);
    assert_eq!(newest_first(&keys, 10), vec![2, 0, 3, 1]);
    assert_eq!(newest_first(&Vec::new(), 3), Vec::<usize>::new());
}
