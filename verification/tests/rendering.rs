use hook0_api::ids::Uuid;
use hook0_api::time::Timestamp;

#[test]
fn uuid_zero_matches_uuid_crate() {
    let ours = Uuid { value: 0 }.to_hyphenated_string();
    assert_eq!(ours, uuid::Uuid::from_u128(0).to_string());
    assert_eq!(ours, "00000000-0000-0000-0000-000000000000");
}

#[test]
fn uuid_max_matches_uuid_crate() {
    let ours = Uuid { value: u128::MAX }.to_hyphenated_string();
    assert_eq!(ours, uuid::Uuid::from_u128(u128::MAX).to_string());
    assert_eq!(ours, "ffffffff-ffff-ffff-ffff-ffffffffffff");
}

#[test]
fn uuid_round_trips_through_uuid_crate() {
    let raw: u128 = 0x0123_4567_89ab_cdef_0f1e_2d3c_4b5a_6978;
    let text = Uuid { value: raw }.to_hyphenated_string();
    let parsed = uuid::Uuid::parse_str(&text).unwrap();
    assert_eq!(parsed.as_u128(), raw);
}

#[test]
fn timestamp_extremes_render_zero_padded() {
    let early = Timestamp::new(1, 2, 3, 4, 5, 6).unwrap();
    assert_eq!(early.to_rfc3339_string(), "0001-02-03T04:05:06Z");
    let late = Timestamp::new(9999, 12, 31, 23, 59, 59).unwrap();
    assert_eq!(late.to_rfc3339_string(), "9999-12-31T23:59:59Z");
    assert!(Timestamp::new(10000, 1, 1, 0, 0, 0).is_none());
}
