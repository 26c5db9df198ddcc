use disco::snowflake::{Snowflake, EPOCH_MS};

#[test]
fn parts_of_a_known_identifier() {
    let id = Snowflake::from(175928847299117063u64);
    assert_eq!(id.get_id(), 175928847299117063);
    assert_eq!(id.get_timestamp(), 1462015105796);
    assert_eq!(id.get_internal_worker_id(), 1);
    assert_eq!(id.get_internal_process_id(), 0);
    assert_eq!(id.get_increment(), 7);
}

#[test]
fn parts_of_zero_and_of_all_ones() {
    let zero = Snowflake::from_raw(0);
    assert_eq!(zero.get_timestamp(), EPOCH_MS);
    assert_eq!(zero.get_internal_worker_id(), 0);
    assert_eq!(zero.get_internal_process_id(), 0);
    assert_eq!(zero.get_increment(), 0);
    let ones = Snowflake::from_raw(u64::MAX);
    assert_eq!(ones.get_timestamp(), (u64::MAX >> 22) + 1420070400000);
    assert_eq!(ones.get_internal_worker_id(), 31);
    assert_eq!(ones.get_internal_process_id(), 31);
    assert_eq!(ones.get_increment(), 4095);
}

#[test]
fn parts_make_the_whole() {
    for raw in [0u64, 1, 4095, 4096, 175928847299117063, u64::MAX] {
        let id = Snowflake::from_raw(raw);
        let whole = ((id.get_timestamp() - EPOCH_MS) << 22)
            | (id.get_internal_worker_id() << 17)
            | (id.get_internal_process_id() << 12)
            | id.get_increment();
        assert_eq!(whole, raw);
    }
}

#[test]
fn parses_decimal_digits_only() {
    assert_eq!(Snowflake::parse("175928847299117063").map(|id| id.get_id()), Some(175928847299117063));
    assert_eq!(Snowflake::parse("0").map(|id| id.get_id()), Some(0));
    assert_eq!(Snowflake::parse("007").map(|id| id.get_id()), Some(7));
    assert_eq!(Snowflake::parse("18446744073709551615").map(|id| id.get_id()), Some(u64::MAX));
    assert!(Snowflake::parse("18446744073709551616").is_none());
    assert!(Snowflake::parse("99999999999999999999999").is_none());
    assert!(Snowflake::parse("").is_none());
    assert!(Snowflake::parse("+1").is_none());
    assert!(Snowflake::parse("-1").is_none());
    assert!(Snowflake::parse("1_000").is_none());
    assert!(Snowflake::parse("12a").is_none());
    assert!(Snowflake::parse(" 12").is_none());
    assert!(Snowflake::parse("١٢").is_none());
}
