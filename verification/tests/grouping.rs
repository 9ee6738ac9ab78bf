use dirtable::separated_string;
use separator::Separatable;

#[test]
fn separated_zero() {
    assert_eq!(separated_string(0), "0");
}

#[test]
fn separated_three_digits() {
    assert_eq!(separated_string(999), "999");
}

#[test]
fn separated_four_digits() {
    assert_eq!(separated_string(1000), "1,000");
}

#[test]
fn separated_seven_digits() {
    assert_eq!(separated_string(1234567), "1,234,567");
}

#[test]
fn separated_group_boundaries() {
    assert_eq!(separated_string(1), "1");
    assert_eq!(separated_string(12), "12");
    assert_eq!(separated_string(123), "123");
    assert_eq!(separated_string(9999), "9,999");
    assert_eq!(separated_string(100000), "100,000");
    assert_eq!(separated_string(1000000), "1,000,000");
}

#[test]
fn separated_largest() {
    assert_eq!(separated_string(u64::MAX), "18,446,744,073,709,551,615");
}

#[test]
fn separated_matches_separator_crate() {
    let values: Vec<u64> = vec![
        0,
        1,
        9,
        10,
        99,
        100,
        999,
        1000,
        1001,
        12345,
        999999,
        1000000,
        987654321,
        4096,
        u64::MAX,
    ];
    for v in values {
        assert_eq!(separated_string(v), v.separated_string());
    }
}
