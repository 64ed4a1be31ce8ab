use core_tester::sql::{insert_id, insert_text};
use core_tester::text::{decimal, push_decimal, push_digits};

#[test]
fn decimal_writes_integers_as_format_does() {
    assert_eq!(decimal(0), "0");
    assert_eq!(decimal(7), "7");
    assert_eq!(decimal(10), "10");
    assert_eq!(decimal(1001), "1001");
    assert_eq!(decimal(-1), "-1");
    assert_eq!(decimal(-120), "-120");
    assert_eq!(decimal(i64::MAX), "9223372036854775807");
    assert_eq!(decimal(i64::MIN), "-9223372036854775808");
    let mut i: i64 = -5_000_000_000;
    while i < 5_000_000_000 {
        assert_eq!(decimal(i), format!("{}", i));
        i += 98_765_431;
    }
}

#[test]
fn digits_are_appended_to_what_is_there() {
    let mut text = String::from("id=");
    push_digits(&mut text, 0);
    assert_eq!(text, "id=0");
    push_digits(&mut text, 18446744073709551615);
    assert_eq!(text, "id=018446744073709551615");
    let mut other = String::from("x");
    push_decimal(&mut other, -45);
    push_decimal(&mut other, 6);
    assert_eq!(other, "x-456");
}

#[test]
fn insert_id_builds_the_statement() {
    assert_eq!(insert_id("test", 0), "INSERT INTO test VALUES (0)");
    assert_eq!(insert_id("test", 1000), "INSERT INTO test VALUES (1000)");
    assert_eq!(insert_id("test", -3), "INSERT INTO test VALUES (-3)");
    assert_eq!(insert_id("t2", 9999), "INSERT INTO t2 VALUES (9999)");
    for i in 0..1001i64 {
        assert_eq!(insert_id("test", i), format!("INSERT INTO test VALUES ({})", i));
    }
}

#[test]
fn insert_text_builds_the_statement() {
    assert_eq!(insert_text("test", 1, "abc"), "INSERT INTO test VALUES (1, 'abc')");
    assert_eq!(insert_text("test", 1, ""), "INSERT INTO test VALUES (1, '')");
    assert_eq!(insert_text("test", 12, "it's"), "INSERT INTO test VALUES (12, 'it's')");
    let text = "B".repeat(8192);
    assert_eq!(
        insert_text("test", 7, &text),
        format!("INSERT INTO test VALUES ({}, '{}')", 7, text)
    );
}
