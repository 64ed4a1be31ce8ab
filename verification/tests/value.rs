use core_tester::value::{truncate_integer, truncate_real, Value};

#[test]
fn integers_keep_their_low_bits() {
    assert_eq!(truncate_integer(0), 0);
    assert_eq!(truncate_integer(1), 1);
    assert_eq!(truncate_integer(-1), -1);
    assert_eq!(truncate_integer(2147483647), i32::MAX);
    assert_eq!(truncate_integer(-2147483648), i32::MIN);
    assert_eq!(truncate_integer(2147483648), i32::MIN);
    assert_eq!(truncate_integer(-2147483649), i32::MAX);
    assert_eq!(truncate_integer(4294967296), 0);
    assert_eq!(truncate_integer(4294967297), 1);
    assert_eq!(truncate_integer(i64::MAX), -1);
    assert_eq!(truncate_integer(i64::MIN), 0);
}

#[test]
fn integers_truncate_as_the_cast_does() {
    let mut i: i64 = -7_000_000_000_000;
    while i < 7_000_000_000_000 {
        assert_eq!(truncate_integer(i), i as i32);
        i += 1_234_567_891;
    }
}

#[test]
fn reals_round_towards_zero() {
    assert_eq!(truncate_real(0.0f64.to_bits()), 0);
    assert_eq!(truncate_real((-0.0f64).to_bits()), 0);
    assert_eq!(truncate_real(0.5f64.to_bits()), 0);
    assert_eq!(truncate_real(0.999999f64.to_bits()), 0);
    assert_eq!(truncate_real(1.0f64.to_bits()), 1);
    assert_eq!(truncate_real(1.999f64.to_bits()), 1);
    assert_eq!(truncate_real((-1.999f64).to_bits()), -1);
    assert_eq!(truncate_real((-2.0f64).to_bits()), -2);
    assert_eq!(truncate_real((-3.0f64).to_bits()), -3);
    assert_eq!(truncate_real(8192.75f64.to_bits()), 8192);
    assert_eq!(truncate_real(f64::MIN_POSITIVE.to_bits()), 0);
    assert_eq!(truncate_real(5e-324f64.to_bits()), 0);
}

#[test]
fn reals_are_held_to_the_range() {
    assert_eq!(truncate_real(2147483647.0f64.to_bits()), i32::MAX);
    assert_eq!(truncate_real(2147483647.9f64.to_bits()), i32::MAX);
    assert_eq!(truncate_real(2147483648.0f64.to_bits()), i32::MAX);
    assert_eq!(truncate_real((-2147483648.0f64).to_bits()), i32::MIN);
    assert_eq!(truncate_real((-2147483648.9f64).to_bits()), i32::MIN);
    assert_eq!(truncate_real((-2147483649.0f64).to_bits()), i32::MIN);
    assert_eq!(truncate_real(1e300f64.to_bits()), i32::MAX);
    assert_eq!(truncate_real((-1e300f64).to_bits()), i32::MIN);
    assert_eq!(truncate_real(f64::INFINITY.to_bits()), i32::MAX);
    assert_eq!(truncate_real(f64::NEG_INFINITY.to_bits()), i32::MIN);
    assert_eq!(truncate_real(f64::NAN.to_bits()), 0);
    assert_eq!(truncate_real((-f64::NAN).to_bits()), 0);
}

#[test]
fn reals_truncate_as_the_cast_does() {
    let samples = [
        0.1, 0.9, 1.5, 2.5, 3.999, 12345.678, 65535.5, 1048576.25, 16777216.0, 1e9, 2e9,
        2147483646.5, 2147483647.5, 2147483648.5, 3e9, 1e10, 1e15, 1e19, 1e100, 4.9e-324,
        1e-10,
    ];
    for x in samples {
        assert_eq!(truncate_real(f64::to_bits(x)), x as i32);
        assert_eq!(truncate_real(f64::to_bits(-x)), (-x) as i32);
    }
    let mut x = 0.37f64;
    while x < 1e12 {
        assert_eq!(truncate_real(x.to_bits()), x as i32);
        assert_eq!(truncate_real((-x).to_bits()), (-x) as i32);
        x *= 1.0731;
    }
}

#[test]
fn row_id_reads_integers_and_reals() {
    assert_eq!(Value::Integer(7).row_id(), Some(7));
    assert_eq!(Value::Integer(-3).row_id(), Some(-3));
    assert_eq!(Value::Integer(4294967301).row_id(), Some(5));
    assert_eq!(Value::Float(2.0f64.to_bits()).row_id(), Some(2));
    assert_eq!(Value::Float((-3.0f64).to_bits()).row_id(), Some(-3));
    assert_eq!(Value::Null.row_id(), None);
    assert_eq!(Value::Text("1".to_string()).row_id(), None);
    assert_eq!(Value::Blob(vec![1]).row_id(), None);
}

#[test]
fn real_id_reads_reals_only() {
    assert_eq!(Value::Float((-2.0f64).to_bits()).real_id(), Some(-2));
    assert_eq!(Value::Float(0.5f64.to_bits()).real_id(), Some(0));
    assert_eq!(Value::Integer(2).real_id(), None);
    assert_eq!(Value::Null.real_id(), None);
    assert_eq!(Value::Text("2.0".to_string()).real_id(), None);
}

#[test]
fn accessors_give_what_the_value_holds() {
    assert_eq!(Value::Integer(42).integer(), Some(42));
    assert_eq!(Value::Float(42.0f64.to_bits()).integer(), None);
    assert_eq!(Value::Null.integer(), None);

    let text = Value::Text("hello".to_string());
    assert_eq!(text.text(), Some(&"hello".to_string()));
    assert_eq!(text.blob(), None);
    assert_eq!(text.integer(), None);

    let blob = Value::Blob(vec![1, 2, 3]);
    assert_eq!(blob.blob(), Some(&vec![1u8, 2, 3]));
    assert_eq!(blob.text(), None);
    assert_eq!(Value::Null.text(), None);
    assert_eq!(Value::Null.blob(), None);
}
