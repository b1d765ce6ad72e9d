//! Value coercions: decimals, bit-level number handling and index
//! parsing.

use avm_core::error::EngineError;
use avm_core::value::{i32_to_decimal, number_bits_to_u32, u32_to_decimal, Value};
use avm_core::variants::parse_index;

#[test]
fn decimal_rendering() {
    assert_eq!(u32_to_decimal(0), "0");
    assert_eq!(u32_to_decimal(7), "7");
    assert_eq!(u32_to_decimal(40), "40");
    assert_eq!(u32_to_decimal(4294967295), "4294967295");
    assert_eq!(i32_to_decimal(-1), "-1");
    assert_eq!(i32_to_decimal(-2147483648), "-2147483648");
    assert_eq!(i32_to_decimal(2147483647), "2147483647");
}

#[test]
fn number_truncation_matches_the_machine() {
    // The engine truncates IEEE bit patterns in pure integer arithmetic;
    // the machine's own float-to-integer conversion is the reference.
    let cases: [f64; 12] = [
        0.0, -0.0, 1.0, -1.0, 1.5, -1.5, 40.018, 255.999, 4294967295.0, 4294967296.0,
        -4294967295.5, 1e18,
    ];
    for &x in cases.iter() {
        let expected = {
            // ToUint32: truncate toward zero, then take modulo 2^32.
            let t = x.trunc();
            let m = (t.abs() as u128) % (1u128 << 32);
            let m32 = m as u32;
            if t < 0.0 {
                m32.wrapping_neg()
            } else {
                m32
            }
        };
        assert_eq!(number_bits_to_u32(x.to_bits()), expected, "case {}", x);
    }
    assert_eq!(number_bits_to_u32(f64::NAN.to_bits()), 0);
    assert_eq!(number_bits_to_u32(f64::INFINITY.to_bits()), 0);
    assert_eq!(number_bits_to_u32(f64::NEG_INFINITY.to_bits()), 0);
}

#[test]
fn boolean_coercion() {
    assert!(!Value::Undefined.coerce_to_boolean());
    assert!(!Value::Null.coerce_to_boolean());
    assert!(!Value::Bool(false).coerce_to_boolean());
    assert!(Value::Bool(true).coerce_to_boolean());
    assert!(!Value::Integer(0).coerce_to_boolean());
    assert!(Value::Integer(-3).coerce_to_boolean());
    assert!(!Value::Unsigned(0).coerce_to_boolean());
    assert!(Value::Unsigned(1).coerce_to_boolean());
    assert!(!Value::Number(0.0f64.to_bits()).coerce_to_boolean());
    assert!(!Value::Number((-0.0f64).to_bits()).coerce_to_boolean());
    assert!(!Value::Number(f64::NAN.to_bits()).coerce_to_boolean());
    assert!(Value::Number(0.5f64.to_bits()).coerce_to_boolean());
    assert!(Value::Number(f64::INFINITY.to_bits()).coerce_to_boolean());
    assert!(!Value::String(String::new()).coerce_to_boolean());
    assert!(Value::String(String::from("no")).coerce_to_boolean());
    assert!(Value::Object(0).coerce_to_boolean());
}

#[test]
fn string_coercion() {
    assert_eq!(Value::Undefined.coerce_to_string().unwrap(), "undefined");
    assert_eq!(Value::Null.coerce_to_string().unwrap(), "null");
    assert_eq!(Value::Bool(true).coerce_to_string().unwrap(), "true");
    assert_eq!(Value::Bool(false).coerce_to_string().unwrap(), "false");
    assert_eq!(Value::Integer(-12).coerce_to_string().unwrap(), "-12");
    assert_eq!(Value::Unsigned(12).coerce_to_string().unwrap(), "12");
    assert_eq!(
        Value::String(String::from("hi")).coerce_to_string().unwrap(),
        "hi"
    );
    // Floating-point formatting and object coercion are the host's work.
    assert_eq!(
        Value::Number(1.5f64.to_bits()).coerce_to_string(),
        Err(EngineError::HostCoercionRequired)
    );
    assert_eq!(
        Value::Object(3).coerce_to_string(),
        Err(EngineError::HostCoercionRequired)
    );
}

#[test]
fn unsigned_coercion() {
    assert_eq!(Value::Undefined.coerce_to_u32().unwrap(), 0);
    assert_eq!(Value::Bool(true).coerce_to_u32().unwrap(), 1);
    assert_eq!(Value::Integer(-1).coerce_to_u32().unwrap(), 4294967295);
    assert_eq!(Value::Unsigned(9).coerce_to_u32().unwrap(), 9);
    assert_eq!(
        Value::Number(257.9f64.to_bits()).coerce_to_u32().unwrap(),
        257
    );
    assert_eq!(
        Value::String(String::from("3")).coerce_to_u32(),
        Err(EngineError::HostCoercionRequired)
    );
}

#[test]
fn index_parsing() {
    assert_eq!(parse_index(&String::from("0")), Some(0));
    assert_eq!(parse_index(&String::from("15")), Some(15));
    assert_eq!(parse_index(&String::from("007")), Some(7));
    assert_eq!(parse_index(&String::new()), None);
    assert_eq!(parse_index(&String::from("-1")), None);
    assert_eq!(parse_index(&String::from("1.5")), None);
    assert_eq!(parse_index(&String::from("x1")), None);
    assert_eq!(parse_index(&String::from("18446744073709551615")), Some(usize::MAX));
    assert_eq!(parse_index(&String::from("18446744073709551616")), None);
}
