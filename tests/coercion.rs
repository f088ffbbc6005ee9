use pgmanager::coercion::{coerce, CanonicalValue, CellProbe};

fn empty_probe() -> CellProbe {
    CellProbe {
        as_i32: None,
        as_text: None,
        as_bool: None,
        as_f64_bits: None,
        as_i64: None,
    }
}

#[test]
fn no_probe_gives_null() {
    assert_eq!(coerce(&empty_probe()), CanonicalValue::Null);
}

#[test]
fn i32_wins_over_every_other_probe() {
    let p = CellProbe {
        as_i32: Some(1),
        as_text: Some("1".to_string()),
        as_bool: Some(true),
        as_f64_bits: Some(1.0f64.to_bits()),
        as_i64: Some(1),
    };
    assert_eq!(coerce(&p), CanonicalValue::Integer(1));
}

#[test]
fn text_comes_before_bool_float_and_i64() {
    let mut p = empty_probe();
    p.as_text = Some("abc".to_string());
    p.as_bool = Some(false);
    p.as_f64_bits = Some(2.5f64.to_bits());
    p.as_i64 = Some(5);
    assert_eq!(coerce(&p), CanonicalValue::Text("abc".to_string()));
}

#[test]
fn bool_comes_before_float() {
    let mut p = empty_probe();
    p.as_bool = Some(true);
    p.as_f64_bits = Some(0.5f64.to_bits());
    assert_eq!(coerce(&p), CanonicalValue::Boolean(true));
}

#[test]
fn float_keeps_its_bits_and_comes_before_i64() {
    let mut p = empty_probe();
    p.as_f64_bits = Some(3.25f64.to_bits());
    p.as_i64 = Some(3);
    match coerce(&p) {
        CanonicalValue::Float(bits) => assert_eq!(f64::from_bits(bits), 3.25),
        other => panic!("expected a float, got {other:?}"),
    }
}

#[test]
fn wide_integer_when_only_i64_decodes() {
    let mut p = empty_probe();
    p.as_i64 = Some(9_000_000_000);
    assert_eq!(coerce(&p), CanonicalValue::Integer(9_000_000_000));
}

#[test]
fn coercion_is_deterministic() {
    let mut p = empty_probe();
    p.as_text = Some("same".to_string());
    let q = p.clone();
    assert_eq!(coerce(&p), coerce(&q));
    assert_eq!(coerce(&p), coerce(&p));
}
