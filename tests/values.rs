use layered_config::{classify, Float64, Layers, Readable, Typed, Value, ValueType};

fn float(x: f64) -> Float64 {
    Float64::from_bits(x.to_bits())
}

fn unfloat(x: Float64) -> f64 {
    f64::from_bits(x.to_bits())
}

#[test]
fn test_values() {
    assert_eq!(Value::from(5i64).get().unwrap(), 5i64);
    assert_eq!(Value::from(5i64), Value::from(5i64));
    assert_eq!(Value::from(5i64).value_type(), ValueType::Integer);
    assert_ne!(Value::from(5i64), Value::from(6i64));
    assert_eq!(unfloat(Value::from(float(5f64)).get().unwrap()), 5f64);
    assert_eq!(Value::from(float(5.3f64)), Value::from(float(5.3f64)));
    assert_eq!(Value::from(float(5.3f64)).value_type(), ValueType::Float);
    assert_ne!(Value::from(float(5f64)), Value::from(float(6f64)));
    assert_eq!(Value::from(true).get().unwrap(), true);
    assert_eq!(Value::from(false), Value::from(false));
    assert_eq!(Value::from(false).value_type(), ValueType::Bool);
    assert_ne!(Value::from(true), Value::from(false));
    assert_eq!(Value::from("string").get().as_ref().unwrap(), &String::from("string"));
    assert_eq!(Value::from("string").value_type(), ValueType::String);
    assert_eq!(
        Value::from(String::from("string")).get().as_ref().unwrap(),
        &String::from("string")
    );
    assert_eq!(Value::from(String::from("string")).value_type(), ValueType::String);
    assert_ne!(Value::from("string"), Value::from("other_string"));
    assert_eq!(Value::from(Option::<i64>::None), Value::from(Option::<i64>::None));
    assert_eq!(Value::from(Option::<&str>::None).value_type(), ValueType::Absent);
    assert_ne!(Value::from(Option::None), Value::from("string"));
}

#[test]
fn scalar_tags() {
    assert_eq!(5i64.value_type(), ValueType::Integer);
    assert_eq!(float(5.0).value_type(), ValueType::Float);
    assert_eq!(true.value_type(), ValueType::Bool);
    assert_eq!("s".value_type(), ValueType::String);
    assert_eq!(String::from("s").value_type(), ValueType::String);
}

#[test]
fn classify_through_option() {
    assert_eq!(classify(&Some(5i64)), ValueType::Integer);
    assert_eq!(classify(&Some(float(1.5))), ValueType::Float);
    assert_eq!(classify(&Some(false)), ValueType::Bool);
    assert_eq!(classify(&Some("s")), ValueType::String);
    assert_eq!(classify(&None::<i64>), ValueType::Absent);
    assert_eq!(classify(&None::<String>), ValueType::Absent);
}

#[test]
fn construct_from_option() {
    let v = Value::from(Some(5i64));
    assert_eq!(*v.get(), Some(5i64));
    assert_eq!(v.value_type(), ValueType::Integer);
    assert_eq!(v.shadowed(), None);
    assert_eq!(v, Value::from(5i64));
    let n = Value::from(None::<bool>);
    assert_eq!(*n.get(), None);
    assert_eq!(n.value_type(), ValueType::Absent);
    assert_ne!(n, Value::from(false));
    assert_ne!(Value::from(false), n);
}

#[test]
fn construct_generic() {
    let v = Value::new(String::from("abc"));
    assert_eq!(v.get().as_deref(), Some("abc"));
    assert_eq!(v.value_type(), ValueType::String);
    assert_eq!(v.shadowed(), None);
    assert_eq!(v, Value::from("abc"));
}

#[test]
fn string_values() {
    assert_eq!(Value::from("string"), Value::from("string"));
    assert_eq!(Value::from("string"), Value::from(String::from("string")));
    assert_ne!(Value::from("string"), Value::from("other_string"));
    assert_eq!(Value::from(Some("a")), Value::from(Some("a")));
    assert_ne!(Value::from(Some("a")), Value::from(Some("b")));
    assert_eq!(Value::from(""), Value::from(""));
}

#[test]
fn bool_values() {
    assert_ne!(Value::from(true), Value::from(false));
    assert_eq!(Value::from(true), Value::from(true));
}

#[test]
fn integer_extremes() {
    assert_eq!(Value::from(i64::MAX), Value::from(i64::MAX));
    assert_ne!(Value::from(i64::MIN), Value::from(i64::MAX));
    assert_eq!(Value::from(i64::MIN).get().unwrap(), i64::MIN);
}

#[test]
fn float_equality_follows_ieee() {
    let nan = float(f64::NAN);
    assert!(nan.is_nan());
    assert!(!float(1.0).is_nan());
    assert!(!float(f64::INFINITY).is_nan());
    assert_ne!(Value::from(nan), Value::from(nan));
    assert_eq!(Value::from(float(0.0)), Value::from(float(-0.0)));
    assert_eq!(Value::from(float(f64::INFINITY)), Value::from(float(f64::INFINITY)));
    assert_ne!(Value::from(float(f64::INFINITY)), Value::from(float(f64::NEG_INFINITY)));
    assert!(float(2.5).is_same(&float(2.5)));
    assert!(!float(2.5).is_same(&float(2.25)));
    assert_eq!(float(-3.75).to_bits(), (-3.75f64).to_bits());
}

#[test]
fn element_equality() {
    assert!(5i64.is_same(&5i64));
    assert!(!5i64.is_same(&6i64));
    assert!("x".is_same(&"x"));
    assert!(!"x".is_same(&"y"));
    assert!(String::from("x").is_same(&String::from("x")));
    assert!(!true.is_same(&false));
}

#[test]
fn override_keeps_previous_value() {
    let mut layers = Layers::new();
    let base = layers.add(Value::from(5i64));
    let top = layers.push_override(base, Value::from(7i64)).unwrap();
    assert_eq!(*layers.value(top).get(), Some(7i64));
    let prev = layers.value(top).shadowed().unwrap();
    assert_eq!(prev, base);
    assert_eq!(*layers.value(prev).get(), Some(5i64));
    assert_eq!(layers.value(prev).shadowed(), None);
    assert_eq!(layers.len(), 2);
}

#[test]
fn override_of_missing_entry_is_rejected() {
    let mut layers: Layers<i64> = Layers::new();
    assert_eq!(layers.push_override(0, Value::from(1i64)), None);
    assert_eq!(layers.len(), 0);
    let base = layers.add(Value::from(1i64));
    assert_eq!(layers.push_override(base + 1, Value::from(2i64)), None);
    assert_eq!(layers.len(), 1);
}

#[test]
fn chain_walks_most_recent_first() {
    let mut layers = Layers::new();
    let default = layers.add(Value::from("default"));
    let file = layers.push_override(default, Value::from("file")).unwrap();
    let env = layers.push_override(file, Value::from("env")).unwrap();
    let cli = layers.push_override(env, Value::from("cli")).unwrap();
    assert_eq!(layers.chain(cli), vec![env, file, default]);
    assert_eq!(layers.chain(env), vec![file, default]);
    assert_eq!(layers.chain(file), vec![default]);
    assert_eq!(layers.chain(default), Vec::<usize>::new());
    assert_eq!(layers.chain(cli).len(), 3);
}

#[test]
fn chains_of_separate_keys_stay_apart() {
    let mut layers = Layers::new();
    let a = layers.add(Value::from(1i64));
    let b = layers.add(Value::from(2i64));
    let a2 = layers.push_override(a, Value::from(10i64)).unwrap();
    let b2 = layers.push_override(b, Value::from(20i64)).unwrap();
    let a3 = layers.push_override(a2, Value::from(100i64)).unwrap();
    assert_eq!(layers.chain(a3), vec![a2, a]);
    assert_eq!(layers.chain(b2), vec![b]);
    assert_eq!(layers.chain(b), Vec::<usize>::new());
}

#[test]
fn equality_ignores_shadow() {
    let mut layers = Layers::new();
    let base = layers.add(Value::from(5i64));
    let top = layers.push_override(base, Value::from(7i64)).unwrap();
    assert!(layers.value(top).shadowed().is_some());
    assert_eq!(layers.value(top), &Value::from(7i64));
    assert_ne!(layers.value(top), &Value::from(5i64));
    assert_eq!(layers.value(base), &Value::from(5i64));
}

#[test]
fn absent_values_compare_equal() {
    assert_eq!(Value::from(None::<i64>), Value::from(None::<i64>));
    assert_ne!(Value::from(None::<i64>), Value::from(0i64));
    assert_ne!(Value::from(0i64), Value::from(None::<i64>));
}
