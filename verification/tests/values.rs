use rune::ast::Float;
use rune::list::List;
use rune::runtime::{Field, Key, Number, Value, ValueIterator, VmError};

fn list(values: Vec<Value>) -> List<Value> {
    List::from_vec(values)
}

fn float(value: f64) -> Value {
    Value::Float(Number { value: Float { bits: value.to_bits() }, text: format!("{:?}", value) })
}

fn shown(value: &Value) -> String {
    let mut text = String::new();
    value.append_debug(&mut text);
    text
}

fn string(text: &str) -> Value {
    Value::String(text.to_string())
}

#[test]
fn values_of_one_type_are_compared() {
    assert_eq!(Value::Integer(1).partial_eq(&Value::Integer(1)), Ok(true));
    assert_eq!(Value::Integer(1).eq(&Value::Integer(2)), Ok(false));
    assert_eq!(string("a").eq(&string("a")), Ok(true));
    assert_eq!(Value::Unit.eq(&Value::Unit), Ok(true));
    let some = Value::Option(Some(Box::new(Value::Bool(true))));
    assert_eq!(some.eq(&Value::Option(None)), Ok(false));
    assert_eq!(some.eq(&some.copy()), Ok(true));
}

#[test]
fn numbers_are_compared_by_value() {
    assert_eq!(float(0.0).partial_eq(&float(-0.0)), Ok(true));
    assert_eq!(float(1.5).partial_eq(&float(1.5)), Ok(true));
    assert_eq!(float(f64::INFINITY).eq(&float(f64::INFINITY)), Ok(true));
    assert_eq!(float(f64::NAN).partial_eq(&float(f64::NAN)), Ok(false));
    let bits = Float { bits: f64::NAN.to_bits() };
    assert_eq!(
        float(f64::NAN).eq(&float(1.0)),
        Err(VmError::IllegalFloatComparison { lhs: bits, rhs: Float { bits: 1.0f64.to_bits() } })
    );
}

#[test]
fn lists_are_compared_up_to_the_first_difference() {
    let a = Value::Vec(list(vec![Value::Integer(1), Value::Integer(2)]));
    let b = Value::Vec(list(vec![Value::Integer(1), string("a")]));
    let c = Value::Vec(list(vec![Value::Integer(2), string("a")]));
    let d = Value::Vec(list(vec![Value::Integer(1)]));
    assert_eq!(a.eq(&a.copy()), Ok(true));
    assert_eq!(
        a.eq(&b),
        Err(VmError::UnsupportedBinaryOperation {
            op: "==",
            lhs: Value::Integer(2).type_info(),
            rhs: string("a").type_info(),
        })
    );
    assert_eq!(a.eq(&c), Ok(false));
    assert_eq!(a.eq(&d), Ok(false));
    assert_eq!(d.eq(&a), Ok(false));
}

#[test]
fn values_become_keys() {
    let value = Value::Tuple(list(vec![Value::Byte(1), string("a"), Value::Option(None)]));
    let key = Key::from_value(&value).unwrap();
    assert_eq!(key.to_value().eq(&value), Ok(true));
    assert!(key.same(&key.copy()));
    assert!(!key.same(&Key::Unit));
    assert_eq!(
        Key::from_value(&Value::Vec(list(vec![float(1.0)]))),
        Err(VmError::KeyNotSupported { actual: float(1.0).type_info() })
    );
}

#[test]
fn values_become_pairs() {
    let pair = Value::Tuple(list(vec![Value::Integer(1), Value::Bool(true)]));
    let (key, value) = pair.into_pair().unwrap();
    assert!(key.same(&Key::Integer(1)));
    assert_eq!(value, Value::Bool(true));
    let short = Value::Tuple(list(vec![Value::Integer(1)]));
    assert_eq!(
        short.into_pair(),
        Err(VmError::ExpectedTupleLength { actual: 1, expected: 2 })
    );
    assert_eq!(
        Value::Unit.into_pair(),
        Err(VmError::ExpectedTupleLength { actual: 0, expected: 2 })
    );
    assert_eq!(
        Value::Integer(1).into_pair(),
        Err(VmError::Expected {
            expected: Value::Unit.type_info(),
            actual: Value::Integer(1).type_info(),
        })
    );
}

#[test]
fn values_are_iterated_over() {
    let it = Value::Vec(list(vec![Value::Integer(1), Value::Integer(2)])).into_iter().unwrap();
    let (first, it) = it.next();
    assert_eq!(first, Ok(Some(Value::Integer(1))));
    let (second, it) = it.next();
    assert_eq!(second, Ok(Some(Value::Integer(2))));
    assert_eq!(it.next().0, Ok(None));

    assert_eq!(
        Value::Integer(1).into_iter(),
        Err(VmError::MissingProtocolFunction {
            protocol: "INTO_ITER",
            instance: Value::Integer(1).type_info(),
        })
    );

    let failing = ValueIterator {
        name: "failing",
        items: List::from_vec(vec![Err(VmError::Panic { reason: "no".to_string() })]),
    };
    assert_eq!(failing.next().0, Err(VmError::Panic { reason: "no".to_string() }));
}

#[test]
fn values_are_shown() {
    assert_eq!(shown(&Value::Unit), "()");
    assert_eq!(shown(&Value::Bool(false)), "false");
    assert_eq!(shown(&Value::Integer(-12)), "-12");
    assert_eq!(shown(&Value::Char('\'')), "'\\''");
    assert_eq!(shown(&string("a\"\n")), "\"a\\\"\\n\"");
    assert_eq!(shown(&float(1.5)), "1.5");
    assert_eq!(shown(&Value::Vec(list(vec![Value::Byte(1), Value::Byte(2)]))), "[1, 2]");
    assert_eq!(shown(&Value::Tuple(list(vec![Value::Byte(1)]))), "(1,)");
    assert_eq!(shown(&Value::Tuple(list(vec![Value::Byte(1), Value::Unit]))), "(1, ())");
    assert_eq!(shown(&Value::Option(Some(Box::new(Value::Byte(1))))), "Some(1)");
    assert_eq!(shown(&Value::Option(None)), "None");
    let mut text = String::new();
    Key::Tuple(List::from_vec(vec![Key::String("a".to_string())])).append_debug(&mut text);
    assert_eq!(text, "(\"a\",)");
}

fn object(fields: Vec<(&str, Value)>) -> Value {
    let field = |(name, value): (&str, Value)| Field { name: name.to_string(), value };
    Value::Object(List::from_vec(fields.into_iter().map(field).collect()))
}

#[test]
fn objects_are_compared_by_their_fields() {
    let a = object(vec![("number", Value::Integer(42)), ("string", string("Hello World"))]);
    assert_eq!(a.eq(&a.copy()), Ok(true));
    assert_eq!(a.partial_eq(&object(vec![("number", Value::Integer(42))])), Ok(false));
    assert_eq!(object(vec![("a", Value::Unit)]).eq(&object(vec![("b", Value::Unit)])), Ok(false));
    assert_eq!(object(vec![("a", float(1.0))]).eq(&object(vec![("a", float(2.0))])), Ok(false));
    let nan = object(vec![("a", float(f64::NAN))]);
    assert_eq!(nan.partial_eq(&nan.copy()), Ok(false));
    assert!(matches!(nan.eq(&nan.copy()), Err(VmError::IllegalFloatComparison { .. })));
    assert!(matches!(
        a.eq(&Value::Unit),
        Err(VmError::UnsupportedBinaryOperation { .. })
    ));
    assert!(matches!(Key::from_value(&a), Err(VmError::KeyNotSupported { .. })));
}

#[test]
fn objects_are_shown_and_iterated_over() {
    let a = object(vec![("a", Value::Integer(1)), ("b", string("x"))]);
    assert_eq!(shown(&a), "{\"a\": 1, \"b\": \"x\"}");
    assert_eq!(shown(&object(vec![])), "{}");
    assert_eq!(a.type_info().name, "::std::object::Object");
    let (first, rest) = a.into_iter().unwrap().next();
    assert_eq!(first, Ok(Some(Value::Tuple(list(vec![string("a"), Value::Integer(1)])))));
    let (second, rest) = rest.next();
    assert_eq!(second, Ok(Some(Value::Tuple(list(vec![string("b"), string("x")])))));
    assert_eq!(rest.next().0, Ok(None));
}
