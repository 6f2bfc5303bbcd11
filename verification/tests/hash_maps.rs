use rune::list::List;
use rune::hash::Hash64;
use rune::module::{
    AssociatedKind, ContextError, DocFunction, DocType, FunctionDef, FunctionHandler,
    InstanceFunctionDef, Module, ModuleAssociatedKind,
};
use rune::modules::hash_map_calls::{call, Operands, Returned, CAPACITY};
use rune::modules::hash_map::{clone, from, setup, HashMap};
use rune::runtime::{
    Field, Key, Number, TypeOf, Value, ValueIterator, VmError, INTEGER_HASH,
};
use rune::ast::Float;

fn text(s: &str) -> Value {
    Value::String(s.to_string())
}

fn key(s: &str) -> Key {
    Key::String(s.to_string())
}

fn pair(k: Value, v: Value) -> Value {
    Value::Tuple(List::from_vec(vec![k, v]))
}

fn abc() -> HashMap {
    let value = Value::Vec(List::from_vec(vec![
        pair(text("a"), Value::Integer(1)),
        pair(text("b"), Value::Integer(2)),
        pair(text("c"), Value::Integer(3)),
    ]));
    from(value).unwrap()
}

fn drain(it: ValueIterator) -> Vec<Value> {
    let mut values = Vec::new();
    let mut it = it;
    loop {
        let (next, rest) = it.next();
        it = rest;
        match next.unwrap() {
            Some(value) => values.push(value),
            None => return values,
        }
    }
}

#[test]
fn insert_gives_the_value_that_is_replaced() {
    let mut map = HashMap::new();
    assert_eq!(map.insert(Key::Integer(37), text("a")), None);
    assert!(!map.is_empty());
    map.insert(Key::Integer(37), text("b"));
    assert_eq!(map.insert(Key::Integer(37), text("c")), Some(text("b")));
    assert_eq!(map.index_get(Key::Integer(37)), Ok(text("c")));
    assert_eq!(map.len(), 1);
}

#[test]
fn keys_are_looked_up_and_removed() {
    let mut map = HashMap::new();
    map.insert(Key::Integer(1), text("a"));
    assert_eq!(map.get(Key::Integer(1)), Some(text("a")));
    assert_eq!(map.get(Key::Integer(2)), None);
    assert!(map.contains_key(Key::Integer(1)));
    assert!(!map.contains_key(Key::Integer(2)));
    assert_eq!(map.remove(Key::Integer(1)), Some(text("a")));
    assert_eq!(map.remove(Key::Integer(1)), None);
    map.index_set(Key::Unit, text("b"));
    assert_eq!(map.len(), 1);
    map.clear();
    assert!(map.is_empty());
}

#[test]
fn missing_key_is_an_error() {
    let map = HashMap::new();
    assert_eq!(
        map.index_get(key("a")),
        Err(VmError::MissingIndexKey { target: HashMap::type_info(), index: key("a") })
    );
}

#[test]
fn capacity_is_a_lower_bound() {
    let mut map = HashMap::with_capacity(100);
    assert!(map.capacity() >= 100);
    assert!(map.is_empty());
    map.insert(Key::Unit, Value::Unit);
    map.clear();
    assert!(map.capacity() >= 100);
    let mut map = HashMap::new();
    assert_eq!(map.capacity(), 0);
    map.insert(Key::Unit, Value::Unit);
    assert!(map.capacity() >= 1);
}

#[test]
fn clone_is_independent() {
    let a = abc();
    let mut b = clone(&a);
    b.insert(key("d"), Value::Integer(4));
    assert_eq!(a.len(), 3);
    assert_eq!(b.len(), 4);
}

#[test]
fn keys_and_values_are_listed() {
    let map = abc();
    let keys = map.keys();
    assert_eq!(keys.name, "std::collections::map::Keys");
    let mut keys: Vec<String> = drain(keys).iter().map(|v| format!("{:?}", v)).collect();
    keys.sort();
    assert_eq!(keys, vec!["String(\"a\")", "String(\"b\")", "String(\"c\")"]);
    let values = map.values();
    assert_eq!(values.name, "std::collections::map::Values");
    let mut values: Vec<String> = drain(values).iter().map(|v| format!("{:?}", v)).collect();
    values.sort();
    assert_eq!(values, vec!["Integer(1)", "Integer(2)", "Integer(3)"]);
}

#[test]
fn entries_make_the_same_map_again() {
    let map = abc();
    let it = map.iter();
    assert_eq!(it.name, "std::collections::map::Iter");
    let again = HashMap::from_iter(it).unwrap();
    assert_eq!(map.eq(&again), Ok(true));
    assert_eq!(again.eq(&map), Ok(true));
}

#[test]
fn extend_keeps_what_came_before_an_error() {
    let mut map = HashMap::new();
    let value = Value::Vec(List::from_vec(vec![
        pair(text("a"), Value::Integer(1)),
        Value::Integer(2),
        pair(text("c"), Value::Integer(3)),
    ]));
    assert_eq!(
        map.extend(value),
        Err(VmError::Expected {
            expected: Value::Unit.type_info(),
            actual: Value::Integer(2).type_info(),
        })
    );
    assert_eq!(map.len(), 1);
    assert_eq!(map.get(key("a")), Some(Value::Integer(1)));
    assert!(map.extend(Value::Integer(1)).is_err());
    assert_eq!(map.extend(Value::Vec(List::Nil)), Ok(()));
    assert!(from(Value::Vec(List::from_vec(vec![Value::Unit]))).is_err());
}

#[test]
fn maps_are_compared() {
    let a = abc();
    let mut b = abc();
    assert_eq!(a.partial_eq(&b), Ok(true));
    b.insert(key("b"), Value::Integer(7));
    assert_eq!(a.eq(&b), Ok(false));
    b.remove(key("b"));
    assert_eq!(a.eq(&b), Ok(false));
    b.insert(key("x"), Value::Integer(2));
    assert_eq!(a.partial_eq(&b), Ok(false));

    let mut c = HashMap::new();
    let mut d = HashMap::new();
    c.insert(key("a"), Value::Integer(1));
    d.insert(key("a"), text("1"));
    assert!(c.eq(&d).is_err());

    let nan = || Value::Float(Number {
        value: Float { bits: f64::NAN.to_bits() },
        text: "NaN".to_string(),
    });
    c.insert(key("a"), nan());
    d.insert(key("a"), nan());
    assert_eq!(c.partial_eq(&d), Ok(false));
    assert!(matches!(c.eq(&d), Err(VmError::IllegalFloatComparison { .. })));
}

#[test]
fn maps_are_shown() {
    let mut map = HashMap::new();
    let mut s = "map: ".to_string();
    map.string_debug(&mut s);
    assert_eq!(s, "map: {}");
    map.insert(key("a"), Value::Integer(1));
    let mut s = String::new();
    map.string_debug(&mut s);
    assert_eq!(s, "{\"a\": 1}");
    let mut s = String::new();
    abc().string_debug(&mut s);
    assert_eq!(s.len(), "{\"a\": 1, \"b\": 2, \"c\": 3}".len());
}

#[test]
fn map_type_is_registered_once() {
    let mut module = Module::with_crate_item("std", vec!["collections"]).unwrap();
    assert_eq!(setup(&mut module), Ok(()));
    assert_eq!(module.types.len(), 1);
    assert_eq!(module.types[0].hash, HashMap::type_hash());
    assert_eq!(module.associated.len(), 22);
    assert_eq!(module.associated[0].common.docs.docs[0], " Creates an empty `HashMap`.");
    assert_eq!(
        module.associated[4].common.docs.arguments,
        Some(vec!["self".to_string(), "key".to_string(), "value".to_string()])
    );
    assert!(module.associated[21].common.docs.docs.is_empty());
    assert!(matches!(setup(&mut module), Err(ContextError::ConflictingType { .. })));
    assert_eq!(module.associated.len(), 22);
}

#[test]
fn documented_functions_are_registered() {
    let mut module = Module::with_crate_item("std", vec!["collections"]).unwrap();
    setup(&mut module).unwrap();
    let mut names = Vec::new();
    let mut protocols = Vec::new();

    for a in &module.associated {
        assert_eq!(a.container, HashMap::type_hash());
        match &a.name.kind {
            AssociatedKind::Instance(name) => names.push(name.as_str()),
            AssociatedKind::Protocol(protocol) => protocols.push(protocol.name),
            _ => panic!("expected a name or a protocol"),
        }
    }

    assert_eq!(
        names,
        vec![
            "new", "with_capacity", "len", "capacity", "insert", "get", "contains_key", "remove",
            "clear", "is_empty", "iter", "keys", "values", "extend", "from", "clone",
        ]
    );
    assert_eq!(
        protocols,
        vec!["INTO_ITER", "INDEX_SET", "INDEX_GET", "STRING_DEBUG", "PARTIAL_EQ", "EQ"]
    );

    let capacity = &module.associated[3];
    assert_eq!(capacity.common.docs.arguments, Some(vec!["self".to_string()]));
    assert_eq!(
        capacity.common.docs.docs[0],
        " Returns the number of elements the map can hold without reallocating."
    );
    assert_eq!(capacity.common.docs.docs[10], " assert!(map.capacity() >= 100);");
    match &capacity.kind {
        ModuleAssociatedKind::Function(f) => {
            assert_eq!(f.handler, FunctionHandler(CAPACITY));
            assert_eq!(f.doc.return_type.hash, Hash64(INTEGER_HASH));
        }
        _ => panic!("expected a function"),
    }
}

#[test]
fn maps_are_refused_where_one_of_their_functions_is_registered() {
    let mut module = Module::with_crate_item("std", vec!["collections"]).unwrap();
    let f = InstanceFunctionDef {
        container: HashMap::type_hash(),
        container_type_info: HashMap::type_info(),
        function: FunctionDef {
            handler: FunctionHandler(0),
            doc: DocFunction {
                is_async: false,
                args: None,
                return_type: DocType { hash: Hash64(0), generics: Vec::new() },
                argument_types: Vec::new(),
            },
        },
    };
    module.associated_function("capacity", f).unwrap();
    assert!(matches!(setup(&mut module), Err(ContextError::ConflictingInstanceFunction { .. })));
    assert_eq!(module.associated.len(), 4);
}

#[test]
fn maps_are_made_of_objects() {
    let object = Value::Object(List::from_vec(vec![
        Field { name: "a".to_string(), value: Value::Integer(1) },
        Field { name: "b".to_string(), value: Value::Integer(2) },
    ]));
    let map = from(object).unwrap();
    assert_eq!(map.len(), 2);
    assert_eq!(map.get(key("b")), Some(Value::Integer(2)));
}

fn registered(name: &str) -> FunctionHandler {
    let mut module = Module::with_crate_item("std", vec!["collections"]).unwrap();
    setup(&mut module).unwrap();

    for a in &module.associated {
        let found = match &a.name.kind {
            AssociatedKind::Instance(instance) => instance == name,
            AssociatedKind::Protocol(protocol) => protocol.name == name,
            _ => false,
        };

        if let (true, ModuleAssociatedKind::Function(f)) = (found, &a.kind) {
            return f.handler;
        }
    }

    panic!("expected a function")
}

#[test]
fn registered_functions_are_called() {
    let mut map = HashMap::new();
    let entry = |k, n| Operands::Entry(key(k), Value::Integer(n));
    let r = call(registered("insert"), entry("a", 1), &mut map);
    assert!(matches!(r, Some(Ok(Returned::Optional(None)))));
    let r = call(registered("insert"), entry("a", 2), &mut map);
    assert!(matches!(r, Some(Ok(Returned::Optional(Some(Value::Integer(1)))))));
    let r = call(registered("INDEX_SET"), entry("b", 3), &mut map);
    assert!(matches!(r, Some(Ok(Returned::Unit))));
    let r = call(registered("get"), Operands::Key(key("b")), &mut map);
    assert!(matches!(r, Some(Ok(Returned::Optional(Some(Value::Integer(3)))))));
    let r = call(registered("contains_key"), Operands::Key(key("c")), &mut map);
    assert!(matches!(r, Some(Ok(Returned::Bool(false)))));
    let r = call(registered("INDEX_GET"), Operands::Key(key("c")), &mut map);
    assert!(matches!(r, Some(Err(VmError::MissingIndexKey { .. }))));
    let r = call(registered("INDEX_GET"), Operands::Key(key("a")), &mut map);
    assert!(matches!(r, Some(Ok(Returned::Value(Value::Integer(2))))));
    let r = call(registered("len"), Operands::Nothing, &mut map);
    assert!(matches!(r, Some(Ok(Returned::Size(2)))));
    let r = call(registered("capacity"), Operands::Nothing, &mut map);
    assert!(matches!(r, Some(Ok(Returned::Size(n))) if n >= 2));
    let r = call(registered("is_empty"), Operands::Nothing, &mut map);
    assert!(matches!(r, Some(Ok(Returned::Bool(false)))));
    let r = call(registered("remove"), Operands::Key(key("b")), &mut map);
    assert!(matches!(r, Some(Ok(Returned::Optional(Some(Value::Integer(3)))))));

    for name in ["iter", "INTO_ITER"] {
        match call(registered(name), Operands::Nothing, &mut map) {
            Some(Ok(Returned::Iterator(it))) => {
                assert_eq!(drain(it), vec![pair(text("a"), Value::Integer(2))])
            }
            _ => panic!("expected an iterator"),
        }
    }
    match call(registered("keys"), Operands::Nothing, &mut map) {
        Some(Ok(Returned::Iterator(it))) => assert_eq!(drain(it), vec![text("a")]),
        _ => panic!("expected an iterator"),
    }
    match call(registered("values"), Operands::Nothing, &mut map) {
        Some(Ok(Returned::Iterator(it))) => assert_eq!(drain(it), vec![Value::Integer(2)]),
        _ => panic!("expected an iterator"),
    }
    match call(registered("STRING_DEBUG"), Operands::Text("= ".to_string()), &mut map) {
        Some(Ok(Returned::Text(text))) => assert_eq!(text, "= {\"a\": 2}"),
        _ => panic!("expected a text"),
    }

    let other = match call(registered("clone"), Operands::Nothing, &mut map) {
        Some(Ok(Returned::HashMap(map))) => map,
        _ => panic!("expected a map"),
    };
    let r = call(registered("EQ"), Operands::HashMap(other), &mut map);
    assert!(matches!(r, Some(Ok(Returned::Bool(true)))));
    let r = call(registered("PARTIAL_EQ"), Operands::HashMap(abc()), &mut map);
    assert!(matches!(r, Some(Ok(Returned::Bool(false)))));

    let pairs = || Operands::Value(Value::Vec(List::from_vec(vec![pair(text("z"), Value::Unit)])));
    let r = call(registered("extend"), pairs(), &mut map);
    assert!(matches!(r, Some(Ok(Returned::Unit))));
    assert_eq!(map.len(), 2);
    let r = call(registered("from"), pairs(), &mut map);
    assert!(matches!(r, Some(Ok(Returned::HashMap(map))) if map.len() == 1));
    let r = call(registered("from"), Operands::Value(Value::Unit), &mut map);
    assert!(matches!(r, Some(Err(VmError::MissingProtocolFunction { .. }))));
    let r = call(registered("with_capacity"), Operands::Size(7), &mut map);
    assert!(matches!(r, Some(Ok(Returned::HashMap(map))) if map.capacity() >= 7));
    let r = call(registered("new"), Operands::Nothing, &mut map);
    assert!(matches!(r, Some(Ok(Returned::HashMap(map))) if map.is_empty()));
    let r = call(registered("clear"), Operands::Nothing, &mut map);
    assert!(matches!(r, Some(Ok(Returned::Unit))));
    assert!(map.is_empty());
    assert!(call(registered("clear"), Operands::Size(1), &mut map).is_none());
    assert!(call(FunctionHandler(99), Operands::Nothing, &mut map).is_none());
}

#[test]
fn extending_keeps_capacity() {
    let mut map = HashMap::with_capacity(10);
    map.extend(Value::Vec(List::from_vec(vec![pair(text("z"), Value::Unit)]))).unwrap();
    assert!(map.capacity() >= 10);
}
