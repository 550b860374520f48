use oso_bridge::{
    dictionary_to_polar, equality_not_supported, list_to_polar, string_to_polar, Class, Constructor, EqualityCheck,
    Host, InstanceMethod, Native, Table, Object, OsoError, PolarIter, Returned, Scalar,
    ToPolar, ToPolarResults, Value, CLASS_TYPE_ID,
};

const FOO: u64 = 1;
const BAR: u64 = 2;

fn foo(fields: Vec<Scalar>) -> Native {
    Native::Object(Object { type_id: FOO, fields })
}

fn integer(i: i64) -> Returned {
    Returned::Single(Value::Integer(i))
}

#[test]
fn equals_without_equality_is_unsupported() {
    let class = Class::new(FOO, "Foo").build();
    let a = class.cast_to_instance(foo(vec![Scalar::Integer(1)]));
    let b = class.cast_to_instance(foo(vec![Scalar::Integer(1)]));
    let expected = OsoError::UnsupportedOperation {
        operation: "equals".to_string(),
        class_name: "Foo".to_string(),
    };
    assert_eq!(class.equals(&a, &b), Err(expected.clone()));
    assert_eq!(a.equals(&b), Err(expected));
}

#[test]
fn equality_not_supported_names_the_type() {
    assert_eq!(
        equality_not_supported("Bar".to_string()),
        Err(OsoError::UnsupportedOperation {
            operation: "equals".to_string(),
            class_name: "Bar".to_string(),
        })
    );
}

#[test]
fn native_equality_compares_fields() {
    let class = Class::new(FOO, "Foo").with_equality_check().build();
    let a = class.cast_to_instance(foo(vec![Scalar::Integer(1), Scalar::Boolean(true)]));
    let b = class.cast_to_instance(foo(vec![Scalar::Integer(1), Scalar::Boolean(true)]));
    let c = class.cast_to_instance(foo(vec![Scalar::Integer(2), Scalar::Boolean(true)]));
    assert_eq!(class.equals(&a, &b), Ok(true));
    assert_eq!(class.equals(&a, &c), Ok(false));
    assert_eq!(a.equals(&c), Ok(false));
}

#[test]
fn equality_across_types_fails_to_downcast() {
    let class = Class::new(FOO, "Foo").set_equality_check(EqualityCheck::Native).build();
    let bar = Class::new(BAR, "Bar").build();
    let a = class.cast_to_instance(foo(vec![]));
    let b = bar.cast_to_instance(Native::Object(Object { type_id: BAR, fields: vec![] }));
    assert_eq!(
        class.equals(&a, &b),
        Err(OsoError::DowncastFailed { class_name: "Foo".to_string() })
    );
}

#[test]
fn cast_instance_is_instance_of_its_class() {
    let class = Class::new(FOO, "Foo").build();
    let bar = Class::new(BAR, "Bar").build();
    let i = class.cast_to_instance(foo(vec![Scalar::Boolean(false)]));
    assert!(class.is_instance(&i));
    assert!(!bar.is_instance(&i));
    let j = bar.cast_to_instance(foo(vec![]));
    assert!(class.is_instance(&j));
    assert!(!bar.is_instance(&j));
}

#[test]
fn is_class_checks_the_token() {
    let class = Class::new(FOO, "Foo").build();
    assert!(class.is_class(FOO));
    assert!(!class.is_class(BAR));
}

#[test]
fn fallible_results() {
    let err = Returned::Fallible(Err("boom".to_string())).to_polar_results();
    assert_eq!(err, vec![Err(OsoError::Custom { message: "boom".to_string() })]);
    let ok = Returned::Fallible(Ok(Box::new(integer(4)))).to_polar_results();
    assert_eq!(ok, vec![Ok(Value::Integer(4))]);
    let many = Returned::Fallible(Ok(Box::new(Returned::Many(PolarIter {
        iter: vec![integer(1), integer(2)],
    }))))
    .to_polar_results();
    assert_eq!(many, vec![Ok(Value::Integer(1)), Ok(Value::Integer(2))]);
}

#[test]
fn optional_results() {
    assert_eq!(Returned::Optional(None).to_polar_results(), vec![]);
    let some = Returned::Optional(Some(Box::new(Returned::Single(Value::Boolean(true)))));
    assert_eq!(some.to_polar_results(), vec![Ok(Value::Boolean(true))]);
}

#[test]
fn iterator_of_options_drops_absent_in_order() {
    let items = PolarIter {
        iter: vec![
            Returned::Optional(Some(Box::new(integer(1)))),
            Returned::Optional(None),
            Returned::Optional(Some(Box::new(integer(3)))),
        ],
    };
    assert_eq!(items.to_polar_results(), vec![Ok(Value::Integer(1)), Ok(Value::Integer(3))]);
}

#[test]
fn iterator_keeps_errors_in_place() {
    let items = Returned::Many(PolarIter {
        iter: vec![integer(1), Returned::Fallible(Err("bad".to_string())), integer(2)],
    });
    assert_eq!(
        items.to_polar_results(),
        vec![
            Ok(Value::Integer(1)),
            Err(OsoError::Custom { message: "bad".to_string() }),
            Ok(Value::Integer(2)),
        ]
    );
}

#[test]
fn empty_iterator_gives_no_results() {
    assert_eq!(PolarIter { iter: vec![] }.to_polar_results(), vec![]);
}

#[test]
fn second_method_of_a_name_wins() {
    let class = Class::new(FOO, "Foo").add_method("m", 10).add_method("m", 20).build();
    let name = "m".to_string();
    assert_eq!(class.instance_methods.get(&name), Some(InstanceMethod::Call(20)));
    assert_eq!(class.instance_methods.len(), 1);
    let i = class.cast_to_instance(foo(vec![]));
    assert_eq!(i.methods.get(&name), Some(InstanceMethod::Call(20)));
}

#[test]
fn method_kinds_and_tables() {
    let class = Class::new(FOO, "Foo")
        .add_attribute_getter("x", 1)
        .add_iterator_method("each", 2)
        .add_class_method("make", 3)
        .build();
    assert_eq!(class.attributes.get(&"x".to_string()), Some(InstanceMethod::Call(1)));
    assert_eq!(class.instance_methods.get(&"each".to_string()), Some(InstanceMethod::Iterate(2)));
    assert_eq!(class.instance_methods.get(&"x".to_string()), None);
    assert_eq!(class.class_methods.get(&"make".to_string()).map(|m| m.function), Some(3));
}

#[test]
fn init_without_constructor_is_missing_constructor() {
    let class = Class::new(FOO, "Foo").build();
    let r = class.init(vec![Scalar::Integer(1)]);
    assert!(matches!(r, Err(OsoError::MissingConstructor { ref class_name }) if class_name == "Foo"));
}

#[test]
fn init_with_default_builds_default() {
    let class = Class::with_default(FOO, "Foo", vec![Scalar::Integer(0)]).build();
    let i = class.init(vec![]).unwrap();
    assert_eq!(i.name, "Foo");
    match i.instance {
        Native::Object(o) => assert_eq!(o, Object { type_id: FOO, fields: vec![Scalar::Integer(0)] }),
        Native::Class(_) => panic!("expected an object"),
    }
}

#[test]
fn init_with_record_constructor() {
    let class = Class::with_constructor(FOO, "Foo", Constructor::Record(2)).build();
    let i = class.init(vec![Scalar::Integer(5), Scalar::Boolean(true)]).unwrap();
    assert!(class.is_instance(&i));
    match &i.instance {
        Native::Object(o) => assert_eq!(o.fields, vec![Scalar::Integer(5), Scalar::Boolean(true)]),
        Native::Class(_) => panic!("expected an object"),
    }
    let wrong = class.init(vec![Scalar::Integer(5)]);
    assert!(matches!(
        wrong,
        Err(OsoError::WrongArity { ref class_name, expected: 2, found: 1 }) if class_name == "Foo"
    ));
}

#[test]
fn instances_keep_their_snapshot() {
    let class = Class::new(FOO, "Foo").add_method("m", 1).build();
    let i = class.cast_to_instance(foo(vec![]));
    let changed = class.copy().add_method("m", 2).add_method("n", 3).name("Other").build();
    assert_eq!(changed.instance_methods.get(&"m".to_string()), Some(InstanceMethod::Call(2)));
    assert_eq!(i.methods.get(&"m".to_string()), Some(InstanceMethod::Call(1)));
    assert_eq!(i.methods.get(&"n".to_string()), None);
    assert_eq!(i.class.instance_methods.get(&"m".to_string()), Some(InstanceMethod::Call(1)));
    assert_eq!(i.name, "Foo");
    assert_eq!(class.instance_methods.get(&"m".to_string()), Some(InstanceMethod::Call(1)));
}

#[test]
fn rename_descriptor() {
    let class = Class::new(FOO, "a::b::Foo").name("Foo").build();
    assert_eq!(class.name, "Foo");
    assert_eq!(class.erase_type().type_id, FOO);
}

#[test]
fn scalar_and_list_terms() {
    assert_eq!(Scalar::Integer(-3).to_polar_value(), Value::Integer(-3));
    assert_eq!(Scalar::Boolean(true).to_polar_value(), Value::Boolean(true));
    assert_eq!(string_to_polar("hi"), Value::String("hi".to_string()));
    assert_eq!(
        list_to_polar(&vec![Scalar::Integer(1), Scalar::Boolean(false)]),
        Value::List(vec![Value::Integer(1), Value::Boolean(false)])
    );
    assert_eq!(list_to_polar(&vec![]), Value::List(vec![]));
}

#[test]
fn object_to_polar_caches_instance() {
    let mut host = Host::new();
    host.cache_class(Class::new(FOO, "Foo").build());
    let v = host.object_to_polar(Object { type_id: FOO, fields: vec![Scalar::Integer(9)] });
    assert_eq!(v, Value::ExternalInstance { instance_id: 0, repr: None });
    let w = host.object_to_polar(Object { type_id: FOO, fields: vec![] });
    assert_eq!(w, Value::ExternalInstance { instance_id: 1, repr: None });
    let i = host.get_instance(0).unwrap();
    assert_eq!(i.name, "Foo");
    assert!(host.get_instance(2).is_none());
}

#[test]
fn class_to_polar_registers_forwarders_once() {
    let mut host = Host::new();
    let class = Class::new(FOO, "Foo").add_class_method("make", 7).add_class_method("find", 8).build();
    let v = host.class_to_polar(&class);
    assert_eq!(
        v,
        Value::ExternalInstance { instance_id: 0, repr: Some("type<Foo>".to_string()) }
    );
    let tc = host.type_class();
    assert_eq!(tc.type_id, CLASS_TYPE_ID);
    assert_eq!(tc.instance_methods.get(&"make".to_string()), Some(InstanceMethod::FromClassMethod));
    assert_eq!(tc.instance_methods.get(&"find".to_string()), Some(InstanceMethod::FromClassMethod));
    assert_eq!(tc.instance_methods.len(), 2);
    let again = host.class_to_polar(&class);
    assert_eq!(
        again,
        Value::ExternalInstance { instance_id: 1, repr: Some("type<Foo>".to_string()) }
    );
    assert_eq!(host.type_class().instance_methods.len(), 2);
    let cached = host.get_instance(1).unwrap();
    assert!(matches!(&cached.instance, Native::Class(c) if c.name == "Foo"));
    assert_eq!(cached.methods.len(), 2);
}

#[test]
fn registering_a_type_twice_replaces_it() {
    let mut host = Host::new();
    host.cache_class(Class::new(FOO, "Old").build());
    host.cache_class(Class::new(FOO, "New").build());
    assert_eq!(host.get_class_from_type(FOO).unwrap().name, "New");
    assert!(host.get_class_from_type(BAR).is_none());
}

#[test]
fn to_polar_trait_converts_each_kind() {
    let mut host = Host::new();
    host.cache_class(Class::new(FOO, "Foo").add_class_method("make", 1).build());
    assert_eq!(ToPolar::to_polar_value(&Scalar::Integer(12), &mut host), Value::Integer(12));
    assert_eq!(
        ToPolar::to_polar_value(&"abc".to_string(), &mut host),
        Value::String("abc".to_string())
    );
    assert_eq!(
        ToPolar::to_polar_value(&vec![Scalar::Boolean(true)], &mut host),
        Value::List(vec![Value::Boolean(true)])
    );
    let object = Object { type_id: FOO, fields: vec![Scalar::Integer(1)] };
    assert_eq!(
        ToPolar::to_polar_value(&object, &mut host),
        Value::ExternalInstance { instance_id: 0, repr: None }
    );
    let class = host.get_class_from_type(FOO).unwrap().copy();
    assert_eq!(
        ToPolar::to_polar_value(&class, &mut host),
        Value::ExternalInstance { instance_id: 1, repr: Some("type<Foo>".to_string()) }
    );
    assert_eq!(
        host.type_class().instance_methods.get(&"make".to_string()),
        Some(InstanceMethod::FromClassMethod)
    );
}


#[test]
fn dictionary_terms() {
    let mut map: Table<Scalar> = Table::new();
    map.insert("a".to_string(), Scalar::Integer(1));
    map.insert("b".to_string(), Scalar::Boolean(false));
    map.insert("a".to_string(), Scalar::Integer(2));
    assert_eq!(
        dictionary_to_polar(&map),
        Value::Dictionary(vec![
            ("a".to_string(), Value::Integer(2)),
            ("b".to_string(), Value::Boolean(false)),
        ])
    );
    let mut host = Host::new();
    assert_eq!(ToPolar::to_polar_value(&map, &mut host), dictionary_to_polar(&map));
    assert_eq!(dictionary_to_polar(&Table::new()), Value::Dictionary(vec![]));
}
