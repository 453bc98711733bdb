use hocon_bridge::bridge::convert;
use hocon_bridge::native::{set_item, NativeObject};
use hocon_bridge::value::Value;

fn word(s: &str) -> String {
    String::from(s)
}

#[test]
fn integer_becomes_the_same_integer() {
    assert_eq!(convert(&Value::Integer(0)), NativeObject::Integer(0));
    assert_eq!(convert(&Value::Integer(-42)), NativeObject::Integer(-42));
    assert_eq!(convert(&Value::Integer(i64::MAX)), NativeObject::Integer(i64::MAX));
    assert_eq!(convert(&Value::Integer(i64::MIN)), NativeObject::Integer(i64::MIN));
}

#[test]
fn real_becomes_the_float_of_the_same_bits() {
    for x in [0.0f64, -0.0, 1.5, 0.1, f64::MAX, f64::MIN_POSITIVE, f64::INFINITY, f64::NAN] {
        let native = convert(&Value::Real(x.to_bits()));
        assert_eq!(native, NativeObject::Float(x.to_bits()));
    }
    match convert(&Value::Real(2.5f64.to_bits())) {
        NativeObject::Float(bits) => assert_eq!(f64::from_bits(bits), 2.5),
        other => panic!("not a float: {:?}", other),
    }
}

#[test]
fn whole_real_is_not_turned_into_an_integer() {
    assert_eq!(convert(&Value::Real(3.0f64.to_bits())), NativeObject::Float(3.0f64.to_bits()));
    assert_ne!(convert(&Value::Real(3.0f64.to_bits())), NativeObject::Integer(3));
    assert_ne!(convert(&Value::Integer(3)), NativeObject::Float(3.0f64.to_bits()));
}

#[test]
fn text_and_truth_values_are_kept() {
    assert_eq!(convert(&Value::String(word("x"))), NativeObject::Text(word("x")));
    assert_eq!(convert(&Value::String(word(""))), NativeObject::Text(word("")));
    assert_eq!(convert(&Value::String(word("true"))), NativeObject::Text(word("true")));
    assert_eq!(convert(&Value::Boolean(true)), NativeObject::Boolean(true));
    assert_eq!(convert(&Value::Boolean(false)), NativeObject::Boolean(false));
}

#[test]
fn null_becomes_null_at_every_place() {
    assert_eq!(convert(&Value::Null), NativeObject::Null);
    assert_eq!(
        convert(&Value::Array(vec![Value::Null, Value::Array(vec![Value::Null])])),
        NativeObject::List(vec![NativeObject::Null, NativeObject::List(vec![NativeObject::Null])])
    );
    assert_eq!(
        convert(&Value::Hash(vec![(word("k"), Value::Null)])),
        NativeObject::Mapping(vec![(word("k"), NativeObject::Null)])
    );
}

#[test]
fn unresolved_node_becomes_an_error_object_with_its_message() {
    assert_eq!(
        convert(&Value::BadValue(word("no such key"))),
        NativeObject::Error(word("no such key"))
    );
}

#[test]
fn unresolved_nodes_at_any_depth_are_all_kept() {
    let document = Value::Hash(vec![
        (word("good"), Value::Integer(1)),
        (word("bad"), Value::BadValue(word("first"))),
        (
            word("deep"),
            Value::Array(vec![
                Value::Hash(vec![(word("inner"), Value::BadValue(word("second")))]),
                Value::BadValue(word("third")),
                Value::String(word("fine")),
            ]),
        ),
    ]);
    assert_eq!(
        convert(&document),
        NativeObject::Mapping(vec![
            (word("good"), NativeObject::Integer(1)),
            (word("bad"), NativeObject::Error(word("first"))),
            (
                word("deep"),
                NativeObject::List(vec![
                    NativeObject::Mapping(vec![(
                        word("inner"),
                        NativeObject::Error(word("second")),
                    )]),
                    NativeObject::Error(word("third")),
                    NativeObject::Text(word("fine")),
                ]),
            ),
        ])
    );
}

#[test]
fn array_keeps_length_and_order() {
    let items: Vec<Value> = (0..100).map(|n| Value::Integer(99 - n)).collect();
    match convert(&Value::Array(items)) {
        NativeObject::List(images) => {
            assert_eq!(images.len(), 100);
            for (i, image) in images.iter().enumerate() {
                assert_eq!(*image, NativeObject::Integer(99 - i as i64));
            }
        }
        other => panic!("not a list: {:?}", other),
    }
    assert_eq!(convert(&Value::Array(vec![])), NativeObject::List(vec![]));
}

#[test]
fn array_of_mixed_kinds_is_converted_item_by_item() {
    let document = Value::Array(vec![
        Value::Integer(1),
        Value::Real(1.0f64.to_bits()),
        Value::String(word("1")),
        Value::Boolean(true),
        Value::Null,
        Value::Array(vec![]),
        Value::Hash(vec![]),
    ]);
    assert_eq!(
        convert(&document),
        NativeObject::List(vec![
            NativeObject::Integer(1),
            NativeObject::Float(1.0f64.to_bits()),
            NativeObject::Text(word("1")),
            NativeObject::Boolean(true),
            NativeObject::Null,
            NativeObject::List(vec![]),
            NativeObject::Mapping(vec![]),
        ])
    );
}

#[test]
fn hash_keeps_its_key_set_and_order() {
    let document = Value::Hash(vec![
        (word("zeta"), Value::Integer(1)),
        (word("alpha"), Value::Integer(2)),
        (word(""), Value::Integer(3)),
    ]);
    assert_eq!(
        convert(&document),
        NativeObject::Mapping(vec![
            (word("zeta"), NativeObject::Integer(1)),
            (word("alpha"), NativeObject::Integer(2)),
            (word(""), NativeObject::Integer(3)),
        ])
    );
}

#[test]
fn repeated_key_keeps_its_first_place_and_its_last_value() {
    let document = Value::Hash(vec![
        (word("a"), Value::Integer(1)),
        (word("b"), Value::Integer(2)),
        (word("a"), Value::String(word("again"))),
        (word("c"), Value::Null),
        (word("b"), Value::BadValue(word("lost"))),
    ]);
    assert_eq!(
        convert(&document),
        NativeObject::Mapping(vec![
            (word("a"), NativeObject::Text(word("again"))),
            (word("b"), NativeObject::Error(word("lost"))),
            (word("c"), NativeObject::Null),
        ])
    );
}

#[test]
fn equal_subtrees_give_equal_images() {
    let twin = || Value::Hash(vec![(word("k"), Value::Array(vec![Value::Integer(1)]))]);
    match convert(&Value::Array(vec![twin(), twin()])) {
        NativeObject::List(images) => {
            assert_eq!(images.len(), 2);
            assert_eq!(images[0], images[1]);
        }
        other => panic!("not a list: {:?}", other),
    }
}

#[test]
fn deeply_nested_document_is_converted() {
    let mut document = Value::Integer(5);
    let mut expected = NativeObject::Integer(5);
    for depth in 0..200 {
        if depth % 2 == 0 {
            document = Value::Array(vec![document]);
            expected = NativeObject::List(vec![expected]);
        } else {
            document = Value::Hash(vec![(word("k"), document)]);
            expected = NativeObject::Mapping(vec![(word("k"), expected)]);
        }
    }
    assert_eq!(convert(&document), expected);
}

#[test]
fn set_item_appends_a_new_key() {
    let mut entries = vec![(word("a"), NativeObject::Integer(1))];
    set_item(&mut entries, word("b"), NativeObject::Integer(2));
    assert_eq!(
        entries,
        vec![(word("a"), NativeObject::Integer(1)), (word("b"), NativeObject::Integer(2))]
    );
}

#[test]
fn set_item_replaces_in_place() {
    let mut entries = vec![
        (word("a"), NativeObject::Integer(1)),
        (word("b"), NativeObject::Integer(2)),
        (word("c"), NativeObject::Integer(3)),
    ];
    set_item(&mut entries, word("b"), NativeObject::Null);
    assert_eq!(
        entries,
        vec![
            (word("a"), NativeObject::Integer(1)),
            (word("b"), NativeObject::Null),
            (word("c"), NativeObject::Integer(3)),
        ]
    );
}

#[test]
fn set_item_into_empty_entries() {
    let mut entries = Vec::new();
    set_item(&mut entries, word("only"), NativeObject::Boolean(true));
    assert_eq!(entries, vec![(word("only"), NativeObject::Boolean(true))]);
}

#[test]
fn set_item_replaces_the_first_of_equal_keys() {
    let mut entries = vec![
        (word("a"), NativeObject::Integer(1)),
        (word("a"), NativeObject::Integer(2)),
    ];
    set_item(&mut entries, word("a"), NativeObject::Integer(9));
    assert_eq!(
        entries,
        vec![(word("a"), NativeObject::Integer(9)), (word("a"), NativeObject::Integer(2))]
    );
}
