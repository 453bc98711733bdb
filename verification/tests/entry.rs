use hocon_bridge::failure::{Cause, LoadError, ReportedFailure};
use hocon_bridge::native::NativeObject;
use hocon_bridge::value::Value;
use hocon_bridge::text::is_loadable;
use hocon_bridge::{parse_string, present, try_parse_string};

fn text(s: &str) -> String {
    String::from(s)
}

#[test]
fn scalars_of_every_kind_round_trip() {
    let native = parse_string("a = 1\nb = 1.5\nc = \"x\"\nd = true\ne = null").unwrap();
    assert_eq!(
        native,
        NativeObject::Mapping(vec![
            (text("a"), NativeObject::Integer(1)),
            (text("b"), NativeObject::Float(1.5f64.to_bits())),
            (text("c"), NativeObject::Text(text("x"))),
            (text("d"), NativeObject::Boolean(true)),
            (text("e"), NativeObject::Null),
        ])
    );
}

#[test]
fn nested_list_keeps_its_order() {
    let native = parse_string("list = [1, 2, {x: \"y\"}]").unwrap();
    assert_eq!(
        native,
        NativeObject::Mapping(vec![(
            text("list"),
            NativeObject::List(vec![
                NativeObject::Integer(1),
                NativeObject::Integer(2),
                NativeObject::Mapping(vec![(text("x"), NativeObject::Text(text("y")))]),
            ]),
        )])
    );
}

#[test]
fn unresolved_key_is_an_error_object_among_good_siblings() {
    let native = parse_string("a = 1\nb = ${no.such.key.anywhere}\nc = \"z\"").unwrap();
    assert_eq!(
        native,
        NativeObject::Mapping(vec![
            (text("a"), NativeObject::Integer(1)),
            (
                text("b"),
                NativeObject::Error(text("Error looking for key '\"no.such.key.anywhere\"'")),
            ),
            (text("c"), NativeObject::Text(text("z"))),
        ])
    );
}

#[test]
fn unresolved_key_deep_inside_leaves_the_rest_standing() {
    let native = parse_string("a : { b : [ { c : 1 }, { c : ${a.missing} } ] }").unwrap();
    assert_eq!(
        native,
        NativeObject::Mapping(vec![(
            text("a"),
            NativeObject::Mapping(vec![(
                text("b"),
                NativeObject::List(vec![
                    NativeObject::Mapping(vec![(text("c"), NativeObject::Integer(1))]),
                    NativeObject::Mapping(vec![(
                        text("c"),
                        NativeObject::Error(text("Error looking for key '\"missing\"'")),
                    )]),
                ]),
            )]),
        )])
    );
}

#[test]
fn include_in_a_text_is_an_error_object_at_its_place() {
    let native = parse_string("a = 1\ninclude \"other.conf\"\n").unwrap();
    assert_eq!(
        native,
        NativeObject::Mapping(vec![
            (text("a"), NativeObject::Integer(1)),
            (
                text("other.conf"),
                NativeObject::Error(text("Error processing includes from a str source")),
            ),
        ])
    );
}

#[test]
fn invalid_text_is_a_reported_failure() {
    let outcome = parse_string("not valid { syntax");
    assert_eq!(
        outcome,
        Err(ReportedFailure {
            message: text("Error deserializing: \"file could not be parsed completely\""),
        })
    );
}

#[test]
fn unterminated_structures_are_reported_failures() {
    assert!(parse_string("a = [1, 2").is_err());
    assert!(parse_string("a = \"unterminated").is_err());
    assert!(parse_string("{ a = 1 } trailing").is_err());
    assert_eq!(
        parse_string("{"),
        Err(ReportedFailure { message: text("Error wile parsing document") })
    );
}

#[test]
fn empty_text_is_an_empty_mapping() {
    assert_eq!(parse_string(""), Ok(NativeObject::Mapping(vec![])));
    assert_eq!(parse_string("   "), Ok(NativeObject::Mapping(vec![])));
    assert_eq!(parse_string("# only a comment"), Ok(NativeObject::Mapping(vec![])));
}

#[test]
fn repeated_key_in_a_text_keeps_the_last_value() {
    assert_eq!(
        parse_string("a = 1\na = 2"),
        Ok(NativeObject::Mapping(vec![(text("a"), NativeObject::Integer(2))]))
    );
}

#[test]
fn integers_and_reals_stay_apart() {
    let native =
        parse_string("x = 9223372036854775807\ny = -9223372036854775808\nz = 1e3\nw = -0.0")
            .unwrap();
    assert_eq!(
        native,
        NativeObject::Mapping(vec![
            (text("x"), NativeObject::Integer(i64::MAX)),
            (text("y"), NativeObject::Integer(i64::MIN)),
            (text("z"), NativeObject::Float(1000.0f64.to_bits())),
            (text("w"), NativeObject::Float((-0.0f64).to_bits())),
        ])
    );
}

#[test]
fn substitution_is_filled_from_the_document() {
    assert_eq!(
        parse_string("a = 7\nb = ${a}"),
        Ok(NativeObject::Mapping(vec![
            (text("a"), NativeObject::Integer(7)),
            (text("b"), NativeObject::Integer(7)),
        ]))
    );
}

#[test]
fn substitution_is_not_filled_from_the_environment() {
    assert_eq!(
        parse_string("a = ${PATH}"),
        Ok(NativeObject::Mapping(vec![(
            text("a"),
            NativeObject::Error(text("Error looking for key '\"PATH\"'")),
        )]))
    );
}

#[test]
fn same_text_gives_the_same_result() {
    for input in ["a = 1\nb = [x, ${a}]", "not valid { syntax", "a = ${nowhere}", ""] {
        assert_eq!(parse_string(input), parse_string(input));
    }
}

#[test]
fn try_parse_string_parses_what_can_be_handed_over() {
    assert_eq!(
        try_parse_string("a = 1"),
        Some(Ok(NativeObject::Mapping(vec![(text("a"), NativeObject::Integer(1))])))
    );
    assert_eq!(try_parse_string("not valid { syntax"), Some(parse_string("not valid { syntax")));
}

#[test]
fn try_parse_string_declines_what_cannot_be_handed_over() {
    assert_eq!(try_parse_string("a = h\u{e9}llo"), None);
    assert_eq!(try_parse_string("a = ${true}"), None);
    assert_eq!(try_parse_string("a = ${1.5}"), None);
    assert_eq!(try_parse_string("a = \"\\u12\\\"\""), None);
    assert_eq!(try_parse_string("a = ${b}\nb = ${c}\nc = [1, {d = ${a}}]"), None);
    assert_eq!(try_parse_string("a = [1]\na += 2"), None);
}

#[test]
fn loadable_texts_are_ascii() {
    assert!(is_loadable(""));
    assert!(is_loadable("a = 1\nb = [true, null, \"x\"]\n# note\n"));
    assert!(is_loadable("a = \"\u{7f}\u{0}\""));
    assert!(!is_loadable("a = \"h\u{e9}llo\""));
    assert!(!is_loadable("\u{80}"));
}

#[test]
fn loadable_texts_hold_whole_escapes_only() {
    assert!(is_loadable("a = \"\\n\\t\\\"\""));
    assert!(is_loadable("a = \"\\u0041\\uabCD\""));
    assert!(is_loadable("a = \"\\u00419\""));
    assert!(!is_loadable("a = \"\\u004\""));
    assert!(!is_loadable("a = \"\\u004g\""));
    assert!(!is_loadable("\\u"));
    assert!(!is_loadable("\\u123"));
    assert!(is_loadable("\\"));
    assert!(is_loadable("\\x"));
}

#[test]
fn loadable_texts_hold_no_append() {
    assert!(is_loadable("a = 1 + 2"));
    assert!(is_loadable("a = +1"));
    assert!(is_loadable("a =+ 1"));
    assert!(is_loadable("+"));
    assert!(!is_loadable("a += 1"));
    assert!(!is_loadable("a+=1"));
    assert!(!is_loadable("+="));
    assert!(!is_loadable("a = \"+=\""));
}

#[test]
fn engine_returns_on_loadable_texts_of_many_shapes() {
    let texts = [
        "a { b { c { d = [ { e = ${a.b} } ] } } }",
        "a = [${a}]",
        "a = {b = [${a.b}]}",
        "a = ${b} [1, 2]",
        "a = {b = 1} ${a}",
        "a = [1, 2] [3]\nb = {x = 1} {y = 2}",
        "a = {}\nb = []\na = {c = 1}\nb = [2]",
        "a.0 = 1\na.1 = 2\n\"a b\".c = 3",
        "a = \"\\ud83d\\ude00 \\u0041\\n\"\nb = \"\"\"m\nl\"\"\"",
        "include \"f\"\ninclude file(\"g\")\ninclude url(\"h\")",
        "a = 1e400\nb = -\nc = .5\nd = 1.\ne = 0x10",
        "a = x ${?y} z",
        "= 1\n: 2\n,,,\n}{][",
        "a = 1\u{0}b = 2\u{7f}",
    ];
    for input in texts {
        assert!(is_loadable(input), "{:?}", input);
        assert_eq!(parse_string(input), parse_string(input), "{:?}", input);
    }
}

#[test]
fn loadable_texts_hold_one_plain_substitution_at_most() {
    assert!(is_loadable("a = ${b}"));
    assert!(is_loadable("a = ${?b}"));
    assert!(is_loadable("a = ${_b.c-d.e1}"));
    assert!(is_loadable("a = ${t}"));
    assert!(is_loadable("a = ${tru}"));
    assert!(is_loadable("a = ${a.true}"));
    assert!(!is_loadable("a = ${true}"));
    assert!(!is_loadable("a = ${trueish}"));
    assert!(!is_loadable("a = ${false}"));
    assert!(!is_loadable("a = ${?false}"));
    assert!(!is_loadable("a = ${1}"));
    assert!(!is_loadable("a = ${1.5}"));
    assert!(!is_loadable("a = ${-b}"));
    assert!(!is_loadable("a = ${.b}"));
    assert!(!is_loadable("a = ${}"));
    assert!(!is_loadable("a = ${?}"));
    assert!(!is_loadable("a = ${b c}"));
    assert!(!is_loadable("a = ${\"b\"}"));
    assert!(!is_loadable("a = ${${b}}"));
    assert!(!is_loadable("a = ${b"));
    assert!(!is_loadable("a = ${"));
    assert!(!is_loadable("a = $"));
    assert!(!is_loadable("$"));
    assert!(!is_loadable("a = $b"));
    assert!(!is_loadable("a = ${b}\nc = ${d}"));
    assert!(!is_loadable("a = ${b}$"));
}

#[test]
fn present_converts_a_loaded_document() {
    let loaded = Ok(Value::Array(vec![Value::Integer(7), Value::BadValue(text("lost"))]));
    assert_eq!(
        present(loaded),
        Ok(NativeObject::List(vec![NativeObject::Integer(7), NativeObject::Error(text("lost"))]))
    );
}

#[test]
fn present_reports_a_load_error_with_its_text() {
    let loaded = Err(LoadError { cause: Cause::File, message: text("cannot read it") });
    assert_eq!(present(loaded), Err(ReportedFailure { message: text("cannot read it") }));
}
