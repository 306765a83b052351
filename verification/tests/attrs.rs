use nestum::attrs::{
    attribute_is_marker, attributes_mark, external_path_from, extract_simple_ident,
    extract_single_tuple_type, first_marker, nestum_attr_kind, parse_variant_external_path,
    strip_markers, ExternalPath, Marker,
};
use nestum::diag::{ErrorKind, Site};
use nestum::syntax::{
    Attribute, AttributeArgs, Case, Meta, MetaValue, NamedField, Payload, TypeRef,
};

fn s(text: &str) -> String {
    text.to_string()
}

fn names(items: &[&str]) -> Vec<String> {
    items.iter().map(|x| x.to_string()).collect()
}

fn attr(name: Option<&str>, args: AttributeArgs) -> Attribute {
    Attribute { name: name.map(s), args, text: s("#[..]") }
}

fn external(path: &str) -> Attribute {
    attr(
        Some("nestum"),
        AttributeArgs::List(vec![Meta::NameValue {
            key: Some(s("external")),
            value: MetaValue::text(s(path)),
        }]),
    )
}

#[test]
fn only_the_single_name_nestum_is_the_marker() {
    assert!(attribute_is_marker(&attr(Some("nestum"), AttributeArgs::Absent)));
    assert!(!attribute_is_marker(&attr(Some("nestum2"), AttributeArgs::Absent)));
    assert!(!attribute_is_marker(&attr(Some("Nestum"), AttributeArgs::Absent)));
    assert!(!attribute_is_marker(&attr(Some("derive"), AttributeArgs::Absent)));
    assert!(!attribute_is_marker(&attr(None, AttributeArgs::Absent)));
}

#[test]
fn marker_kind_of_a_declaration() {
    let derive = attr(Some("derive"), AttributeArgs::List(vec![Meta::Other]));
    assert_eq!(nestum_attr_kind(&vec![], Site::Registry), Ok(Marker::Absent));
    assert_eq!(nestum_attr_kind(&vec![derive.clone()], Site::Registry), Ok(Marker::Absent));
    assert_eq!(
        nestum_attr_kind(&vec![derive.clone(), attr(Some("nestum"), AttributeArgs::Absent)], Site::Registry),
        Ok(Marker::Plain)
    );
    assert_eq!(
        nestum_attr_kind(&vec![attr(Some("nestum"), AttributeArgs::List(vec![]))], Site::Registry),
        Ok(Marker::Plain)
    );
    assert_eq!(
        nestum_attr_kind(
            &vec![attr(Some("nestum"), AttributeArgs::List(vec![Meta::Other]))],
            Site::Registry
        ),
        Ok(Marker::WithArgs)
    );
    let d = nestum_attr_kind(
        &vec![attr(Some("nestum"), AttributeArgs::Malformed(s("bad tokens")))],
        Site::Case(2),
    )
    .unwrap_err();
    assert_eq!(d.kind, ErrorKind::InvalidAnnotation);
    assert_eq!(d.site, Site::Case(2));
    assert_eq!(d.message, "bad tokens");
}

#[test]
fn only_the_first_marker_counts() {
    let attrs = vec![
        attr(Some("nestum"), AttributeArgs::List(vec![Meta::Other])),
        attr(Some("nestum"), AttributeArgs::Absent),
    ];
    assert_eq!(first_marker(&attrs), Some(0));
    assert_eq!(nestum_attr_kind(&attrs, Site::Registry), Ok(Marker::WithArgs));
    assert!(!attributes_mark(&attrs));
    let attrs = vec![attrs[1].clone(), attrs[0].clone()];
    assert!(attributes_mark(&attrs));
    assert_eq!(first_marker(&vec![attr(Some("x"), AttributeArgs::Absent)]), None);
}

#[test]
fn external_reference_is_parsed_into_its_names() {
    let found = parse_variant_external_path(&vec![external("crate::a::Inner")], Site::Registry);
    assert_eq!(
        found,
        Ok(Some(ExternalPath {
            text: s("crate::a::Inner"),
            names: names(&["crate", "a", "Inner"])
        }))
    );
    let found = parse_variant_external_path(&vec![external("Inner")], Site::Registry);
    assert_eq!(found.unwrap().unwrap().names, names(&["Inner"]));
}

#[test]
fn external_reference_keeps_names_and_drops_the_rest() {
    let found = parse_variant_external_path(&vec![external("::a::B<u8>::C")], Site::Registry);
    let path = found.unwrap().unwrap();
    assert_eq!(path.text, "::a::B<u8>::C");
    assert_eq!(path.names, names(&["a", "B", "C"]));
    let found = parse_variant_external_path(&vec![external(" a :: b ")], Site::Registry);
    assert_eq!(found.unwrap().unwrap().names, names(&["a", "b"]));
}

#[test]
fn external_reference_must_be_a_path() {
    for text in ["crate::", "", "1", "a b", "a::", "::", "a::(b)", "a + b", "\"x\""] {
        let d = parse_variant_external_path(&vec![external(text)], Site::CaseAnnotation(0))
            .unwrap_err();
        assert_eq!(d.kind, ErrorKind::InvalidAnnotation);
        assert_eq!(d.site, Site::CaseAnnotation(0));
        assert_eq!(d.message, "external must be a valid Rust path, e.g. \"crate::foo::Enum\"");
    }
}

#[test]
fn case_without_marker_has_no_external_reference() {
    assert_eq!(parse_variant_external_path(&vec![], Site::Registry), Ok(None));
    let doc = attr(Some("doc"), AttributeArgs::Malformed(s("expected parentheses")));
    assert_eq!(parse_variant_external_path(&vec![doc], Site::Registry), Ok(None));
}

#[test]
fn external_path_from_takes_what_the_parser_made() {
    assert_eq!(
        external_path_from(&s("a::B"), Some(names(&["a", "B"])), Site::Registry),
        Ok(Some(ExternalPath { text: s("a::B"), names: names(&["a", "B"]) }))
    );
    let d = external_path_from(&s("a::"), None, Site::CaseAnnotation(4)).unwrap_err();
    assert_eq!(d.kind, ErrorKind::InvalidAnnotation);
    assert_eq!(d.site, Site::CaseAnnotation(4));
    assert_eq!(d.message, "external must be a valid Rust path, e.g. \"crate::foo::Enum\"");
}

fn case(payload: Payload) -> Case {
    Case { name: s("C"), attrs: vec![], payload }
}

fn ty(text: &str, path: Option<&[&str]>) -> TypeRef {
    TypeRef { text: s(text), path: path.map(names) }
}

#[test]
fn single_tuple_type_needs_exactly_one_positional_field() {
    let one = case(Payload::Tuple(vec![ty("Inner", Some(&["Inner"]))]));
    assert_eq!(extract_single_tuple_type(&one), Some(&ty("Inner", Some(&["Inner"]))));
    assert_eq!(extract_single_tuple_type(&case(Payload::Unit)), None);
    assert_eq!(extract_single_tuple_type(&case(Payload::Tuple(vec![]))), None);
    assert_eq!(
        extract_single_tuple_type(&case(Payload::Tuple(vec![
            ty("A", Some(&["A"])),
            ty("B", Some(&["B"]))
        ]))),
        None
    );
    assert_eq!(
        extract_single_tuple_type(&case(Payload::Record(vec![NamedField {
            name: s("x"),
            ty: ty("A", Some(&["A"]))
        }]))),
        None
    );
}

#[test]
fn simple_ident_is_the_last_name_of_a_plain_path() {
    assert_eq!(extract_simple_ident(&ty("Inner", Some(&["Inner"])), Site::Registry), Ok(&s("Inner")));
    assert_eq!(
        extract_simple_ident(&ty("a::b::Inner", Some(&["a", "b", "Inner"])), Site::Registry),
        Ok(&s("Inner"))
    );
    assert_eq!(
        extract_simple_ident(&ty("Option<Inner>", Some(&["Option"])), Site::Registry),
        Ok(&s("Option"))
    );
    let d = extract_simple_ident(&ty("&Inner", None), Site::CaseType(1)).unwrap_err();
    assert_eq!(d.kind, ErrorKind::ShapeMismatch);
    assert_eq!(d.site, Site::CaseType(1));
    assert_eq!(d.message, "nested enum type must be a simple path ident");
    let d = extract_simple_ident(&ty("", Some(&[])), Site::CaseType(1)).unwrap_err();
    assert_eq!(d.message, "unsupported type path");
}

#[test]
fn strip_markers_keeps_the_rest_in_order() {
    let a = attr(Some("a"), AttributeArgs::Absent);
    let b = attr(None, AttributeArgs::Malformed(s("x")));
    let m = attr(Some("nestum"), AttributeArgs::Absent);
    let e = external("crate::X");
    assert_eq!(
        strip_markers(&vec![m.clone(), a.clone(), e.clone(), b.clone(), m.clone()]),
        vec![a.clone(), b.clone()]
    );
    assert_eq!(strip_markers(&vec![]), vec![]);
    assert_eq!(strip_markers(&vec![m, e]), vec![]);
    assert_eq!(strip_markers(&vec![a.clone(), b.clone()]), vec![a, b]);
}

#[test]
fn text_value_keeps_its_contents_and_reads_them_as_a_path() {
    assert_eq!(
        MetaValue::text(s("crate::a::Inner")),
        MetaValue::Text { text: s("crate::a::Inner"), path: Some(names(&["crate", "a", "Inner"])) }
    );
    assert_eq!(MetaValue::text(s("a::")), MetaValue::Text { text: s("a::"), path: None });
    assert_eq!(MetaValue::text(s("")), MetaValue::Text { text: s(""), path: None });
    match MetaValue::text(s("x")) {
        MetaValue::Text { path: Some(read), .. } => assert!(read.len() >= 1),
        other => panic!("{:?}", other),
    }
}

#[test]
fn long_text_is_not_read_as_a_path() {
    let at_limit = format!("{}::B", "a".repeat(253));
    assert_eq!(at_limit.chars().count(), 256);
    assert_eq!(
        MetaValue::text(at_limit.clone()),
        MetaValue::Text { text: at_limit, path: Some(vec!["a".repeat(253), s("B")]) }
    );
    let too_long = format!("{}::B", "a".repeat(254));
    assert_eq!(
        MetaValue::text(too_long.clone()),
        MetaValue::Text { text: too_long.clone(), path: None }
    );
    let nested = format!("{}u8{}", "A<".repeat(20000), ">".repeat(20000));
    assert_eq!(MetaValue::text(nested.clone()), MetaValue::Text { text: nested, path: None });
    let with = Attribute {
        name: Some(s("nestum")),
        args: AttributeArgs::List(vec![Meta::NameValue {
            key: Some(s("external")),
            value: MetaValue::text(too_long),
        }]),
        text: s("#[..]"),
    };
    let d = parse_variant_external_path(&vec![with], Site::CaseAnnotation(0)).unwrap_err();
    assert_eq!(d.kind, ErrorKind::InvalidAnnotation);
    assert_eq!(d.message, "external must be a valid Rust path, e.g. \"crate::foo::Enum\"");
}

#[test]
fn external_reference_is_what_the_value_holds() {
    let held = |path: Option<Vec<String>>| Attribute {
        name: Some(s("nestum")),
        args: AttributeArgs::List(vec![Meta::NameValue {
            key: Some(s("external")),
            value: MetaValue::Text { text: s("written"), path },
        }]),
        text: s("#[..]"),
    };
    assert_eq!(
        parse_variant_external_path(&vec![held(Some(names(&["x", "Y"])))], Site::Registry),
        Ok(Some(ExternalPath { text: s("written"), names: names(&["x", "Y"]) }))
    );
    let d = parse_variant_external_path(&vec![held(None)], Site::Registry).unwrap_err();
    assert_eq!(d.message, "external must be a valid Rust path, e.g. \"crate::foo::Enum\"");
}
