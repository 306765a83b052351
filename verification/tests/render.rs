use nestum::attrs::ExternalPath;
use nestum::expand::{build_wrappers, build_wrappers_with_path, ForwarderModule};
use nestum::layout::in_namespace;
use nestum::pattern::{Pattern, PatternPath};
use nestum::syntax::{Case, Declaration, NamedField, Payload, TypeRef};

fn s(text: &str) -> String {
    text.to_string()
}

fn names(items: &[&str]) -> Vec<String> {
    items.iter().map(|x| x.to_string()).collect()
}

fn path(text: &str) -> PatternPath {
    PatternPath {
        names: text.split("::").map(|x| x.to_string()).collect(),
        written: s(text),
        rewritten: false,
    }
}

#[test]
fn patterns_read_as_written() {
    let leaf = Pattern::Path(path("Outer::Other"));
    assert_eq!(leaf.to_source(), "Outer::Other");
    let nested = Pattern::TupleStruct {
        path: path("Outer::Wrap"),
        elems: vec![Pattern::Path(path("Inner::VariantA"))],
    };
    assert_eq!(nested.to_source(), "Outer::Wrap(Inner::VariantA)");
    let tuple = Pattern::TupleStruct {
        path: path("A::B"),
        elems: vec![Pattern::Other(s("x")), Pattern::Other(s("_")), Pattern::Other(s("1..=2"))],
    };
    assert_eq!(tuple.to_source(), "A::B(x, _, 1..=2)");
    let empty = Pattern::TupleStruct { path: path("A::B"), elems: vec![] };
    assert_eq!(empty.to_source(), "A::B()");
    let record = Pattern::Struct { path: path("A::B"), fields: names(&["x", "y: 1"]), rest: false };
    assert_eq!(record.to_source(), "A::B { x, y: 1 }");
    let open = Pattern::Struct { path: path("A::B"), fields: names(&["x"]), rest: true };
    assert_eq!(open.to_source(), "A::B { x, .. }");
    let only_rest = Pattern::Struct { path: path("A::B"), fields: vec![], rest: true };
    assert_eq!(only_rest.to_source(), "A::B { .. }");
    let or = Pattern::Or {
        leading_vert: false,
        cases: vec![leaf.duplicate(), nested.duplicate(), Pattern::Other(s("_"))],
    };
    assert_eq!(
        or.to_source(),
        "Outer::Other | Outer::Wrap(Inner::VariantA) | _"
    );
    let barred = Pattern::Or { leading_vert: true, cases: vec![Pattern::Other(s("x"))] };
    assert_eq!(barred.to_source(), "| x");
    assert_eq!(Pattern::Other(s("ref mut y")).to_source(), "ref mut y");
}

fn ty(name: &str) -> TypeRef {
    TypeRef { text: s(name), path: Some(names(&[name])) }
}

fn inner() -> Declaration {
    Declaration {
        name: s("Inner"),
        attrs: vec![],
        cases: vec![
            Case { name: s("VariantA"), attrs: vec![], payload: Payload::Unit },
            Case { name: s("VariantB"), attrs: vec![], payload: Payload::Tuple(vec![ty("u8")]) },
            Case {
                name: s("VariantC"),
                attrs: vec![],
                payload: Payload::Record(vec![NamedField { name: s("x"), ty: ty("i32") }]),
            },
            Case {
                name: s("VariantD"),
                attrs: vec![],
                payload: Payload::Tuple(vec![ty("u8"), ty("String")]),
            },
            Case {
                name: s("VariantE"),
                attrs: vec![],
                payload: Payload::Record(vec![
                    NamedField { name: s("a"), ty: ty("bool") },
                    NamedField { name: s("b"), ty: ty("char") },
                ]),
            },
            Case { name: s("VariantF"), attrs: vec![], payload: Payload::Tuple(vec![]) },
        ],
    }
}

#[test]
fn case_paths_get_the_namespace_of_their_type() {
    assert_eq!(in_namespace(&names(&["Outer", "Wrap"])), names(&["Outer", "Outer", "Wrap"]));
    assert_eq!(
        in_namespace(&names(&["crate", "api", "Inner", "A"])),
        names(&["crate", "api", "Inner", "Inner", "A"])
    );
    assert_eq!(in_namespace(&names(&["A"])), names(&["A"]));
    assert_eq!(in_namespace(&names(&[])), names(&[]));
}

#[test]
fn only_rewritten_paths_are_laid_out() {
    let put = |text: &str| PatternPath { rewritten: true, ..path(text) };
    let written = Pattern::TupleStruct {
        path: path("Outer::Wrap"),
        elems: vec![Pattern::Path(path("Inner::VariantA"))],
    };
    assert!(!written.is_rewritten());
    assert_eq!(written.laid_out(), written);
    let rewritten = Pattern::TupleStruct {
        path: put("Outer::Wrap"),
        elems: vec![Pattern::TupleStruct {
            path: put("Inner::VariantB"),
            elems: vec![Pattern::Path(path("Other::Thing")), Pattern::Other(s("n"))],
        }],
    };
    assert!(rewritten.is_rewritten());
    assert_eq!(rewritten.to_source(), "Outer::Wrap(Inner::VariantB(Other::Thing, n))");
    assert_eq!(
        rewritten.laid_out().to_source(),
        "Outer::Outer::Wrap(Inner::Inner::VariantB(Other::Thing, n))"
    );
    assert!(!rewritten.laid_out().is_rewritten());
    let or = Pattern::Or {
        leading_vert: false,
        cases: vec![
            Pattern::Other(s("_")),
            Pattern::TupleStruct {
                path: put("m::Outer::Wrap"),
                elems: vec![Pattern::Struct {
                    path: put("m::Inner::C"),
                    fields: names(&["x"]),
                    rest: true,
                }],
            },
        ],
    };
    assert!(or.is_rewritten());
    assert_eq!(or.laid_out().to_source(), "_ | m::Outer::Outer::Wrap(m::Inner::Inner::C { x, .. })");
    assert!(!Pattern::Or { leading_vert: true, cases: vec![written] }.is_rewritten());
    assert!(!Pattern::Other(s("x")).is_rewritten());
}

#[test]
fn forwarders_are_laid_out_from_inside_their_group() {
    let forwarders = build_wrappers(&s("Outer"), &s("Variant1"), &inner(), true);
    let sources: Vec<String> = forwarders.iter().map(|f| f.to_source()).collect();
    assert_eq!(
        sources,
        vec![
            "pub const VariantA: super::Outer = super::Outer::Variant1(super::super::Inner::Inner::VariantA);",
            "pub fn VariantB(v0: u8) -> super::Outer { super::Outer::Variant1(super::super::Inner::Inner::VariantB(v0)) }",
            "pub fn VariantC(x: i32) -> super::Outer { super::Outer::Variant1(super::super::Inner::Inner::VariantC { x }) }",
            "pub fn VariantD(v0: u8, v1: String) -> super::Outer { super::Outer::Variant1(super::super::Inner::Inner::VariantD(v0, v1)) }",
            "pub fn VariantE(a: bool, b: char) -> super::Outer { super::Outer::Variant1(super::super::Inner::Inner::VariantE { a, b }) }",
            "pub fn VariantF() -> super::Outer { super::Outer::Variant1(super::super::Inner::Inner::VariantF()) }",
        ]
    );
    let plain = build_wrappers(&s("Outer"), &s("Variant1"), &inner(), false);
    assert_eq!(
        plain[0].to_source(),
        "pub const VariantA: super::Outer = super::Outer::Variant1(super::super::Inner::VariantA);"
    );
    assert_eq!(plain[0].inner_to_source(), "super::super::Inner::VariantA");
}

#[test]
fn external_forwarders_start_with_the_reference_as_written() {
    let path = ExternalPath { text: s("crate::a::Inner"), names: names(&["crate", "a", "Inner"]) };
    let forwarders = build_wrappers_with_path(&s("Outer"), &s("Wrap"), &inner(), true, &path);
    assert_eq!(
        forwarders[0].to_source(),
        "pub const VariantA: super::Outer = super::Outer::Wrap(crate::a::Inner::Inner::VariantA);"
    );
    assert_eq!(forwarders[0].inner_to_source(), "crate::a::Inner::Inner::VariantA");
    let forwarders = build_wrappers_with_path(&s("Outer"), &s("Wrap"), &inner(), false, &path);
    assert_eq!(
        forwarders[1].to_source(),
        "pub fn VariantB(v0: u8) -> super::Outer { super::Outer::Wrap(crate::a::Inner::VariantB(v0)) }"
    );
}

#[test]
fn group_is_a_namespace_named_after_the_case() {
    let mut small = inner();
    small.cases.truncate(2);
    let group = ForwarderModule {
        case: s("Wrap"),
        forwarders: build_wrappers(&s("Outer"), &s("Wrap"), &small, true),
    };
    assert_eq!(
        group.to_source(),
        "pub mod Wrap { pub const VariantA: super::Outer = super::Outer::Wrap(super::super::Inner::Inner::VariantA); pub fn VariantB(v0: u8) -> super::Outer { super::Outer::Wrap(super::super::Inner::Inner::VariantB(v0)) } }"
    );
    let empty = ForwarderModule { case: s("Wrap"), forwarders: vec![] };
    assert_eq!(empty.to_source(), "pub mod Wrap {  }");
    let all = ForwarderModule {
        case: s("Wrap"),
        forwarders: build_wrappers(&s("Outer"), &s("Wrap"), &inner(), true),
    };
    let parsed = syn::parse_str::<syn::ItemMod>(&all.to_source()).unwrap();
    assert_eq!(parsed.ident.to_string(), "Wrap");
    assert_eq!(parsed.content.unwrap().1.len(), 6);
}
