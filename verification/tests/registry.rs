use nestum::diag::{ErrorKind, Site};
use nestum::modpath::ModuleContext;
use nestum::registry::{
    add_declaration, collect_declarations, collect_enums_by_module_path, declaration_index,
    find_declaration, put_declaration, put_entry, LoadOutcome, LoadRequest, ModuleEntry, Outcome,
    Registry,
};
use nestum::syntax::{Attribute, AttributeArgs, Case, Declaration, Item, Meta, Payload};

fn s(text: &str) -> String {
    text.to_string()
}

fn names(items: &[&str]) -> Vec<String> {
    items.iter().map(|x| x.to_string()).collect()
}

fn marker() -> Attribute {
    Attribute { name: Some(s("nestum")), args: AttributeArgs::Absent, text: s("#[nestum]") }
}

fn decl(name: &str, cases: &[&str]) -> Declaration {
    Declaration {
        name: s(name),
        attrs: vec![],
        cases: cases
            .iter()
            .map(|c| Case { name: s(c), attrs: vec![], payload: Payload::Unit })
            .collect(),
    }
}

fn marked(name: &str, cases: &[&str]) -> Declaration {
    let mut d = decl(name, cases);
    d.attrs.push(marker());
    d
}

fn module(name: &str, items: Vec<Item>) -> Item {
    Item::Module { name: s(name), items }
}

fn entry(path: &[&str], declarations: Vec<Declaration>) -> ModuleEntry {
    ModuleEntry { path: names(path), declarations }
}

#[test]
fn later_declaration_of_a_name_replaces_the_earlier_in_place() {
    let mut decls = vec![decl("A", &["x"]), decl("B", &[])];
    put_declaration(&mut decls, decl("C", &[]));
    put_declaration(&mut decls, decl("A", &["y"]));
    assert_eq!(decls, vec![decl("A", &["y"]), decl("B", &[]), decl("C", &[])]);
    assert_eq!(declaration_index(&decls, &s("B")), Some(1));
    assert_eq!(declaration_index(&decls, &s("Z")), None);
    assert_eq!(find_declaration(&decls, &s("A")), Some(&decl("A", &["y"])));
    assert_eq!(find_declaration(&decls, &s("a")), None);
}

#[test]
fn later_entry_of_a_module_replaces_the_earlier_in_place() {
    let mut entries = vec![entry(&["a"], vec![decl("A", &[])]), entry(&[], vec![])];
    put_entry(&mut entries, entry(&["a", "b"], vec![]));
    put_entry(&mut entries, entry(&["a"], vec![decl("B", &[])]));
    assert_eq!(
        entries,
        vec![entry(&["a"], vec![decl("B", &[])]), entry(&[], vec![]), entry(&["a", "b"], vec![])]
    );
}

#[test]
fn put_entry_twice_is_put_entry_once() {
    let mut once = vec![entry(&["a"], vec![decl("A", &[])])];
    put_entry(&mut once, entry(&["b"], vec![decl("B", &[])]));
    let mut twice = once.clone();
    put_entry(&mut twice, entry(&["b"], vec![decl("B", &[])]));
    assert_eq!(once, twice);
}

#[test]
fn add_declaration_creates_the_module_where_needed() {
    let mut entries = vec![];
    add_declaration(&mut entries, names(&["m"]), decl("A", &[]));
    add_declaration(&mut entries, names(&[]), decl("R", &[]));
    add_declaration(&mut entries, names(&["m"]), decl("B", &[]));
    add_declaration(&mut entries, names(&["m"]), decl("A", &["again"]));
    assert_eq!(
        entries,
        vec![
            entry(&["m"], vec![decl("A", &["again"]), decl("B", &[])]),
            entry(&[], vec![decl("R", &[])]),
        ]
    );
}

#[test]
fn inline_modules_contribute_under_their_full_path() {
    let items = vec![
        Item::Declaration(decl("Top", &[])),
        Item::Other,
        module(
            "outer",
            vec![
                module("inner", vec![Item::Declaration(decl("Deep", &[]))]),
                Item::Declaration(decl("Mid", &[])),
                module("empty", vec![Item::Other]),
            ],
        ),
        Item::Declaration(decl("Last", &[])),
    ];
    assert_eq!(
        collect_declarations(&items, &names(&["file"])),
        vec![
            entry(&["file"], vec![decl("Top", &[]), decl("Last", &[])]),
            entry(&["file", "outer", "inner"], vec![decl("Deep", &[])]),
            entry(&["file", "outer"], vec![decl("Mid", &[])]),
        ]
    );
    assert_eq!(collect_declarations(&vec![], &names(&[])), vec![]);
}

#[test]
fn inline_modules_of_the_same_name_share_an_entry() {
    let items = vec![
        module("m", vec![Item::Declaration(decl("A", &["first"]))]),
        module("m", vec![Item::Declaration(decl("B", &[])), Item::Declaration(decl("A", &["second"]))]),
    ];
    assert_eq!(
        collect_declarations(&items, &names(&[])),
        vec![entry(&["m"], vec![decl("A", &["second"]), decl("B", &[])])]
    );
}

#[test]
fn file_path_decides_the_module_of_a_file() {
    let items = vec![Item::Declaration(decl("A", &[])), module("x", vec![Item::Declaration(decl("B", &[]))])];
    let at = |file: &str| -> Vec<Vec<String>> {
        collect_enums_by_module_path(file, "/p/src", &items).into_iter().map(|e| e.path).collect()
    };
    assert_eq!(at("/p/src/lib.rs"), vec![names(&[]), names(&["x"])]);
    assert_eq!(at("/p/src/main.rs"), vec![names(&[]), names(&["x"])]);
    assert_eq!(at("/p/src/foo.rs"), vec![names(&["foo"]), names(&["foo", "x"])]);
    assert_eq!(at("/p/src/foo/mod.rs"), vec![names(&["foo"]), names(&["foo", "x"])]);
    assert_eq!(at("/p/src/foo/bar.rs"), vec![names(&["foo", "bar"]), names(&["foo", "bar", "x"])]);
}

#[test]
fn registry_starts_empty_and_does_not_load() {
    let registry = Registry::new();
    assert_eq!(registry.registry_get(&names(&[])), None);
    assert_eq!(registry.get(&names(&["a"]), &s("A")), None);
    assert_eq!(registry.find_marked_enum_modules(&s("A")), Ok(None));
    assert_eq!(registry.attempt(&LoadRequest::Module(names(&["a"]))), None);
}

#[test]
fn insert_all_replaces_whole_modules() {
    let mut registry = Registry::new();
    registry.registry_insert_all(vec![
        entry(&["a"], vec![decl("A", &[]), decl("B", &[])]),
        entry(&["b"], vec![decl("C", &[])]),
    ]);
    registry.registry_insert_all(vec![entry(&["a"], vec![decl("D", &[])])]);
    assert_eq!(registry.registry_get(&names(&["a"])), Some(&vec![decl("D", &[])]));
    assert_eq!(registry.registry_get(&names(&["b"])), Some(&vec![decl("C", &[])]));
    assert_eq!(registry.get(&names(&["a"]), &s("A")), None);
    assert_eq!(registry.get(&names(&["a"]), &s("D")), Some(&decl("D", &[])));
    assert_eq!(registry.get(&names(&["b"]), &s("C")), Some(&decl("C", &[])));
    assert_eq!(registry.get(&names(&["c"]), &s("C")), None);
    assert!(registry.attempts.is_empty());
}

#[test]
fn loading_the_same_file_again_changes_nothing_but_the_log() {
    let items = || vec![Item::Declaration(marked("A", &["x"])), module("m", vec![Item::Declaration(decl("B", &[]))])];
    let mut registry = Registry::new();
    let request = LoadRequest::File(s("/p/src/lib.rs"));
    registry.record_load(
        request.duplicate(),
        "/p/src",
        LoadOutcome::Parsed { file: s("/p/src/lib.rs"), items: items() },
    );
    let first = registry.entries.clone();
    registry.record_load(
        request.duplicate(),
        "/p/src",
        LoadOutcome::Parsed { file: s("/p/src/lib.rs"), items: items() },
    );
    assert_eq!(registry.entries, first);
    assert_eq!(registry.attempts.len(), 2);
    assert_eq!(registry.attempt(&request).unwrap().failure, None);
}

#[test]
fn marked_declarations_are_found_in_registry_order() {
    let mut registry = Registry::new();
    registry.registry_insert_all(vec![
        entry(&["z"], vec![marked("Inner", &[])]),
        entry(&["plain"], vec![decl("Inner", &[])]),
        entry(&[], vec![marked("Inner", &[]), marked("Other", &[])]),
        entry(&["a", "b"], vec![decl("X", &[]), marked("Inner", &[])]),
    ]);
    assert_eq!(
        registry.find_marked_enum_modules(&s("Inner")),
        Ok(Some(vec![names(&["z"]), names(&[]), names(&["a", "b"])]))
    );
    assert_eq!(
        registry.all_modules_containing(&s("Inner")),
        vec![names(&["z"]), names(&["plain"]), names(&[]), names(&["a", "b"])]
    );
    assert_eq!(registry.all_modules_containing(&s("X")), vec![names(&["a", "b"])]);
    assert_eq!(registry.all_modules_containing(&s("Nope")), Vec::<Vec<String>>::new());
    let found = registry.find_marked_enum_modules(&s("Inner")).unwrap().unwrap();
    assert!(distinct(&found));
    assert!(found.iter().all(|module| registry.registry_get(module).is_some()));
    assert_eq!(registry.find_marked_enum_modules(&s("Other")), Ok(Some(vec![names(&[])])));
    assert_eq!(registry.find_marked_enum_modules(&s("X")), Ok(None));
    assert_eq!(registry.find_marked_enum_modules(&s("Nope")), Ok(None));
}

#[test]
fn marker_with_arguments_anywhere_fails_the_search() {
    let mut bad = marked("Inner", &[]);
    bad.attrs[0].args = AttributeArgs::List(vec![Meta::Other]);
    let mut registry = Registry::new();
    registry.registry_insert_all(vec![
        entry(&["a"], vec![marked("Inner", &[])]),
        entry(&["b"], vec![bad]),
    ]);
    let d = registry.find_marked_enum_modules(&s("Inner")).unwrap_err();
    assert_eq!(d.kind, ErrorKind::AnnotationArgsNotAllowed);
    assert_eq!(
        d.message,
        "invalid #[nestum(...)] on enum Inner; nestum does not accept arguments. Use #[nestum] on enums only"
    );
}

fn context(file: &str, module: &[&str]) -> ModuleContext {
    ModuleContext { file: s(file), root: s("/p/src"), module: names(module) }
}

#[test]
fn module_of_the_request_is_loaded_from_its_file() {
    let mut registry = Registry::new();
    let here = context("/p/src/a.rs", &["a", "inline"]);
    assert_eq!(
        registry.ensure_module_enums_loaded(&here),
        Outcome::Load(LoadRequest::File(s("/p/src/a.rs")))
    );
    registry.record_load(
        LoadRequest::File(s("/p/src/a.rs")),
        "/p/src",
        LoadOutcome::Parsed {
            file: s("/p/src/a.rs"),
            items: vec![module("inline", vec![Item::Declaration(decl("E", &[]))])],
        },
    );
    assert_eq!(registry.ensure_module_enums_loaded(&here), Outcome::Ready(&vec![decl("E", &[])]));
    match registry.ensure_module_enums_loaded(&context("/p/src/a.rs", &["a"])) {
        Outcome::Failed(d) => assert_eq!(d.kind, ErrorKind::Location),
        other => panic!("{:?}", other),
    }
}

#[test]
fn external_module_state_follows_the_log() {
    let mut registry = Registry::new();
    let m = names(&["m"]);
    assert_eq!(
        registry.ensure_external_module_loaded(&m, Site::CallSite),
        Outcome::Load(LoadRequest::Module(m.clone()))
    );
    registry.record_load(LoadRequest::Module(m.clone()), "/p/src", LoadOutcome::NotFound);
    match registry.ensure_external_module_loaded(&m, Site::CaseAnnotation(3)) {
        Outcome::Failed(d) => {
            assert_eq!(d.kind, ErrorKind::NotFound);
            assert_eq!(d.site, Site::CaseAnnotation(3));
            assert_eq!(
                d.message,
                "unable to locate module file for m; expected m.rs or m/mod.rs under the module root"
            );
        }
        other => panic!("{:?}", other),
    }
    registry.registry_insert_all(vec![entry(&["m"], vec![])]);
    assert_eq!(registry.ensure_external_module_loaded(&m, Site::CallSite), Outcome::Ready(()));
}

#[test]
fn read_and_parse_failures_point_at_the_request() {
    let mut registry = Registry::new();
    let m = names(&["m"]);
    registry.record_load(LoadRequest::Module(m.clone()), "/p/src", LoadOutcome::Unparsable(s("eof")));
    match registry.ensure_external_module_loaded(&m, Site::CaseAnnotation(3)) {
        Outcome::Failed(d) => {
            assert_eq!(d.kind, ErrorKind::Syntax);
            assert_eq!(d.site, Site::CallSite);
            assert_eq!(d.message, "failed to parse source file: eof");
        }
        other => panic!("{:?}", other),
    }
}

#[test]
fn answered_request_for_a_module_that_stays_absent_is_ready() {
    let mut registry = Registry::new();
    let m = names(&["m"]);
    registry.record_load(
        LoadRequest::Module(m.clone()),
        "/p/src",
        LoadOutcome::Parsed { file: s("/p/src/m.rs"), items: vec![Item::Other] },
    );
    assert_eq!(registry.registry_get(&m), None);
    assert_eq!(registry.ensure_external_module_loaded(&m, Site::CallSite), Outcome::Ready(()));
}

#[test]
fn failed_load_leaves_the_entries_as_they_were() {
    let mut registry = Registry::new();
    registry.registry_insert_all(vec![entry(&["a"], vec![decl("A", &[])])]);
    let before = registry.entries.clone();
    registry.record_load(LoadRequest::Module(names(&["b"])), "/p/src", LoadOutcome::NotFound);
    registry.record_load(LoadRequest::Module(names(&["c"])), "/p/src", LoadOutcome::Unreadable(s("x")));
    registry.record_load(LoadRequest::File(s("/p/src/d.rs")), "/p/src", LoadOutcome::Unparsable(s("y")));
    assert_eq!(registry.entries, before);
    assert_eq!(registry.attempts.len(), 3);
}

fn distinct<T: PartialEq>(items: &[T]) -> bool {
    (0..items.len()).all(|i| (i + 1..items.len()).all(|j| items[i] != items[j]))
}

#[test]
fn every_module_and_every_name_is_held_once() {
    let items = vec![
        Item::Declaration(decl("A", &["one"])),
        module("m", vec![Item::Declaration(decl("A", &[])), Item::Declaration(decl("B", &[]))]),
        Item::Declaration(decl("A", &["two"])),
        module("m", vec![Item::Declaration(decl("B", &["again"])), module("m", vec![Item::Declaration(decl("A", &[]))])]),
    ];
    let mut registry = Registry::new();
    for file in ["/p/src/lib.rs", "/p/src/m.rs", "/p/src/lib.rs", "/p/src/m/m.rs"] {
        let same: Vec<Item> = vec![
            Item::Declaration(decl("A", &["one"])),
            module("m", vec![Item::Declaration(decl("A", &[])), Item::Declaration(decl("B", &[]))]),
            Item::Declaration(decl("A", &["two"])),
        ];
        registry.record_load(
            LoadRequest::File(s(file)),
            "/p/src",
            LoadOutcome::Parsed { file: s(file), items: same },
        );
    }
    registry.record_load(
        LoadRequest::File(s("/p/src/lib.rs")),
        "/p/src",
        LoadOutcome::Parsed { file: s("/p/src/lib.rs"), items },
    );
    let paths: Vec<&Vec<String>> = registry.entries.iter().map(|e| &e.path).collect();
    assert!(distinct(&paths));
    for entry in &registry.entries {
        let names: Vec<&String> = entry.declarations.iter().map(|d| &d.name).collect();
        assert!(distinct(&names));
    }
    assert_eq!(registry.get(&names(&[]), &s("A")), Some(&decl("A", &["two"])));
    assert_eq!(registry.get(&names(&["m"]), &s("B")), Some(&decl("B", &["again"])));
    assert_eq!(registry.get(&names(&["m", "m"]), &s("A")), Some(&decl("A", &[])));
}

#[test]
fn registry_clone_holds_the_same() {
    let mut registry = Registry::new();
    registry.registry_insert_all(vec![entry(&["a"], vec![marked("A", &["x"])])]);
    registry.record_load(LoadRequest::Module(names(&["b"])), "/p/src", LoadOutcome::NotFound);
    registry.record_load(
        LoadRequest::File(s("/p/src/c.rs")),
        "/p/src",
        LoadOutcome::Parsed { file: s("/p/src/c.rs"), items: vec![Item::Declaration(decl("C", &[]))] },
    );
    let copy = registry.registry_clone();
    assert_eq!(copy, registry);
    assert_eq!(copy.entries.len(), 2);
    assert_eq!(copy.attempts.len(), 2);
}
