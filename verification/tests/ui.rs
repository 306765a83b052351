use nestum::diag::{Diagnostic, ErrorKind};
use nestum::modpath::ModuleContext;
use nestum::pattern::{Pattern, PatternPath};
use nestum::registry::{LoadOutcome, LoadRequest, Outcome, Registry};
use nestum::syntax::{
    Attribute, AttributeArgs, Case, Declaration, Item, Meta, MetaValue, NamedField, Payload,
    TypeRef,
};
use nestum::{nested, nestum, nestum_match};
use quote::ToTokens;
use syn::punctuated::Punctuated;

// ---------------------------------------------------------------------------
// From parsed source to the plain model.

fn to_meta(meta: &syn::Meta) -> Meta {
    match meta {
        syn::Meta::NameValue(pair) => Meta::NameValue {
            key: pair.path.get_ident().map(|i| i.to_string()),
            value: match &pair.value {
                syn::Expr::Lit(lit) => match &lit.lit {
                    syn::Lit::Str(text) => MetaValue::text(text.value()),
                    _ => MetaValue::Literal,
                },
                _ => MetaValue::Expression,
            },
        },
        _ => Meta::Other,
    }
}

fn to_args(attr: &syn::Attribute) -> AttributeArgs {
    match &attr.meta {
        syn::Meta::Path(_) => AttributeArgs::Absent,
        _ => match attr
            .parse_args_with(Punctuated::<syn::Meta, syn::token::Comma>::parse_terminated)
        {
            Ok(items) => AttributeArgs::List(items.iter().map(to_meta).collect()),
            Err(error) => AttributeArgs::Malformed(error.to_string()),
        },
    }
}

fn to_attr(attr: &syn::Attribute) -> Attribute {
    Attribute {
        name: attr.path().get_ident().map(|i| i.to_string()),
        args: to_args(attr),
        text: attr.to_token_stream().to_string(),
    }
}

fn to_type(ty: &syn::Type) -> TypeRef {
    let path = match ty {
        syn::Type::Path(p) if p.qself.is_none() => {
            Some(p.path.segments.iter().map(|s| s.ident.to_string()).collect())
        }
        _ => None,
    };
    TypeRef { text: ty.to_token_stream().to_string(), path }
}

fn to_case(variant: &syn::Variant) -> Case {
    Case {
        name: variant.ident.to_string(),
        attrs: variant.attrs.iter().map(to_attr).collect(),
        payload: match &variant.fields {
            syn::Fields::Unit => Payload::Unit,
            syn::Fields::Unnamed(fields) => {
                Payload::Tuple(fields.unnamed.iter().map(|f| to_type(&f.ty)).collect())
            }
            syn::Fields::Named(fields) => Payload::Record(
                fields
                    .named
                    .iter()
                    .map(|f| NamedField {
                        name: f.ident.as_ref().unwrap().to_string(),
                        ty: to_type(&f.ty),
                    })
                    .collect(),
            ),
        },
    }
}

fn to_declaration(item: &syn::ItemEnum) -> Declaration {
    Declaration {
        name: item.ident.to_string(),
        attrs: item.attrs.iter().map(to_attr).collect(),
        cases: item.variants.iter().map(to_case).collect(),
    }
}

fn to_items(items: &[syn::Item]) -> Vec<Item> {
    items
        .iter()
        .map(|item| match item {
            syn::Item::Enum(e) => Item::Declaration(to_declaration(e)),
            syn::Item::Mod(m) => match &m.content {
                Some((_, inner)) => {
                    Item::Module { name: m.ident.to_string(), items: to_items(inner) }
                }
                None => Item::Other,
            },
            _ => Item::Other,
        })
        .collect()
}

fn to_path(path: &syn::Path, written: String) -> PatternPath {
    PatternPath {
        names: path.segments.iter().map(|s| s.ident.to_string()).collect(),
        written,
        rewritten: false,
    }
}

fn to_pattern(pat: &syn::Pat) -> Pattern {
    match pat {
        syn::Pat::Path(p) => Pattern::Path(to_path(&p.path, p.to_token_stream().to_string())),
        syn::Pat::TupleStruct(t) => Pattern::TupleStruct {
            path: to_path(&t.path, t.path.to_token_stream().to_string()),
            elems: t.elems.iter().map(to_pattern).collect(),
        },
        syn::Pat::Struct(st) => Pattern::Struct {
            path: to_path(&st.path, st.path.to_token_stream().to_string()),
            fields: st.fields.iter().map(|f| f.to_token_stream().to_string()).collect(),
            rest: st.rest.is_some(),
        },
        syn::Pat::Or(or) => Pattern::Or {
            leading_vert: or.leading_vert.is_some(),
            cases: or.cases.iter().map(to_pattern).collect(),
        },
        other => Pattern::Other(other.to_token_stream().to_string()),
    }
}

// ---------------------------------------------------------------------------
// A program: its files by path.  Each request of the engine is answered
// from these files.

struct Program {
    files: Vec<(String, String)>,
}

const ROOT: &str = "/ui/src";
const MAIN: &str = "/ui/src/main.rs";

impl Program {
    fn read(&self, path: &str) -> Option<&str> {
        self.files.iter().find(|(p, _)| p == path).map(|(_, text)| text.as_str())
    }

    fn file_of(&self, module: &[String]) -> Option<String> {
        if module.is_empty() {
            return Some(MAIN.to_string());
        }
        let flat = format!("{}/{}.rs", ROOT, module.join("/"));
        let nested = format!("{}/{}/mod.rs", ROOT, module.join("/"));
        [flat, nested].into_iter().find(|p| self.read(p).is_some())
    }

    fn load(&self, path: &str) -> LoadOutcome {
        match self.read(path) {
            None => LoadOutcome::Unreadable("no such file".to_string()),
            Some(text) => match syn::parse_file(text) {
                Err(error) => LoadOutcome::Unparsable(error.to_string()),
                Ok(file) => {
                    LoadOutcome::Parsed { file: path.to_string(), items: to_items(&file.items) }
                }
            },
        }
    }

    fn answer(&self, request: &LoadRequest) -> LoadOutcome {
        match request {
            LoadRequest::File(path) => self.load(path),
            LoadRequest::Module(module) => match self.file_of(module) {
                Some(path) => self.load(&path),
                None => LoadOutcome::NotFound,
            },
        }
    }

    fn drive<T>(
        &self,
        registry: &mut Registry,
        step: impl Fn(&Registry) -> Outcome<T>,
    ) -> Result<T, Diagnostic> {
        for _ in 0..100 {
            match step(registry) {
                Outcome::Ready(value) => return Ok(value),
                Outcome::Failed(d) => return Err(d),
                Outcome::Load(request) => {
                    let outcome = self.answer(&request);
                    registry.record_load(request, ROOT, outcome);
                }
            }
        }
        panic!("the engine keeps asking");
    }
}

fn is_macro(path: &syn::Path, names: &[&str]) -> bool {
    match path.segments.last() {
        Some(last) => names.iter().any(|n| last.ident == n),
        None => false,
    }
}

fn split_annotation(attrs: &[syn::Attribute]) -> Option<(bool, Vec<syn::Attribute>)> {
    let at = attrs.iter().position(|a| is_macro(a.path(), &["nestum"]))?;
    let has_arguments = match &attrs[at].meta {
        syn::Meta::Path(_) => false,
        syn::Meta::List(list) => !list.tokens.is_empty(),
        syn::Meta::NameValue(_) => true,
    };
    let mut rest = attrs.to_vec();
    rest.remove(at);
    Some((has_arguments, rest))
}

fn context(stack: &[String]) -> Result<ModuleContext, Diagnostic> {
    Ok(ModuleContext { file: MAIN.to_string(), root: ROOT.to_string(), module: stack.to_vec() })
}

fn run_match(
    program: &Program,
    registry: &mut Registry,
    stack: &[String],
    mac: &syn::Macro,
) -> Result<(), Diagnostic> {
    let expr: syn::ExprMatch = syn::parse2(mac.tokens.clone()).expect("a match expression");
    let arms: Vec<Pattern> = expr.arms.iter().map(|arm| to_pattern(&arm.pat)).collect();
    let here = context(stack);
    let rewritten = if is_macro(&mac.path, &["nested"]) {
        program.drive(registry, |r| nested(&arms, &here, r))?
    } else {
        program.drive(registry, |r| nestum_match(&arms, &here, r))?
    };
    assert_eq!(rewritten.len(), arms.len());
    for (written, pattern) in arms.iter().zip(&rewritten) {
        assert!(!written.is_rewritten());
        assert_eq!(pattern.is_rewritten(), pattern != written);
        let text = pattern.laid_out().to_source();
        let parsed = syn::parse::Parser::parse_str(syn::Pat::parse_multi_with_leading_vert, &text)
            .expect("a pattern");
        let tokens: proc_macro2::TokenStream = text.parse().expect("tokens");
        assert_eq!(parsed.to_token_stream().to_string(), tokens.to_string());
        let again = program.drive(registry, |r| nestum_match(&rewritten, &here, r))?;
        assert_eq!(again, rewritten);
    }
    Ok(())
}

fn run_items(
    program: &Program,
    registry: &mut Registry,
    stack: &mut Vec<String>,
    items: &[syn::Item],
) -> Result<(), Diagnostic> {
    for item in items {
        match item {
            syn::Item::Enum(e) => {
                if let Some((has_arguments, rest)) = split_annotation(&e.attrs) {
                    let mut given = e.clone();
                    given.attrs = rest;
                    let model = Item::Declaration(to_declaration(&given));
                    let here = context(stack);
                    let expansion =
                        program.drive(registry, |r| nestum(has_arguments, &model, &here, r))?;
                    assert_eq!(expansion.declaration.name, e.ident.to_string());
                    assert_eq!(expansion.declaration.cases.len(), e.variants.len());
                    for group in &expansion.modules {
                        for f in &group.forwarders {
                            assert_eq!(f.result, vec![e.ident.to_string()]);
                            assert_eq!(f.outer_case, vec![e.ident.to_string(), group.case.clone()]);
                        }
                        let parsed: syn::ItemMod =
                            syn::parse_str(&group.to_source()).expect("a module");
                        assert_eq!(parsed.ident.to_string(), group.case);
                        assert_eq!(parsed.content.unwrap().1.len(), group.forwarders.len());
                    }
                }
            }
            syn::Item::Struct(st) => {
                if let Some((has_arguments, _)) = split_annotation(&st.attrs) {
                    let here = context(stack);
                    program.drive(registry, |r| nestum(has_arguments, &Item::Other, &here, r))?;
                }
            }
            syn::Item::Mod(m) => {
                if let Some((_, inner)) = &m.content {
                    stack.push(m.ident.to_string());
                    let done = run_items(program, registry, stack, inner);
                    stack.pop();
                    done?;
                }
            }
            syn::Item::Fn(f) => {
                for stmt in &f.block.stmts {
                    if let syn::Stmt::Macro(m) = stmt {
                        if is_macro(&m.mac.path, &["nested", "nestum_match"]) {
                            run_match(program, registry, stack, &m.mac)?;
                        }
                    }
                }
            }
            _ => {}
        }
    }
    Ok(())
}

/// Runs every request that the program makes, in source order, as one
/// compilation does: with one registry, and stopping at the first failure.
fn run(main: &str, others: &[(&str, &str)]) -> Result<(), Diagnostic> {
    let mut files = vec![(MAIN.to_string(), main.to_string())];
    for (path, text) in others {
        files.push((format!("{}/{}", ROOT, path), text.to_string()));
    }
    let program = Program { files };
    let parsed = syn::parse_file(main).expect("the fixture parses");
    let mut registry = Registry::new();
    run_items(&program, &mut registry, &mut Vec::new(), &parsed.items)
}

// ---------------------------------------------------------------------------
// The programs.

const PASS_BASIC: &str = r#"
use nestum::nestum;

#[nestum]
pub enum Enum2 {
    VariantA,
    VariantB(u8),
    VariantC { x: i32 },
}

#[nestum]
pub enum Enum1 {
    Variant1(Enum2),
    Other,
}

fn main() {
    let _ = Enum1::Variant1::VariantA;
    let _ = Enum1::Variant1::VariantB(1);
    let _ = Enum1::Variant1::VariantC(2);
    let _ = Enum1::Enum1::Other;
}
"#;

const PASS_EXTERNAL: &str = r#"
use nestum::nestum;

mod outer_mod {
    use super::nestum;

    pub mod inner_mod {
        use super::nestum;

        #[nestum]
        pub enum Inner {
            A,
            B(u8),
        }
    }

    #[nestum]
    pub enum Outer {
        #[nestum(external = "crate::outer_mod::inner_mod::Inner")]
        Wrap(Inner),
    }
}

fn main() {
    let _ = outer_mod::Outer::Wrap::A;
    let _ = outer_mod::Outer::Wrap::B(1);
}
"#;

const PASS_EXTERNAL_CROSS_FILE: &str = r#"
use nestum::nestum;

mod external_inner;

#[nestum]
pub enum Outer {
    #[nestum(external = "crate::external_inner::Inner")]
    Wrap(Inner),
}

fn main() {
    let _ = Outer::Wrap::A;
}
"#;

const EXTERNAL_INNER: &str = r#"
use nestum::nestum;

#[nestum]
pub enum Inner {
    A,
}
"#;

const PASS_MATCH: &str = r#"
use nestum::{nestum, nestum_match};

#[nestum]
pub enum Inner {
    VariantA,
    VariantB(u8),
}

#[nestum]
pub enum Outer {
    Wrap(Inner),
    Other,
}

fn main() {
    let value = Outer::Wrap::VariantA;
    nestum_match! {
        match value {
            Outer::Wrap::VariantA => {}
            Outer::Wrap::VariantB(n) => {
                let _ = n;
            }
            Outer::Outer::Other => {}
        }
    }
}
"#;

const PASS_MATCH_ALIAS: &str = r#"
use nestum::{nestum, nested};

#[nestum]
pub enum Inner {
    VariantA,
    VariantB(u8),
}

#[nestum]
pub enum Outer {
    Wrap(Inner),
    Other,
}

fn main() {
    let value = Outer::Wrap::VariantA;
    nested! {
        match value {
            Outer::Wrap::VariantA => {}
            Outer::Wrap::VariantB(n) => {
                let _ = n;
            }
            Outer::Outer::Other => {}
        }
    }
}
"#;

const PASS_MATCH_STRUCT: &str = r#"
use nestum::{nestum, nested};

#[nestum]
pub enum Inner {
    Unit,
    Tuple(u8),
    Struct { x: i32 },
}

#[nestum]
pub enum Outer {
    Wrap(Inner),
}

fn main() {
    let value = Outer::Wrap::Struct(5);
    nested! {
        match value {
            Outer::Wrap::Unit => {}
            Outer::Wrap::Tuple(n) => { let _ = n; }
            Outer::Wrap::Struct { x } => { let _ = x; }
        }
    }
}
"#;

const PASS_MATCH_OR: &str = r#"
use nestum::{nestum, nested};

#[nestum]
pub enum Inner {
    A,
    B,
}

#[nestum]
pub enum Outer {
    Wrap(Inner),
}

fn main() {
    let value = Outer::Wrap::A;
    nested! {
        match value {
            Outer::Wrap::A | Outer::Wrap::B => {}
        }
    }
}
"#;

const PASS_MATCH_MODULE: &str = r#"
mod api {
    use nestum::{nestum, nested};

    #[nestum]
    pub enum Inner {
        A,
    }

    #[nestum]
    pub enum Outer {
        Wrap(Inner),
    }

    pub fn check(value: Outer::Outer) {
        nested! {
            match value {
                crate::api::Outer::Wrap::A => {}
            }
        }
    }
}

fn main() {
    api::check(api::Outer::Wrap::A);
}
"#;

const FAIL_ENUM_ARGS: &str = r#"
use nestum::nestum;

#[nestum(flat)]
pub enum Outer {
    A,
}

fn main() {}
"#;

const FAIL_VARIANT_ATTR: &str = r#"
use nestum::nestum;

#[nestum]
pub enum Inner { A }

#[nestum]
pub enum Outer {
    #[nestum]
    Wrap(Inner),
}

fn main() {}
"#;

const FAIL_EXTERNAL_NOT_TUPLE: &str = r#"
use nestum::nestum;

mod inner {
    use super::nestum;

    #[nestum]
    pub enum Inner { A }
}

#[nestum]
pub enum Outer {
    #[nestum(external = "crate::inner::Inner")]
    Wrap { inner: Inner },
}

fn main() {}
"#;

const FAIL_EXTERNAL_MISMATCH: &str = r#"
use nestum::nestum;

mod a {
    use super::nestum;

    #[nestum]
    pub enum Inner {
        A,
    }
}

#[nestum]
pub enum Outer {
    #[nestum(external = "crate::a::Inner")]
    Wrap(Other),
}

pub enum Other {
    A,
}

fn main() {}
"#;

const FAIL_EXTERNAL_NOT_FOUND: &str = r#"
use nestum::nestum;

#[nestum]
pub enum Outer {
    #[nestum(external = "crate::missing::Inner")]
    Wrap(Inner),
}

fn main() {}
"#;

const FAIL_NON_ENUM: &str = r#"
use nestum::nestum;

#[nestum]
pub struct NotAnEnum;

fn main() {}
"#;

const FAIL_EXTERNAL_NON_STRING: &str = r#"
use nestum::nestum;

#[nestum]
pub enum Inner { A }

#[nestum]
pub enum Outer {
    #[nestum(external = 1)]
    Wrap(Inner),
}

fn main() {}
"#;

const FAIL_EXTERNAL_INVALID_PATH: &str = r#"
use nestum::nestum;

#[nestum]
pub enum Inner { A }

#[nestum]
pub enum Outer {
    #[nestum(external = "crate::")] // invalid path
    Wrap(Inner),
}

fn main() {}
"#;

const FAIL_EXTERNAL_MISSING_KEY: &str = r#"
use nestum::nestum;

#[nestum]
pub enum Inner { A }

#[nestum]
pub enum Outer {
    #[nestum(path = "crate::Inner")]
    Wrap(Inner),
}

fn main() {}
"#;

const FAIL_EXTERNAL_EMPTY_ARGS: &str = r#"
use nestum::nestum;

#[nestum]
pub enum Inner { A }

#[nestum]
pub enum Outer {
    #[nestum()]
    Wrap(Inner),
}

fn main() {}
"#;

const FAIL_EXTERNAL_TYPE_NOT_IDENT: &str = r#"
use nestum::nestum;

mod inner {
    use super::nestum;

    #[nestum]
    pub enum Inner { A }
}

#[nestum]
pub enum Outer {
    #[nestum(external = "crate::inner::Inner")]
    Wrap(Option<Inner>),
}

fn main() {}
"#;

const FAIL_EXTERNAL_NOT_MARKED: &str = r#"
use nestum::nestum;

mod inner {
    pub enum Inner { A }
}

#[nestum]
pub enum Outer {
    #[nestum(external = "crate::inner::Inner")]
    Wrap(Inner),
}

fn main() {}
"#;

fn pass(name: &str, main: &str, others: &[(&str, &str)]) {
    if let Err(d) = run(main, others) {
        panic!("{} fails: {:?}", name, d);
    }
}

fn fail(name: &str, main: &str, kind: ErrorKind, message: &str) {
    match run(main, &[]) {
        Ok(()) => panic!("{} passes", name),
        Err(d) => {
            assert_eq!(d.kind, kind, "{}", name);
            assert_eq!(d.message, message, "{}", name);
        }
    }
}

#[test]
fn ui() {
    pass("tests/ui/pass_basic.rs", PASS_BASIC, &[]);
    pass("tests/ui/pass_external.rs", PASS_EXTERNAL, &[]);
    pass(
        "tests/ui/pass_external_cross_file.rs",
        PASS_EXTERNAL_CROSS_FILE,
        &[("external_inner.rs", EXTERNAL_INNER)],
    );
    pass("tests/ui/pass_match.rs", PASS_MATCH, &[]);
    pass("tests/ui/pass_match_alias.rs", PASS_MATCH_ALIAS, &[]);
    pass("tests/ui/pass_match_struct.rs", PASS_MATCH_STRUCT, &[]);
    pass("tests/ui/pass_match_or.rs", PASS_MATCH_OR, &[]);
    pass("tests/ui/pass_match_module.rs", PASS_MATCH_MODULE, &[]);
    fail(
        "tests/ui/fail_enum_args.rs",
        FAIL_ENUM_ARGS,
        ErrorKind::AnnotationArgsNotAllowed,
        "nestum does not accept arguments",
    );
    fail(
        "tests/ui/fail_variant_attr.rs",
        FAIL_VARIANT_ATTR,
        ErrorKind::InvalidAnnotation,
        "invalid #[nestum] on variant; use #[nestum(external = \"path::to::Enum\")]",
    );
    fail(
        "tests/ui/fail_external_not_tuple.rs",
        FAIL_EXTERNAL_NOT_TUPLE,
        ErrorKind::ShapeMismatch,
        "variant Outer::Wrap uses #[nestum(external = \"...\")], but is not a single-field tuple variant",
    );
    fail(
        "tests/ui/fail_external_mismatch.rs",
        FAIL_EXTERNAL_MISMATCH,
        ErrorKind::PathMismatch,
        "field type Other does not match external enum path crate::a::Inner; use the enum ident as the field type",
    );
    fail(
        "tests/ui/fail_external_not_found.rs",
        FAIL_EXTERNAL_NOT_FOUND,
        ErrorKind::NotFound,
        "unable to locate module file for missing; expected missing.rs or missing/mod.rs under the module root",
    );
    fail(
        "tests/ui/fail_non_enum.rs",
        FAIL_NON_ENUM,
        ErrorKind::InvalidAnnotation,
        "nestum can only be applied to enums",
    );
    fail(
        "tests/ui/fail_external_non_string.rs",
        FAIL_EXTERNAL_NON_STRING,
        ErrorKind::InvalidAnnotation,
        "external must be a string literal",
    );
    fail(
        "tests/ui/fail_external_invalid_path.rs",
        FAIL_EXTERNAL_INVALID_PATH,
        ErrorKind::InvalidAnnotation,
        "external must be a valid Rust path, e.g. \"crate::foo::Enum\"",
    );
    fail(
        "tests/ui/fail_external_missing_key.rs",
        FAIL_EXTERNAL_MISSING_KEY,
        ErrorKind::InvalidAnnotation,
        "invalid #[nestum(...)] on variant; expected external = \"path::to::Enum\"",
    );
    fail(
        "tests/ui/fail_external_empty_args.rs",
        FAIL_EXTERNAL_EMPTY_ARGS,
        ErrorKind::InvalidAnnotation,
        "invalid #[nestum] on variant; use #[nestum(external = \"path::to::Enum\")]",
    );
    fail(
        "tests/ui/fail_external_type_not_ident.rs",
        FAIL_EXTERNAL_TYPE_NOT_IDENT,
        ErrorKind::PathMismatch,
        "field type Option does not match external enum path crate::inner::Inner; use the enum ident as the field type",
    );
}

#[test]
fn external_declaration_without_marker_is_forwarded_to_as_it_is() {
    // The engine accepts the program and tells that the type is not marked:
    // the forwarders name the cases of the plain type.  Whether the
    // expansion compiles is for the compiler.
    pass("tests/ui/fail_external_not_marked.rs", FAIL_EXTERNAL_NOT_MARKED, &[]);
    let program =
        Program { files: vec![(MAIN.to_string(), FAIL_EXTERNAL_NOT_MARKED.to_string())] };
    let file = syn::parse_file(FAIL_EXTERNAL_NOT_MARKED).unwrap();
    let outer = file
        .items
        .iter()
        .find_map(|i| match i {
            syn::Item::Enum(e) => Some(e),
            _ => None,
        })
        .unwrap();
    let (has_arguments, rest) = split_annotation(&outer.attrs).unwrap();
    let mut given = outer.clone();
    given.attrs = rest;
    let model = Item::Declaration(to_declaration(&given));
    let here = context(&[]);
    let mut registry = Registry::new();
    let expansion =
        program.drive(&mut registry, |r| nestum(has_arguments, &model, &here, r)).unwrap();
    assert_eq!(expansion.modules.len(), 1);
    assert_eq!(expansion.modules[0].case, "Wrap");
    assert_eq!(expansion.modules[0].forwarders.len(), 1);
    for f in &expansion.modules[0].forwarders {
        assert!(!f.inner_marked);
        assert_eq!(f.name, "A");
        assert_eq!(f.inner, "Inner");
        assert_eq!(f.inner_root, Some("crate::inner::Inner".to_string()));
        assert_eq!(f.inner_case, vec!["A".to_string()]);
        assert_eq!(
            f.to_source(),
            "pub const A: super::Outer = super::Outer::Wrap(crate::inner::Inner::A);"
        );
    }
}

#[test]
fn parsed_match_is_rewritten() {
    let file = syn::parse_file(PASS_MATCH_STRUCT).unwrap();
    let program = Program { files: vec![(MAIN.to_string(), PASS_MATCH_STRUCT.to_string())] };
    let mut registry = Registry::new();
    let main = file
        .items
        .iter()
        .find_map(|i| match i {
            syn::Item::Fn(f) => Some(f),
            _ => None,
        })
        .unwrap();
    let mac = main
        .block
        .stmts
        .iter()
        .find_map(|s| match s {
            syn::Stmt::Macro(m) => Some(&m.mac),
            _ => None,
        })
        .unwrap();
    let expr: syn::ExprMatch = syn::parse2(mac.tokens.clone()).unwrap();
    let arms: Vec<Pattern> = expr.arms.iter().map(|arm| to_pattern(&arm.pat)).collect();
    let here = context(&[]);
    let rewritten = program.drive(&mut registry, |r| nested(&arms, &here, r)).unwrap();
    let plain = |names: &[&str]| PatternPath {
        names: names.iter().map(|n| n.to_string()).collect(),
        written: names.join("::"),
        rewritten: true,
    };
    let outer = || plain(&["Outer", "Wrap"]);
    assert_eq!(
        rewritten,
        vec![
            Pattern::TupleStruct {
                path: outer(),
                elems: vec![Pattern::Path(plain(&["Inner", "Unit"]))],
            },
            Pattern::TupleStruct {
                path: outer(),
                elems: vec![Pattern::TupleStruct {
                    path: plain(&["Inner", "Tuple"]),
                    elems: vec![Pattern::Other("n".to_string())],
                }],
            },
            Pattern::TupleStruct {
                path: outer(),
                elems: vec![Pattern::Struct {
                    path: plain(&["Inner", "Struct"]),
                    fields: vec!["x".to_string()],
                    rest: false,
                }],
            },
        ]
    );
}
