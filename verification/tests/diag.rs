use nestum::diag::{
    arguments_on_declaration, arguments_on_request, bare_case_annotation, external_key_missing,
    external_mismatch, external_not_found, external_not_path, external_not_string,
    external_on_wrong_shape, external_path_empty, external_type_not_name, external_without_name,
    inner_not_found, inner_not_in_module, inner_not_marked, malformed_annotation,
    marked_elsewhere, module_file_missing, module_unresolved, no_declarations, not_a_declaration,
    outer_not_marked, source_unavailable, type_not_path, type_without_segments,
    unknown_inner_case, unparsable, unreadable, Diagnostic, ErrorKind, Site,
};

fn check(d: Diagnostic, kind: ErrorKind, site: Site, message: &str) {
    assert_eq!(d.kind, kind);
    assert_eq!(d.site, site);
    assert_eq!(d.message, message);
    assert_eq!(d.to_text(), message);
    assert_eq!(d.duplicate(), d);
}

#[test]
fn location_messages() {
    check(
        source_unavailable(),
        ErrorKind::Location,
        Site::CallSite,
        "unable to locate source file for #[nestum]; this macro requires nightly and proc_macro_span support",
    );
    check(
        module_unresolved(),
        ErrorKind::Location,
        Site::CallSite,
        "unable to determine module path for #[nestum]; ensure the enum is in a regular Rust module file (not generated or included)",
    );
    check(
        no_declarations(),
        ErrorKind::Location,
        Site::CallSite,
        "no enums found for current module path; ensure the enum is defined in the same source file and module as the macro call",
    );
}

#[test]
fn loading_messages() {
    check(
        module_file_missing("a::b", Site::Pattern(2)),
        ErrorKind::NotFound,
        Site::Pattern(2),
        "unable to locate module file for a::b; expected a::b.rs or a::b/mod.rs under the module root",
    );
    check(
        unreadable("No such file or directory (os error 2)"),
        ErrorKind::Io,
        Site::CallSite,
        "failed to read source file: No such file or directory (os error 2)",
    );
    check(
        unparsable("expected `;`"),
        ErrorKind::Syntax,
        Site::CallSite,
        "failed to parse source file: expected `;`",
    );
}

#[test]
fn annotation_messages() {
    let site = Site::CaseAnnotation(1);
    check(
        malformed_annotation(&"unexpected end of input".to_string(), site),
        ErrorKind::InvalidAnnotation,
        site,
        "unexpected end of input",
    );
    check(
        arguments_on_declaration("Outer", Site::Registry),
        ErrorKind::AnnotationArgsNotAllowed,
        Site::Registry,
        "invalid #[nestum(...)] on enum Outer; nestum does not accept arguments. Use #[nestum] on enums only",
    );
    check(
        arguments_on_request(),
        ErrorKind::AnnotationArgsNotAllowed,
        Site::CallSite,
        "nestum does not accept arguments",
    );
    check(
        not_a_declaration(),
        ErrorKind::InvalidAnnotation,
        Site::CallSite,
        "nestum can only be applied to enums",
    );
    check(
        bare_case_annotation(site),
        ErrorKind::InvalidAnnotation,
        site,
        "invalid #[nestum] on variant; use #[nestum(external = \"path::to::Enum\")]",
    );
    check(
        external_not_string(site),
        ErrorKind::InvalidAnnotation,
        site,
        "external must be a string literal",
    );
    check(
        external_not_path(site),
        ErrorKind::InvalidAnnotation,
        site,
        "external must be a valid Rust path, e.g. \"crate::foo::Enum\"",
    );
    check(
        external_key_missing(site),
        ErrorKind::InvalidAnnotation,
        site,
        "invalid #[nestum(...)] on variant; expected external = \"path::to::Enum\"",
    );
    check(
        external_without_name(site),
        ErrorKind::InvalidAnnotation,
        site,
        "external path must include an enum ident, e.g. crate::foo::Enum",
    );
    check(
        external_path_empty(site),
        ErrorKind::InvalidAnnotation,
        site,
        "external path must include an enum ident",
    );
}

#[test]
fn expansion_messages() {
    check(
        external_on_wrong_shape("Outer", "Wrap", Site::Case(0)),
        ErrorKind::ShapeMismatch,
        Site::Case(0),
        "variant Outer::Wrap uses #[nestum(external = \"...\")], but is not a single-field tuple variant",
    );
    check(
        external_type_not_name(Site::CaseType(0)),
        ErrorKind::ShapeMismatch,
        Site::CaseType(0),
        "nested enum type must be a simple ident when using #[nestum(external = \"...\")]; use a bare enum name in the field",
    );
    check(
        type_without_segments(Site::CaseType(0)),
        ErrorKind::ShapeMismatch,
        Site::CaseType(0),
        "unsupported type path",
    );
    check(
        type_not_path(Site::CaseType(0)),
        ErrorKind::ShapeMismatch,
        Site::CaseType(0),
        "nested enum type must be a simple path ident",
    );
    check(
        external_mismatch("Other", "crate::a::Inner", Site::CaseType(3)),
        ErrorKind::PathMismatch,
        Site::CaseType(3),
        "field type Other does not match external enum path crate::a::Inner; use the enum ident as the field type",
    );
    check(
        external_not_found("crate::a::Inner", Site::CaseAnnotation(3)),
        ErrorKind::NotFound,
        Site::CaseAnnotation(3),
        "external enum crate::a::Inner not found; ensure the module path exists and the enum is declared in that module",
    );
    check(
        marked_elsewhere("Inner", "a", false, Site::CaseType(0)),
        ErrorKind::CrossModuleNotDeclared,
        Site::CaseType(0),
        "nested enum type Inner is marked with #[nestum] in a different module (a); use #[nestum(external = \"path::to::Inner\")], or move the enum into the same module",
    );
    check(
        marked_elsewhere("Inner", "a, b::c", true, Site::CaseType(0)),
        ErrorKind::AmbiguousName,
        Site::CaseType(0),
        "nested enum type Inner is marked with #[nestum] in a different module (a, b::c); use #[nestum(external = \"path::to::Inner\")], or move the enum into the same module",
    );
}

#[test]
fn pattern_messages() {
    let site = Site::Pattern(4);
    check(
        outer_not_marked("Outer", site),
        ErrorKind::OuterNotFlattenMarked,
        site,
        "enum Outer is not marked with #[nestum]; only #[nestum] enums support nested match patterns",
    );
    check(
        inner_not_marked("Inner", site),
        ErrorKind::InnerNotFlattenMarked,
        site,
        "inner enum Inner is not marked with #[nestum]; only #[nestum] enums support nested match patterns",
    );
    check(
        inner_not_found("Inner", "Outer", "Wrap", site),
        ErrorKind::NotFound,
        site,
        "inner enum Inner not found for Outer::Wrap; ensure it is declared in the referenced module",
    );
    check(
        inner_not_in_module("Inner", "Outer", "Wrap", Site::Registry),
        ErrorKind::NotFound,
        Site::Registry,
        "inner enum Inner not found for Outer::Wrap; ensure it is declared in the same module or use #[nestum(external = \"path::to::Inner\")]",
    );
    check(
        unknown_inner_case("UnknownCase", "Inner", "Outer", "Wrap", site),
        ErrorKind::UnknownInnerCase,
        site,
        "variant UnknownCase not found on inner enum Inner for Outer::Wrap",
    );
}
