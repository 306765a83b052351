//! Diagnostics: what went wrong, where, and the message shown to the user.

use vstd::prelude::*;
use vstd::string::*;

verus! {

/// The kinds of failure.
#[derive(Clone, Copy, Debug, PartialEq, Eq, Structural)]
pub enum ErrorKind {
    /// The request's source file or module could not be determined.
    Location,
    /// A module has no file, or a referenced declaration is not in its module.
    NotFound,
    /// A source file could not be read.
    Io,
    /// A source file could not be parsed.
    Syntax,
    /// An annotation is not of the form that its place asks for.
    InvalidAnnotation,
    /// The flatten annotation of a declaration has arguments.
    AnnotationArgsNotAllowed,
    /// A case with an external reference is not a single-field tuple case
    /// whose field type is a plain name.
    ShapeMismatch,
    /// The field type of a case differs from the last name of its external
    /// reference.
    PathMismatch,
    /// The field type names a flatten-marked declaration of one other module.
    CrossModuleNotDeclared,
    /// The field type names flatten-marked declarations of several other
    /// modules.
    AmbiguousName,
    /// A dotted pattern names an outer type that is not flatten-marked.
    OuterNotFlattenMarked,
    /// A dotted pattern leads to an inner type that is not flatten-marked.
    InnerNotFlattenMarked,
    /// A dotted pattern names a case that the inner type does not have.
    UnknownInnerCase,
}

/// The place that a diagnostic points at.
#[derive(Clone, Copy, Debug, PartialEq, Eq, Structural)]
pub enum Site {
    /// The place where the request was made.
    CallSite,
    /// A declaration that the registry holds.
    Registry,
    /// The case with this index in the declaration that is expanded.
    Case(usize),
    /// The field type of that case.
    CaseType(usize),
    /// The annotation of that case.
    CaseAnnotation(usize),
    /// The pattern of the arm with this index.
    Pattern(usize),
}

/// A failure, as it is shown to the user.
#[derive(Clone, Debug, PartialEq, Eq)]
pub struct Diagnostic {
    pub kind: ErrorKind,
    pub site: Site,
    pub message: String,
}

pub struct DiagnosticView {
    pub kind: ErrorKind,
    pub site: Site,
    pub message: Seq<char>,
}

impl View for Diagnostic {
    type V = DiagnosticView;

    open spec fn view(&self) -> DiagnosticView {
        DiagnosticView { kind: self.kind, site: self.site, message: self.message@ }
    }
}

impl DeepView for Diagnostic {
    type V = DiagnosticView;

    open spec fn deep_view(&self) -> DiagnosticView {
        self@
    }
}

impl Diagnostic {
    /// A copy.
    pub fn duplicate(&self) -> (r: Diagnostic)
        ensures
            r@ == self@,
    {
        Diagnostic { kind: self.kind, site: self.site, message: self.message.clone() }
    }

    /// The message, for display.
    pub fn to_text(&self) -> (r: String)
        ensures
            r@ == self@.message,
    {
        self.message.clone()
    }
}

/// The view of a result: the view of what it holds.
pub open spec fn result_view<T: DeepView, E: DeepView>(r: Result<T, E>) -> Result<T::V, E::V> {
    match r {
        Ok(value) => Ok(value.deep_view()),
        Err(error) => Err(error.deep_view()),
    }
}

/// A diagnostic of the given kind, at the given place, with the given
/// message.
pub open spec fn failure(kind: ErrorKind, site: Site, message: Seq<char>) -> DiagnosticView {
    DiagnosticView { kind, site, message }
}

// ---------------------------------------------------------------- location

/// The file of the request is not known.
pub open spec fn source_unavailable_spec() -> DiagnosticView {
    failure(
        ErrorKind::Location,
        Site::CallSite,
        "unable to locate source file for #[nestum]; this macro requires nightly and proc_macro_span support"@,
    )
}

/// The file of the request is not known.
pub fn source_unavailable() -> (d: Diagnostic)
    ensures
        d@ == source_unavailable_spec(),
{
    Diagnostic {
        kind: ErrorKind::Location,
        site: Site::CallSite,
        message: String::from_str(
            "unable to locate source file for #[nestum]; this macro requires nightly and proc_macro_span support",
        ),
    }
}

/// The module of the request cannot be told from its file.
pub open spec fn module_unresolved_spec() -> DiagnosticView {
    failure(
        ErrorKind::Location,
        Site::CallSite,
        "unable to determine module path for #[nestum]; ensure the enum is in a regular Rust module file (not generated or included)"@,
    )
}

/// The module of the request cannot be told from its file.
pub fn module_unresolved() -> (d: Diagnostic)
    ensures
        d@ == module_unresolved_spec(),
{
    Diagnostic {
        kind: ErrorKind::Location,
        site: Site::CallSite,
        message: String::from_str(
            "unable to determine module path for #[nestum]; ensure the enum is in a regular Rust module file (not generated or included)",
        ),
    }
}

/// The file of the request was loaded, and the module of the request holds no
/// declaration.
pub open spec fn no_declarations_spec() -> DiagnosticView {
    failure(
        ErrorKind::Location,
        Site::CallSite,
        "no enums found for current module path; ensure the enum is defined in the same source file and module as the macro call"@,
    )
}

/// The file of the request was loaded, and the module of the request holds no
/// declaration.
pub fn no_declarations() -> (d: Diagnostic)
    ensures
        d@ == no_declarations_spec(),
{
    Diagnostic {
        kind: ErrorKind::Location,
        site: Site::CallSite,
        message: String::from_str(
            "no enums found for current module path; ensure the enum is defined in the same source file and module as the macro call",
        ),
    }
}

// ----------------------------------------------------------------- loading

/// `module` is the canonical text of the module's path.
pub open spec fn module_file_missing_spec(module: Seq<char>, site: Site) -> DiagnosticView {
    failure(
        ErrorKind::NotFound,
        site,
        "unable to locate module file for "@ + module + "; expected "@ + module + ".rs or "@
            + module + "/mod.rs under the module root"@,
    )
}

/// A module has no file.
pub fn module_file_missing(module: &str, site: Site) -> (d: Diagnostic)
    ensures
        d@ == module_file_missing_spec(module@, site),
{
    let mut m = String::from_str("unable to locate module file for ");
    m.append(module);
    m.append("; expected ");
    m.append(module);
    m.append(".rs or ");
    m.append(module);
    m.append("/mod.rs under the module root");
    Diagnostic { kind: ErrorKind::NotFound, site, message: m }
}

/// A file could not be read; `reason` says why.
pub open spec fn unreadable_spec(reason: Seq<char>) -> DiagnosticView {
    failure(ErrorKind::Io, Site::CallSite, "failed to read source file: "@ + reason)
}

/// A file could not be read; `reason` says why.
pub fn unreadable(reason: &str) -> (d: Diagnostic)
    ensures
        d@ == unreadable_spec(reason@),
{
    let mut m = String::from_str("failed to read source file: ");
    m.append(reason);
    Diagnostic { kind: ErrorKind::Io, site: Site::CallSite, message: m }
}

/// A file could not be parsed; `reason` says why.
pub open spec fn unparsable_spec(reason: Seq<char>) -> DiagnosticView {
    failure(ErrorKind::Syntax, Site::CallSite, "failed to parse source file: "@ + reason)
}

/// A file could not be parsed; `reason` says why.
pub fn unparsable(reason: &str) -> (d: Diagnostic)
    ensures
        d@ == unparsable_spec(reason@),
{
    let mut m = String::from_str("failed to parse source file: ");
    m.append(reason);
    Diagnostic { kind: ErrorKind::Syntax, site: Site::CallSite, message: m }
}

// ------------------------------------------------------------- annotations

/// The arguments of an annotation do not read as a list; `reason` says why.
pub open spec fn malformed_annotation_spec(reason: Seq<char>, site: Site) -> DiagnosticView {
    failure(ErrorKind::InvalidAnnotation, site, reason)
}

/// The arguments of an annotation do not read as a list; `reason` says why.
pub fn malformed_annotation(reason: &String, site: Site) -> (d: Diagnostic)
    ensures
        d@ == malformed_annotation_spec(reason@, site),
{
    Diagnostic { kind: ErrorKind::InvalidAnnotation, site, message: reason.clone() }
}

/// The flatten annotation of the declaration `name` has arguments.
pub open spec fn arguments_on_declaration_spec(name: Seq<char>, site: Site) -> DiagnosticView {
    failure(
        ErrorKind::AnnotationArgsNotAllowed,
        site,
        "invalid #[nestum(...)] on enum "@ + name
            + "; nestum does not accept arguments. Use #[nestum] on enums only"@,
    )
}

/// The flatten annotation of the declaration `name` has arguments.
pub fn arguments_on_declaration(name: &str, site: Site) -> (d: Diagnostic)
    ensures
        d@ == arguments_on_declaration_spec(name@, site),
{
    let mut m = String::from_str("invalid #[nestum(...)] on enum ");
    m.append(name);
    m.append("; nestum does not accept arguments. Use #[nestum] on enums only");
    Diagnostic { kind: ErrorKind::AnnotationArgsNotAllowed, site, message: m }
}

/// The annotation that made the request has arguments.
pub open spec fn arguments_on_request_spec() -> DiagnosticView {
    failure(
        ErrorKind::AnnotationArgsNotAllowed,
        Site::CallSite,
        "nestum does not accept arguments"@,
    )
}

/// The annotation that made the request has arguments.
pub fn arguments_on_request() -> (d: Diagnostic)
    ensures
        d@ == arguments_on_request_spec(),
{
    Diagnostic {
        kind: ErrorKind::AnnotationArgsNotAllowed,
        site: Site::CallSite,
        message: String::from_str("nestum does not accept arguments"),
    }
}

/// The annotation stands on something that is no declaration.
pub open spec fn not_a_declaration_spec() -> DiagnosticView {
    failure(
        ErrorKind::InvalidAnnotation,
        Site::CallSite,
        "nestum can only be applied to enums"@,
    )
}

/// The annotation stands on something that is no declaration.
pub fn not_a_declaration() -> (d: Diagnostic)
    ensures
        d@ == not_a_declaration_spec(),
{
    Diagnostic {
        kind: ErrorKind::InvalidAnnotation,
        site: Site::CallSite,
        message: String::from_str("nestum can only be applied to enums"),
    }
}

/// The annotation of a case has no arguments.
pub open spec fn bare_case_annotation_spec(site: Site) -> DiagnosticView {
    failure(
        ErrorKind::InvalidAnnotation,
        site,
        "invalid #[nestum] on variant; use #[nestum(external = \"path::to::Enum\")]"@,
    )
}

/// The annotation of a case has no arguments.
pub fn bare_case_annotation(site: Site) -> (d: Diagnostic)
    ensures
        d@ == bare_case_annotation_spec(site),
{
    Diagnostic {
        kind: ErrorKind::InvalidAnnotation,
        site,
        message: String::from_str(
            "invalid #[nestum] on variant; use #[nestum(external = \"path::to::Enum\")]",
        ),
    }
}

/// The value of `external` is no string literal.
pub open spec fn external_not_string_spec(site: Site) -> DiagnosticView {
    failure(ErrorKind::InvalidAnnotation, site, "external must be a string literal"@)
}

/// The value of `external` is no string literal.
pub fn external_not_string(site: Site) -> (d: Diagnostic)
    ensures
        d@ == external_not_string_spec(site),
{
    Diagnostic {
        kind: ErrorKind::InvalidAnnotation,
        site,
        message: String::from_str("external must be a string literal"),
    }
}

/// The value of `external` does not read as a path.
pub open spec fn external_not_path_spec(site: Site) -> DiagnosticView {
    failure(
        ErrorKind::InvalidAnnotation,
        site,
        "external must be a valid Rust path, e.g. \"crate::foo::Enum\""@,
    )
}

/// The value of `external` does not read as a path.
pub fn external_not_path(site: Site) -> (d: Diagnostic)
    ensures
        d@ == external_not_path_spec(site),
{
    Diagnostic {
        kind: ErrorKind::InvalidAnnotation,
        site,
        message: String::from_str("external must be a valid Rust path, e.g. \"crate::foo::Enum\""),
    }
}

/// The annotation of a case has arguments, but none with the key `external`.
pub open spec fn external_key_missing_spec(site: Site) -> DiagnosticView {
    failure(
        ErrorKind::InvalidAnnotation,
        site,
        "invalid #[nestum(...)] on variant; expected external = \"path::to::Enum\""@,
    )
}

/// The annotation of a case has arguments, but none with the key `external`.
pub fn external_key_missing(site: Site) -> (d: Diagnostic)
    ensures
        d@ == external_key_missing_spec(site),
{
    Diagnostic {
        kind: ErrorKind::InvalidAnnotation,
        site,
        message: String::from_str(
            "invalid #[nestum(...)] on variant; expected external = \"path::to::Enum\"",
        ),
    }
}

/// An external reference holds nothing but the root word.
pub open spec fn external_without_name_spec(site: Site) -> DiagnosticView {
    failure(
        ErrorKind::InvalidAnnotation,
        site,
        "external path must include an enum ident, e.g. crate::foo::Enum"@,
    )
}

/// An external reference holds nothing but the root word.
pub fn external_without_name(site: Site) -> (d: Diagnostic)
    ensures
        d@ == external_without_name_spec(site),
{
    Diagnostic {
        kind: ErrorKind::InvalidAnnotation,
        site,
        message: String::from_str("external path must include an enum ident, e.g. crate::foo::Enum"),
    }
}

/// An external reference has no names.
pub open spec fn external_path_empty_spec(site: Site) -> DiagnosticView {
    failure(ErrorKind::InvalidAnnotation, site, "external path must include an enum ident"@)
}

/// An external reference has no names.
pub fn external_path_empty(site: Site) -> (d: Diagnostic)
    ensures
        d@ == external_path_empty_spec(site),
{
    Diagnostic {
        kind: ErrorKind::InvalidAnnotation,
        site,
        message: String::from_str("external path must include an enum ident"),
    }
}

// --------------------------------------------------------------- expansion

/// A case with an external reference does not hold exactly one positional
/// field.
pub open spec fn external_on_wrong_shape_spec(
    outer: Seq<char>,
    case: Seq<char>,
    site: Site,
) -> DiagnosticView {
    failure(
        ErrorKind::ShapeMismatch,
        site,
        "variant "@ + outer + "::"@ + case
            + " uses #[nestum(external = \"...\")], but is not a single-field tuple variant"@,
    )
}

/// A case with an external reference does not hold exactly one positional
/// field.
pub fn external_on_wrong_shape(outer: &str, case: &str, site: Site) -> (d: Diagnostic)
    ensures
        d@ == external_on_wrong_shape_spec(outer@, case@, site),
{
    let mut m = String::from_str("variant ");
    m.append(outer);
    m.append("::");
    m.append(case);
    m.append(" uses #[nestum(external = \"...\")], but is not a single-field tuple variant");
    Diagnostic { kind: ErrorKind::ShapeMismatch, site, message: m }
}

/// The field of a case with an external reference has a type that is no plain
/// path.
pub open spec fn external_type_not_name_spec(site: Site) -> DiagnosticView {
    failure(
        ErrorKind::ShapeMismatch,
        site,
        "nested enum type must be a simple ident when using #[nestum(external = \"...\")]; use a bare enum name in the field"@,
    )
}

/// The field of a case with an external reference has a type that is no plain
/// path.
pub fn external_type_not_name(site: Site) -> (d: Diagnostic)
    ensures
        d@ == external_type_not_name_spec(site),
{
    Diagnostic {
        kind: ErrorKind::ShapeMismatch,
        site,
        message: String::from_str(
            "nested enum type must be a simple ident when using #[nestum(external = \"...\")]; use a bare enum name in the field",
        ),
    }
}

/// A type is a path without names.
pub open spec fn type_without_segments_spec(site: Site) -> DiagnosticView {
    failure(ErrorKind::ShapeMismatch, site, "unsupported type path"@)
}

/// A type is a path without names.
pub fn type_without_segments(site: Site) -> (d: Diagnostic)
    ensures
        d@ == type_without_segments_spec(site),
{
    Diagnostic {
        kind: ErrorKind::ShapeMismatch,
        site,
        message: String::from_str("unsupported type path"),
    }
}

/// A type is no plain path.
pub open spec fn type_not_path_spec(site: Site) -> DiagnosticView {
    failure(ErrorKind::ShapeMismatch, site, "nested enum type must be a simple path ident"@)
}

/// A type is no plain path.
pub fn type_not_path(site: Site) -> (d: Diagnostic)
    ensures
        d@ == type_not_path_spec(site),
{
    Diagnostic {
        kind: ErrorKind::ShapeMismatch,
        site,
        message: String::from_str("nested enum type must be a simple path ident"),
    }
}

/// `reference` is the external reference, its names joined with `::`.
pub open spec fn external_mismatch_spec(
    field: Seq<char>,
    reference: Seq<char>,
    site: Site,
) -> DiagnosticView {
    failure(
        ErrorKind::PathMismatch,
        site,
        "field type "@ + field + " does not match external enum path "@ + reference
            + "; use the enum ident as the field type"@,
    )
}

/// The field type of a case differs from the last name of its external
/// reference.
pub fn external_mismatch(field: &str, reference: &str, site: Site) -> (d: Diagnostic)
    ensures
        d@ == external_mismatch_spec(field@, reference@, site),
{
    let mut m = String::from_str("field type ");
    m.append(field);
    m.append(" does not match external enum path ");
    m.append(reference);
    m.append("; use the enum ident as the field type");
    Diagnostic { kind: ErrorKind::PathMismatch, site, message: m }
}

/// An external reference leads to no declaration; `reference` is its names
/// joined with `::`.
pub open spec fn external_not_found_spec(reference: Seq<char>, site: Site) -> DiagnosticView {
    failure(
        ErrorKind::NotFound,
        site,
        "external enum "@ + reference
            + " not found; ensure the module path exists and the enum is declared in that module"@,
    )
}

/// An external reference leads to no declaration; `reference` is its names
/// joined with `::`.
pub fn external_not_found(reference: &str, site: Site) -> (d: Diagnostic)
    ensures
        d@ == external_not_found_spec(reference@, site),
{
    let mut m = String::from_str("external enum ");
    m.append(reference);
    m.append(" not found; ensure the module path exists and the enum is declared in that module");
    Diagnostic { kind: ErrorKind::NotFound, site, message: m }
}

/// `locations` is the list of modules, separated by `, `; `several` says
/// whether it names more than one.
pub open spec fn marked_elsewhere_spec(
    name: Seq<char>,
    locations: Seq<char>,
    several: bool,
    site: Site,
) -> DiagnosticView {
    failure(
        if several {
            ErrorKind::AmbiguousName
        } else {
            ErrorKind::CrossModuleNotDeclared
        },
        site,
        "nested enum type "@ + name + " is marked with #[nestum] in a different module ("@
            + locations + "); use #[nestum(external = \"path::to::"@ + name
            + "\")], or move the enum into the same module"@,
    )
}

/// A field type names a declaration that is flatten-marked in other modules
/// only.
pub fn marked_elsewhere(name: &str, locations: &str, several: bool, site: Site) -> (d: Diagnostic)
    ensures
        d@ == marked_elsewhere_spec(name@, locations@, several, site),
{
    let mut m = String::from_str("nested enum type ");
    m.append(name);
    m.append(" is marked with #[nestum] in a different module (");
    m.append(locations);
    m.append("); use #[nestum(external = \"path::to::");
    m.append(name);
    m.append("\")], or move the enum into the same module");
    let kind = if several {
        ErrorKind::AmbiguousName
    } else {
        ErrorKind::CrossModuleNotDeclared
    };
    Diagnostic { kind, site, message: m }
}

// ---------------------------------------------------------------- patterns

/// A dotted pattern names the outer type `outer`, which is known and not
/// flatten-marked.
pub open spec fn outer_not_marked_spec(outer: Seq<char>, site: Site) -> DiagnosticView {
    failure(
        ErrorKind::OuterNotFlattenMarked,
        site,
        "enum "@ + outer
            + " is not marked with #[nestum]; only #[nestum] enums support nested match patterns"@,
    )
}

/// A dotted pattern names the outer type `outer`, which is known and not
/// flatten-marked.
pub fn outer_not_marked(outer: &str, site: Site) -> (d: Diagnostic)
    ensures
        d@ == outer_not_marked_spec(outer@, site),
{
    let mut m = String::from_str("enum ");
    m.append(outer);
    m.append(" is not marked with #[nestum]; only #[nestum] enums support nested match patterns");
    Diagnostic { kind: ErrorKind::OuterNotFlattenMarked, site, message: m }
}

/// A dotted pattern leads to the inner type `inner`, which is not
/// flatten-marked.
pub open spec fn inner_not_marked_spec(inner: Seq<char>, site: Site) -> DiagnosticView {
    failure(
        ErrorKind::InnerNotFlattenMarked,
        site,
        "inner enum "@ + inner
            + " is not marked with #[nestum]; only #[nestum] enums support nested match patterns"@,
    )
}

/// A dotted pattern leads to the inner type `inner`, which is not
/// flatten-marked.
pub fn inner_not_marked(inner: &str, site: Site) -> (d: Diagnostic)
    ensures
        d@ == inner_not_marked_spec(inner@, site),
{
    let mut m = String::from_str("inner enum ");
    m.append(inner);
    m.append(" is not marked with #[nestum]; only #[nestum] enums support nested match patterns");
    Diagnostic { kind: ErrorKind::InnerNotFlattenMarked, site, message: m }
}

/// The inner type `inner` of the case `outer::case` is not found where its
/// reference leads.
pub open spec fn inner_not_found_spec(
    inner: Seq<char>,
    outer: Seq<char>,
    case: Seq<char>,
    site: Site,
) -> DiagnosticView {
    failure(
        ErrorKind::NotFound,
        site,
        "inner enum "@ + inner + " not found for "@ + outer + "::"@ + case
            + "; ensure it is declared in the referenced module"@,
    )
}

/// The inner type `inner` of the case `outer::case` is not found where its
/// reference leads.
pub fn inner_not_found(inner: &str, outer: &str, case: &str, site: Site) -> (d: Diagnostic)
    ensures
        d@ == inner_not_found_spec(inner@, outer@, case@, site),
{
    let mut m = String::from_str("inner enum ");
    m.append(inner);
    m.append(" not found for ");
    m.append(outer);
    m.append("::");
    m.append(case);
    m.append("; ensure it is declared in the referenced module");
    Diagnostic { kind: ErrorKind::NotFound, site, message: m }
}

/// The field of the case `outer::case` names `inner`, which is not declared
/// in the module of `outer`.
pub open spec fn inner_not_in_module_spec(
    inner: Seq<char>,
    outer: Seq<char>,
    case: Seq<char>,
    site: Site,
) -> DiagnosticView {
    failure(
        ErrorKind::NotFound,
        site,
        "inner enum "@ + inner + " not found for "@ + outer + "::"@ + case
            + "; ensure it is declared in the same module or use #[nestum(external = \"path::to::"@
            + inner + "\")]"@,
    )
}

/// The field of the case `outer::case` names `inner`, which is not declared
/// in the module of `outer`.
pub fn inner_not_in_module(inner: &str, outer: &str, case: &str, site: Site) -> (d: Diagnostic)
    ensures
        d@ == inner_not_in_module_spec(inner@, outer@, case@, site),
{
    let mut m = String::from_str("inner enum ");
    m.append(inner);
    m.append(" not found for ");
    m.append(outer);
    m.append("::");
    m.append(case);
    m.append("; ensure it is declared in the same module or use #[nestum(external = \"path::to::");
    m.append(inner);
    m.append("\")]");
    Diagnostic { kind: ErrorKind::NotFound, site, message: m }
}

/// The inner type `inner`, which the case `outer::outer_case` holds, has no
/// case named `case`.
pub open spec fn unknown_inner_case_spec(
    case: Seq<char>,
    inner: Seq<char>,
    outer: Seq<char>,
    outer_case: Seq<char>,
    site: Site,
) -> DiagnosticView {
    failure(
        ErrorKind::UnknownInnerCase,
        site,
        "variant "@ + case + " not found on inner enum "@ + inner + " for "@ + outer + "::"@
            + outer_case,
    )
}

/// The inner type `inner`, which the case `outer::outer_case` holds, has no
/// case named `case`.
pub fn unknown_inner_case(case: &str, inner: &str, outer: &str, outer_case: &str, site: Site) -> (d:
    Diagnostic)
    ensures
        d@ == unknown_inner_case_spec(case@, inner@, outer@, outer_case@, site),
{
    let mut m = String::from_str("variant ");
    m.append(case);
    m.append(" not found on inner enum ");
    m.append(inner);
    m.append(" for ");
    m.append(outer);
    m.append("::");
    m.append(outer_case);
    Diagnostic { kind: ErrorKind::UnknownInnerCase, site, message: m }
}

} // verus!
