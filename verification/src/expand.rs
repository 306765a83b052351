//! Expanding a flatten-marked declaration.
//!
//! For each case of the declaration that holds a single flatten-marked
//! declaration, the expansion holds a group of forwarders, one for each
//! case of the declaration inside: a constant for a case without data, a
//! function of the case's fields otherwise.  The forwarder for the inner
//! case `ic` under the outer case `c` of `D` yields `D::c(Inner::ic ...)`.
//!
//! Paths in a forwarder are written as they read in the module of the
//! declaration: `D` is the outer type, `Inner` a declaration beside it.
//! How the expansion is laid out in namespaces is told in `layout`.

use vstd::prelude::*;
use vstd::string::*;
use crate::attrs::{
    attributes_mark, external_path_spec, extract_simple_ident, extract_single_tuple_type,
    is_marked, marker_kind, nestum_attr_kind, parse_variant_external_path, simple_ident_spec,
    single_tuple_type, strip_markers, without_markers, ExternalPath, ExternalPathView, Marker,
};
use crate::diag::{
    arguments_on_declaration, arguments_on_declaration_spec, external_mismatch,
    external_mismatch_spec, external_not_found, external_not_found_spec, external_on_wrong_shape,
    external_on_wrong_shape_spec, external_path_empty, external_path_empty_spec,
    external_type_not_name, external_type_not_name_spec, external_without_name,
    external_without_name_spec, marked_elsewhere, marked_elsewhere_spec, DiagnosticView, Site,
};
use crate::modpath::{
    external_path_to_string, module_path_to_string, module_text, path_text, reference_module,
    reference_module_idents, root_qualified, split_module_and_ident, split_reference_spec,
    starts_at_root, ModuleContext, ModuleContextView,
};
use crate::registry::{
    current_module_state, external_module_state, find_decl, find_declaration, marked_locations,
    module_decls, Outcome, OutcomeView, Registry, RegistryView,
};
use crate::syntax::{
    Case, CaseView, Declaration, DeclarationView, NamedFieldView, Payload, PayloadView,
    TypeRefView,
};
use crate::text::{decimal, decimal_text, join_names, joined, same_text};

verus! {

// ---------------------------------------------------------------- forwarders

/// A parameter of a forwarder: its name and its type as written.
#[derive(Clone, Debug, PartialEq, Eq)]
pub struct Param {
    pub name: String,
    pub ty: String,
}

pub struct ParamView {
    pub name: Seq<char>,
    pub ty: Seq<char>,
}

impl View for Param {
    type V = ParamView;

    open spec fn view(&self) -> ParamView {
        ParamView { name: self.name@, ty: self.ty@ }
    }
}

impl DeepView for Param {
    type V = ParamView;

    open spec fn deep_view(&self) -> ParamView {
        self@
    }
}

/// What a forwarder takes and how it hands it on.
#[derive(Clone, Debug, PartialEq, Eq)]
pub enum ForwarderShape {
    /// A constant: the inner case carries no data.
    Constant,
    /// A function whose parameters become the positional fields of the
    /// inner case, in order.
    Positional(Vec<Param>),
    /// A function whose parameters become the fields of the inner case
    /// that have their names.
    Named(Vec<Param>),
}

pub enum ForwarderShapeView {
    Constant,
    Positional(Seq<ParamView>),
    Named(Seq<ParamView>),
}

impl View for ForwarderShape {
    type V = ForwarderShapeView;

    open spec fn view(&self) -> ForwarderShapeView {
        match self {
            ForwarderShape::Constant => ForwarderShapeView::Constant,
            ForwarderShape::Positional(params) => ForwarderShapeView::Positional(
                params.deep_view(),
            ),
            ForwarderShape::Named(params) => ForwarderShapeView::Named(params.deep_view()),
        }
    }
}

/// A forwarder: `name`, applied to its parameters, is the value
/// `outer_case(inner_case ...)` of the type `result`, where the inner case
/// is given the parameters.
#[derive(Clone, Debug, PartialEq, Eq)]
pub struct Forwarder {
    pub name: String,
    pub shape: ForwarderShape,
    /// The path of the outer type: its name.
    pub result: Vec<String>,
    /// The path of the outer case: the outer type's name and the case.
    pub outer_case: Vec<String>,
    /// The external reference as written, where the inner type is named by
    /// one; the path of the inner case then starts with it.
    pub inner_root: Option<String>,
    /// The names of the path of the inner case after `inner_root`: the
    /// case; before it the inner type's name, where there is no
    /// `inner_root`.
    pub inner_case: Vec<String>,
    /// The inner type's name.
    pub inner: String,
    /// Whether the inner type is flatten-marked.
    pub inner_marked: bool,
}

pub struct ForwarderView {
    pub name: Seq<char>,
    pub shape: ForwarderShapeView,
    pub result: Seq<Seq<char>>,
    pub outer_case: Seq<Seq<char>>,
    pub inner_root: Option<Seq<char>>,
    pub inner_case: Seq<Seq<char>>,
    pub inner: Seq<char>,
    pub inner_marked: bool,
}

impl View for Forwarder {
    type V = ForwarderView;

    open spec fn view(&self) -> ForwarderView {
        ForwarderView {
            name: self.name@,
            shape: self.shape@,
            result: self.result.deep_view(),
            outer_case: self.outer_case.deep_view(),
            inner_root: self.inner_root.deep_view(),
            inner_case: self.inner_case.deep_view(),
            inner: self.inner@,
            inner_marked: self.inner_marked,
        }
    }
}

impl DeepView for Forwarder {
    type V = ForwarderView;

    open spec fn deep_view(&self) -> ForwarderView {
        self@
    }
}

/// The forwarders of one case of the outer declaration.
#[derive(Clone, Debug, PartialEq, Eq)]
pub struct ForwarderModule {
    pub case: String,
    pub forwarders: Vec<Forwarder>,
}

pub struct ForwarderModuleView {
    pub case: Seq<char>,
    pub forwarders: Seq<ForwarderView>,
}

impl View for ForwarderModule {
    type V = ForwarderModuleView;

    open spec fn view(&self) -> ForwarderModuleView {
        ForwarderModuleView { case: self.case@, forwarders: self.forwarders.deep_view() }
    }
}

impl DeepView for ForwarderModule {
    type V = ForwarderModuleView;

    open spec fn deep_view(&self) -> ForwarderModuleView {
        self@
    }
}

/// The name of the positional parameter with index `i`.
pub open spec fn arg_name(i: nat) -> Seq<char> {
    "v"@ + decimal(i)
}

/// One parameter for each positional field, in order.
pub open spec fn positional_params(fields: Seq<TypeRefView>) -> Seq<ParamView> {
    Seq::new(fields.len(), |j: int| ParamView { name: arg_name(j as nat), ty: fields[j].text })
}

/// One parameter for each named field, in order.
pub open spec fn named_params(fields: Seq<NamedFieldView>) -> Seq<ParamView> {
    Seq::new(fields.len(), |j: int| ParamView { name: fields[j].name, ty: fields[j].ty.text })
}

/// What a forwarder for a case with the data `payload` takes.
pub open spec fn shape_of(payload: PayloadView) -> ForwarderShapeView {
    match payload {
        PayloadView::Unit => ForwarderShapeView::Constant,
        PayloadView::Tuple(fields) => ForwarderShapeView::Positional(positional_params(fields)),
        PayloadView::Record(fields) => ForwarderShapeView::Named(named_params(fields)),
    }
}

/// The path of an inner case after the external reference, if there is
/// one: the inner type's name stands in front where there is none.
pub open spec fn inner_case_names(
    inner: Seq<char>,
    root: Option<Seq<char>>,
    inner_case: Seq<char>,
) -> Seq<Seq<char>> {
    if root is Some {
        seq![inner_case]
    } else {
        seq![inner, inner_case]
    }
}

/// The forwarder for the inner case `ic` under the case `case` of `outer`:
/// it yields `outer::case(inner::ic ...)`.
pub open spec fn forwarder_of(
    outer: Seq<char>,
    case: Seq<char>,
    inner: Seq<char>,
    marked: bool,
    root: Option<Seq<char>>,
    ic: CaseView,
) -> ForwarderView {
    ForwarderView {
        name: ic.name,
        shape: shape_of(ic.payload),
        result: seq![outer],
        outer_case: seq![outer, case],
        inner_root: root,
        inner_case: inner_case_names(inner, root, ic.name),
        inner,
        inner_marked: marked,
    }
}

/// One forwarder for each case of `inner`, in order.
pub open spec fn wrappers_spec(
    outer: Seq<char>,
    case: Seq<char>,
    inner: DeclarationView,
    marked: bool,
    root: Option<Seq<char>>,
) -> Seq<ForwarderView> {
    Seq::new(
        inner.cases.len(),
        |i: int| forwarder_of(outer, case, inner.name, marked, root, inner.cases[i]),
    )
}

/// The name of the positional parameter with index `i`.
pub fn arg_ident(i: usize) -> (r: String)
    ensures
        r@ == arg_name(i as nat),
{
    let mut out = String::from_str("v");
    let digits = decimal_text(i);
    out.append(digits.as_str());
    out
}

/// What a forwarder for a case with the data `payload` takes.
pub fn forwarder_shape(payload: &Payload) -> (r: ForwarderShape)
    ensures
        r@ == shape_of(payload@),
{
    match payload {
        Payload::Unit => ForwarderShape::Constant,
        Payload::Tuple(fields) => {
            let mut params: Vec<Param> = Vec::new();
            let mut j: usize = 0;
            while j < fields.len()
                invariant
                    j <= fields.len(),
                    params.len() == j,
                    forall|k: int|
                        0 <= k < j ==> params[k]@ == (ParamView {
                            name: arg_name(k as nat),
                            ty: fields[k]@.text,
                        }),
                decreases fields.len() - j,
            {
                params.push(Param { name: arg_ident(j), ty: fields[j].text.clone() });
                j += 1;
            }
            assert(params.deep_view() =~= positional_params(fields.deep_view()));
            ForwarderShape::Positional(params)
        },
        Payload::Record(fields) => {
            let mut params: Vec<Param> = Vec::new();
            let mut j: usize = 0;
            while j < fields.len()
                invariant
                    j <= fields.len(),
                    params.len() == j,
                    forall|k: int|
                        0 <= k < j ==> params[k]@ == (ParamView {
                            name: fields[k]@.name,
                            ty: fields[k]@.ty.text,
                        }),
                decreases fields.len() - j,
            {
                params.push(Param { name: fields[j].name.clone(), ty: fields[j].ty.text.clone() });
                j += 1;
            }
            assert(params.deep_view() =~= named_params(fields.deep_view()));
            ForwarderShape::Named(params)
        },
    }
}

/// One forwarder for each case of `inner_enum`, in order.
pub fn build_forwarders(
    outer_enum: &String,
    outer_variant: &String,
    inner_enum: &Declaration,
    inner_is_marked: bool,
    root: &Option<String>,
) -> (r: Vec<Forwarder>)
    ensures
        r.deep_view() == wrappers_spec(
            outer_enum@,
            outer_variant@,
            inner_enum@,
            inner_is_marked,
            root.deep_view(),
        ),
{
    let mut out: Vec<Forwarder> = Vec::new();
    let mut i: usize = 0;
    while i < inner_enum.cases.len()
        invariant
            i <= inner_enum.cases.len(),
            out.len() == i,
            forall|k: int|
                0 <= k < i ==> out[k]@ == forwarder_of(
                    outer_enum@,
                    outer_variant@,
                    inner_enum@.name,
                    inner_is_marked,
                    root.deep_view(),
                    inner_enum@.cases[k],
                ),
        decreases inner_enum.cases.len() - i,
    {
        assert(inner_enum@.cases[i as int] == inner_enum.cases[i as int]@);
        let ic = &inner_enum.cases[i];
        let mut result: Vec<String> = Vec::new();
        result.push(outer_enum.clone());
        assert(result.deep_view() =~= seq![outer_enum@]);
        let mut outer_case: Vec<String> = Vec::new();
        outer_case.push(outer_enum.clone());
        outer_case.push(outer_variant.clone());
        assert(outer_case.deep_view() =~= seq![outer_enum@, outer_variant@]);
        let mut inner_case: Vec<String> = Vec::new();
        let inner_root = match root {
            Some(text) => Some(text.clone()),
            None => {
                inner_case.push(inner_enum.name.clone());
                None
            },
        };
        let ghost before = inner_case.deep_view();
        inner_case.push(ic.name.clone());
        assert(inner_case.deep_view() =~= before.push(ic.name@));
        assert(inner_case.deep_view() =~= inner_case_names(
            inner_enum@.name,
            root.deep_view(),
            ic@.name,
        ));
        out.push(
            Forwarder {
                name: ic.name.clone(),
                shape: forwarder_shape(&ic.payload),
                result,
                outer_case,
                inner_root,
                inner_case,
                inner: inner_enum.name.clone(),
                inner_marked: inner_is_marked,
            },
        );
        i += 1;
    }
    assert(inner_enum@.cases.len() == inner_enum.cases.len());
    assert(out.deep_view() =~= wrappers_spec(
        outer_enum@,
        outer_variant@,
        inner_enum@,
        inner_is_marked,
        root.deep_view(),
    ));
    out
}

/// The forwarders for a case that holds the declaration `inner_enum` of
/// the same module.
pub fn build_wrappers(
    outer_enum: &String,
    outer_variant: &String,
    inner_enum: &Declaration,
    inner_is_marked: bool,
) -> (r: Vec<Forwarder>)
    ensures
        r.deep_view() == wrappers_spec(
            outer_enum@,
            outer_variant@,
            inner_enum@,
            inner_is_marked,
            None,
        ),
{
    let root: Option<String> = None;
    build_forwarders(outer_enum, outer_variant, inner_enum, inner_is_marked, &root)
}

/// The forwarders for a case that names the declaration `inner_enum` by
/// the external reference `inner_path`.
pub fn build_wrappers_with_path(
    outer_enum: &String,
    outer_variant: &String,
    inner_enum: &Declaration,
    inner_is_marked: bool,
    inner_path: &ExternalPath,
) -> (r: Vec<Forwarder>)
    ensures
        r.deep_view() == wrappers_spec(
            outer_enum@,
            outer_variant@,
            inner_enum@,
            inner_is_marked,
            Some(inner_path@.text),
        ),
{
    let root: Option<String> = Some(inner_path.text.clone());
    build_forwarders(outer_enum, outer_variant, inner_enum, inner_is_marked, &root)
}

// ------------------------------------------------------ external references

/// A declaration that was found, with whether it is flatten-marked; a
/// flatten annotation that cannot be read is a failure.
pub open spec fn with_marker(found: Option<DeclarationView>) -> OutcomeView<
    Option<(DeclarationView, bool)>,
> {
    match found {
        None => OutcomeView::Ready(None),
        Some(d) => match marker_kind(d.attrs, Site::Registry) {
            Err(e) => OutcomeView::Failed(e),
            Ok(marker) => OutcomeView::Ready(Some((d, marker == Marker::Plain))),
        },
    }
}

/// The declaration that an external reference names, for a declaration
/// written in `current`.  The module names of the reference count from
/// `current` unless the reference is root-qualified; a reference without
/// module names counts from the root.  The module must be held by the
/// registry or is asked for; a failure to load it is a failure.
pub open spec fn resolve_external_spec(
    names: Seq<Seq<char>>,
    current: Seq<Seq<char>>,
    registry: RegistryView,
    site: Site,
) -> OutcomeView<Option<(DeclarationView, bool)>> {
    match split_reference_spec(names) {
        None => OutcomeView::Failed(external_without_name_spec(site)),
        Some((module, name)) => {
            let target = reference_module(module, root_qualified(names), current);
            match external_module_state(registry, target, site) {
                OutcomeView::Load(request) => OutcomeView::Load(request),
                OutcomeView::Failed(d) => OutcomeView::Failed(d),
                OutcomeView::Ready(_) => match module_decls(registry.entries, target) {
                    None => OutcomeView::Ready(None),
                    Some(decls) => with_marker(find_decl(decls, name)),
                },
            }
        },
    }
}

/// The declaration that an external reference names.
pub fn resolve_external_enum<'a>(
    names: &Vec<String>,
    context: &ModuleContext,
    registry: &'a Registry,
    site: Site,
) -> (r: Outcome<Option<(&'a Declaration, bool)>>)
    ensures
        r@ == resolve_external_spec(names.deep_view(), context@.module, registry@, site),
{
    let explicit_root = starts_at_root(names);
    let (module, name) = match split_module_and_ident(names) {
        None => {
            return Outcome::Failed(external_without_name(site));
        },
        Some(parts) => parts,
    };
    let target = reference_module_idents(&module, explicit_root, &context.module);
    match registry.ensure_external_module_loaded(&target, site) {
        Outcome::Load(request) => Outcome::Load(request),
        Outcome::Failed(d) => Outcome::Failed(d),
        Outcome::Ready(_) => match registry.registry_get(&target) {
            None => Outcome::Ready(None),
            Some(decls) => match find_declaration(decls, &name) {
                None => Outcome::Ready(None),
                Some(d) => match nestum_attr_kind(&d.attrs, Site::Registry) {
                    Err(e) => Outcome::Failed(e),
                    Ok(marker) => Outcome::Ready(Some((d, marker == Marker::Plain))),
                },
            },
        },
    }
}

// ------------------------------------------------------------ case by case

/// The group of forwarders for the case `case` of `outer`.
pub open spec fn group_of(
    outer: Seq<char>,
    case: Seq<char>,
    inner: DeclarationView,
    marked: bool,
    root: Option<Seq<char>>,
) -> ForwarderModuleView {
    ForwarderModuleView { case, forwarders: wrappers_spec(outer, case, inner, marked, root) }
}

/// What a case with the external reference `path` expands to.  The case
/// must hold exactly one positional field whose type is a plain path that
/// ends in the last name of the reference, and the reference must lead to a
/// declaration.
pub open spec fn external_case(
    outer: DeclarationView,
    k: usize,
    path: ExternalPathView,
    current: Seq<Seq<char>>,
    registry: RegistryView,
) -> OutcomeView<Option<ForwarderModuleView>> {
    let case = outer.cases[k as int];
    match single_tuple_type(case.payload) {
        None => OutcomeView::Failed(
            external_on_wrong_shape_spec(outer.name, case.name, Site::Case(k)),
        ),
        Some(ty) => match simple_ident_spec(ty, Site::CaseType(k)) {
            Err(_) => OutcomeView::Failed(external_type_not_name_spec(Site::CaseType(k))),
            Ok(field) => if path.names.len() == 0 {
                OutcomeView::Failed(external_path_empty_spec(Site::CaseAnnotation(k)))
            } else if field != path.names[path.names.len() - 1] {
                OutcomeView::Failed(
                    external_mismatch_spec(field, path_text(path.names), Site::CaseType(k)),
                )
            } else {
                match resolve_external_spec(path.names, current, registry, Site::CaseAnnotation(k)) {
                    OutcomeView::Load(request) => OutcomeView::Load(request),
                    OutcomeView::Failed(d) => OutcomeView::Failed(d),
                    OutcomeView::Ready(None) => OutcomeView::Failed(
                        external_not_found_spec(path_text(path.names), Site::CaseAnnotation(k)),
                    ),
                    OutcomeView::Ready(Some((inner, marked))) => OutcomeView::Ready(
                        Some(
                            group_of(outer.name, case.name, inner, marked, Some(path.text)),
                        ),
                    ),
                }
            },
        },
    }
}

/// The canonical text of each module path.
pub open spec fn location_texts(locations: Seq<Seq<Seq<char>>>) -> Seq<Seq<char>> {
    Seq::new(locations.len(), |i: int| module_text(locations[i]))
}

/// The separator of the modules in a message.
pub open spec fn list_sep() -> Seq<char> {
    seq![',', ' ']
}

/// What a case without an external reference expands to.  A case that
/// holds one positional field whose type names a flatten-marked
/// declaration of the same module gets its forwarders.  Where the name is
/// not declared in the module but is flatten-marked in others, the step
/// fails.  Any other case gets nothing.
pub open spec fn sibling_case(
    outer: DeclarationView,
    k: usize,
    local: Seq<DeclarationView>,
    registry: RegistryView,
) -> OutcomeView<Option<ForwarderModuleView>> {
    let case = outer.cases[k as int];
    match single_tuple_type(case.payload) {
        None => OutcomeView::Ready(None),
        Some(ty) => match simple_ident_spec(ty, Site::CaseType(k)) {
            Err(_) => OutcomeView::Ready(None),
            Ok(name) => match find_decl(local, name) {
                Some(inner) => if is_marked(inner.attrs) {
                    OutcomeView::Ready(
                        Some(
                            group_of(outer.name, case.name, inner, true, None),
                        ),
                    )
                } else {
                    OutcomeView::Ready(None)
                },
                None => match marked_locations(registry.entries, name) {
                    Err(d) => OutcomeView::Failed(d),
                    Ok(None) => OutcomeView::Ready(None),
                    Ok(Some(locations)) => OutcomeView::Failed(
                        marked_elsewhere_spec(
                            name,
                            joined(location_texts(locations), list_sep()),
                            locations.len() > 1,
                            Site::CaseType(k),
                        ),
                    ),
                },
            },
        },
    }
}

/// What the case with index `k` of `outer` expands to: its group of
/// forwarders, or nothing.
pub open spec fn case_module(
    outer: DeclarationView,
    k: usize,
    current: Seq<Seq<char>>,
    local: Seq<DeclarationView>,
    registry: RegistryView,
) -> OutcomeView<Option<ForwarderModuleView>> {
    match external_path_spec(outer.cases[k as int].attrs, Site::CaseAnnotation(k)) {
        Err(d) => OutcomeView::Failed(d),
        Ok(Some(path)) => external_case(outer, k, path, current, registry),
        Ok(None) => sibling_case(outer, k, local, registry),
    }
}

/// The groups of the first `n` cases, in order; the first request or
/// failure on the way where there is one.
pub open spec fn case_modules(
    outer: DeclarationView,
    n: nat,
    current: Seq<Seq<char>>,
    local: Seq<DeclarationView>,
    registry: RegistryView,
) -> OutcomeView<Seq<ForwarderModuleView>>
    decreases n,
{
    if n == 0 {
        OutcomeView::Ready(Seq::empty())
    } else {
        match case_modules(outer, (n - 1) as nat, current, local, registry) {
            OutcomeView::Ready(done) => match case_module(
                outer,
                (n - 1) as usize,
                current,
                local,
                registry,
            ) {
                OutcomeView::Ready(Some(group)) => OutcomeView::Ready(done.push(group)),
                OutcomeView::Ready(None) => OutcomeView::Ready(done),
                OutcomeView::Load(request) => OutcomeView::Load(request),
                OutcomeView::Failed(d) => OutcomeView::Failed(d),
            },
            other => other,
        }
    }
}

/// Once a request or a failure was met, it is the result.
pub proof fn lemma_case_modules_stops(
    outer: DeclarationView,
    n: nat,
    m: nat,
    current: Seq<Seq<char>>,
    local: Seq<DeclarationView>,
    registry: RegistryView,
)
    requires
        n <= m,
        !(case_modules(outer, n, current, local, registry) is Ready),
    ensures
        case_modules(outer, m, current, local, registry) == case_modules(
            outer,
            n,
            current,
            local,
            registry,
        ),
    decreases m - n,
{
    if n < m {
        lemma_case_modules_stops(outer, n, (m - 1) as nat, current, local, registry);
    }
}

/// A case without its flatten annotations.
pub open spec fn stripped_case(case: CaseView) -> CaseView {
    CaseView { name: case.name, attrs: without_markers(case.attrs), payload: case.payload }
}

/// A declaration without its flatten annotations and those of its cases.
pub open spec fn stripped(decl: DeclarationView) -> DeclarationView {
    DeclarationView {
        name: decl.name,
        attrs: without_markers(decl.attrs),
        cases: Seq::new(decl.cases.len(), |i: int| stripped_case(decl.cases[i])),
    }
}

/// A declaration without its flatten annotations and those of its cases.
pub fn strip_declaration(decl: &Declaration) -> (r: Declaration)
    ensures
        r@ == stripped(decl@),
{
    let mut cases: Vec<Case> = Vec::new();
    let mut i: usize = 0;
    while i < decl.cases.len()
        invariant
            i <= decl.cases.len(),
            cases.len() == i,
            forall|k: int| 0 <= k < i ==> cases[k]@ == stripped_case(decl@.cases[k]),
        decreases decl.cases.len() - i,
    {
        assert(decl@.cases[i as int] == decl.cases[i as int]@);
        let case = &decl.cases[i];
        cases.push(
            Case {
                name: case.name.clone(),
                attrs: strip_markers(&case.attrs),
                payload: case.payload.duplicate(),
            },
        );
        i += 1;
    }
    assert(decl@.cases.len() == decl.cases.len());
    assert(cases.deep_view() =~= stripped(decl@).cases);
    Declaration { name: decl.name.clone(), attrs: strip_markers(&decl.attrs), cases }
}

/// The result of expanding a declaration.
#[derive(Clone, Debug, PartialEq, Eq)]
pub struct Expansion {
    /// The declaration, without its flatten annotations.
    pub declaration: Declaration,
    /// One group of forwarders for each case that flattens, in the order
    /// of the cases.
    pub modules: Vec<ForwarderModule>,
}

pub struct ExpansionView {
    pub declaration: DeclarationView,
    pub modules: Seq<ForwarderModuleView>,
}

impl View for Expansion {
    type V = ExpansionView;

    open spec fn view(&self) -> ExpansionView {
        ExpansionView { declaration: self.declaration@, modules: self.modules.deep_view() }
    }
}

impl DeepView for Expansion {
    type V = ExpansionView;

    open spec fn deep_view(&self) -> ExpansionView {
        self@
    }
}

/// The expansion of `item`, a declaration of the module `current` whose
/// declarations are `local`.
pub open spec fn expand_with_context_spec(
    item: DeclarationView,
    current: Seq<Seq<char>>,
    local: Seq<DeclarationView>,
    registry: RegistryView,
) -> OutcomeView<ExpansionView> {
    match case_modules(item, item.cases.len(), current, local, registry) {
        OutcomeView::Ready(modules) => OutcomeView::Ready(
            ExpansionView { declaration: stripped(item), modules },
        ),
        OutcomeView::Load(request) => OutcomeView::Load(request),
        OutcomeView::Failed(d) => OutcomeView::Failed(d),
    }
}

/// The text of `locations`, separated by `, `.
pub fn locations_text(locations: &Vec<Vec<String>>) -> (r: String)
    ensures
        r@ == joined(location_texts(locations.deep_view()), list_sep()),
{
    let mut texts: Vec<String> = Vec::new();
    let mut i: usize = 0;
    while i < locations.len()
        invariant
            i <= locations.len(),
            texts.len() == i,
            forall|k: int| 0 <= k < i ==> texts[k]@ == module_text(locations.deep_view()[k]),
        decreases locations.len() - i,
    {
        assert(locations.deep_view()[i as int] == locations[i as int].deep_view());
        texts.push(module_path_to_string(&locations[i]));
        i += 1;
    }
    assert(locations.deep_view().len() == locations.len());
    assert(texts.deep_view() =~= location_texts(locations.deep_view()));
    proof {
        reveal_strlit(", ");
        assert(", "@ =~= list_sep());
    }
    join_names(&texts, ", ")
}

/// Expands the case with index `k` of `item` where it has the external
/// reference `path`.
pub(crate) fn expand_external_case(
    item: &Declaration,
    k: usize,
    path: &ExternalPath,
    context: &ModuleContext,
    registry: &Registry,
) -> (r: Outcome<Option<ForwarderModule>>)
    requires
        k < item.cases.len(),
    ensures
        r@ == external_case(item@, k, path@, context@.module, registry@),
{
    assert(item@.cases[k as int] == item.cases[k as int]@);
    let case = &item.cases[k];
    let ty = match extract_single_tuple_type(case) {
        None => {
            return Outcome::Failed(
                external_on_wrong_shape(item.name.as_str(), case.name.as_str(), Site::Case(k)),
            );
        },
        Some(ty) => ty,
    };
    let field = match extract_simple_ident(ty, Site::CaseType(k)) {
        Err(_) => {
            return Outcome::Failed(external_type_not_name(Site::CaseType(k)));
        },
        Ok(field) => field,
    };
    assert(path@.names.len() == path.names.len());
    if path.names.len() == 0 {
        return Outcome::Failed(external_path_empty(Site::CaseAnnotation(k)));
    }
    assert(path@.names[path.names.len() - 1] == path.names[path.names.len() - 1]@);
    if !same_text(field, &path.names[path.names.len() - 1]) {
        let written = external_path_to_string(&path.names);
        return Outcome::Failed(
            external_mismatch(field.as_str(), written.as_str(), Site::CaseType(k)),
        );
    }
    match resolve_external_enum(&path.names, context, registry, Site::CaseAnnotation(k)) {
        Outcome::Load(request) => Outcome::Load(request),
        Outcome::Failed(d) => Outcome::Failed(d),
        Outcome::Ready(None) => {
            let written = external_path_to_string(&path.names);
            Outcome::Failed(external_not_found(written.as_str(), Site::CaseAnnotation(k)))
        },
        Outcome::Ready(Some((inner, marked))) => Outcome::Ready(
            Some(
                ForwarderModule {
                    case: case.name.clone(),
                    forwarders: build_wrappers_with_path(
                        &item.name,
                        &case.name,
                        inner,
                        marked,
                        path,
                    ),
                },
            ),
        ),
    }
}

/// Expands the case with index `k` of `item` where it has no external
/// reference.
pub(crate) fn expand_sibling_case(
    item: &Declaration,
    k: usize,
    local: &Vec<Declaration>,
    registry: &Registry,
) -> (r: Outcome<Option<ForwarderModule>>)
    requires
        k < item.cases.len(),
    ensures
        r@ == sibling_case(item@, k, local.deep_view(), registry@),
{
    assert(item@.cases[k as int] == item.cases[k as int]@);
    let case = &item.cases[k];
    let ty = match extract_single_tuple_type(case) {
        None => {
            return Outcome::Ready(None);
        },
        Some(ty) => ty,
    };
    let name = match extract_simple_ident(ty, Site::CaseType(k)) {
        Err(_) => {
            return Outcome::Ready(None);
        },
        Ok(name) => name,
    };
    match find_declaration(local, name) {
        Some(inner) => {
            if attributes_mark(&inner.attrs) {
                Outcome::Ready(
                    Some(
                        ForwarderModule {
                            case: case.name.clone(),
                            forwarders: build_wrappers(&item.name, &case.name, inner, true),
                        },
                    ),
                )
            } else {
                Outcome::Ready(None)
            }
        },
        None => match registry.find_marked_enum_modules(name) {
            Err(d) => Outcome::Failed(d),
            Ok(None) => Outcome::Ready(None),
            Ok(Some(locations)) => {
                assert(locations.deep_view().len() == locations.len());
                let text = locations_text(&locations);
                Outcome::Failed(
                    marked_elsewhere(
                        name.as_str(),
                        text.as_str(),
                        locations.len() > 1,
                        Site::CaseType(k),
                    ),
                )
            },
        },
    }
}

/// Expands `item`, a declaration of the module of `context`, whose
/// declarations are `local`.
pub fn expand_enum_with_context(
    item: &Declaration,
    context: &ModuleContext,
    local: &Vec<Declaration>,
    registry: &Registry,
) -> (r: Outcome<Expansion>)
    ensures
        r@ == expand_with_context_spec(item@, context@.module, local.deep_view(), registry@),
{
    let mut modules: Vec<ForwarderModule> = Vec::new();
    let mut k: usize = 0;
    assert(modules.deep_view() =~= Seq::<ForwarderModuleView>::empty());
    assert(item@.cases.len() == item.cases.len());
    while k < item.cases.len()
        invariant
            k <= item.cases.len(),
            item@.cases.len() == item.cases.len(),
            case_modules(item@, k as nat, context@.module, local.deep_view(), registry@)
                == OutcomeView::Ready(modules.deep_view()),
        decreases item.cases.len() - k,
    {
        assert(item@.cases[k as int] == item.cases[k as int]@);
        let ghost before = modules.deep_view();
        let step = match parse_variant_external_path(&item.cases[k].attrs, Site::CaseAnnotation(k)) {
            Err(d) => Outcome::Failed(d),
            Ok(Some(path)) => expand_external_case(item, k, &path, context, registry),
            Ok(None) => expand_sibling_case(item, k, local, registry),
        };
        assert(step@ == case_module(item@, k, context@.module, local.deep_view(), registry@));
        match step {
            Outcome::Ready(Some(group)) => {
                modules.push(group);
                assert(modules.deep_view() =~= before.push(group@));
            },
            Outcome::Ready(None) => {},
            Outcome::Load(request) => {
                proof {
                    lemma_case_modules_stops(
                        item@,
                        (k + 1) as nat,
                        item.cases.len() as nat,
                        context@.module,
                        local.deep_view(),
                        registry@,
                    );
                }
                return Outcome::Load(request);
            },
            Outcome::Failed(d) => {
                proof {
                    lemma_case_modules_stops(
                        item@,
                        (k + 1) as nat,
                        item.cases.len() as nat,
                        context@.module,
                        local.deep_view(),
                        registry@,
                    );
                }
                return Outcome::Failed(d);
            },
        }
        k += 1;
    }
    Outcome::Ready(Expansion { declaration: strip_declaration(item), modules })
}

// ------------------------------------------------------------ the whole step

/// The first declaration among the first `n` whose flatten annotation is
/// not a plain marker, as a failure.
pub open spec fn check_markers(decls: Seq<DeclarationView>, n: nat) -> Option<DiagnosticView>
    decreases n,
{
    if n == 0 {
        None
    } else {
        match check_markers(decls, (n - 1) as nat) {
            Some(d) => Some(d),
            None => match marker_kind(decls[n - 1].attrs, Site::Registry) {
                Err(e) => Some(e),
                Ok(Marker::WithArgs) => Some(
                    arguments_on_declaration_spec(decls[n - 1].name, Site::Registry),
                ),
                Ok(_) => None,
            },
        }
    }
}

/// Once a failure was met, it is the result.
pub proof fn lemma_check_markers_stops(decls: Seq<DeclarationView>, n: nat, m: nat)
    requires
        n <= m,
        check_markers(decls, n) is Some,
    ensures
        check_markers(decls, m) == check_markers(decls, n),
    decreases m - n,
{
    if n < m {
        lemma_check_markers_stops(decls, n, (m - 1) as nat);
    }
}

/// The expansion of `item` for a request in `context`: first the
/// declarations of the request's module are made sure of; a flatten
/// annotation with arguments on any of them is a failure; then `item` is
/// expanded case by case.
pub open spec fn expand_enum_spec(
    item: DeclarationView,
    context: ModuleContextView,
    registry: RegistryView,
) -> OutcomeView<ExpansionView> {
    match current_module_state(registry, context) {
        OutcomeView::Load(request) => OutcomeView::Load(request),
        OutcomeView::Failed(d) => OutcomeView::Failed(d),
        OutcomeView::Ready(local) => match check_markers(local, local.len()) {
            Some(d) => OutcomeView::Failed(d),
            None => expand_with_context_spec(item, context.module, local, registry),
        },
    }
}

/// Expands the declaration `item` for a request in `context`.
pub fn expand_enum(item: &Declaration, context: &ModuleContext, registry: &Registry) -> (r: Outcome<
    Expansion,
>)
    ensures
        r@ == expand_enum_spec(item@, context@, registry@),
{
    let local = match registry.ensure_module_enums_loaded(context) {
        Outcome::Load(request) => {
            return Outcome::Load(request);
        },
        Outcome::Failed(d) => {
            return Outcome::Failed(d);
        },
        Outcome::Ready(local) => local,
    };
    let mut i: usize = 0;
    assert(local.deep_view().len() == local.len());
    while i < local.len()
        invariant
            i <= local.len(),
            local.deep_view().len() == local.len(),
            current_module_state(registry@, context@) == OutcomeView::Ready(local.deep_view()),
            check_markers(local.deep_view(), i as nat) is None,
        decreases local.len() - i,
    {
        assert(local.deep_view()[i as int] == local[i as int]@);
        match nestum_attr_kind(&local[i].attrs, Site::Registry) {
            Err(e) => {
                proof {
                    lemma_check_markers_stops(local.deep_view(), (i + 1) as nat, local.len() as nat);
                }
                return Outcome::Failed(e);
            },
            Ok(Marker::WithArgs) => {
                proof {
                    lemma_check_markers_stops(local.deep_view(), (i + 1) as nat, local.len() as nat);
                }
                return Outcome::Failed(
                    arguments_on_declaration(local[i].name.as_str(), Site::Registry),
                );
            },
            Ok(_) => {},
        }
        i += 1;
    }
    expand_enum_with_context(item, context, local, registry)
}

} // verus!
