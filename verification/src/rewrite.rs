//! Rewriting dotted patterns.
//!
//! A pattern whose path has at least three names is read as
//! `prefix::Outer::Case::InnerCase`.  Where `Outer` is a flatten-marked
//! declaration whose case `Case` holds a flatten-marked declaration `Inner`
//! with a case `InnerCase`, the pattern becomes the nested pattern
//! `Outer::Case(Inner::InnerCase ...)` and keeps the sub-patterns that it
//! was written with.  The outer path keeps the prefix that the pattern
//! was written with.  The inner path has the same prefix where the inner
//! type is declared beside the outer type, and the module that the
//! external reference leads to otherwise.

use vstd::prelude::*;
use vstd::string::*;
use crate::attrs::{
    attributes_mark, external_path_spec, extract_simple_ident, extract_single_tuple_type,
    is_marked, parse_variant_external_path, simple_ident_spec, single_tuple_type,
};
use crate::diag::{
    external_without_name, external_without_name_spec, inner_not_found, inner_not_found_spec,
    inner_not_in_module, inner_not_in_module_spec, inner_not_marked, inner_not_marked_spec,
    outer_not_marked, outer_not_marked_spec, result_view, unknown_inner_case,
    unknown_inner_case_spec, Diagnostic, DiagnosticView, Site,
};
use crate::modpath::{
    build_path_from_idents, effective_module, effective_module_idents, reference_module,
    reference_module_idents, root_qualified, split_module_and_ident, split_nested_path,
    split_nested_spec, split_reference_spec, starts_at_root, ModuleContext, ModuleContextView,
    NestedPathView,
};
use crate::pattern::{
    copy_patterns, lemma_pattern_view, rewritten_path, Pattern, PatternPath, PatternPathView,
    PatternView,
};
use crate::registry::{
    current_module_state, external_module_state, find_decl, find_declaration, module_decls,
    Outcome, OutcomeView, Registry, RegistryView,
};
use crate::syntax::{Case, CaseView, Declaration, DeclarationView};
use crate::text::{copy_names, same_names, same_text};

verus! {

// ----------------------------------------------------------- cases by name

/// The index of the first case named `name` at or after `from`; the number
/// of cases where there is none.
pub open spec fn case_from(cases: Seq<CaseView>, name: Seq<char>, from: int) -> int
    decreases cases.len() - from,
{
    if from >= cases.len() {
        cases.len() as int
    } else if cases[from].name == name {
        from
    } else {
        case_from(cases, name, from + 1)
    }
}

/// Whether a declaration has a case named `name`.
pub open spec fn has_case(decl: DeclarationView, name: Seq<char>) -> bool {
    case_from(decl.cases, name, 0) < decl.cases.len()
}

/// The position of the case named `name`.
pub fn case_index(cases: &Vec<Case>, name: &String) -> (r: Option<usize>)
    ensures
        match r {
            Some(i) => i < cases.len() && i == case_from(cases.deep_view(), name@, 0),
            None => case_from(cases.deep_view(), name@, 0) >= cases.len(),
        },
{
    let mut i: usize = 0;
    while i < cases.len()
        invariant
            i <= cases.len(),
            case_from(cases.deep_view(), name@, i as int) == case_from(cases.deep_view(), name@, 0),
        decreases cases.len() - i,
    {
        assert(cases.deep_view()[i as int] == cases[i as int]@);
        if same_text(&cases[i].name, name) {
            return Some(i);
        }
        i += 1;
    }
    None
}

// ------------------------------------------------------ finding declarations

/// A declaration that was found, with whether it is flatten-marked.
pub open spec fn marked_pair(found: Option<DeclarationView>) -> Option<(DeclarationView, bool)> {
    match found {
        Some(d) => Some((d, is_marked(d.attrs))),
        None => None,
    }
}

/// The declaration `name` of the module `target`, for a request made in
/// the module `current`, whose declarations are `local`.  The module of the
/// request is read from `local`; any other module must be held by the
/// registry or is asked for.  Where loading the module failed, the failure
/// is passed on if the path was root-qualified; otherwise nothing is found.
pub open spec fn resolve_in_module(
    target: Seq<Seq<char>>,
    explicit_root: bool,
    name: Seq<char>,
    current: Seq<Seq<char>>,
    local: Seq<DeclarationView>,
    registry: RegistryView,
) -> OutcomeView<Option<(DeclarationView, bool)>> {
    if target == current {
        OutcomeView::Ready(marked_pair(find_decl(local, name)))
    } else {
        match external_module_state(registry, target, Site::CallSite) {
            OutcomeView::Failed(d) => if explicit_root {
                OutcomeView::Failed(d)
            } else {
                OutcomeView::Ready(None)
            },
            OutcomeView::Load(request) => OutcomeView::Load(request),
            OutcomeView::Ready(_) => match module_decls(registry.entries, target) {
                None => OutcomeView::Ready(None),
                Some(decls) => OutcomeView::Ready(marked_pair(find_decl(decls, name))),
            },
        }
    }
}

/// The declaration `name` under the module prefix `prefix`.
pub open spec fn resolve_from_path(
    prefix: Seq<Seq<char>>,
    explicit_root: bool,
    name: Seq<char>,
    current: Seq<Seq<char>>,
    local: Seq<DeclarationView>,
    registry: RegistryView,
) -> OutcomeView<Option<(DeclarationView, bool)>> {
    resolve_in_module(
        effective_module(prefix, explicit_root, current),
        explicit_root,
        name,
        current,
        local,
        registry,
    )
}

/// The declarations of `module`, as far as they are at hand.
pub open spec fn decls_in(
    module: Seq<Seq<char>>,
    current: Seq<Seq<char>>,
    local: Seq<DeclarationView>,
    registry: RegistryView,
) -> Option<Seq<DeclarationView>> {
    if module == current {
        Some(local)
    } else {
        module_decls(registry.entries, module)
    }
}

/// The declarations of `module`, as far as they are at hand.
pub fn declarations_in<'a>(
    module: &Vec<String>,
    context: &ModuleContext,
    local: &'a Vec<Declaration>,
    registry: &'a Registry,
) -> (r: Option<&'a Vec<Declaration>>)
    ensures
        r.deep_view() == decls_in(
            module.deep_view(),
            context@.module,
            local.deep_view(),
            registry@,
        ),
{
    if same_names(module, &context.module) {
        Some(local)
    } else {
        registry.registry_get(module)
    }
}

/// A declaration that was found, with whether it is flatten-marked.
pub fn with_mark<'a>(found: Option<&'a Declaration>) -> (r: Option<(&'a Declaration, bool)>)
    ensures
        r.deep_view() == marked_pair(found.deep_view()),
{
    match found {
        Some(d) => Some((d, attributes_mark(&d.attrs))),
        None => None,
    }
}

/// The declaration `name` of the module `target`.
pub fn resolve_enum_in<'a>(
    target: &Vec<String>,
    explicit_crate: bool,
    name: &String,
    context: &ModuleContext,
    local: &'a Vec<Declaration>,
    registry: &'a Registry,
) -> (r: Outcome<Option<(&'a Declaration, bool)>>)
    ensures
        r@ == resolve_in_module(
            target.deep_view(),
            explicit_crate,
            name@,
            context@.module,
            local.deep_view(),
            registry@,
        ),
{
    if same_names(target, &context.module) {
        return Outcome::Ready(with_mark(find_declaration(local, name)));
    }
    match registry.ensure_external_module_loaded(target, Site::CallSite) {
        Outcome::Failed(d) => {
            if explicit_crate {
                Outcome::Failed(d)
            } else {
                Outcome::Ready(None)
            }
        },
        Outcome::Load(request) => Outcome::Load(request),
        Outcome::Ready(_) => match registry.registry_get(target) {
            None => Outcome::Ready(None),
            Some(decls) => Outcome::Ready(with_mark(find_declaration(decls, name))),
        },
    }
}

/// The declaration `name` under the module prefix `prefix`.
pub fn resolve_enum_from_path<'a>(
    prefix: &Vec<String>,
    explicit_crate: bool,
    name: &String,
    context: &ModuleContext,
    local: &'a Vec<Declaration>,
    registry: &'a Registry,
) -> (r: Outcome<Option<(&'a Declaration, bool)>>)
    ensures
        r@ == resolve_from_path(
            prefix.deep_view(),
            explicit_crate,
            name@,
            context@.module,
            local.deep_view(),
            registry@,
        ),
{
    let target = effective_module_idents(prefix, explicit_crate, &context.module);
    resolve_enum_in(&target, explicit_crate, name, context, local, registry)
}

// ------------------------------------------------------- the type in a case

/// The declaration inside a case: its name, its module, whether it was
/// named by a root-qualified path, and whether it was named by an external
/// reference at all.
#[derive(Clone, Debug, PartialEq, Eq)]
pub struct InnerRef {
    pub name: String,
    pub module: Vec<String>,
    pub explicit_root: bool,
    pub external: bool,
}

pub struct InnerRefView {
    pub name: Seq<char>,
    pub module: Seq<Seq<char>>,
    pub explicit_root: bool,
    pub external: bool,
}

impl View for InnerRef {
    type V = InnerRefView;

    open spec fn view(&self) -> InnerRefView {
        InnerRefView {
            name: self.name@,
            module: self.module.deep_view(),
            explicit_root: self.explicit_root,
            external: self.external,
        }
    }
}

impl DeepView for InnerRef {
    type V = InnerRefView;

    open spec fn deep_view(&self) -> InnerRefView {
        self@
    }
}

/// The declaration that an external reference names, for a request made in
/// `current`.
pub open spec fn external_inner(names: Seq<Seq<char>>, current: Seq<Seq<char>>) -> Result<
    Option<InnerRefView>,
    DiagnosticView,
> {
    match split_reference_spec(names) {
        None => Err(external_without_name_spec(Site::Registry)),
        Some((module, name)) => Ok(
            Some(
                InnerRefView {
                    name,
                    module: reference_module(module, root_qualified(names), current),
                    explicit_root: root_qualified(names),
                    external: true,
                },
            ),
        ),
    }
}

/// The declaration that the field of a case names, where the case has no
/// external reference: the declaration of that name in the module of the
/// outer type, which is `siblings`.
pub open spec fn sibling_inner(
    outer: DeclarationView,
    case: CaseView,
    outer_module: Seq<Seq<char>>,
    siblings: Option<Seq<DeclarationView>>,
) -> Result<Option<InnerRefView>, DiagnosticView> {
    match single_tuple_type(case.payload) {
        None => Ok(None),
        Some(ty) => match simple_ident_spec(ty, Site::Registry) {
            Err(d) => Err(d),
            Ok(name) => if siblings is Some && find_decl(siblings->0, name) is Some {
                Ok(
                    Some(
                        InnerRefView {
                            name,
                            module: outer_module,
                            explicit_root: false,
                            external: false,
                        },
                    ),
                )
            } else {
                Err(inner_not_in_module_spec(name, outer.name, case.name, Site::Registry))
            },
        },
    }
}

/// The declaration inside the case `case` of `outer`: `Ok(None)` where
/// `outer` has no such case or the case holds no single declaration.
pub open spec fn inner_reference(
    outer: DeclarationView,
    case: Seq<char>,
    outer_module: Seq<Seq<char>>,
    current: Seq<Seq<char>>,
    siblings: Option<Seq<DeclarationView>>,
) -> Result<Option<InnerRefView>, DiagnosticView> {
    let k = case_from(outer.cases, case, 0);
    if k >= outer.cases.len() {
        Ok(None)
    } else {
        match external_path_spec(outer.cases[k].attrs, Site::Registry) {
            Err(d) => Err(d),
            Ok(Some(path)) => external_inner(path.names, current),
            Ok(None) => sibling_inner(outer, outer.cases[k], outer_module, siblings),
        }
    }
}

/// The declaration that the names of an external reference lead to.
pub fn external_inner_ref(names: &Vec<String>, current: &Vec<String>) -> (r: Result<
    Option<InnerRef>,
    Diagnostic,
>)
    ensures
        result_view(r) == external_inner(names.deep_view(), current.deep_view()),
{
    let explicit_root = starts_at_root(names);
    match split_module_and_ident(names) {
        None => Err(external_without_name(Site::Registry)),
        Some((module, name)) => {
            let module = reference_module_idents(&module, explicit_root, current);
            Ok(Some(InnerRef { name, module, explicit_root, external: true }))
        },
    }
}

/// The declaration inside the case `outer_variant` of `outer_enum`, which
/// lives in `outer_module`.
pub fn resolve_inner_enum_path(
    outer_enum: &Declaration,
    outer_variant: &String,
    outer_module: &Vec<String>,
    context: &ModuleContext,
    siblings: Option<&Vec<Declaration>>,
) -> (r: Result<Option<InnerRef>, Diagnostic>)
    ensures
        result_view(r) == inner_reference(
            outer_enum@,
            outer_variant@,
            outer_module.deep_view(),
            context@.module,
            siblings.deep_view(),
        ),
{
    let k = match case_index(&outer_enum.cases, outer_variant) {
        None => {
            return Ok(None);
        },
        Some(k) => k,
    };
    assert(outer_enum@.cases[k as int] == outer_enum.cases[k as int]@);
    let case = &outer_enum.cases[k];
    match parse_variant_external_path(&case.attrs, Site::Registry) {
        Err(d) => Err(d),
        Ok(Some(path)) => external_inner_ref(&path.names, &context.module),
        Ok(None) => {
            let ty = match extract_single_tuple_type(case) {
                None => {
                    return Ok(None);
                },
                Some(ty) => ty,
            };
            let name = match extract_simple_ident(ty, Site::Registry) {
                Err(d) => {
                    return Err(d);
                },
                Ok(name) => name,
            };
            let known = match siblings {
                Some(decls) => find_declaration(decls, name).is_some(),
                None => false,
            };
            if known {
                Ok(
                    Some(
                        InnerRef {
                            name: name.clone(),
                            module: copy_names(outer_module),
                            explicit_root: false,
                            external: false,
                        },
                    ),
                )
            } else {
                Err(
                    inner_not_in_module(
                        name.as_str(),
                        outer_enum.name.as_str(),
                        case.name.as_str(),
                        Site::Registry,
                    ),
                )
            }
        },
    }
}

/// Whether `inner_enum` has the case `inner_variant`; an error at `site`
/// where it has not.  The error names the inner type and the case
/// `outer_enum::outer_variant` of the outer type that holds it.
pub fn ensure_inner_variant_exists(
    inner_enum: &Declaration,
    inner_variant: &String,
    outer_enum: &String,
    outer_variant: &String,
    site: Site,
) -> (r: Result<(), Diagnostic>)
    ensures
        match r {
            Ok(_) => has_case(inner_enum@, inner_variant@),
            Err(d) => !has_case(inner_enum@, inner_variant@) && d@ == unknown_inner_case_spec(
                inner_variant@,
                inner_enum@.name,
                outer_enum@,
                outer_variant@,
                site,
            ),
        },
{
    match case_index(&inner_enum.cases, inner_variant) {
        Some(_) => Ok(()),
        None => Err(
            unknown_inner_case(
                inner_variant.as_str(),
                inner_enum.name.as_str(),
                outer_enum.as_str(),
                outer_variant.as_str(),
                site,
            ),
        ),
    }
}

// ------------------------------------------------------------ nested targets

/// Where a dotted path leads: the path of the outer case and the path of
/// the inner case, as they stand in the rewritten pattern.
#[derive(Clone, Debug, PartialEq, Eq)]
pub struct NestedTarget {
    pub outer: Vec<String>,
    pub inner: Vec<String>,
}

pub struct NestedTargetView {
    pub outer: Seq<Seq<char>>,
    pub inner: Seq<Seq<char>>,
}

impl View for NestedTarget {
    type V = NestedTargetView;

    open spec fn view(&self) -> NestedTargetView {
        NestedTargetView { outer: self.outer.deep_view(), inner: self.inner.deep_view() }
    }
}

impl DeepView for NestedTarget {
    type V = NestedTargetView;

    open spec fn deep_view(&self) -> NestedTargetView {
        self@
    }
}

/// The path of the case `case` of the type `name` behind the module names
/// `module`.
pub open spec fn case_path(module: Seq<Seq<char>>, name: Seq<char>, case: Seq<char>) -> Seq<
    Seq<char>,
> {
    module + seq![name, case]
}

/// The module names in front of the inner type in a rewritten pattern:
/// the prefix that the pattern was written with, where the inner type is
/// declared beside the outer type; the module of the external reference
/// otherwise.
pub open spec fn inner_prefix(np: NestedPathView, inner: InnerRefView) -> Seq<Seq<char>> {
    if inner.external {
        inner.module
    } else {
        np.prefix
    }
}

/// The paths of the outer case and of the inner case of a dotted path: the
/// outer case under the prefix that the pattern was written with, the inner
/// case under the prefix of the inner type.
pub open spec fn nested_target(np: NestedPathView, inner: InnerRefView) -> NestedTargetView {
    NestedTargetView {
        outer: case_path(np.prefix, np.outer, np.case),
        inner: case_path(inner_prefix(np, inner), inner.name, np.inner_case),
    }
}

/// What the lookup of the inner type decides.
pub open spec fn check_inner(
    np: NestedPathView,
    outer_module: Seq<Seq<char>>,
    inner: InnerRefView,
    found: OutcomeView<Option<(DeclarationView, bool)>>,
    site: Site,
) -> OutcomeView<Option<NestedTargetView>> {
    match found {
        OutcomeView::Load(request) => OutcomeView::Load(request),
        OutcomeView::Failed(d) => OutcomeView::Failed(d),
        OutcomeView::Ready(None) => OutcomeView::Failed(
            inner_not_found_spec(inner.name, np.outer, np.case, site),
        ),
        OutcomeView::Ready(Some((decl, marked))) => if !marked {
            OutcomeView::Failed(inner_not_marked_spec(inner.name, site))
        } else if !has_case(decl, np.inner_case) {
            OutcomeView::Failed(
                unknown_inner_case_spec(np.inner_case, decl.name, np.outer, np.case, site),
            )
        } else {
            OutcomeView::Ready(Some(nested_target(np, inner)))
        },
    }
}

/// What the lookup of the outer type decides, and all that follows.
pub open spec fn check_outer(
    np: NestedPathView,
    outer_module: Seq<Seq<char>>,
    found: OutcomeView<Option<(DeclarationView, bool)>>,
    current: Seq<Seq<char>>,
    local: Seq<DeclarationView>,
    registry: RegistryView,
    site: Site,
) -> OutcomeView<Option<NestedTargetView>> {
    match found {
        OutcomeView::Load(request) => OutcomeView::Load(request),
        OutcomeView::Failed(d) => OutcomeView::Failed(d),
        OutcomeView::Ready(None) => OutcomeView::Ready(None),
        OutcomeView::Ready(Some((outer, marked))) => if !marked {
            OutcomeView::Failed(outer_not_marked_spec(np.outer, site))
        } else {
            match inner_reference(
                outer,
                np.case,
                outer_module,
                current,
                decls_in(outer_module, current, local, registry),
            ) {
                Err(d) => OutcomeView::Failed(d),
                Ok(None) => OutcomeView::Ready(None),
                Ok(Some(inner)) => check_inner(
                    np,
                    outer_module,
                    inner,
                    resolve_in_module(
                        inner.module,
                        inner.explicit_root,
                        inner.name,
                        current,
                        local,
                        registry,
                    ),
                    site,
                ),
            }
        },
    }
}

/// Where the dotted path `names` leads, for a request made in `current`:
/// `Ready(None)` where it is no dotted path of a flattened case (fewer than
/// three names, an outer type that is not known, a case that holds no
/// single declaration); the two nested paths where it is; a failure where
/// the outer or the inner type is known but not flatten-marked, or the
/// inner type is missing or lacks the case.
pub open spec fn resolve_nested_spec(
    names: Seq<Seq<char>>,
    current: Seq<Seq<char>>,
    local: Seq<DeclarationView>,
    registry: RegistryView,
    site: Site,
) -> OutcomeView<Option<NestedTargetView>> {
    match split_nested_spec(names) {
        None => OutcomeView::Ready(None),
        Some(np) => {
            let outer_module = effective_module(np.prefix, np.explicit_root, current);
            check_outer(
                np,
                outer_module,
                resolve_from_path(np.prefix, np.explicit_root, np.outer, current, local, registry),
                current,
                local,
                registry,
                site,
            )
        },
    }
}

/// The path of the case `case` of the type `name` behind the module names
/// `module`.
pub fn build_case_path(module: &Vec<String>, name: &String, case: &String) -> (r: Vec<String>)
    ensures
        r.deep_view() == case_path(module.deep_view(), name@, case@),
{
    let mut tail: Vec<String> = Vec::new();
    tail.push(name.clone());
    tail.push(case.clone());
    assert(tail.deep_view() =~= seq![name@, case@]);
    build_path_from_idents(module, &tail)
}

/// Where the dotted path `names` leads.
pub fn resolve_nested(
    names: &Vec<String>,
    context: &ModuleContext,
    local: &Vec<Declaration>,
    registry: &Registry,
    site: Site,
) -> (r: Outcome<Option<NestedTarget>>)
    ensures
        r@ == resolve_nested_spec(
            names.deep_view(),
            context@.module,
            local.deep_view(),
            registry@,
            site,
        ),
{
    let np = match split_nested_path(names) {
        None => {
            return Outcome::Ready(None);
        },
        Some(np) => np,
    };
    let outer_module = effective_module_idents(&np.prefix, np.explicit_root, &context.module);
    let outer = match resolve_enum_from_path(
        &np.prefix,
        np.explicit_root,
        &np.outer,
        context,
        local,
        registry,
    ) {
        Outcome::Load(request) => {
            return Outcome::Load(request);
        },
        Outcome::Failed(d) => {
            return Outcome::Failed(d);
        },
        Outcome::Ready(None) => {
            return Outcome::Ready(None);
        },
        Outcome::Ready(Some((outer, marked))) => {
            if !marked {
                return Outcome::Failed(outer_not_marked(np.outer.as_str(), site));
            }
            outer
        },
    };
    let siblings = declarations_in(&outer_module, context, local, registry);
    let inner = match resolve_inner_enum_path(outer, &np.case, &outer_module, context, siblings) {
        Err(d) => {
            return Outcome::Failed(d);
        },
        Ok(None) => {
            return Outcome::Ready(None);
        },
        Ok(Some(inner)) => inner,
    };
    match resolve_enum_in(
        &inner.module,
        inner.explicit_root,
        &inner.name,
        context,
        local,
        registry,
    ) {
        Outcome::Load(request) => Outcome::Load(request),
        Outcome::Failed(d) => Outcome::Failed(d),
        Outcome::Ready(None) => Outcome::Failed(
            inner_not_found(inner.name.as_str(), np.outer.as_str(), np.case.as_str(), site),
        ),
        Outcome::Ready(Some((decl, marked))) => {
            if !marked {
                return Outcome::Failed(inner_not_marked(inner.name.as_str(), site));
            }
            match ensure_inner_variant_exists(decl, &np.inner_case, &np.outer, &np.case, site) {
                Err(d) => Outcome::Failed(d),
                Ok(_) => Outcome::Ready(
                    Some(
                        NestedTarget {
                            outer: build_case_path(&np.prefix, &np.outer, &np.case),
                            inner: if inner.external {
                                build_case_path(&inner.module, &inner.name, &np.inner_case)
                            } else {
                                build_case_path(&np.prefix, &inner.name, &np.inner_case)
                            },
                        },
                    ),
                ),
            }
        },
    }
}

// ---------------------------------------------------------------- rewriting

/// The names of the path of a pattern, where it has a path.
pub open spec fn leaf_names(pat: PatternView) -> Option<Seq<Seq<char>>> {
    match pat {
        PatternView::Path(path) => Some(path.names),
        PatternView::TupleStruct { path, .. } => Some(path.names),
        PatternView::Struct { path, .. } => Some(path.names),
        _ => None,
    }
}

/// The pattern with `path` in the place of its own path.
pub open spec fn with_path(pat: PatternView, path: PatternPathView) -> PatternView {
    match pat {
        PatternView::Path(_) => PatternView::Path(path),
        PatternView::TupleStruct { path: _, elems } => PatternView::TupleStruct { path, elems },
        PatternView::Struct { path: _, fields, rest } => PatternView::Struct {
            path,
            fields,
            rest,
        },
        other => other,
    }
}

/// The nested pattern that `pat` stands for: the outer case, holding the
/// inner case with the sub-patterns of `pat`.  Both paths say that
/// rewriting put them there.
pub open spec fn nested_pattern(pat: PatternView, target: NestedTargetView) -> PatternView {
    PatternView::TupleStruct {
        path: rewritten_path(target.outer),
        elems: seq![with_path(pat, rewritten_path(target.inner))],
    }
}

/// The pattern after rewriting, given where its path leads.
pub open spec fn rewritten_leaf(
    pat: PatternView,
    resolved: OutcomeView<Option<NestedTargetView>>,
) -> OutcomeView<PatternView> {
    match resolved {
        OutcomeView::Load(request) => OutcomeView::Load(request),
        OutcomeView::Failed(d) => OutcomeView::Failed(d),
        OutcomeView::Ready(None) => OutcomeView::Ready(pat),
        OutcomeView::Ready(Some(target)) => OutcomeView::Ready(nested_pattern(pat, target)),
    }
}

/// The pattern after rewriting.  An alternation is rewritten alternative
/// by alternative; a pattern with a path is rewritten where its path leads
/// to a flattened case; any other pattern stays as it is.
pub open spec fn rewrite_spec(
    pat: PatternView,
    current: Seq<Seq<char>>,
    local: Seq<DeclarationView>,
    registry: RegistryView,
    site: Site,
) -> OutcomeView<PatternView>
    decreases pat, 0nat,
{
    match pat {
        PatternView::Or { leading_vert, cases } => match rewrite_all_spec(
            cases,
            cases.len(),
            current,
            local,
            registry,
            site,
        ) {
            OutcomeView::Ready(done) => OutcomeView::Ready(
                PatternView::Or { leading_vert, cases: done },
            ),
            OutcomeView::Load(request) => OutcomeView::Load(request),
            OutcomeView::Failed(d) => OutcomeView::Failed(d),
        },
        PatternView::Other(_) => OutcomeView::Ready(pat),
        _ => rewritten_leaf(
            pat,
            resolve_nested_spec(leaf_names(pat)->0, current, local, registry, site),
        ),
    }
}

/// The first `n` patterns after rewriting, in order; the first request or
/// failure on the way where there is one.
pub open spec fn rewrite_all_spec(
    pats: Seq<PatternView>,
    n: nat,
    current: Seq<Seq<char>>,
    local: Seq<DeclarationView>,
    registry: RegistryView,
    site: Site,
) -> OutcomeView<Seq<PatternView>>
    decreases pats, n,
{
    if n == 0 || n > pats.len() {
        OutcomeView::Ready(Seq::empty())
    } else {
        match rewrite_all_spec(pats, (n - 1) as nat, current, local, registry, site) {
            OutcomeView::Ready(done) => match rewrite_spec(
                pats[n - 1],
                current,
                local,
                registry,
                site,
            ) {
                OutcomeView::Ready(p) => OutcomeView::Ready(done.push(p)),
                OutcomeView::Load(request) => OutcomeView::Load(request),
                OutcomeView::Failed(d) => OutcomeView::Failed(d),
            },
            other => other,
        }
    }
}

/// Once a request or a failure was met, it is the result.
pub proof fn lemma_rewrite_all_stops(
    pats: Seq<PatternView>,
    n: nat,
    m: nat,
    current: Seq<Seq<char>>,
    local: Seq<DeclarationView>,
    registry: RegistryView,
    site: Site,
)
    requires
        n <= m <= pats.len(),
        !(rewrite_all_spec(pats, n, current, local, registry, site) is Ready),
    ensures
        rewrite_all_spec(pats, m, current, local, registry, site) == rewrite_all_spec(
            pats,
            n,
            current,
            local,
            registry,
            site,
        ),
    decreases m - n,
{
    if n < m {
        lemma_rewrite_all_stops(pats, n, (m - 1) as nat, current, local, registry, site);
    }
}

/// The nested pattern with the outer path `outer` around `inner`.
pub fn wrap_in_outer(outer: Vec<String>, inner: Pattern) -> (r: Pattern)
    ensures
        r@ == (PatternView::TupleStruct {
            path: rewritten_path(outer.deep_view()),
            elems: seq![inner@],
        }),
{
    let mut elems: Vec<Pattern> = Vec::new();
    elems.push(inner);
    assert(elems.deep_view() =~= seq![inner@]);
    let r = Pattern::TupleStruct { path: PatternPath::put_by_rewriting(outer), elems };
    proof {
        lemma_pattern_view(r);
    }
    r
}

/// Rewrites a bare path.
pub fn rewrite_pat_path(
    pat_path: &PatternPath,
    context: &ModuleContext,
    local: &Vec<Declaration>,
    registry: &Registry,
    site: Site,
) -> (r: Outcome<Pattern>)
    ensures
        r@ == rewritten_leaf(
            PatternView::Path(pat_path@),
            resolve_nested_spec(pat_path@.names, context@.module, local.deep_view(), registry@, site),
        ),
{
    match resolve_nested(&pat_path.names, context, local, registry, site) {
        Outcome::Load(request) => Outcome::Load(request),
        Outcome::Failed(d) => Outcome::Failed(d),
        Outcome::Ready(None) => Outcome::Ready(Pattern::Path(pat_path.duplicate())),
        Outcome::Ready(Some(target)) => {
            let inner = Pattern::Path(PatternPath::put_by_rewriting(target.inner));
            Outcome::Ready(wrap_in_outer(target.outer, inner))
        },
    }
}

/// Rewrites a path with positional sub-patterns.
pub fn rewrite_pat_tuple_struct(
    pat_path: &PatternPath,
    elems: &Vec<Pattern>,
    context: &ModuleContext,
    local: &Vec<Declaration>,
    registry: &Registry,
    site: Site,
) -> (r: Outcome<Pattern>)
    ensures
        r@ == rewritten_leaf(
            PatternView::TupleStruct { path: pat_path@, elems: elems.deep_view() },
            resolve_nested_spec(pat_path@.names, context@.module, local.deep_view(), registry@, site),
        ),
{
    match resolve_nested(&pat_path.names, context, local, registry, site) {
        Outcome::Load(request) => Outcome::Load(request),
        Outcome::Failed(d) => Outcome::Failed(d),
        Outcome::Ready(None) => {
            let same = Pattern::TupleStruct {
                path: pat_path.duplicate(),
                elems: copy_patterns(elems),
            };
            proof {
                lemma_pattern_view(same);
            }
            Outcome::Ready(same)
        },
        Outcome::Ready(Some(target)) => {
            let inner = Pattern::TupleStruct {
                path: PatternPath::put_by_rewriting(target.inner),
                elems: copy_patterns(elems),
            };
            proof {
                lemma_pattern_view(inner);
            }
            Outcome::Ready(wrap_in_outer(target.outer, inner))
        },
    }
}

/// Rewrites a path with named fields.
pub fn rewrite_pat_struct(
    pat_path: &PatternPath,
    fields: &Vec<String>,
    rest: bool,
    context: &ModuleContext,
    local: &Vec<Declaration>,
    registry: &Registry,
    site: Site,
) -> (r: Outcome<Pattern>)
    ensures
        r@ == rewritten_leaf(
            PatternView::Struct { path: pat_path@, fields: fields.deep_view(), rest },
            resolve_nested_spec(pat_path@.names, context@.module, local.deep_view(), registry@, site),
        ),
{
    match resolve_nested(&pat_path.names, context, local, registry, site) {
        Outcome::Load(request) => Outcome::Load(request),
        Outcome::Failed(d) => Outcome::Failed(d),
        Outcome::Ready(None) => Outcome::Ready(
            Pattern::Struct { path: pat_path.duplicate(), fields: copy_names(fields), rest },
        ),
        Outcome::Ready(Some(target)) => {
            let inner = Pattern::Struct {
                path: PatternPath::put_by_rewriting(target.inner),
                fields: copy_names(fields),
                rest,
            };
            Outcome::Ready(wrap_in_outer(target.outer, inner))
        },
    }
}

/// Rewrites every pattern of `pats`, in order, and stops at the first
/// request or failure.
pub fn rewrite_all(
    pats: &Vec<Pattern>,
    context: &ModuleContext,
    local: &Vec<Declaration>,
    registry: &Registry,
    site: Site,
) -> (r: Outcome<Vec<Pattern>>)
    ensures
        r@ == rewrite_all_spec(
            pats.deep_view(),
            pats.len() as nat,
            context@.module,
            local.deep_view(),
            registry@,
            site,
        ),
    decreases pats,
{
    let mut out: Vec<Pattern> = Vec::new();
    let mut i: usize = 0;
    assert(out.deep_view() =~= Seq::<PatternView>::empty());
    while i < pats.len()
        invariant
            i <= pats.len(),
            rewrite_all_spec(
                pats.deep_view(),
                i as nat,
                context@.module,
                local.deep_view(),
                registry@,
                site,
            ) == OutcomeView::Ready(out.deep_view()),
        decreases pats.len() - i,
    {
        assert(pats.deep_view()[i as int] == pats[i as int]@);
        assert(decreases_to!(pats => pats[i as int]));
        let ghost before = out.deep_view();
        match rewrite_pat(&pats[i], context, local, registry, site) {
            Outcome::Ready(p) => {
                out.push(p);
                assert(out.deep_view() =~= before.push(p@));
            },
            Outcome::Load(request) => {
                proof {
                    lemma_rewrite_all_stops(
                        pats.deep_view(),
                        (i + 1) as nat,
                        pats.len() as nat,
                        context@.module,
                        local.deep_view(),
                        registry@,
                        site,
                    );
                }
                return Outcome::Load(request);
            },
            Outcome::Failed(d) => {
                proof {
                    lemma_rewrite_all_stops(
                        pats.deep_view(),
                        (i + 1) as nat,
                        pats.len() as nat,
                        context@.module,
                        local.deep_view(),
                        registry@,
                        site,
                    );
                }
                return Outcome::Failed(d);
            },
        }
        i += 1;
    }
    Outcome::Ready(out)
}

/// Rewrites a pattern.
pub fn rewrite_pat(
    pat: &Pattern,
    context: &ModuleContext,
    local: &Vec<Declaration>,
    registry: &Registry,
    site: Site,
) -> (r: Outcome<Pattern>)
    ensures
        r@ == rewrite_spec(pat@, context@.module, local.deep_view(), registry@, site),
    decreases pat,
{
    proof {
        lemma_pattern_view(*pat);
    }
    match pat {
        Pattern::Path(path) => rewrite_pat_path(path, context, local, registry, site),
        Pattern::TupleStruct { path, elems } => rewrite_pat_tuple_struct(
            path,
            elems,
            context,
            local,
            registry,
            site,
        ),
        Pattern::Struct { path, fields, rest } => rewrite_pat_struct(
            path,
            fields,
            *rest,
            context,
            local,
            registry,
            site,
        ),
        Pattern::Or { leading_vert, cases } => {
            assert(decreases_to!(pat => pat->cases));
            match rewrite_all(cases, context, local, registry, site) {
                Outcome::Ready(done) => {
                    let r = Pattern::Or { leading_vert: *leading_vert, cases: done };
                    proof {
                        lemma_pattern_view(r);
                    }
                    Outcome::Ready(r)
                },
                Outcome::Load(request) => Outcome::Load(request),
                Outcome::Failed(d) => Outcome::Failed(d),
            }
        },
        Pattern::Other(text) => Outcome::Ready(Pattern::Other(text.clone())),
    }
}

// --------------------------------------------------------------- match arms

/// The patterns of the first `n` arms after rewriting; a failure in the arm
/// with index `i` points at `Site::Pattern(i)`.
pub open spec fn rewrite_arms_spec(
    arms: Seq<PatternView>,
    n: nat,
    current: Seq<Seq<char>>,
    local: Seq<DeclarationView>,
    registry: RegistryView,
) -> OutcomeView<Seq<PatternView>>
    decreases n,
{
    if n == 0 {
        OutcomeView::Ready(Seq::empty())
    } else {
        match rewrite_arms_spec(arms, (n - 1) as nat, current, local, registry) {
            OutcomeView::Ready(done) => match rewrite_spec(
                arms[n - 1],
                current,
                local,
                registry,
                Site::Pattern((n - 1) as usize),
            ) {
                OutcomeView::Ready(p) => OutcomeView::Ready(done.push(p)),
                OutcomeView::Load(request) => OutcomeView::Load(request),
                OutcomeView::Failed(d) => OutcomeView::Failed(d),
            },
            other => other,
        }
    }
}

/// The arms of a match after rewriting, for a request in `context`: first
/// the declarations of the request's module are made sure of, then each
/// arm's pattern is rewritten, in order.
pub open spec fn expand_match_spec(
    arms: Seq<PatternView>,
    context: ModuleContextView,
    registry: RegistryView,
) -> OutcomeView<Seq<PatternView>> {
    match current_module_state(registry, context) {
        OutcomeView::Load(request) => OutcomeView::Load(request),
        OutcomeView::Failed(d) => OutcomeView::Failed(d),
        OutcomeView::Ready(local) => rewrite_arms_spec(
            arms,
            arms.len(),
            context.module,
            local,
            registry,
        ),
    }
}

/// Once a request or a failure was met, it is the result.
pub proof fn lemma_rewrite_arms_stops(
    arms: Seq<PatternView>,
    n: nat,
    m: nat,
    current: Seq<Seq<char>>,
    local: Seq<DeclarationView>,
    registry: RegistryView,
)
    requires
        n <= m,
        !(rewrite_arms_spec(arms, n, current, local, registry) is Ready),
    ensures
        rewrite_arms_spec(arms, m, current, local, registry) == rewrite_arms_spec(
            arms,
            n,
            current,
            local,
            registry,
        ),
    decreases m - n,
{
    if n < m {
        lemma_rewrite_arms_stops(arms, n, (m - 1) as nat, current, local, registry);
    }
}

/// Rewrites the patterns of the arms of a match.
pub fn expand_match(arms: &Vec<Pattern>, context: &ModuleContext, registry: &Registry) -> (r:
    Outcome<Vec<Pattern>>)
    ensures
        r@ == expand_match_spec(arms.deep_view(), context@, registry@),
{
    let local = match registry.ensure_module_enums_loaded(context) {
        Outcome::Load(request) => {
            return Outcome::Load(request);
        },
        Outcome::Failed(d) => {
            return Outcome::Failed(d);
        },
        Outcome::Ready(local) => local,
    };
    let mut out: Vec<Pattern> = Vec::new();
    let mut i: usize = 0;
    assert(out.deep_view() =~= Seq::<PatternView>::empty());
    while i < arms.len()
        invariant
            i <= arms.len(),
            current_module_state(registry@, context@) == OutcomeView::Ready(local.deep_view()),
            rewrite_arms_spec(
                arms.deep_view(),
                i as nat,
                context@.module,
                local.deep_view(),
                registry@,
            ) == OutcomeView::Ready(out.deep_view()),
        decreases arms.len() - i,
    {
        assert(arms.deep_view()[i as int] == arms[i as int]@);
        let ghost before = out.deep_view();
        match rewrite_pat(&arms[i], context, local, registry, Site::Pattern(i)) {
            Outcome::Ready(p) => {
                out.push(p);
                assert(out.deep_view() =~= before.push(p@));
            },
            Outcome::Load(request) => {
                proof {
                    lemma_rewrite_arms_stops(
                        arms.deep_view(),
                        (i + 1) as nat,
                        arms.len() as nat,
                        context@.module,
                        local.deep_view(),
                        registry@,
                    );
                }
                return Outcome::Load(request);
            },
            Outcome::Failed(d) => {
                proof {
                    lemma_rewrite_arms_stops(
                        arms.deep_view(),
                        (i + 1) as nat,
                        arms.len() as nat,
                        context@.module,
                        local.deep_view(),
                        registry@,
                    );
                }
                return Outcome::Failed(d);
            },
        }
        i += 1;
    }
    Outcome::Ready(out)
}

} // verus!
