//! What holds of the engine as a whole.

use vstd::prelude::*;
use crate::attrs::{external_path_spec, is_marked, simple_ident_spec, single_tuple_type};
use crate::diag::{DiagnosticView, Site};
use crate::expand::{
    case_module, case_modules, external_case, group_of, resolve_external_spec, shape_of,
    sibling_case, ForwarderShapeView,
};
use crate::layout::{any_rewritten, has_rewritten, namespaced, pattern_layout};
use crate::modpath::{effective_module, path_text, split_nested_spec, ModuleContextView};
use crate::pattern::{plain_path, rewritten_path, PatternView};
use crate::registry::{
    attempt_from, attempt_of, current_module_state, find_decl, recorded, AttemptView,
    LoadOutcomeView, LoadRequestView, OutcomeView, RegistryView,
};
use crate::render::{comma, pattern_source, sources_joined};
use crate::rewrite::{
    case_from, case_path, decls_in, has_case, inner_reference, leaf_names, nested_pattern,
    resolve_from_path, resolve_in_module, resolve_nested_spec, rewrite_all_spec, rewrite_arms_spec, rewrite_spec,
    sibling_inner, with_path, InnerRefView, NestedTargetView,
};
use crate::syntax::{DeclarationView, ItemView, PayloadView};
use crate::text::{joined_prefix, path_sep};
use crate::wellformed::lemma_decl_search;
use crate::{nestum_match_spec, nestum_spec};

verus! {

/// A case flattens where it carries no external reference and holds one
/// positional field whose type names a flatten-marked declaration `inner`
/// of the same module.
pub open spec fn flattens_into(
    outer: DeclarationView,
    k: usize,
    local: Seq<DeclarationView>,
    inner: DeclarationView,
) -> bool {
    &&& k < outer.cases.len()
    &&& external_path_spec(outer.cases[k as int].attrs, Site::CaseAnnotation(k)) matches Ok(None)
    &&& single_tuple_type(outer.cases[k as int].payload) matches Some(ty)
    &&& simple_ident_spec(ty, Site::CaseType(k)) matches Ok(name)
    &&& find_decl(local, name) == Some(inner)
    &&& is_marked(inner.attrs)
}

/// Forwarders stand for nested construction.  Where the case `c` of `outer`
/// flattens into `inner`, its expansion is one group named `c` with
/// exactly one forwarder for each case `ic` of `inner`, in order.  The
/// forwarder is named `ic`, yields the outer type, and builds the value
/// `outer::c(inner::ic ...)`; it has one parameter for each field of `ic`,
/// in order and with the field's type, which it hands on in place.
pub proof fn lemma_forwarders_build_nested_cases(
    outer: DeclarationView,
    k: usize,
    current: Seq<Seq<char>>,
    local: Seq<DeclarationView>,
    registry: RegistryView,
    inner: DeclarationView,
)
    requires
        flattens_into(outer, k, local, inner),
    ensures
        case_module(outer, k, current, local, registry) matches OutcomeView::Ready(Some(group))
            && group.case == outer.cases[k as int].name && group.forwarders.len()
            == inner.cases.len() && forall|i: int|
            #![trigger group.forwarders[i]]
            0 <= i < inner.cases.len() ==> {
                let f = group.forwarders[i];
                let ic = inner.cases[i];
                &&& f.name == ic.name
                &&& f.result == seq![outer.name]
                &&& f.outer_case == seq![outer.name, outer.cases[k as int].name]
                &&& f.inner_root is None
                &&& f.inner_case == seq![inner.name, ic.name]
                &&& f.inner_marked
                &&& match ic.payload {
                    PayloadView::Unit => f.shape is Constant,
                    PayloadView::Tuple(fields) => f.shape matches ForwarderShapeView::Positional(
                        params,
                    ) && params.len() == fields.len() && forall|j: int|
                        #![trigger params[j]]
                        0 <= j < fields.len() ==> params[j].ty == fields[j].text,
                    PayloadView::Record(fields) => f.shape matches ForwarderShapeView::Named(
                        params,
                    ) && params.len() == fields.len() && forall|j: int|
                        #![trigger params[j]]
                        0 <= j < fields.len() ==> params[j].name == fields[j].name && params[j].ty
                            == fields[j].ty.text,
                }
            },
{
    let case = outer.cases[k as int];
    let group = group_of(outer.name, case.name, inner, true, None);
    assert(sibling_case(outer, k, local, registry) == OutcomeView::Ready(Some(group)));
}

/// Forwarders of a case with an external reference.  Where the case `c`
/// of `outer` names the declaration `inner` by the reference `path`, its
/// expansion is one group named `c` with exactly one forwarder for each
/// case `ic` of `inner`, in order, which builds `outer::c(path::ic ...)`:
/// the path of the inner case is the reference as written and the case.
pub proof fn lemma_external_forwarders_build_nested_cases(
    outer: DeclarationView,
    k: usize,
    current: Seq<Seq<char>>,
    local: Seq<DeclarationView>,
    registry: RegistryView,
    inner: DeclarationView,
    marked: bool,
)
    requires
        k < outer.cases.len(),
        ({
            &&& external_path_spec(outer.cases[k as int].attrs, Site::CaseAnnotation(k)) matches Ok(
                Some(path),
            )
            &&& path.names.len() > 0
            &&& single_tuple_type(outer.cases[k as int].payload) matches Some(ty)
            &&& simple_ident_spec(ty, Site::CaseType(k)) == Ok::<_, DiagnosticView>(
                path.names[path.names.len() - 1],
            )
            &&& resolve_external_spec(path.names, current, registry, Site::CaseAnnotation(k))
                == OutcomeView::Ready(Some((inner, marked)))
        }),
    ensures
        case_module(outer, k, current, local, registry) matches OutcomeView::Ready(Some(group))
            && group.case == outer.cases[k as int].name && group.forwarders.len()
            == inner.cases.len() && forall|i: int|
            #![trigger group.forwarders[i]]
            0 <= i < inner.cases.len() ==> {
                let f = group.forwarders[i];
                let ic = inner.cases[i];
                &&& f.name == ic.name
                &&& f.shape == shape_of(ic.payload)
                &&& f.result == seq![outer.name]
                &&& f.outer_case == seq![outer.name, outer.cases[k as int].name]
                &&& f.inner_root == Some(
                    external_path_spec(
                        outer.cases[k as int].attrs,
                        Site::CaseAnnotation(k),
                    )->Ok_0->0.text,
                )
                &&& f.inner_case == seq![ic.name]
                &&& f.inner_marked == marked
            },
{
    let case = outer.cases[k as int];
    let path = external_path_spec(case.attrs, Site::CaseAnnotation(k))->Ok_0->0;
    let group = group_of(outer.name, case.name, inner, marked, Some(path.text));
    assert(external_case(outer, k, path, current, registry) == OutcomeView::Ready(Some(group)));
}

/// A dotted pattern becomes the nested pattern that it stands for.  Let
/// `pat` be a pattern with the path `Outer::Case::InnerCase`, written in
/// the module `current`, where `Outer` is a flatten-marked declaration of
/// that module, its case `Case` holds the flatten-marked declaration
/// `Inner` of that module, and `Inner` has the case `InnerCase`.  Then
/// `pat` is rewritten to the pattern with the path `Outer::Case` that
/// holds, as its only sub-pattern, `pat` itself with the path
/// `Inner::InnerCase`.
pub proof fn lemma_rewrite_is_nested_pattern(
    pat: PatternView,
    current: Seq<Seq<char>>,
    local: Seq<DeclarationView>,
    registry: RegistryView,
    site: Site,
    outer: DeclarationView,
    inner: DeclarationView,
)
    requires
        leaf_names(pat) matches Some(names) && names.len() == 3 && {
            let k = case_from(outer.cases, names[1], 0);
            &&& find_decl(local, names[0]) == Some(outer)
            &&& is_marked(outer.attrs)
            &&& k < outer.cases.len()
            &&& external_path_spec(outer.cases[k].attrs, Site::Registry) matches Ok(None)
            &&& single_tuple_type(outer.cases[k].payload) matches Some(ty)
            &&& simple_ident_spec(ty, Site::Registry) == Ok::<_, DiagnosticView>(inner.name)
            &&& find_decl(local, inner.name) == Some(inner)
            &&& is_marked(inner.attrs)
            &&& has_case(inner, names[2])
        },
    ensures
        rewrite_spec(pat, current, local, registry, site) == OutcomeView::Ready(
            PatternView::TupleStruct {
                path: rewritten_path(seq![leaf_names(pat)->0[0], leaf_names(pat)->0[1]]),
                elems: seq![
                    with_path(pat, rewritten_path(seq![inner.name, leaf_names(pat)->0[2]])),
                ],
            },
        ),
{
    let names = leaf_names(pat)->0;
    let np = split_nested_spec(names)->0;
    assert(np.prefix =~= Seq::<Seq<char>>::empty());
    assert(effective_module(np.prefix, np.explicit_root, current) == current);
    lemma_found_by_name(local, names[0], outer);
    let k = case_from(outer.cases, names[1], 0);
    let target = InnerRefView {
        name: inner.name,
        module: current,
        explicit_root: false,
        external: false,
    };
    assert(case_path(np.prefix, np.outer, np.case) =~= seq![names[0], names[1]]);
    assert(case_path(np.prefix, inner.name, np.inner_case) =~= seq![inner.name, names[2]]);
    assert(sibling_inner(outer, outer.cases[k], current, Some(local)) == Ok::<
        _,
        DiagnosticView,
    >(Some(target)));
    assert(inner_reference(outer, np.case, current, current, decls_in(current, current, local, registry))
        == Ok::<_, DiagnosticView>(Some(target)));
}

/// A dotted pattern is rewritten along its resolution, whatever module
/// its types live in.  Where the path of `pat` splits into a prefix, an
/// outer type, a case and an inner case, the outer type is found
/// flatten-marked in the module of the prefix, its case leads to the inner
/// type `inner`, and that is found flatten-marked with the inner case, `pat`
/// is rewritten to the pattern of the outer case around `pat` with the path
/// of the inner case.  The outer path is the prefix as written, the outer
/// type and the case; the inner path is the inner type and the inner case
/// behind the same prefix, or behind the module of the external reference
/// where the case has one.
pub proof fn lemma_rewrite_follows_resolution(
    pat: PatternView,
    current: Seq<Seq<char>>,
    local: Seq<DeclarationView>,
    registry: RegistryView,
    site: Site,
    outer: DeclarationView,
    inner: InnerRefView,
    found: DeclarationView,
)
    requires
        leaf_names(pat) matches Some(names) && split_nested_spec(names) matches Some(np) && {
            let outer_module = effective_module(np.prefix, np.explicit_root, current);
            &&& resolve_from_path(np.prefix, np.explicit_root, np.outer, current, local, registry)
                == OutcomeView::Ready(Some((outer, true)))
            &&& inner_reference(
                outer,
                np.case,
                outer_module,
                current,
                decls_in(outer_module, current, local, registry),
            ) == Ok::<_, DiagnosticView>(Some(inner))
            &&& resolve_in_module(
                inner.module,
                inner.explicit_root,
                inner.name,
                current,
                local,
                registry,
            ) == OutcomeView::Ready(Some((found, true)))
            &&& has_case(found, np.inner_case)
        },
    ensures
        ({
            let np = split_nested_spec(leaf_names(pat)->0)->0;
            rewrite_spec(pat, current, local, registry, site) == OutcomeView::Ready(
                PatternView::TupleStruct {
                    path: rewritten_path(np.prefix + seq![np.outer, np.case]),
                    elems: seq![
                        with_path(
                            pat,
                            rewritten_path(
                                (if inner.external {
                                    inner.module
                                } else {
                                    np.prefix
                                }) + seq![inner.name, np.inner_case],
                            ),
                        ),
                    ],
                },
            )
        }),
{
}

/// Rewriting is a single hop.  The pattern that a dotted pattern becomes
/// is left alone when it is rewritten again, wherever its own path is no
/// dotted path of a flattened case: it has fewer than three names, or what
/// it would name as the outer type is not found.
pub proof fn lemma_rewrite_is_single_hop(
    pat: PatternView,
    current: Seq<Seq<char>>,
    local: Seq<DeclarationView>,
    registry: RegistryView,
    site: Site,
    target: NestedTargetView,
)
    requires
        leaf_names(pat) matches Some(names) && resolve_nested_spec(
            names,
            current,
            local,
            registry,
            site,
        ) == OutcomeView::Ready(Some(target)),
        target.outer.len() < 3 || (split_nested_spec(target.outer) matches Some(np)
            && resolve_from_path(np.prefix, np.explicit_root, np.outer, current, local, registry)
            == OutcomeView::Ready(None::<(DeclarationView, bool)>)),
    ensures
        rewrite_spec(pat, current, local, registry, site) == OutcomeView::Ready(
            nested_pattern(pat, target),
        ),
        rewrite_spec(nested_pattern(pat, target), current, local, registry, site)
            == OutcomeView::Ready(nested_pattern(pat, target)),
{
    let again = nested_pattern(pat, target);
    assert(leaf_names(again) == Some(target.outer));
    if target.outer.len() >= 3 {
        lemma_unknown_outer_unchanged(again, current, local, registry, site);
    }
}

/// Rewriting twice is rewriting once.  Whatever a pattern with a path of
/// three names is rewritten to is left alone when it is rewritten again:
/// the outer path of the result holds two names.
pub proof fn lemma_rewrite_is_idempotent(
    pat: PatternView,
    current: Seq<Seq<char>>,
    local: Seq<DeclarationView>,
    registry: RegistryView,
    site: Site,
    rewritten: PatternView,
)
    requires
        leaf_names(pat) matches Some(names) && names.len() == 3,
        rewrite_spec(pat, current, local, registry, site) == OutcomeView::Ready(rewritten),
    ensures
        rewrite_spec(rewritten, current, local, registry, site) == OutcomeView::Ready(rewritten),
{
    let names = leaf_names(pat)->0;
    let np = split_nested_spec(names)->0;
    assert(np.prefix =~= Seq::<Seq<char>>::empty());
    match resolve_nested_spec(names, current, local, registry, site) {
        OutcomeView::Ready(Some(target)) => {
            assert(target.outer =~= seq![np.outer, np.case]);
            lemma_rewrite_is_single_hop(pat, current, local, registry, site, target);
        },
        _ => {},
    }
}

/// The declaration that is found under a name has that name.
pub proof fn lemma_found_by_name(
    decls: Seq<DeclarationView>,
    name: Seq<char>,
    found: DeclarationView,
)
    requires
        find_decl(decls, name) == Some(found),
    ensures
        found.name == name,
{
    lemma_decl_search(decls, name, 0);
}

/// What rewriting a list of patterns yields, pattern by pattern.
pub proof fn lemma_rewrite_all_pointwise(
    pats: Seq<PatternView>,
    n: nat,
    current: Seq<Seq<char>>,
    local: Seq<DeclarationView>,
    registry: RegistryView,
    site: Site,
)
    requires
        n <= pats.len(),
    ensures
        rewrite_all_spec(pats, n, current, local, registry, site) matches OutcomeView::Ready(done)
            ==> done.len() == n && forall|i: int|
            0 <= i < n ==> rewrite_spec(pats[i], current, local, registry, site)
                == OutcomeView::Ready(#[trigger] done[i]),
        (forall|i: int|
            0 <= i < n ==> #[trigger] rewrite_spec(pats[i], current, local, registry, site) is Ready)
            ==> rewrite_all_spec(pats, n, current, local, registry, site) is Ready,
    decreases n,
{
    if n > 0 {
        lemma_rewrite_all_pointwise(pats, (n - 1) as nat, current, local, registry, site);
        if forall|i: int|
            0 <= i < n ==> #[trigger] rewrite_spec(pats[i], current, local, registry, site) is Ready {
            assert(rewrite_spec(pats[n - 1], current, local, registry, site) is Ready);
            assert forall|i: int| 0 <= i < n - 1 implies #[trigger] rewrite_spec(
                pats[i],
                current,
                local,
                registry,
                site,
            ) is Ready by {}
            assert(rewrite_all_spec(pats, (n - 1) as nat, current, local, registry, site) is Ready);
        }
    }
}

/// Rewriting distributes over alternation.  An alternation is rewritten
/// to the alternation of its rewritten alternatives, in their order and
/// with the same leading bar; it is rewritten at all exactly where each
/// alternative is.
pub proof fn lemma_alternation_distributes(
    leading_vert: bool,
    cases: Seq<PatternView>,
    current: Seq<Seq<char>>,
    local: Seq<DeclarationView>,
    registry: RegistryView,
    site: Site,
)
    ensures
        rewrite_spec(PatternView::Or { leading_vert, cases }, current, local, registry, site)
            matches OutcomeView::Ready(rewritten) ==> rewritten matches PatternView::Or {
            leading_vert: bar,
            cases: done,
        } && bar == leading_vert && done.len() == cases.len() && forall|i: int|
            0 <= i < cases.len() ==> rewrite_spec(cases[i], current, local, registry, site)
                == OutcomeView::Ready(#[trigger] done[i]),
        (forall|i: int|
            0 <= i < cases.len() ==> #[trigger] rewrite_spec(
                cases[i],
                current,
                local,
                registry,
                site,
            ) is Ready) <==> rewrite_spec(
            PatternView::Or { leading_vert, cases },
            current,
            local,
            registry,
            site,
        ) is Ready,
{
    lemma_rewrite_all_pointwise(cases, cases.len(), current, local, registry, site);
    let whole = rewrite_spec(PatternView::Or { leading_vert, cases }, current, local, registry, site);
    let parts = rewrite_all_spec(cases, cases.len(), current, local, registry, site);
    assert(whole is Ready <==> parts is Ready);
    if parts is Ready {
        let done = parts->Ready_0;
        assert forall|i: int| 0 <= i < cases.len() implies #[trigger] rewrite_spec(
            cases[i],
            current,
            local,
            registry,
            site,
        ) is Ready by {
            assert(rewrite_spec(cases[i], current, local, registry, site) == OutcomeView::Ready(
                done[i],
            ));
        }
    }
}

/// A pattern that is no alternation and whose path, if it has one, has
/// fewer than three names is left as it is.
pub proof fn lemma_short_pattern_unchanged(
    pat: PatternView,
    current: Seq<Seq<char>>,
    local: Seq<DeclarationView>,
    registry: RegistryView,
    site: Site,
)
    requires
        !(pat is Or),
        leaf_names(pat) matches Some(names) ==> names.len() < 3,
    ensures
        rewrite_spec(pat, current, local, registry, site) == OutcomeView::Ready(pat),
{
}

/// A pattern whose path names an outer type that is not found is left as
/// it is.
pub proof fn lemma_unknown_outer_unchanged(
    pat: PatternView,
    current: Seq<Seq<char>>,
    local: Seq<DeclarationView>,
    registry: RegistryView,
    site: Site,
)
    requires
        leaf_names(pat) matches Some(names) && split_nested_spec(names) matches Some(np)
            && resolve_from_path(np.prefix, np.explicit_root, np.outer, current, local, registry)
            == OutcomeView::Ready(None::<(DeclarationView, bool)>),
    ensures
        rewrite_spec(pat, current, local, registry, site) == OutcomeView::Ready(pat),
{
}

/// The rewritten pattern reads as the nested pattern.  The source text of
/// the pattern that a dotted pattern becomes is the path of the outer case
/// with, in parentheses, the pattern itself under the path of the inner
/// case.
pub proof fn lemma_nested_pattern_source(pat: PatternView, target: NestedTargetView)
    ensures
        pattern_source(nested_pattern(pat, target)) == path_text(target.outer) + "("@
            + pattern_source(with_path(pat, rewritten_path(target.inner))) + ")"@,
        pat is Path ==> pattern_source(nested_pattern(pat, target)) == path_text(target.outer)
            + "("@ + path_text(target.inner) + ")"@,
{
    let inner = with_path(pat, rewritten_path(target.inner));
    assert(sources_joined(seq![inner], 1, comma()) == pattern_source(inner));
}

/// `Outer::Case::InnerCase` reads `Outer::Case(Inner::InnerCase)` after
/// rewriting.  Under the conditions of `lemma_rewrite_is_nested_pattern`,
/// a bare path is rewritten to a pattern whose source text is the outer
/// type, the case, and in parentheses the inner type and the inner case.
pub proof fn lemma_rewritten_source(
    pat: PatternView,
    current: Seq<Seq<char>>,
    local: Seq<DeclarationView>,
    registry: RegistryView,
    site: Site,
    outer: DeclarationView,
    inner: DeclarationView,
)
    requires
        pat is Path,
        leaf_names(pat) matches Some(names) && names.len() == 3 && {
            let k = case_from(outer.cases, names[1], 0);
            &&& find_decl(local, names[0]) == Some(outer)
            &&& is_marked(outer.attrs)
            &&& k < outer.cases.len()
            &&& external_path_spec(outer.cases[k].attrs, Site::Registry) matches Ok(None)
            &&& single_tuple_type(outer.cases[k].payload) matches Some(ty)
            &&& simple_ident_spec(ty, Site::Registry) == Ok::<_, DiagnosticView>(inner.name)
            &&& find_decl(local, inner.name) == Some(inner)
            &&& is_marked(inner.attrs)
            &&& has_case(inner, names[2])
        },
    ensures
        rewrite_spec(pat, current, local, registry, site) matches OutcomeView::Ready(rewritten)
            && pattern_source(rewritten) == leaf_names(pat)->0[0] + path_sep() + leaf_names(
            pat,
        )->0[1] + "("@ + inner.name + path_sep() + leaf_names(pat)->0[2] + ")"@,
{
    let names = leaf_names(pat)->0;
    lemma_rewrite_is_nested_pattern(pat, current, local, registry, site, outer, inner);
    let target = NestedTargetView {
        outer: seq![names[0], names[1]],
        inner: seq![inner.name, names[2]],
    };
    lemma_nested_pattern_source(pat, target);
    assert(joined_prefix(target.outer, path_sep(), 1) == names[0]);
    assert(joined_prefix(target.inner, path_sep(), 1) == inner.name);
    assert(path_text(target.outer) == names[0] + path_sep() + names[1]);
    assert(path_text(target.inner) == inner.name + path_sep() + names[2]);
    assert(pattern_source(nested_pattern(pat, target)) =~= names[0] + path_sep() + names[1] + "("@
        + inner.name + path_sep() + names[2] + ")"@);
}

/// Rewriting tells what it rewrote.  For a pattern with a path that was
/// read from source, the result holds a path that rewriting put there
/// exactly where the path of the pattern led to a flattened case; where it
/// holds none, the result is the pattern as it came.
pub proof fn lemma_rewriting_tells_what_it_rewrote(
    pat: PatternView,
    current: Seq<Seq<char>>,
    local: Seq<DeclarationView>,
    registry: RegistryView,
    site: Site,
    rewritten: PatternView,
)
    requires
        leaf_names(pat) is Some,
        !has_rewritten(pat),
        rewrite_spec(pat, current, local, registry, site) == OutcomeView::Ready(rewritten),
    ensures
        has_rewritten(rewritten) <==> (resolve_nested_spec(
            leaf_names(pat)->0,
            current,
            local,
            registry,
            site,
        ) matches OutcomeView::Ready(Some(_))),
        !has_rewritten(rewritten) ==> rewritten == pat,
{
}

/// In the layout, the rewritten pattern names each case through the
/// namespace of its type.  The layout of what a bare dotted path becomes is
/// the outer path with the outer type's name twice, around the inner path
/// with the inner type's name twice.
pub proof fn lemma_layout_of_nested_pattern(pat: PatternView, target: NestedTargetView)
    requires
        pat is Path,
    ensures
        pattern_layout(nested_pattern(pat, target)) == (PatternView::TupleStruct {
            path: plain_path(namespaced(target.outer)),
            elems: seq![PatternView::Path(plain_path(namespaced(target.inner)))],
        }),
        has_rewritten(nested_pattern(pat, target)),
        !has_rewritten(pattern_layout(nested_pattern(pat, target))),
{
    let nested = nested_pattern(pat, target);
    let laid = pattern_layout(nested);
    let put = with_path(pat, rewritten_path(target.inner));
    let inner = PatternView::Path(plain_path(namespaced(target.inner)));
    assert(put == PatternView::Path(rewritten_path(target.inner)));
    assert(pattern_layout(put) == inner);
    assert(nested->TupleStruct_elems[0] == put);
    assert(laid->TupleStruct_elems.len() == 1);
    assert(laid->TupleStruct_elems[0] == pattern_layout(put));
    assert(laid->TupleStruct_elems =~= seq![inner]);
    assert(any_rewritten(seq![inner], 1) == has_rewritten(inner)) by {
        assert(!any_rewritten(seq![inner], 0));
    }
}

// ------------------------------------------------------------------ requests

/// Whether an outcome, if it is a request, asks for something that was not
/// answered yet.
pub open spec fn asks_anew<V>(outcome: OutcomeView<V>, registry: RegistryView) -> bool {
    outcome matches OutcomeView::Load(request) ==> attempt_of(registry.attempts, request) is None
}

/// An answer behind the place where the search starts is found.
pub proof fn lemma_attempt_found(
    attempts: Seq<AttemptView>,
    request: LoadRequestView,
    from: int,
    at: int,
)
    requires
        0 <= from <= at < attempts.len(),
        attempts[at].request == request,
    ensures
        attempt_from(attempts, request, from) <= at,
    decreases at - from,
{
    if from < at && attempts[from].request != request {
        lemma_attempt_found(attempts, request, from + 1, at);
    }
}

/// A request that was answered counts as answered.
pub proof fn lemma_answer_is_recorded(
    registry: RegistryView,
    request: LoadRequestView,
    root: Seq<char>,
    outcome: LoadOutcomeView,
)
    ensures
        attempt_of(recorded(registry, request, root, outcome).attempts, request) is Some,
{
    let after = recorded(registry, request, root, outcome).attempts;
    lemma_attempt_found(after, request, 0, after.len() - 1);
}

/// Rewriting a pattern never asks for what was answered already.
pub proof fn lemma_rewrite_asks_anew(
    pat: PatternView,
    current: Seq<Seq<char>>,
    local: Seq<DeclarationView>,
    registry: RegistryView,
    site: Site,
)
    ensures
        asks_anew(rewrite_spec(pat, current, local, registry, site), registry),
    decreases pat, 0nat,
{
    match pat {
        PatternView::Or { leading_vert, cases } => {
            lemma_rewrite_all_asks_anew(cases, cases.len(), current, local, registry, site);
        },
        _ => {},
    }
}

/// Rewriting a list of patterns never asks for what was answered already.
pub proof fn lemma_rewrite_all_asks_anew(
    pats: Seq<PatternView>,
    n: nat,
    current: Seq<Seq<char>>,
    local: Seq<DeclarationView>,
    registry: RegistryView,
    site: Site,
)
    ensures
        asks_anew(rewrite_all_spec(pats, n, current, local, registry, site), registry),
    decreases pats, n,
{
    if n == 0 || n > pats.len() {
    } else {
        lemma_rewrite_all_asks_anew(pats, (n - 1) as nat, current, local, registry, site);
        lemma_rewrite_asks_anew(pats[n - 1], current, local, registry, site);
    }
}

proof fn lemma_rewrite_arms_ask_anew(
    arms: Seq<PatternView>,
    n: nat,
    current: Seq<Seq<char>>,
    local: Seq<DeclarationView>,
    registry: RegistryView,
)
    ensures
        asks_anew(rewrite_arms_spec(arms, n, current, local, registry), registry),
    decreases n,
{
    if n > 0 {
        lemma_rewrite_arms_ask_anew(arms, (n - 1) as nat, current, local, registry);
        lemma_rewrite_asks_anew(
            arms[n - 1],
            current,
            local,
            registry,
            Site::Pattern((n - 1) as usize),
        );
    }
}

proof fn lemma_case_modules_ask_anew(
    outer: DeclarationView,
    n: nat,
    current: Seq<Seq<char>>,
    local: Seq<DeclarationView>,
    registry: RegistryView,
)
    ensures
        asks_anew(case_modules(outer, n, current, local, registry), registry),
    decreases n,
{
    if n > 0 {
        lemma_case_modules_ask_anew(outer, (n - 1) as nat, current, local, registry);
    }
}

/// The engine makes progress.  A request that the engine makes was not
/// answered before, and once its answer is recorded it counts as answered:
/// no request is made twice.
pub proof fn lemma_no_request_is_made_twice(
    has_arguments: bool,
    item: ItemView,
    arms: Seq<PatternView>,
    context: Result<ModuleContextView, DiagnosticView>,
    registry: RegistryView,
)
    ensures
        asks_anew(nestum_spec(has_arguments, item, context, registry), registry),
        asks_anew(nestum_match_spec(arms, context, registry), registry),
        forall|request: LoadRequestView, root: Seq<char>, outcome: LoadOutcomeView|
            attempt_of(
                (#[trigger] recorded(registry, request, root, outcome)).attempts,
                request,
            ) is Some,
{
    match context {
        Ok(c) => {
            match current_module_state(registry, c) {
                OutcomeView::Ready(local) => {
                    lemma_rewrite_arms_ask_anew(arms, arms.len(), c.module, local, registry);
                    match item {
                        ItemView::Declaration(d) => {
                            lemma_case_modules_ask_anew(
                                d,
                                d.cases.len(),
                                c.module,
                                local,
                                registry,
                            );
                        },
                        _ => {},
                    }
                },
                _ => {},
            }
        },
        Err(_) => {},
    }
    assert forall|request: LoadRequestView, root: Seq<char>, outcome: LoadOutcomeView|
        attempt_of(
            (#[trigger] recorded(registry, request, root, outcome)).attempts,
            request,
        ) is Some by {
        lemma_answer_is_recorded(registry, request, root, outcome);
    }
}

} // verus!
