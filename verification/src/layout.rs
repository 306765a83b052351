//! The layout of an expansion in source.
//!
//! A flatten-marked type `T` is laid out as a namespace `T` that holds the
//! type itself and, for each case `c` that flattens, a namespace `c` with
//! the forwarders.  From outside, the case `C` of `T` is therefore written
//! `T::T::C`.  From inside the namespace of a case, `super::T` is the type
//! and `super::super` is the module of the declaration.
//!
//! The engine writes paths as they read without this layout.  This module
//! turns them into the paths of the layout, and the forwarders into source
//! text.

use vstd::prelude::*;
use vstd::string::*;
use crate::expand::{
    Forwarder, ForwarderModule, ForwarderModuleView, ForwarderShape, ForwarderShapeView,
    ForwarderView, Param, ParamView,
};
use crate::modpath::{build_path_from_idents, external_path_to_string, path_text};
use crate::pattern::{
    lemma_pattern_view, plain_path, Pattern, PatternPath, PatternPathView, PatternView,
};
use crate::render::comma;
use crate::text::{copy_names, join_names, joined, lemma_same_names};

verus! {

// --------------------------------------------------------------------- paths

/// The path of a case in the layout: the name of the type stands twice,
/// once for the namespace and once for the type.  A path of fewer than two
/// names is no path of a case and stays as it is.
pub open spec fn namespaced(names: Seq<Seq<char>>) -> Seq<Seq<char>> {
    if names.len() >= 2 {
        names.subrange(0, names.len() - 1) + seq![names[names.len() - 2], names[names.len() - 1]]
    } else {
        names
    }
}

/// The path of a case in the layout.
pub fn in_namespace(names: &Vec<String>) -> (r: Vec<String>)
    ensures
        r.deep_view() == namespaced(names.deep_view()),
{
    let n: usize = names.len();
    let mut out = copy_names(names);
    proof {
        lemma_same_names(out, *names);
    }
    if n >= 2 {
        let case = out.pop();
        let ghost front = out.deep_view();
        assert(front =~= names.deep_view().subrange(0, n - 1));
        out.push(names[n - 2].clone());
        out.push(names[n - 1].clone());
        assert(out.deep_view() =~= front + seq![names[n - 2]@, names[n - 1]@]);
        assert(names.deep_view()[n - 2] == names[n - 2]@);
        assert(names.deep_view()[n - 1] == names[n - 1]@);
    }
    out
}

// ------------------------------------------------------------------ patterns

/// Whether rewriting put a path into the pattern.
pub open spec fn has_rewritten(pat: PatternView) -> bool
    decreases pat, 0nat,
{
    match pat {
        PatternView::Path(path) => path.rewritten,
        PatternView::TupleStruct { path, elems } => path.rewritten || any_rewritten(
            elems,
            elems.len(),
        ),
        PatternView::Struct { path, .. } => path.rewritten,
        PatternView::Or { cases, .. } => any_rewritten(cases, cases.len()),
        PatternView::Other(_) => false,
    }
}

/// Whether rewriting put a path into one of the first `n` patterns.
pub open spec fn any_rewritten(pats: Seq<PatternView>, n: nat) -> bool
    decreases pats, n,
{
    if n == 0 || n > pats.len() {
        false
    } else {
        any_rewritten(pats, (n - 1) as nat) || has_rewritten(pats[n - 1])
    }
}

/// A path in the layout: a path that rewriting put there names a case of a
/// flatten-marked type and gets the namespace; any other path stays.
pub open spec fn path_layout(path: PatternPathView) -> PatternPathView {
    if path.rewritten {
        plain_path(namespaced(path.names))
    } else {
        path
    }
}

/// A pattern in the layout: each of its paths in the layout.
pub open spec fn pattern_layout(pat: PatternView) -> PatternView
    decreases pat,
{
    match pat {
        PatternView::Path(path) => PatternView::Path(path_layout(path)),
        PatternView::TupleStruct { path, elems } => PatternView::TupleStruct {
            path: path_layout(path),
            elems: Seq::new(
                elems.len(),
                |i: int|
                    if 0 <= i < elems.len() {
                        pattern_layout(elems[i])
                    } else {
                        PatternView::Other(Seq::empty())
                    },
            ),
        },
        PatternView::Struct { path, fields, rest } => PatternView::Struct {
            path: path_layout(path),
            fields,
            rest,
        },
        PatternView::Or { leading_vert, cases } => PatternView::Or {
            leading_vert,
            cases: Seq::new(
                cases.len(),
                |i: int|
                    if 0 <= i < cases.len() {
                        pattern_layout(cases[i])
                    } else {
                        PatternView::Other(Seq::empty())
                    },
            ),
        },
        PatternView::Other(text) => PatternView::Other(text),
    }
}

impl PatternPath {
    /// The path in the layout.
    pub fn laid_out(&self) -> (r: PatternPath)
        ensures
            r@ == path_layout(self@),
    {
        if self.rewritten {
            PatternPath::plain(in_namespace(&self.names))
        } else {
            self.duplicate()
        }
    }
}

/// Whether rewriting put a path into one of `pats`.
pub fn any_is_rewritten(pats: &Vec<Pattern>) -> (r: bool)
    ensures
        r == any_rewritten(pats.deep_view(), pats.len() as nat),
    decreases pats,
{
    let mut i: usize = 0;
    let mut found = false;
    while i < pats.len()
        invariant
            i <= pats.len(),
            found == any_rewritten(pats.deep_view(), i as nat),
        decreases pats.len() - i,
    {
        assert(decreases_to!(pats => pats[i as int]));
        assert(pats.deep_view()[i as int] == pats[i as int]@);
        let here = pats[i].is_rewritten();
        found = found || here;
        i += 1;
    }
    found
}

/// Each of `pats` in the layout.
pub fn patterns_laid_out(pats: &Vec<Pattern>) -> (r: Vec<Pattern>)
    ensures
        r.len() == pats.len(),
        forall|i: int| 0 <= i < pats.len() ==> r[i]@ == pattern_layout(pats[i]@),
    decreases pats,
{
    let mut out: Vec<Pattern> = Vec::new();
    let mut i: usize = 0;
    while i < pats.len()
        invariant
            i <= pats.len(),
            out.len() == i,
            forall|j: int| 0 <= j < i ==> out[j]@ == pattern_layout(pats[j]@),
        decreases pats.len() - i,
    {
        assert(decreases_to!(pats => pats[i as int]));
        out.push(pats[i].laid_out());
        i += 1;
    }
    out
}

impl Pattern {
    /// Whether rewriting put a path into the pattern.
    pub fn is_rewritten(&self) -> (r: bool)
        ensures
            r == has_rewritten(self@),
        decreases self,
    {
        proof {
            lemma_pattern_view(*self);
        }
        match self {
            Pattern::Path(path) => path.rewritten,
            Pattern::TupleStruct { path, elems } => {
                assert(decreases_to!(self => self->TupleStruct_elems));
                if path.rewritten {
                    true
                } else {
                    any_is_rewritten(elems)
                }
            },
            Pattern::Struct { path, fields: _, rest: _ } => path.rewritten,
            Pattern::Or { leading_vert: _, cases } => {
                assert(decreases_to!(self => self->cases));
                any_is_rewritten(cases)
            },
            Pattern::Other(_) => false,
        }
    }

    /// The pattern in the layout.
    pub fn laid_out(&self) -> (r: Pattern)
        ensures
            r@ == pattern_layout(self@),
        decreases self,
    {
        proof {
            lemma_pattern_view(*self);
        }
        let r = match self {
            Pattern::Path(path) => Pattern::Path(path.laid_out()),
            Pattern::TupleStruct { path, elems } => {
                assert(decreases_to!(self => self->TupleStruct_elems));
                let inside = patterns_laid_out(elems);
                assert(inside.deep_view() =~= pattern_layout(self@)->TupleStruct_elems);
                Pattern::TupleStruct { path: path.laid_out(), elems: inside }
            },
            Pattern::Struct { path, fields, rest } => Pattern::Struct {
                path: path.laid_out(),
                fields: copy_names(fields),
                rest: *rest,
            },
            Pattern::Or { leading_vert, cases } => {
                assert(decreases_to!(self => self->cases));
                let inside = patterns_laid_out(cases);
                assert(inside.deep_view() =~= pattern_layout(self@)->cases);
                Pattern::Or { leading_vert: *leading_vert, cases: inside }
            },
            Pattern::Other(text) => Pattern::Other(text.clone()),
        };
        proof {
            lemma_pattern_view(r);
        }
        r
    }
}

// ---------------------------------------------------------------- forwarders

/// A single blank: between the forwarders of a group.
pub open spec fn blank() -> Seq<char> {
    seq![' ']
}

/// `name: type`, for each parameter.
pub open spec fn param_sources(params: Seq<ParamView>) -> Seq<Seq<char>> {
    Seq::new(params.len(), |j: int| params[j].name + ": "@ + params[j].ty)
}

/// The name of each parameter.
pub open spec fn param_names(params: Seq<ParamView>) -> Seq<Seq<char>> {
    Seq::new(params.len(), |j: int| params[j].name)
}

/// The names of the path of the inner case in the layout, after what it
/// starts with: a flatten-marked inner type gets its namespace.
pub open spec fn inner_layout_names(f: ForwarderView) -> Seq<Seq<char>> {
    if f.inner_marked {
        seq![f.inner] + f.inner_case
    } else {
        f.inner_case
    }
}

/// The path of the inner case, seen from the namespace of the group: it
/// starts with the external reference, or with the module of the
/// declaration.
pub open spec fn inner_source(f: ForwarderView) -> Seq<char> {
    match f.inner_root {
        Some(root) => root + "::"@ + path_text(inner_layout_names(f)),
        None => "super::super::"@ + path_text(inner_layout_names(f)),
    }
}

/// The path of the outer type, seen from the namespace of the group.
pub open spec fn result_source(f: ForwarderView) -> Seq<char> {
    "super::"@ + path_text(f.result)
}

/// The path of the outer case, seen from the namespace of the group.
pub open spec fn outer_source(f: ForwarderView) -> Seq<char> {
    "super::"@ + path_text(f.outer_case)
}

/// The source text of a forwarder: a constant, or a function that hands
/// its parameters on to the inner case, inside the outer case.
pub open spec fn forwarder_source(f: ForwarderView) -> Seq<char> {
    match f.shape {
        ForwarderShapeView::Constant => "pub const "@ + f.name + ": "@ + result_source(f)
            + " = "@ + outer_source(f) + "("@ + inner_source(f) + ");"@,
        ForwarderShapeView::Positional(params) => "pub fn "@ + f.name + "("@ + joined(
            param_sources(params),
            comma(),
        ) + ") -> "@ + result_source(f) + " { "@ + outer_source(f) + "("@ + inner_source(f)
            + "("@ + joined(param_names(params), comma()) + ")) }"@,
        ForwarderShapeView::Named(params) => "pub fn "@ + f.name + "("@ + joined(
            param_sources(params),
            comma(),
        ) + ") -> "@ + result_source(f) + " { "@ + outer_source(f) + "("@ + inner_source(f)
            + " { "@ + joined(param_names(params), comma()) + " }) }"@,
    }
}

/// The source text of a group of forwarders: a namespace named after the
/// case, with the forwarders in order.
pub open spec fn module_source(group: ForwarderModuleView) -> Seq<char> {
    "pub mod "@ + group.case + " { "@ + joined(
        Seq::new(group.forwarders.len(), |i: int| forwarder_source(group.forwarders[i])),
        blank(),
    ) + " }"@
}

/// `name: type`, for each parameter, separated by `, `.
pub fn params_to_source(params: &Vec<Param>) -> (r: String)
    ensures
        r@ == joined(param_sources(params.deep_view()), comma()),
{
    let mut parts: Vec<String> = Vec::new();
    let mut j: usize = 0;
    while j < params.len()
        invariant
            j <= params.len(),
            parts.len() == j,
            forall|k: int| 0 <= k < j ==> parts[k]@ == params[k]@.name + ": "@ + params[k]@.ty,
        decreases params.len() - j,
    {
        let mut part = params[j].name.clone();
        part.append(": ");
        part.append(params[j].ty.as_str());
        parts.push(part);
        j += 1;
    }
    assert(params.deep_view().len() == params.len());
    assert(parts.deep_view() =~= param_sources(params.deep_view()));
    proof {
        reveal_strlit(", ");
        assert(", "@ =~= comma());
    }
    join_names(&parts, ", ")
}

/// The name of each parameter, separated by `, `.
pub fn params_to_arguments(params: &Vec<Param>) -> (r: String)
    ensures
        r@ == joined(param_names(params.deep_view()), comma()),
{
    let mut parts: Vec<String> = Vec::new();
    let mut j: usize = 0;
    while j < params.len()
        invariant
            j <= params.len(),
            parts.len() == j,
            forall|k: int| 0 <= k < j ==> parts[k]@ == params[k]@.name,
        decreases params.len() - j,
    {
        parts.push(params[j].name.clone());
        j += 1;
    }
    assert(params.deep_view().len() == params.len());
    assert(parts.deep_view() =~= param_names(params.deep_view()));
    proof {
        reveal_strlit(", ");
        assert(", "@ =~= comma());
    }
    join_names(&parts, ", ")
}

impl Forwarder {
    /// The path of the inner case, seen from the namespace of the group.
    pub fn inner_to_source(&self) -> (r: String)
        ensures
            r@ == inner_source(self@),
    {
        let mut front: Vec<String> = Vec::new();
        if self.inner_marked {
            front.push(self.inner.clone());
        }
        assert(front.deep_view() =~= if self.inner_marked {
            seq![self.inner@]
        } else {
            Seq::<Seq<char>>::empty()
        });
        let names = build_path_from_idents(&front, &self.inner_case);
        assert(names.deep_view() =~= inner_layout_names(self@));
        let tail = external_path_to_string(&names);
        match &self.inner_root {
            Some(root) => {
                let mut out = root.clone();
                out.append("::");
                out.append(tail.as_str());
                out
            },
            None => {
                let mut out = String::from_str("super::super::");
                out.append(tail.as_str());
                out
            },
        }
    }

    /// The source text of the forwarder.
    pub fn to_source(&self) -> (r: String)
        ensures
            r@ == forwarder_source(self@),
    {
        let mut result = String::from_str("super::");
        result.append(external_path_to_string(&self.result).as_str());
        let mut outer = String::from_str("super::");
        outer.append(external_path_to_string(&self.outer_case).as_str());
        let inner = self.inner_to_source();
        match &self.shape {
            ForwarderShape::Constant => {
                let mut out = String::from_str("pub const ");
                out.append(self.name.as_str());
                out.append(": ");
                out.append(result.as_str());
                out.append(" = ");
                out.append(outer.as_str());
                out.append("(");
                out.append(inner.as_str());
                out.append(");");
                out
            },
            ForwarderShape::Positional(params) => {
                let declared = params_to_source(params);
                let handed = params_to_arguments(params);
                let mut out = String::from_str("pub fn ");
                out.append(self.name.as_str());
                out.append("(");
                out.append(declared.as_str());
                out.append(") -> ");
                out.append(result.as_str());
                out.append(" { ");
                out.append(outer.as_str());
                out.append("(");
                out.append(inner.as_str());
                out.append("(");
                out.append(handed.as_str());
                out.append(")) }");
                out
            },
            ForwarderShape::Named(params) => {
                let declared = params_to_source(params);
                let handed = params_to_arguments(params);
                let mut out = String::from_str("pub fn ");
                out.append(self.name.as_str());
                out.append("(");
                out.append(declared.as_str());
                out.append(") -> ");
                out.append(result.as_str());
                out.append(" { ");
                out.append(outer.as_str());
                out.append("(");
                out.append(inner.as_str());
                out.append(" { ");
                out.append(handed.as_str());
                out.append(" }) }");
                out
            },
        }
    }
}

impl ForwarderModule {
    /// The source text of the group.
    pub fn to_source(&self) -> (r: String)
        ensures
            r@ == module_source(self@),
    {
        let mut parts: Vec<String> = Vec::new();
        let mut i: usize = 0;
        while i < self.forwarders.len()
            invariant
                i <= self.forwarders.len(),
                parts.len() == i,
                forall|k: int| 0 <= k < i ==> parts[k]@ == forwarder_source(self.forwarders[k]@),
            decreases self.forwarders.len() - i,
        {
            parts.push(self.forwarders[i].to_source());
            i += 1;
        }
        assert(self@.forwarders.len() == self.forwarders.len());
        assert(parts.deep_view() =~= Seq::new(
            self@.forwarders.len(),
            |i: int| forwarder_source(self@.forwarders[i]),
        ));
        proof {
            reveal_strlit(" ");
            assert(" "@ =~= blank());
        }
        let inside = join_names(&parts, " ");
        let mut out = String::from_str("pub mod ");
        out.append(self.case.as_str());
        out.append(" { ");
        out.append(inside.as_str());
        out.append(" }");
        out
    }
}

} // verus!
