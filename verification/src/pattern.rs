//! Patterns, as far as the engine reads them.
//!
//! A pattern is a bare path, a path with positional sub-patterns, a path
//! with named fields, an alternation of patterns, or anything else.  The
//! engine reads the names of a path and nothing more; what it does not read
//! is carried along as written.

use vstd::prelude::*;
use vstd::string::*;
use crate::modpath::{external_path_to_string, path_text};
use crate::text::copy_names;

verus! {

/// The path of a pattern.
#[derive(Clone, Debug, PartialEq, Eq)]
pub struct PatternPath {
    /// The names of the segments, in order.
    pub names: Vec<String>,
    /// The path as written, with whatever else its segments carry.
    pub written: String,
    /// Whether the path was put here by rewriting: it then names a case of
    /// a flatten-marked type.  A path that was read from source is not.
    pub rewritten: bool,
}

pub struct PatternPathView {
    pub names: Seq<Seq<char>>,
    pub written: Seq<char>,
    pub rewritten: bool,
}

impl View for PatternPath {
    type V = PatternPathView;

    open spec fn view(&self) -> PatternPathView {
        PatternPathView {
            names: self.names.deep_view(),
            written: self.written@,
            rewritten: self.rewritten,
        }
    }
}

impl DeepView for PatternPath {
    type V = PatternPathView;

    open spec fn deep_view(&self) -> PatternPathView {
        self@
    }
}

/// The path that is made of `names` and nothing else.
pub open spec fn plain_path(names: Seq<Seq<char>>) -> PatternPathView {
    PatternPathView { names, written: path_text(names), rewritten: false }
}

/// The path that rewriting puts into a pattern: it is made of `names` and
/// nothing else, and says that it was put there.
pub open spec fn rewritten_path(names: Seq<Seq<char>>) -> PatternPathView {
    PatternPathView { names, written: path_text(names), rewritten: true }
}

impl PatternPath {
    /// A copy.
    pub fn duplicate(&self) -> (r: PatternPath)
        ensures
            r@ == self@,
    {
        PatternPath {
            names: copy_names(&self.names),
            written: self.written.clone(),
            rewritten: self.rewritten,
        }
    }

    /// The path that is made of `names` and nothing else.
    pub fn plain(names: Vec<String>) -> (r: PatternPath)
        ensures
            r@ == plain_path(names.deep_view()),
    {
        let written = external_path_to_string(&names);
        PatternPath { names, written, rewritten: false }
    }

    /// The path that rewriting puts into a pattern.
    pub fn put_by_rewriting(names: Vec<String>) -> (r: PatternPath)
        ensures
            r@ == rewritten_path(names.deep_view()),
    {
        let written = external_path_to_string(&names);
        PatternPath { names, written, rewritten: true }
    }
}

/// A pattern.
#[derive(Debug, PartialEq, Eq)]
pub enum Pattern {
    /// A bare path: `a::B::C`.
    Path(PatternPath),
    /// A path with positional sub-patterns: `a::B::C(x, y)`.
    TupleStruct { path: PatternPath, elems: Vec<Pattern> },
    /// A path with named fields, each as written, and whether `..` closes
    /// the list: `a::B::C { x, .. }`.
    Struct { path: PatternPath, fields: Vec<String>, rest: bool },
    /// An alternation: `p | q`, and whether it starts with a `|`.
    Or { leading_vert: bool, cases: Vec<Pattern> },
    /// Any other pattern, as written.
    Other(String),
}

pub enum PatternView {
    Path(PatternPathView),
    TupleStruct { path: PatternPathView, elems: Seq<PatternView> },
    Struct { path: PatternPathView, fields: Seq<Seq<char>>, rest: bool },
    Or { leading_vert: bool, cases: Seq<PatternView> },
    Other(Seq<char>),
}

impl View for Pattern {
    type V = PatternView;

    open spec fn view(&self) -> PatternView
        decreases self,
    {
        match self {
            Pattern::Path(path) => PatternView::Path(path@),
            Pattern::TupleStruct { path, elems } => PatternView::TupleStruct {
                path: path@,
                elems: Seq::new(
                    elems.len() as nat,
                    |i: int|
                        if 0 <= i < elems.len() {
                            elems[i].view()
                        } else {
                            PatternView::Other(Seq::empty())
                        },
                ),
            },
            Pattern::Struct { path, fields, rest } => PatternView::Struct {
                path: path@,
                fields: fields.deep_view(),
                rest: *rest,
            },
            Pattern::Or { leading_vert, cases } => PatternView::Or {
                leading_vert: *leading_vert,
                cases: Seq::new(
                    cases.len() as nat,
                    |i: int|
                        if 0 <= i < cases.len() {
                            cases[i].view()
                        } else {
                            PatternView::Other(Seq::empty())
                        },
                ),
            },
            Pattern::Other(text) => PatternView::Other(text@),
        }
    }
}

impl DeepView for Pattern {
    type V = PatternView;

    open spec fn deep_view(&self) -> PatternView {
        self@
    }
}

/// The view of a pattern with sub-patterns holds the view of each.
pub proof fn lemma_pattern_view(pattern: Pattern)
    ensures
        pattern matches Pattern::Path(path) ==> pattern@ == PatternView::Path(path@),
        pattern matches Pattern::TupleStruct { path, elems } ==> pattern@
            == (PatternView::TupleStruct { path: path@, elems: elems.deep_view() }),
        pattern matches Pattern::Struct { path, fields, rest } ==> pattern@
            == (PatternView::Struct { path: path@, fields: fields.deep_view(), rest }),
        pattern matches Pattern::Or { leading_vert, cases } ==> pattern@ == (PatternView::Or {
            leading_vert,
            cases: cases.deep_view(),
        }),
        pattern matches Pattern::Other(text) ==> pattern@ == PatternView::Other(text@),
{
    match pattern {
        Pattern::TupleStruct { path, elems } => {
            assert(pattern@->TupleStruct_elems =~= elems.deep_view());
        },
        Pattern::Or { leading_vert, cases } => {
            assert(pattern@->cases =~= cases.deep_view());
        },
        _ => {},
    }
}

/// A copy of a list of patterns.
pub fn copy_patterns(patterns: &Vec<Pattern>) -> (r: Vec<Pattern>)
    ensures
        r.deep_view() == patterns.deep_view(),
    decreases patterns,
{
    let mut out: Vec<Pattern> = Vec::new();
    let mut i: usize = 0;
    while i < patterns.len()
        invariant
            i <= patterns.len(),
            out.len() == i,
            forall|j: int| 0 <= j < i ==> out[j]@ == patterns[j]@,
        decreases patterns.len() - i,
    {
        assert(decreases_to!(patterns => patterns[i as int]));
        out.push(patterns[i].duplicate());
        i += 1;
    }
    assert(out.deep_view() =~= patterns.deep_view());
    out
}

impl Pattern {
    /// A copy.
    pub fn duplicate(&self) -> (r: Pattern)
        ensures
            r@ == self@,
        decreases self,
    {
        proof {
            lemma_pattern_view(*self);
        }
        let r = match self {
            Pattern::Path(path) => Pattern::Path(path.duplicate()),
            Pattern::TupleStruct { path, elems } => {
                assert(decreases_to!(self => self->TupleStruct_elems));
                Pattern::TupleStruct { path: path.duplicate(), elems: copy_patterns(elems) }
            },
            Pattern::Struct { path, fields, rest } => Pattern::Struct {
                path: path.duplicate(),
                fields: copy_names(fields),
                rest: *rest,
            },
            Pattern::Or { leading_vert, cases } => {
                assert(decreases_to!(self => self->cases));
                Pattern::Or { leading_vert: *leading_vert, cases: copy_patterns(cases) }
            },
            Pattern::Other(text) => Pattern::Other(text.clone()),
        };
        proof {
            lemma_pattern_view(r);
        }
        r
    }
}

} // verus!
