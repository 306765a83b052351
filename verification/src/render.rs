//! Source text of patterns.

use vstd::prelude::*;
use vstd::string::*;
use crate::pattern::{lemma_pattern_view, Pattern, PatternView};
use crate::text::{join_names, joined};

verus! {

/// `, `: between the items of a list.
pub open spec fn comma() -> Seq<char> {
    seq![',', ' ']
}

/// ` | `: between the alternatives of an alternation.
pub open spec fn bar() -> Seq<char> {
    seq![' ', '|', ' ']
}

/// The named fields of a pattern, and `..` behind them where the pattern
/// ends in it.
pub open spec fn fields_with_rest(fields: Seq<Seq<char>>, rest: bool) -> Seq<Seq<char>> {
    if rest {
        fields.push(".."@)
    } else {
        fields
    }
}

/// The source text of a pattern.
pub open spec fn pattern_source(pat: PatternView) -> Seq<char>
    decreases pat, 0nat,
{
    match pat {
        PatternView::Path(path) => path.written,
        PatternView::TupleStruct { path, elems } => path.written + "("@ + sources_joined(
            elems,
            elems.len(),
            comma(),
        ) + ")"@,
        PatternView::Struct { path, fields, rest } => path.written + " { "@ + joined(
            fields_with_rest(fields, rest),
            comma(),
        ) + " }"@,
        PatternView::Or { leading_vert, cases } => (if leading_vert {
            "| "@
        } else {
            Seq::empty()
        }) + sources_joined(cases, cases.len(), bar()),
        PatternView::Other(text) => text,
    }
}

/// The source text of the first `n` patterns, with `sep` between
/// neighbours.
pub open spec fn sources_joined(pats: Seq<PatternView>, n: nat, sep: Seq<char>) -> Seq<char>
    decreases pats, n,
{
    if n == 0 || n > pats.len() {
        Seq::empty()
    } else if n == 1 {
        pattern_source(pats[0])
    } else {
        sources_joined(pats, (n - 1) as nat, sep) + sep + pattern_source(pats[n - 1])
    }
}

/// The source text of the patterns, with `sep` between neighbours.
pub fn patterns_to_source(pats: &Vec<Pattern>, sep: &str) -> (r: String)
    ensures
        r@ == sources_joined(pats.deep_view(), pats.len() as nat, sep@),
    decreases pats,
{
    let mut out = String::new();
    let mut i: usize = 0;
    while i < pats.len()
        invariant
            i <= pats.len(),
            out@ == sources_joined(pats.deep_view(), i as nat, sep@),
        decreases pats.len() - i,
    {
        assert(decreases_to!(pats => pats[i as int]));
        assert(pats.deep_view()[i as int] == pats[i as int]@);
        if i > 0 {
            out.append(sep);
        }
        let part = pats[i].to_source();
        out.append(part.as_str());
        assert(out@ =~= sources_joined(pats.deep_view(), (i + 1) as nat, sep@));
        i += 1;
    }
    out
}

impl Pattern {
    /// The source text of the pattern.
    pub fn to_source(&self) -> (r: String)
        ensures
            r@ == pattern_source(self@),
        decreases self,
    {
        proof {
            lemma_pattern_view(*self);
            reveal_strlit(", ");
            reveal_strlit(" | ");
            assert(", "@ =~= comma());
            assert(" | "@ =~= bar());
        }
        match self {
            Pattern::Path(path) => path.written.clone(),
            Pattern::TupleStruct { path, elems } => {
                assert(decreases_to!(self => self->TupleStruct_elems));
                let inside = patterns_to_source(elems, ", ");
                let mut out = path.written.clone();
                out.append("(");
                out.append(inside.as_str());
                out.append(")");
                out
            },
            Pattern::Struct { path, fields, rest } => {
                let mut parts: Vec<String> = crate::text::copy_names(fields);
                let ghost plain = parts.deep_view();
                if *rest {
                    parts.push(String::from_str(".."));
                    assert(parts.deep_view() =~= plain.push(".."@));
                }
                let inside = join_names(&parts, ", ");
                let mut out = path.written.clone();
                out.append(" { ");
                out.append(inside.as_str());
                out.append(" }");
                out
            },
            Pattern::Or { leading_vert, cases } => {
                assert(decreases_to!(self => self->cases));
                let inside = patterns_to_source(cases, " | ");
                let mut out = String::new();
                if *leading_vert {
                    out.append("| ");
                }
                assert(out@ =~= if *leading_vert {
                    "| "@
                } else {
                    Seq::empty()
                });
                out.append(inside.as_str());
                out
            },
            Pattern::Other(text) => text.clone(),
        }
    }
}

} // verus!
