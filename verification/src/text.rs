//! Text helpers: joining and splitting `::`-separated paths, and a few
//! small conversions that the rest of the crate builds its names from.

use vstd::prelude::*;
use vstd::string::*;

verus! {

/// The text of the first `n` parts with `sep` between neighbours.
pub open spec fn joined_prefix(parts: Seq<Seq<char>>, sep: Seq<char>, n: nat) -> Seq<char>
    decreases n,
{
    if n == 0 {
        Seq::empty()
    } else if n == 1 {
        parts[0]
    } else {
        joined_prefix(parts, sep, (n - 1) as nat) + sep + parts[n - 1]
    }
}

/// All parts with `sep` between neighbours; the empty text for no parts.
pub open spec fn joined(parts: Seq<Seq<char>>, sep: Seq<char>) -> Seq<char> {
    joined_prefix(parts, sep, parts.len())
}

/// The separator of path segments.
pub open spec fn path_sep() -> Seq<char> {
    seq![':', ':']
}

/// A piece between two separators, kept only if it is not empty.
pub open spec fn kept_piece(piece: Seq<char>) -> Seq<Seq<char>> {
    if piece.len() == 0 {
        Seq::empty()
    } else {
        seq![piece]
    }
}

/// The non-empty pieces of `s[start..]` between occurrences of `::`, where
/// the text from `start` up to `at` is known to hold no separator.
/// Separators are found from the left and do not overlap.
pub open spec fn pieces_from(s: Seq<char>, start: int, at: int) -> Seq<Seq<char>>
    decreases s.len() - at,
{
    if at + 1 >= s.len() {
        kept_piece(s.subrange(start, s.len() as int))
    } else if s[at] == ':' && s[at + 1] == ':' {
        kept_piece(s.subrange(start, at)) + pieces_from(s, at + 2, at + 2)
    } else {
        pieces_from(s, start, at + 1)
    }
}

/// The non-empty pieces of `s` between occurrences of `::`.
pub open spec fn path_pieces(s: Seq<char>) -> Seq<Seq<char>> {
    pieces_from(s, 0, 0)
}

/// Whether two strings hold the same text.
pub fn same_text(a: &String, b: &String) -> (r: bool)
    ensures
        r == (a@ == b@),
{
    *a == *b
}

/// Whether `a` holds exactly the text of `word`.
pub fn is_word(a: &String, word: &str) -> (r: bool)
    ensures
        r == (a@ == word@),
{
    let w = String::from_str(word);
    *a == w
}

/// Whether two lists of names hold the same names in the same order.
pub fn same_names(a: &Vec<String>, b: &Vec<String>) -> (r: bool)
    ensures
        r == (a.deep_view() == b.deep_view()),
{
    if a.len() != b.len() {
        assert(a.deep_view().len() != b.deep_view().len());
        return false;
    }
    let mut i: usize = 0;
    while i < a.len()
        invariant
            i <= a.len(),
            a.len() == b.len(),
            forall|j: int| 0 <= j < i ==> a[j]@ == b[j]@,
        decreases a.len() - i,
    {
        if !same_text(&a[i], &b[i]) {
            assert(a.deep_view()[i as int] != b.deep_view()[i as int]);
            return false;
        }
        i += 1;
    }
    assert(a.deep_view() =~= b.deep_view());
    true
}

/// Two lists with the same names have the same length and agree name by
/// name.
pub proof fn lemma_same_names(a: Vec<String>, b: Vec<String>)
    requires
        a.deep_view() == b.deep_view(),
    ensures
        a.len() == b.len(),
        forall|j: int| 0 <= j < a.len() ==> a[j]@ == b[j]@,
{
    assert(a.deep_view().len() == a.len());
    assert(b.deep_view().len() == b.len());
    assert forall|j: int| 0 <= j < a.len() implies a[j]@ == b[j]@ by {
        assert(a.deep_view()[j] == a[j]@);
        assert(b.deep_view()[j] == b[j]@);
    }
}

/// A copy of a list of names.
pub fn copy_names(names: &Vec<String>) -> (r: Vec<String>)
    ensures
        r.deep_view() == names.deep_view(),
{
    let mut out: Vec<String> = Vec::new();
    let mut i: usize = 0;
    while i < names.len()
        invariant
            i <= names.len(),
            out.len() == i,
            forall|j: int| 0 <= j < i ==> out[j]@ == names[j]@,
        decreases names.len() - i,
    {
        out.push(names[i].clone());
        i += 1;
    }
    assert(out.deep_view() =~= names.deep_view());
    out
}

/// Joins `parts` with `sep` between neighbours.
pub fn join_names(parts: &Vec<String>, sep: &str) -> (r: String)
    ensures
        r@ == joined(parts.deep_view(), sep@),
{
    let mut out = String::new();
    let mut i: usize = 0;
    while i < parts.len()
        invariant
            i <= parts.len(),
            out@ == joined_prefix(parts.deep_view(), sep@, i as nat),
        decreases parts.len() - i,
    {
        if i > 0 {
            out.append(sep);
        }
        out.append(parts[i].as_str());
        assert(parts.deep_view()[i as int] == parts[i as int]@);
        assert(out@ =~= joined_prefix(parts.deep_view(), sep@, (i + 1) as nat));
        i += 1;
    }
    out
}

/// Splits `s` at every `::` and keeps the non-empty pieces.
pub fn split_path(s: &str) -> (r: Vec<String>)
    ensures
        r.deep_view() == path_pieces(s@),
{
    let n: usize = s.unicode_len();
    let mut out: Vec<String> = Vec::new();
    let mut start: usize = 0;
    let mut at: usize = 0;
    while at < n && at + 1 < n
        invariant
            n == s@.len(),
            start <= at <= n,
            out.deep_view() + pieces_from(s@, start as int, at as int) == path_pieces(s@),
        decreases n - at,
    {
        let ghost before = out.deep_view();
        if s.get_char(at) == ':' && s.get_char(at + 1) == ':' {
            if start < at {
                out.push(String::from_str(s.substring_char(start, at)));
                assert(out.deep_view() =~= before + kept_piece(s@.subrange(start as int, at as int)));
            }
            assert(out.deep_view() + pieces_from(s@, at + 2, at + 2) =~= before + pieces_from(
                s@,
                start as int,
                at as int,
            ));
            at = at + 2;
            start = at;
        } else {
            at = at + 1;
        }
    }
    let ghost before = out.deep_view();
    if start < n {
        out.push(String::from_str(s.substring_char(start, n)));
        assert(out.deep_view() =~= before + kept_piece(s@.subrange(start as int, n as int)));
    }
    assert(out.deep_view() =~= before + pieces_from(s@, start as int, at as int));
    out
}

/// The character of a decimal digit.
pub open spec fn digit_char(d: nat) -> char {
    if d == 0 {
        '0'
    } else if d == 1 {
        '1'
    } else if d == 2 {
        '2'
    } else if d == 3 {
        '3'
    } else if d == 4 {
        '4'
    } else if d == 5 {
        '5'
    } else if d == 6 {
        '6'
    } else if d == 7 {
        '7'
    } else if d == 8 {
        '8'
    } else {
        '9'
    }
}

/// The decimal digits of `n`, without leading zeros.
pub open spec fn decimal(n: nat) -> Seq<char>
    decreases n,
{
    if n < 10 {
        seq![digit_char(n)]
    } else {
        decimal(n / 10).push(digit_char(n % 10))
    }
}

/// The text of one decimal digit.
pub(crate) fn digit_text(d: usize) -> (r: &'static str)
    requires
        d < 10,
    ensures
        r@ == seq![digit_char(d as nat)],
{
    proof {
        reveal_strlit("0");
        reveal_strlit("1");
        reveal_strlit("2");
        reveal_strlit("3");
        reveal_strlit("4");
        reveal_strlit("5");
        reveal_strlit("6");
        reveal_strlit("7");
        reveal_strlit("8");
        reveal_strlit("9");
    }
    let r = if d == 0 {
        "0"
    } else if d == 1 {
        "1"
    } else if d == 2 {
        "2"
    } else if d == 3 {
        "3"
    } else if d == 4 {
        "4"
    } else if d == 5 {
        "5"
    } else if d == 6 {
        "6"
    } else if d == 7 {
        "7"
    } else if d == 8 {
        "8"
    } else {
        "9"
    };
    assert(r@ =~= seq![digit_char(d as nat)]);
    r
}

/// The decimal digits of `n`.
pub fn decimal_text(n: usize) -> (r: String)
    ensures
        r@ == decimal(n as nat),
    decreases n,
{
    if n < 10 {
        String::from_str(digit_text(n))
    } else {
        let mut out = decimal_text(n / 10);
        out.append(digit_text(n % 10));
        assert(out@ =~= decimal((n / 10) as nat).push(digit_char((n % 10) as nat)));
        out
    }
}

/// A name that can stand in a path: not empty and without a colon.
pub open spec fn plain_name(name: Seq<char>) -> bool {
    &&& name.len() > 0
    &&& forall|i: int| 0 <= i < name.len() ==> name[i] != ':'
}

/// Scanning over characters that are no colons finds nothing.
pub proof fn lemma_pieces_skip(s: Seq<char>, start: int, at: int, to: int)
    requires
        0 <= start <= at <= to <= s.len(),
        forall|j: int| at <= j < to ==> s[j] != ':',
    ensures
        pieces_from(s, start, at) == pieces_from(s, start, to),
    decreases to - at,
{
    if at < to {
        lemma_pieces_skip(s, start, at + 1, to);
    }
}

/// What is found in a text does not depend on what stands before the
/// place where the scan starts.
pub proof fn lemma_pieces_shift(before: Seq<char>, t: Seq<char>, start: int, at: int)
    requires
        0 <= start <= at <= t.len(),
    ensures
        pieces_from(before + t, before.len() + start, before.len() + at) == pieces_from(
            t,
            start,
            at,
        ),
    decreases t.len() - at,
{
    let s = before + t;
    let n = before.len() as int;
    if at + 1 >= t.len() {
        assert(s.subrange(n + start, s.len() as int) =~= t.subrange(start, t.len() as int));
    } else {
        assert(s[n + at] == t[at]);
        assert(s[n + at + 1] == t[at + 1]);
        if t[at] == ':' && t[at + 1] == ':' {
            assert(s.subrange(n + start, n + at) =~= t.subrange(start, at));
            lemma_pieces_shift(before, t, at + 2, at + 2);
        } else {
            lemma_pieces_shift(before, t, start, at + 1);
        }
    }
}

/// The text of at least two parts is the first part, the separator, and
/// the text of the rest.
pub proof fn lemma_joined_front(parts: Seq<Seq<char>>, sep: Seq<char>, n: nat)
    requires
        2 <= n <= parts.len(),
    ensures
        joined_prefix(parts, sep, n) == parts[0] + sep + joined_prefix(
            parts.drop_first(),
            sep,
            (n - 1) as nat,
        ),
    decreases n,
{
    let rest = parts.drop_first();
    if n == 2 {
        assert(rest[0] == parts[1]);
        assert(joined_prefix(parts, sep, 1) == parts[0]);
        assert(joined_prefix(rest, sep, 1) == rest[0]);
    } else {
        lemma_joined_front(parts, sep, (n - 1) as nat);
        assert(rest[n - 2] == parts[n - 1]);
        assert(joined_prefix(parts, sep, n) =~= parts[0] + sep + joined_prefix(
            rest,
            sep,
            (n - 1) as nat,
        ));
    }
}

/// Splitting undoes joining: the pieces of the text of plain names are
/// the names.
pub proof fn lemma_pieces_of_joined(names: Seq<Seq<char>>)
    requires
        forall|i: int| 0 <= i < names.len() ==> plain_name(#[trigger] names[i]),
    ensures
        path_pieces(joined(names, path_sep())) == names,
    decreases names.len(),
{
    let s = joined(names, path_sep());
    if names.len() == 0 {
        assert(s.subrange(0, 0) =~= Seq::<char>::empty());
        assert(path_pieces(s) =~= names);
    } else if names.len() == 1 {
        let a = names[0];
        assert(plain_name(a));
        assert(s == a);
        lemma_pieces_skip(s, 0, 0, s.len() as int);
        assert(s.subrange(0, s.len() as int) =~= a);
        assert(path_pieces(s) =~= names);
    } else {
        let a = names[0];
        let rest = names.drop_first();
        let t = joined(rest, path_sep());
        assert(plain_name(a));
        lemma_joined_front(names, path_sep(), names.len());
        assert(s == a + path_sep() + t);
        let n = a.len() as int;
        assert forall|j: int| 0 <= j < n implies s[j] != ':' by {
            assert(s[j] == a[j]);
        }
        lemma_pieces_skip(s, 0, 0, n);
        assert(s[n] == ':' && s[n + 1] == ':');
        assert(s.subrange(0, n) =~= a);
        assert(pieces_from(s, 0, n) == kept_piece(a) + pieces_from(s, n + 2, n + 2));
        lemma_pieces_shift(a + path_sep(), t, 0, 0);
        assert forall|i: int| 0 <= i < rest.len() implies plain_name(#[trigger] rest[i]) by {
            assert(rest[i] == names[i + 1]);
        }
        lemma_pieces_of_joined(rest);
        assert(kept_piece(a) + rest =~= names);
    }
}

} // verus!
