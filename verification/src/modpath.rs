//! Module paths.
//!
//! A module path is the list of the names that lead from the root of the
//! compilation unit to a module; the empty list is the root itself.  Its
//! canonical text joins the names with `::` and writes the root as `crate`.

use vstd::prelude::*;
use vstd::string::*;
use crate::diag::{
    module_unresolved, module_unresolved_spec, source_unavailable, source_unavailable_spec,
    Diagnostic,
};
use crate::outside::module_root_of_file;
use crate::text::{
    copy_names, is_word, join_names, joined, lemma_joined_front, lemma_pieces_of_joined,
    lemma_same_names, path_pieces, path_sep, plain_name, split_path,
};

verus! {

/// The word that stands for the root of the compilation unit.
pub open spec fn root_word() -> Seq<char> {
    "crate"@
}

/// The module path that a canonical text denotes.
pub open spec fn module_path_of(text: Seq<char>) -> Seq<Seq<char>> {
    if text.len() == 0 || text == root_word() {
        Seq::empty()
    } else {
        path_pieces(text)
    }
}

/// The canonical text of a module path.
pub open spec fn module_text(path: Seq<Seq<char>>) -> Seq<char> {
    if path.len() == 0 {
        root_word()
    } else {
        joined(path, path_sep())
    }
}

/// The names of a path, joined with `::`.
pub open spec fn path_text(names: Seq<Seq<char>>) -> Seq<char> {
    joined(names, path_sep())
}

/// Whether `names` starts with the word for the root.
pub open spec fn root_qualified(names: Seq<Seq<char>>) -> bool {
    names.len() > 0 && names[0] == root_word()
}

/// The module that the prefix of a path denotes when it is written in
/// `current`: no prefix is `current` itself; a prefix that starts with the
/// root word counts from the root; any other prefix counts from `current`,
/// unless the caller says that the whole path is root-qualified.
pub open spec fn effective_module(
    prefix: Seq<Seq<char>>,
    explicit_root: bool,
    current: Seq<Seq<char>>,
) -> Seq<Seq<char>> {
    if prefix.len() == 0 {
        current
    } else if root_qualified(prefix) {
        prefix.subrange(1, prefix.len() as int)
    } else if explicit_root {
        prefix
    } else {
        current + prefix
    }
}

/// A dotted path taken apart: the last three names and what stands before.
#[derive(Clone, Debug, PartialEq, Eq)]
pub struct NestedPath {
    pub prefix: Vec<String>,
    pub explicit_root: bool,
    pub outer: String,
    pub case: String,
    pub inner_case: String,
}

pub struct NestedPathView {
    pub prefix: Seq<Seq<char>>,
    pub explicit_root: bool,
    pub outer: Seq<char>,
    pub case: Seq<char>,
    pub inner_case: Seq<char>,
}

impl View for NestedPath {
    type V = NestedPathView;

    open spec fn view(&self) -> NestedPathView {
        NestedPathView {
            prefix: self.prefix.deep_view(),
            explicit_root: self.explicit_root,
            outer: self.outer@,
            case: self.case@,
            inner_case: self.inner_case@,
        }
    }
}

impl DeepView for NestedPath {
    type V = NestedPathView;

    open spec fn deep_view(&self) -> NestedPathView {
        self@
    }
}

/// A path of at least three names reads as a module prefix, an outer type,
/// one of its cases and a case of the type inside; a shorter path does not.
pub open spec fn split_nested_spec(names: Seq<Seq<char>>) -> Option<NestedPathView> {
    if names.len() < 3 {
        None
    } else {
        let n = names.len() as int;
        let prefix = names.subrange(0, n - 3);
        Some(
            NestedPathView {
                prefix,
                explicit_root: root_qualified(prefix),
                outer: names[n - 3],
                case: names[n - 2],
                inner_case: names[n - 1],
            },
        )
    }
}

/// A reference to a declaration taken apart: the module names and the
/// declaration's own name, a leading root word left out.
pub open spec fn split_reference_spec(names: Seq<Seq<char>>) -> Option<
    (Seq<Seq<char>>, Seq<char>),
> {
    let rest = if root_qualified(names) {
        names.subrange(1, names.len() as int)
    } else {
        names
    };
    if rest.len() == 0 {
        None
    } else {
        Some((rest.subrange(0, rest.len() - 1), rest[rest.len() - 1]))
    }
}

/// The module that a reference's module names denote when the reference is
/// written in `current`: no module names is the root.
pub open spec fn reference_module(
    module: Seq<Seq<char>>,
    explicit_root: bool,
    current: Seq<Seq<char>>,
) -> Seq<Seq<char>> {
    if module.len() == 0 {
        Seq::empty()
    } else {
        effective_module(module, explicit_root, current)
    }
}

/// The names `names[from..to]`, copied.
pub(crate) fn copy_range(names: &Vec<String>, from: usize, to: usize) -> (r: Vec<String>)
    requires
        from <= to <= names.len(),
    ensures
        r.deep_view() == names.deep_view().subrange(from as int, to as int),
{
    let mut out: Vec<String> = Vec::new();
    let mut i: usize = from;
    while i < to
        invariant
            from <= i <= to <= names.len(),
            out.len() == i - from,
            forall|j: int| 0 <= j < i - from ==> out[j]@ == names[from + j]@,
        decreases to - i,
    {
        out.push(names[i].clone());
        i += 1;
    }
    assert(out.deep_view() =~= names.deep_view().subrange(from as int, to as int));
    out
}

/// The names of `first` followed by those of `second`.
pub fn build_path_from_idents(first: &Vec<String>, second: &Vec<String>) -> (r: Vec<String>)
    ensures
        r.deep_view() == first.deep_view() + second.deep_view(),
{
    let mut out: Vec<String> = copy_names(first);
    proof {
        lemma_same_names(out, *first);
    }
    let mut i: usize = 0;
    while i < second.len()
        invariant
            i <= second.len(),
            out.len() == first.len() + i,
            forall|j: int| 0 <= j < first.len() ==> out[j]@ == first[j]@,
            forall|j: int| 0 <= j < i ==> out[first.len() + j]@ == second[j]@,
        decreases second.len() - i,
    {
        out.push(second[i].clone());
        i += 1;
    }
    assert(out.deep_view() =~= first.deep_view() + second.deep_view());
    out
}

/// The path of the module that lies `stack` below `base`.
pub fn join_module_path(base: &Vec<String>, stack: &Vec<String>) -> (r: Vec<String>)
    ensures
        r.deep_view() == base.deep_view() + stack.deep_view(),
{
    build_path_from_idents(base, stack)
}

/// The path of the declaration `name` in the module `module`.
pub fn build_module_path_tokens(module: &Vec<String>, name: &String) -> (r: Vec<String>)
    ensures
        r.deep_view() == module.deep_view().push(name@),
{
    let mut out: Vec<String> = copy_names(module);
    proof {
        lemma_same_names(out, *module);
    }
    out.push(name.clone());
    assert(out.deep_view() =~= module.deep_view().push(name@));
    out
}

/// The module path that a canonical text denotes.
pub fn module_idents_from_str(text: &str) -> (r: Vec<String>)
    ensures
        r.deep_view() == module_path_of(text@),
{
    let owned = String::from_str(text);
    if text.unicode_len() == 0 || is_word(&owned, "crate") {
        let out: Vec<String> = Vec::new();
        assert(out.deep_view() =~= Seq::<Seq<char>>::empty());
        out
    } else {
        split_path(text)
    }
}

/// The canonical text of a module path.
pub fn module_path_to_string(path: &Vec<String>) -> (r: String)
    ensures
        r@ == module_text(path.deep_view()),
{
    if path.len() == 0 {
        String::from_str("crate")
    } else {
        proof {
            reveal_strlit("::");
            assert("::"@ =~= path_sep());
        }
        join_names(path, "::")
    }
}

/// The names of a path, joined with `::`.
pub fn external_path_to_string(names: &Vec<String>) -> (r: String)
    ensures
        r@ == path_text(names.deep_view()),
{
    proof {
        reveal_strlit("::");
        assert("::"@ =~= path_sep());
    }
    join_names(names, "::")
}

/// Whether `names` starts with the word for the root.
pub fn starts_at_root(names: &Vec<String>) -> (r: bool)
    ensures
        r == root_qualified(names.deep_view()),
{
    names.len() > 0 && is_word(&names[0], "crate")
}

/// The module that the prefix of a path denotes when it is written in
/// `current_module`.
pub fn effective_module_idents(
    prefix: &Vec<String>,
    explicit_crate: bool,
    current_module: &Vec<String>,
) -> (r: Vec<String>)
    ensures
        r.deep_view() == effective_module(
            prefix.deep_view(),
            explicit_crate,
            current_module.deep_view(),
        ),
{
    if prefix.len() == 0 {
        copy_names(current_module)
    } else if starts_at_root(prefix) {
        copy_range(prefix, 1, prefix.len())
    } else if explicit_crate {
        copy_names(prefix)
    } else {
        build_path_from_idents(current_module, prefix)
    }
}

/// Takes a dotted path apart, where it has at least three names.
pub fn split_nested_path(names: &Vec<String>) -> (r: Option<NestedPath>)
    ensures
        r.deep_view() == split_nested_spec(names.deep_view()),
{
    let n: usize = names.len();
    if n < 3 {
        return None;
    }
    let prefix = copy_range(names, 0, n - 3);
    let explicit_root = starts_at_root(&prefix);
    Some(
        NestedPath {
            prefix,
            explicit_root,
            outer: names[n - 3].clone(),
            case: names[n - 2].clone(),
            inner_case: names[n - 1].clone(),
        },
    )
}

/// Takes a reference to a declaration apart: its module names and the
/// declaration's name.  `None` where nothing is left once a leading root
/// word is taken off.
pub fn split_module_and_ident(names: &Vec<String>) -> (r: Option<(Vec<String>, String)>)
    ensures
        r.deep_view() == split_reference_spec(names.deep_view()),
{
    let from: usize = if starts_at_root(names) {
        1
    } else {
        0
    };
    let n: usize = names.len();
    if from >= n {
        return None;
    }
    let module = copy_range(names, from, n - 1);
    let name = names[n - 1].clone();
    proof {
        let rest = names.deep_view().subrange(from as int, n as int);
        assert(rest.subrange(0, rest.len() - 1) =~= names.deep_view().subrange(
            from as int,
            n - 1,
        ));
        if from == 0 {
            assert(rest =~= names.deep_view());
        }
    }
    Some((module, name))
}

/// The module that a reference's module names denote when the reference is
/// written in `current_module`.
pub fn reference_module_idents(
    module: &Vec<String>,
    explicit_crate: bool,
    current_module: &Vec<String>,
) -> (r: Vec<String>)
    ensures
        r.deep_view() == reference_module(
            module.deep_view(),
            explicit_crate,
            current_module.deep_view(),
        ),
{
    if module.len() == 0 {
        let out: Vec<String> = Vec::new();
        assert(out.deep_view() =~= Seq::<Seq<char>>::empty());
        out
    } else {
        effective_module_idents(module, explicit_crate, current_module)
    }
}

/// Where a request comes from.
#[derive(Clone, Debug, PartialEq, Eq)]
pub struct SourceSite {
    /// The file that holds the request.
    pub file: String,
    /// The line of the request in that file.
    pub line: usize,
    /// The directory that module paths are relative to.
    pub root: String,
}

/// The module in which a request is made.
#[derive(Clone, Debug, PartialEq, Eq)]
pub struct ModuleContext {
    pub file: String,
    pub root: String,
    pub module: Vec<String>,
}

pub struct ModuleContextView {
    pub file: Seq<char>,
    pub root: Seq<char>,
    pub module: Seq<Seq<char>>,
}

impl View for ModuleContext {
    type V = ModuleContextView;

    open spec fn view(&self) -> ModuleContextView {
        ModuleContextView { file: self.file@, root: self.root@, module: self.module.deep_view() }
    }
}

impl DeepView for ModuleContext {
    type V = ModuleContextView;

    open spec fn deep_view(&self) -> ModuleContextView {
        self@
    }
}

/// The first half of finding the module of a request: `source` is the file
/// and line of the request, where they are known.  Fails where they are not;
/// else hands them on, with the module root that belongs to the file.
pub fn source_site(source: Option<(String, usize)>) -> (r: Result<SourceSite, Diagnostic>)
    ensures
        match (source, r) {
            (Some((file, line)), Ok(site)) => site.file@ == file@ && site.line == line,
            (None, Err(d)) => d@ == source_unavailable_spec(),
            _ => false,
        },
{
    match source {
        Some((file, line)) => {
            let root = module_root_of_file(file.as_str());
            Ok(SourceSite { file, line, root })
        },
        None => Err(source_unavailable()),
    }
}

/// The second half: `found` is the canonical text of the module that
/// encloses the request in its file, where the file could be read as a
/// module file.
pub fn current_module_context(site: SourceSite, found: Option<String>) -> (r: Result<
    ModuleContext,
    Diagnostic,
>)
    ensures
        match (found, r) {
            (Some(text), Ok(context)) => context@ == (ModuleContextView {
                file: site.file@,
                root: site.root@,
                module: module_path_of(text@),
            }),
            (None, Err(d)) => d@ == module_unresolved_spec(),
            _ => false,
        },
{
    match found {
        Some(text) => {
            let module = module_idents_from_str(text.as_str());
            Ok(ModuleContext { file: site.file, root: site.root, module })
        },
        None => Err(module_unresolved()),
    }
}

/// The canonical text names one module path.  A path of plain names,
/// other than the single name `crate`, is what its canonical text denotes.
pub proof fn lemma_canonical_text_round_trip(path: Seq<Seq<char>>)
    requires
        forall|i: int| 0 <= i < path.len() ==> plain_name(#[trigger] path[i]),
        !(path.len() == 1 && path[0] == root_word()),
    ensures
        module_path_of(module_text(path)) == path,
{
    reveal_strlit("crate");
    if path.len() == 0 {
        assert(module_path_of(root_word()) =~= path);
    } else {
        let text = joined(path, path_sep());
        lemma_pieces_of_joined(path);
        assert(plain_name(path[0]));
        if path.len() == 1 {
            assert(text == path[0]);
        } else {
            lemma_joined_front(path, path_sep(), path.len());
            let n = path[0].len() as int;
            assert(text[n] == ':');
            assert(text.len() > 0);
            if text == root_word() {
                assert(root_word()[n] == ':');
            }
        }
    }
}

} // verus!
