//! The registry: the declarations of every module that has been loaded.
//!
//! The registry is filled file by file.  A file contributes the declarations
//! of its own module and of every module written inline in it, each under
//! its full path.  Within a module a later declaration of a name replaces an
//! earlier one, and a module that is loaded again replaces what was held
//! for it.
//!
//! The registry never reads a file itself.  A function that needs a module
//! that is not held answers with a `LoadRequest`; the caller reads and parses
//! the file and hands the result to `record_load`, which also notes that the
//! request was answered, so that it is not made twice.

use vstd::prelude::*;
use vstd::string::*;
use crate::attrs::{marker_kind, nestum_attr_kind, Marker};
use crate::diag::{
    arguments_on_declaration, arguments_on_declaration_spec, module_file_missing,
    module_file_missing_spec, no_declarations, no_declarations_spec, result_view, unparsable,
    unparsable_spec, unreadable, unreadable_spec, Diagnostic, DiagnosticView, ErrorKind, Site,
};
use crate::modpath::{
    join_module_path, module_idents_from_str, module_path_of, module_path_to_string, module_text,
    ModuleContext, ModuleContextView,
};
use crate::outside::{file_module_text, module_text_of_file};
use crate::syntax::{
    copy_declarations, lemma_module_view, Declaration, DeclarationView, Item, ItemView,
};
use crate::text::{copy_names, same_names, same_text};
use crate::wellformed::{lemma_collect_wf, lemma_put_modules_wf, lemma_recorded_wf};

verus! {

// ------------------------------------------------------- declarations by name

/// The index of the first declaration named `name` at or after `from`; the
/// number of declarations where there is none.
pub open spec fn decl_from(decls: Seq<DeclarationView>, name: Seq<char>, from: int) -> int
    decreases decls.len() - from,
{
    if from >= decls.len() {
        decls.len() as int
    } else if decls[from].name == name {
        from
    } else {
        decl_from(decls, name, from + 1)
    }
}

/// The declaration named `name`, if there is one.
pub open spec fn find_decl(decls: Seq<DeclarationView>, name: Seq<char>) -> Option<
    DeclarationView,
> {
    let i = decl_from(decls, name, 0);
    if i < decls.len() {
        Some(decls[i])
    } else {
        None
    }
}

/// The declarations with `d` in the place of the one that has its name, or
/// at the end where none has.
pub open spec fn put_decl(decls: Seq<DeclarationView>, d: DeclarationView) -> Seq<
    DeclarationView,
> {
    let i = decl_from(decls, d.name, 0);
    if i < decls.len() {
        decls.update(i, d)
    } else {
        decls.push(d)
    }
}

/// Whether no two declarations have the same name.
pub open spec fn distinct_names(decls: Seq<DeclarationView>) -> bool {
    forall|i: int, j: int|
        0 <= i < j < decls.len() ==> (#[trigger] decls[i]).name != (#[trigger] decls[j]).name
}

/// The position of the declaration named `name`.
pub fn declaration_index(decls: &Vec<Declaration>, name: &String) -> (r: Option<usize>)
    ensures
        match r {
            Some(i) => i < decls.len() && i == decl_from(decls.deep_view(), name@, 0),
            None => decl_from(decls.deep_view(), name@, 0) >= decls.len(),
        },
{
    let mut i: usize = 0;
    while i < decls.len()
        invariant
            i <= decls.len(),
            decl_from(decls.deep_view(), name@, i as int) == decl_from(decls.deep_view(), name@, 0),
        decreases decls.len() - i,
    {
        assert(decls.deep_view()[i as int] == decls[i as int]@);
        if same_text(&decls[i].name, name) {
            return Some(i);
        }
        i += 1;
    }
    None
}

/// The declaration named `name`.
pub fn find_declaration<'a>(decls: &'a Vec<Declaration>, name: &String) -> (r: Option<
    &'a Declaration,
>)
    ensures
        r.deep_view() == find_decl(decls.deep_view(), name@),
{
    match declaration_index(decls, name) {
        Some(i) => {
            assert(decls.deep_view()[i as int] == decls[i as int]@);
            Some(&decls[i])
        },
        None => None,
    }
}

/// Puts `d` in the place of the declaration that has its name, or at the
/// end where none has.
pub fn put_declaration(decls: &mut Vec<Declaration>, d: Declaration)
    ensures
        final(decls).deep_view() == put_decl(old(decls).deep_view(), d@),
{
    let ghost before = decls.deep_view();
    match declaration_index(decls, &d.name) {
        Some(i) => {
            decls.set(i, d);
            assert(decls.deep_view() =~= before.update(i as int, d@));
        },
        None => {
            decls.push(d);
            assert(decls.deep_view() =~= before.push(d@));
        },
    }
}

// ------------------------------------------------------------ modules by path

/// The declarations of one module.
#[derive(Clone, Debug, PartialEq, Eq)]
pub struct ModuleEntry {
    pub path: Vec<String>,
    pub declarations: Vec<Declaration>,
}

pub struct ModuleEntryView {
    pub path: Seq<Seq<char>>,
    pub declarations: Seq<DeclarationView>,
}

impl View for ModuleEntry {
    type V = ModuleEntryView;

    open spec fn view(&self) -> ModuleEntryView {
        ModuleEntryView {
            path: self.path.deep_view(),
            declarations: self.declarations.deep_view(),
        }
    }
}

impl DeepView for ModuleEntry {
    type V = ModuleEntryView;

    open spec fn deep_view(&self) -> ModuleEntryView {
        self@
    }
}

impl ModuleEntry {
    /// A copy.
    pub fn duplicate(&self) -> (r: ModuleEntry)
        ensures
            r@ == self@,
    {
        ModuleEntry {
            path: copy_names(&self.path),
            declarations: copy_declarations(&self.declarations),
        }
    }
}

/// The index of the first entry for the module `path` at or after `from`;
/// the number of entries where there is none.
pub open spec fn entry_from(entries: Seq<ModuleEntryView>, path: Seq<Seq<char>>, from: int) -> int
    decreases entries.len() - from,
{
    if from >= entries.len() {
        entries.len() as int
    } else if entries[from].path == path {
        from
    } else {
        entry_from(entries, path, from + 1)
    }
}

/// The declarations held for the module `path`, if any are.
pub open spec fn module_decls(entries: Seq<ModuleEntryView>, path: Seq<Seq<char>>) -> Option<
    Seq<DeclarationView>,
> {
    let i = entry_from(entries, path, 0);
    if i < entries.len() {
        Some(entries[i].declarations)
    } else {
        None
    }
}

/// The entries with `e` in the place of the one for its module, or at the
/// end where there is none.
pub open spec fn put_module(entries: Seq<ModuleEntryView>, e: ModuleEntryView) -> Seq<
    ModuleEntryView,
> {
    let i = entry_from(entries, e.path, 0);
    if i < entries.len() {
        entries.update(i, e)
    } else {
        entries.push(e)
    }
}

/// The entries after the first `n` of `added` have been put in, in order.
pub open spec fn put_modules(
    entries: Seq<ModuleEntryView>,
    added: Seq<ModuleEntryView>,
    n: nat,
) -> Seq<ModuleEntryView>
    decreases n,
{
    if n == 0 {
        entries
    } else {
        put_module(put_modules(entries, added, (n - 1) as nat), added[n - 1])
    }
}

/// The entries after the declaration `d` has been put into the module
/// `path`, which is added where it was not held.
pub open spec fn add_decl(
    entries: Seq<ModuleEntryView>,
    path: Seq<Seq<char>>,
    d: DeclarationView,
) -> Seq<ModuleEntryView> {
    let i = entry_from(entries, path, 0);
    if i < entries.len() {
        entries.update(
            i,
            ModuleEntryView { path, declarations: put_decl(entries[i].declarations, d) },
        )
    } else {
        entries.push(ModuleEntryView { path, declarations: seq![d] })
    }
}

/// Whether no two entries are for the same module.
pub open spec fn distinct_paths(entries: Seq<ModuleEntryView>) -> bool {
    forall|i: int, j: int|
        0 <= i < j < entries.len() ==> (#[trigger] entries[i]).path != (#[trigger] entries[j]).path
}

/// Whether every module is held once and every name is declared once in
/// its module.
pub open spec fn entries_wf(entries: Seq<ModuleEntryView>) -> bool {
    &&& distinct_paths(entries)
    &&& forall|i: int|
        0 <= i < entries.len() ==> distinct_names((#[trigger] entries[i]).declarations)
}

/// The position of the entry for the module `path`.
pub fn entry_index(entries: &Vec<ModuleEntry>, path: &Vec<String>) -> (r: Option<usize>)
    ensures
        match r {
            Some(i) => i < entries.len() && i == entry_from(
                entries.deep_view(),
                path.deep_view(),
                0,
            ),
            None => entry_from(entries.deep_view(), path.deep_view(), 0) >= entries.len(),
        },
{
    let mut i: usize = 0;
    while i < entries.len()
        invariant
            i <= entries.len(),
            entry_from(entries.deep_view(), path.deep_view(), i as int) == entry_from(
                entries.deep_view(),
                path.deep_view(),
                0,
            ),
        decreases entries.len() - i,
    {
        assert(entries.deep_view()[i as int] == entries[i as int]@);
        if same_names(&entries[i].path, path) {
            return Some(i);
        }
        i += 1;
    }
    None
}

/// The declarations held for the module `path`.
pub fn module_declarations<'a>(entries: &'a Vec<ModuleEntry>, path: &Vec<String>) -> (r: Option<
    &'a Vec<Declaration>,
>)
    ensures
        r.deep_view() == module_decls(entries.deep_view(), path.deep_view()),
{
    match entry_index(entries, path) {
        Some(i) => {
            assert(entries.deep_view()[i as int] == entries[i as int]@);
            Some(&entries[i].declarations)
        },
        None => None,
    }
}

/// Puts `e` in the place of the entry for its module, or at the end.
pub fn put_entry(entries: &mut Vec<ModuleEntry>, e: ModuleEntry)
    ensures
        final(entries).deep_view() == put_module(old(entries).deep_view(), e@),
{
    let ghost before = entries.deep_view();
    match entry_index(entries, &e.path) {
        Some(i) => {
            entries.set(i, e);
            assert(entries.deep_view() =~= before.update(i as int, e@));
        },
        None => {
            entries.push(e);
            assert(entries.deep_view() =~= before.push(e@));
        },
    }
}

/// Puts the declaration `d` into the module `path`.
pub fn add_declaration(entries: &mut Vec<ModuleEntry>, path: Vec<String>, d: Declaration)
    ensures
        final(entries).deep_view() == add_decl(old(entries).deep_view(), path.deep_view(), d@),
{
    let ghost before = entries.deep_view();
    match entry_index(entries, &path) {
        Some(i) => {
            assert(before[i as int] == entries[i as int]@);
            let mut declarations = copy_declarations(&entries[i].declarations);
            put_declaration(&mut declarations, d);
            let e = ModuleEntry { path, declarations };
            entries.set(i, e);
            assert(entries.deep_view() =~= before.update(i as int, e@));
        },
        None => {
            let mut declarations: Vec<Declaration> = Vec::new();
            declarations.push(d);
            assert(declarations.deep_view() =~= seq![d@]);
            let e = ModuleEntry { path, declarations };
            entries.push(e);
            assert(entries.deep_view() =~= before.push(e@));
        },
    }
}

// ------------------------------------------------------------ walking a file

/// The entries after the first `n` of `items` have been visited inside the
/// inline modules `stack` of a file whose own module is `base`.
pub open spec fn visit_items_spec(
    items: Seq<ItemView>,
    n: nat,
    stack: Seq<Seq<char>>,
    base: Seq<Seq<char>>,
    table: Seq<ModuleEntryView>,
) -> Seq<ModuleEntryView>
    decreases items, n,
{
    if n == 0 || n > items.len() {
        table
    } else {
        visit_item_spec(
            items[n - 1],
            stack,
            base,
            visit_items_spec(items, (n - 1) as nat, stack, base, table),
        )
    }
}

/// The entries after one item has been visited: a declaration is put into
/// the module `base + stack`, an inline module is walked with its name added
/// to `stack`, anything else is passed over.
pub open spec fn visit_item_spec(
    item: ItemView,
    stack: Seq<Seq<char>>,
    base: Seq<Seq<char>>,
    table: Seq<ModuleEntryView>,
) -> Seq<ModuleEntryView>
    decreases item, 0nat,
{
    match item {
        ItemView::Declaration(d) => add_decl(table, base + stack, d),
        ItemView::Module { name, items } => visit_items_spec(
            items,
            items.len(),
            stack.push(name),
            base,
            table,
        ),
        _ => table,
    }
}

/// The declarations of a file whose own module is `base`, module by module.
pub open spec fn collect_spec(items: Seq<ItemView>, base: Seq<Seq<char>>) -> Seq<
    ModuleEntryView,
> {
    visit_items_spec(items, items.len(), Seq::empty(), base, Seq::empty())
}

/// Visits `items`, which stand inside the inline modules `stack` of a file
/// whose own module is `base`, and puts every declaration into `table`.
pub fn visit_items(
    items: &Vec<Item>,
    stack: &mut Vec<String>,
    base: &Vec<String>,
    table: &mut Vec<ModuleEntry>,
)
    ensures
        final(stack).deep_view() == old(stack).deep_view(),
        final(table).deep_view() == visit_items_spec(
            items.deep_view(),
            items.len() as nat,
            old(stack).deep_view(),
            base.deep_view(),
            old(table).deep_view(),
        ),
    decreases items,
{
    let ghost stack0 = stack.deep_view();
    let ghost table0 = table.deep_view();
    let mut i: usize = 0;
    while i < items.len()
        invariant
            i <= items.len(),
            stack.deep_view() == stack0,
            table.deep_view() == visit_items_spec(
                items.deep_view(),
                i as nat,
                stack0,
                base.deep_view(),
                table0,
            ),
        decreases items.len() - i,
    {
        assert(items.deep_view()[i as int] == items[i as int]@);
        let ghost prev = table.deep_view();
        assert(visit_items_spec(items.deep_view(), (i + 1) as nat, stack0, base.deep_view(), table0)
            == visit_item_spec(items.deep_view()[i as int], stack0, base.deep_view(), prev));
        match &items[i] {
            Item::Declaration(d) => {
                let path = join_module_path(base, stack);
                add_declaration(table, path, d.duplicate());
            },
            Item::Module { name, items: body } => {
                proof {
                    lemma_module_view(items[i as int]);
                    assert(decreases_to!(items => items[i as int]));
                    assert(decreases_to!(items[i as int] => items[i as int]->items));
                }
                let ghost before = stack.deep_view();
                stack.push(name.clone());
                assert(stack.deep_view() =~= before.push(name@));
                visit_items(body, stack, base, table);
                let ghost pushed = stack.deep_view();
                stack.pop();
                assert(stack.deep_view() =~= pushed.drop_last());
                assert(stack.deep_view() =~= before);
            },
            Item::Other => {},
        }
        assert(table.deep_view() == visit_item_spec(
            items.deep_view()[i as int],
            stack0,
            base.deep_view(),
            prev,
        ));
        i += 1;
    }
}

/// The declarations of a file whose own module is `base`: one entry for
/// each module of the file that holds a declaration.  A declaration in an
/// inline module belongs to that module, not to the file's own.
pub fn collect_declarations(items: &Vec<Item>, base: &Vec<String>) -> (r: Vec<ModuleEntry>)
    ensures
        r.deep_view() == collect_spec(items.deep_view(), base.deep_view()),
        entries_wf(r.deep_view()),
{
    proof {
        lemma_collect_wf(items.deep_view(), base.deep_view());
    }
    let mut table: Vec<ModuleEntry> = Vec::new();
    let mut stack: Vec<String> = Vec::new();
    assert(table.deep_view() =~= Seq::<ModuleEntryView>::empty());
    assert(stack.deep_view() =~= Seq::<Seq<char>>::empty());
    visit_items(items, &mut stack, base, &mut table);
    table
}

/// The declarations of the parsed file `file`, module by module, where
/// module paths are relative to `root`.
pub fn collect_enums_by_module_path(file: &str, root: &str, items: &Vec<Item>) -> (r: Vec<
    ModuleEntry,
>)
    ensures
        r.deep_view() == collect_spec(
            items.deep_view(),
            module_path_of(file_module_text(file@, root@)),
        ),
{
    let text = module_text_of_file(file, root);
    let base = module_idents_from_str(text.as_str());
    collect_declarations(items, &base)
}

// ------------------------------------------------------------------- loading

/// What the caller is asked to load.
#[derive(Clone, Debug, PartialEq, Eq)]
pub enum LoadRequest {
    /// The file with this path.
    File(String),
    /// The file of the module with this path.
    Module(Vec<String>),
}

pub enum LoadRequestView {
    File(Seq<char>),
    Module(Seq<Seq<char>>),
}

impl View for LoadRequest {
    type V = LoadRequestView;

    open spec fn view(&self) -> LoadRequestView {
        match self {
            LoadRequest::File(file) => LoadRequestView::File(file@),
            LoadRequest::Module(path) => LoadRequestView::Module(path.deep_view()),
        }
    }
}

impl DeepView for LoadRequest {
    type V = LoadRequestView;

    open spec fn deep_view(&self) -> LoadRequestView {
        self@
    }
}

impl LoadRequest {
    /// A copy.
    pub fn duplicate(&self) -> (r: LoadRequest)
        ensures
            r@ == self@,
    {
        match self {
            LoadRequest::File(file) => LoadRequest::File(file.clone()),
            LoadRequest::Module(path) => LoadRequest::Module(copy_names(path)),
        }
    }

    /// Whether two requests ask for the same thing.
    pub fn same_as(&self, other: &LoadRequest) -> (r: bool)
        ensures
            r == (self@ == other@),
    {
        match (self, other) {
            (LoadRequest::File(a), LoadRequest::File(b)) => same_text(a, b),
            (LoadRequest::Module(a), LoadRequest::Module(b)) => same_names(a, b),
            _ => false,
        }
    }
}

/// What became of a request.
#[derive(Debug, PartialEq, Eq)]
pub enum LoadOutcome {
    /// The module has no file.
    NotFound,
    /// The file could not be read; the reason is given.
    Unreadable(String),
    /// The file could not be parsed; the reason is given.
    Unparsable(String),
    /// The file was read and parsed: its path and its items.
    Parsed { file: String, items: Vec<Item> },
}

pub enum LoadOutcomeView {
    NotFound,
    Unreadable(Seq<char>),
    Unparsable(Seq<char>),
    Parsed { file: Seq<char>, items: Seq<ItemView> },
}

impl View for LoadOutcome {
    type V = LoadOutcomeView;

    open spec fn view(&self) -> LoadOutcomeView {
        match self {
            LoadOutcome::NotFound => LoadOutcomeView::NotFound,
            LoadOutcome::Unreadable(why) => LoadOutcomeView::Unreadable(why@),
            LoadOutcome::Unparsable(why) => LoadOutcomeView::Unparsable(why@),
            LoadOutcome::Parsed { file, items } => LoadOutcomeView::Parsed {
                file: file@,
                items: items.deep_view(),
            },
        }
    }
}

/// A request that was answered, and the failure if it failed.
#[derive(Clone, Debug, PartialEq, Eq)]
pub struct Attempt {
    pub request: LoadRequest,
    pub failure: Option<Diagnostic>,
}

pub struct AttemptView {
    pub request: LoadRequestView,
    pub failure: Option<DiagnosticView>,
}

impl View for Attempt {
    type V = AttemptView;

    open spec fn view(&self) -> AttemptView {
        AttemptView { request: self.request@, failure: self.failure.deep_view() }
    }
}

impl DeepView for Attempt {
    type V = AttemptView;

    open spec fn deep_view(&self) -> AttemptView {
        self@
    }
}

/// The result of a step that may need a module loaded first.
#[derive(Clone, Debug, PartialEq, Eq)]
pub enum Outcome<T> {
    /// The step is done.
    Ready(T),
    /// The step cannot go on before the caller has answered this request.
    Load(LoadRequest),
    /// The step failed.
    Failed(Diagnostic),
}

pub enum OutcomeView<V> {
    Ready(V),
    Load(LoadRequestView),
    Failed(DiagnosticView),
}

impl<T: DeepView> View for Outcome<T> {
    type V = OutcomeView<T::V>;

    open spec fn view(&self) -> OutcomeView<T::V> {
        match self {
            Outcome::Ready(value) => OutcomeView::Ready(value.deep_view()),
            Outcome::Load(request) => OutcomeView::Load(request@),
            Outcome::Failed(d) => OutcomeView::Failed(d@),
        }
    }
}

/// The registry.
#[derive(Clone, Debug, PartialEq, Eq)]
pub struct Registry {
    /// The modules that are held, each once.
    pub entries: Vec<ModuleEntry>,
    /// The requests that were answered.
    pub attempts: Vec<Attempt>,
}

pub struct RegistryView {
    pub entries: Seq<ModuleEntryView>,
    pub attempts: Seq<AttemptView>,
}

impl View for Registry {
    type V = RegistryView;

    open spec fn view(&self) -> RegistryView {
        RegistryView { entries: self.entries.deep_view(), attempts: self.attempts.deep_view() }
    }
}

impl RegistryView {
    /// The invariant of the registry: every module is held once, and every
    /// name is declared once in its module.
    pub open spec fn wf(self) -> bool {
        entries_wf(self.entries)
    }
}

/// The index of the first answer to `request` at or after `from`; the
/// number of answers where there is none.
pub open spec fn attempt_from(attempts: Seq<AttemptView>, request: LoadRequestView, from: int) -> int
    decreases attempts.len() - from,
{
    if from >= attempts.len() {
        attempts.len() as int
    } else if attempts[from].request == request {
        from
    } else {
        attempt_from(attempts, request, from + 1)
    }
}

/// The answer to `request`, if it was answered.
pub open spec fn attempt_of(attempts: Seq<AttemptView>, request: LoadRequestView) -> Option<
    AttemptView,
> {
    let k = attempt_from(attempts, request, 0);
    if k < attempts.len() {
        Some(attempts[k])
    } else {
        None
    }
}

/// What a request is called in a message.
pub open spec fn request_text(request: LoadRequestView) -> Seq<char> {
    match request {
        LoadRequestView::File(file) => file,
        LoadRequestView::Module(path) => module_text(path),
    }
}

/// The failure that an outcome stands for; `None` for a parsed file.
pub open spec fn load_failure(request: LoadRequestView, outcome: LoadOutcomeView) -> Option<
    DiagnosticView,
> {
    match outcome {
        LoadOutcomeView::Parsed { .. } => None,
        LoadOutcomeView::NotFound => Some(
            module_file_missing_spec(request_text(request), Site::CallSite),
        ),
        LoadOutcomeView::Unreadable(why) => Some(unreadable_spec(why)),
        LoadOutcomeView::Unparsable(why) => Some(unparsable_spec(why)),
    }
}

/// The entries after an outcome was taken in: those of a parsed file are put
/// in, each under the path that its file and the module root give it.
pub open spec fn loaded_entries(
    entries: Seq<ModuleEntryView>,
    root: Seq<char>,
    outcome: LoadOutcomeView,
) -> Seq<ModuleEntryView> {
    match outcome {
        LoadOutcomeView::Parsed { file, items } => {
            let added = collect_spec(items, module_path_of(file_module_text(file, root)));
            put_modules(entries, added, added.len())
        },
        _ => entries,
    }
}

/// The registry after the answer `outcome` to `request` was recorded.
pub open spec fn recorded(
    registry: RegistryView,
    request: LoadRequestView,
    root: Seq<char>,
    outcome: LoadOutcomeView,
) -> RegistryView {
    RegistryView {
        entries: loaded_entries(registry.entries, root, outcome),
        attempts: registry.attempts.push(
            AttemptView { request, failure: load_failure(request, outcome) },
        ),
    }
}

/// A recorded failure, as it is reported at `site`: that a module has no
/// file is reported where the module was named, anything else where the
/// request was made.
pub open spec fn failure_at(d: DiagnosticView, site: Site) -> DiagnosticView {
    if d.kind == ErrorKind::NotFound {
        DiagnosticView { kind: d.kind, site, message: d.message }
    } else {
        d
    }
}

/// Whether the module `module` can be looked up: ready where it is held or
/// where its request was answered without failure; failed where its request
/// failed; else a request for it.
pub open spec fn external_module_state(
    registry: RegistryView,
    module: Seq<Seq<char>>,
    site: Site,
) -> OutcomeView<()> {
    if module_decls(registry.entries, module) is Some {
        OutcomeView::Ready(())
    } else {
        match attempt_of(registry.attempts, LoadRequestView::Module(module)) {
            None => OutcomeView::Load(LoadRequestView::Module(module)),
            Some(attempt) => match attempt.failure {
                Some(d) => OutcomeView::Failed(failure_at(d, site)),
                None => OutcomeView::Ready(()),
            },
        }
    }
}

/// The declarations of the module of a request: those that are held for
/// it; else a request for the file of the request, unless that was answered
/// already, in which case the step fails.
pub open spec fn current_module_state(
    registry: RegistryView,
    context: ModuleContextView,
) -> OutcomeView<Seq<DeclarationView>> {
    match module_decls(registry.entries, context.module) {
        Some(decls) => OutcomeView::Ready(decls),
        None => match attempt_of(registry.attempts, LoadRequestView::File(context.file)) {
            None => OutcomeView::Load(LoadRequestView::File(context.file)),
            Some(attempt) => match attempt.failure {
                Some(d) => OutcomeView::Failed(d),
                None => OutcomeView::Failed(no_declarations_spec()),
            },
        },
    }
}

/// The modules among the first `n` entries that hold a declaration named
/// `name`, in the order of the entries.
pub open spec fn modules_containing(entries: Seq<ModuleEntryView>, name: Seq<char>, n: nat) -> Seq<
    Seq<Seq<char>>,
>
    decreases n,
{
    if n == 0 {
        Seq::empty()
    } else {
        let before = modules_containing(entries, name, (n - 1) as nat);
        if find_decl(entries[n - 1].declarations, name) is Some {
            before.push(entries[n - 1].path)
        } else {
            before
        }
    }
}

/// The modules among the first `n` entries that hold a flatten-marked
/// declaration named `name`, in the order of the entries.  A declaration of
/// that name whose annotation is not a plain marker is an error.
pub open spec fn marked_modules(
    entries: Seq<ModuleEntryView>,
    name: Seq<char>,
    n: nat,
) -> Result<Seq<Seq<Seq<char>>>, DiagnosticView>
    decreases n,
{
    if n == 0 {
        Ok(Seq::empty())
    } else {
        match marked_modules(entries, name, (n - 1) as nat) {
            Err(d) => Err(d),
            Ok(found) => match find_decl(entries[n - 1].declarations, name) {
                None => Ok(found),
                Some(d) => match marker_kind(d.attrs, Site::Registry) {
                    Err(e) => Err(e),
                    Ok(Marker::Plain) => Ok(found.push(entries[n - 1].path)),
                    Ok(Marker::WithArgs) => Err(
                        arguments_on_declaration_spec(name, Site::Registry),
                    ),
                    Ok(Marker::Absent) => Ok(found),
                },
            },
        }
    }
}

/// All modules that hold a flatten-marked declaration named `name`; `None`
/// where there is none.
pub open spec fn marked_locations(entries: Seq<ModuleEntryView>, name: Seq<char>) -> Result<
    Option<Seq<Seq<Seq<char>>>>,
    DiagnosticView,
> {
    match marked_modules(entries, name, entries.len()) {
        Err(d) => Err(d),
        Ok(found) => if found.len() == 0 {
            Ok(None)
        } else {
            Ok(Some(found))
        },
    }
}

impl Registry {
    /// A registry that holds nothing.
    pub fn new() -> (r: Registry)
        ensures
            r@ == (RegistryView { entries: Seq::empty(), attempts: Seq::empty() }),
            r@.wf(),
    {
        let r = Registry { entries: Vec::new(), attempts: Vec::new() };
        assert(r@.entries =~= Seq::empty());
        assert(r@.attempts =~= Seq::empty());
        r
    }

    /// A copy of the registry.
    pub fn registry_clone(&self) -> (r: Registry)
        ensures
            r@ == self@,
    {
        let mut entries: Vec<ModuleEntry> = Vec::new();
        let mut i: usize = 0;
        while i < self.entries.len()
            invariant
                i <= self.entries.len(),
                entries.len() == i,
                forall|j: int| 0 <= j < i ==> entries[j]@ == self.entries[j]@,
            decreases self.entries.len() - i,
        {
            entries.push(self.entries[i].duplicate());
            i += 1;
        }
        assert(entries.deep_view() =~= self.entries.deep_view());
        let mut attempts: Vec<Attempt> = Vec::new();
        let mut k: usize = 0;
        while k < self.attempts.len()
            invariant
                k <= self.attempts.len(),
                attempts.len() == k,
                forall|j: int| 0 <= j < k ==> attempts[j]@ == self.attempts[j]@,
            decreases self.attempts.len() - k,
        {
            let failure = match &self.attempts[k].failure {
                Some(d) => Some(d.duplicate()),
                None => None,
            };
            attempts.push(Attempt { request: self.attempts[k].request.duplicate(), failure });
            k += 1;
        }
        assert(attempts.deep_view() =~= self.attempts.deep_view());
        Registry { entries, attempts }
    }

    /// The declarations held for `module`.  Nothing is loaded.
    pub fn registry_get(&self, module: &Vec<String>) -> (r: Option<&Vec<Declaration>>)
        ensures
            r.deep_view() == module_decls(self@.entries, module.deep_view()),
    {
        module_declarations(&self.entries, module)
    }

    /// The declaration `name` of `module`.  Nothing is loaded.
    pub fn get(&self, module: &Vec<String>, name: &String) -> (r: Option<&Declaration>)
        ensures
            r.deep_view() == match module_decls(self@.entries, module.deep_view()) {
                Some(decls) => find_decl(decls, name@),
                None => None,
            },
    {
        match module_declarations(&self.entries, module) {
            Some(decls) => find_declaration(decls, name),
            None => None,
        }
    }

    /// Puts every entry of `all` in, in order; each replaces what was held
    /// for its module.
    pub fn registry_insert_all(&mut self, all: Vec<ModuleEntry>)
        ensures
            final(self)@.entries == put_modules(
                old(self)@.entries,
                all.deep_view(),
                all.len() as nat,
            ),
            final(self)@.attempts == old(self)@.attempts,
            old(self)@.wf() && (forall|i: int|
                0 <= i < all.len() ==> distinct_names(
                    (#[trigger] all.deep_view()[i]).declarations,
                )) ==> final(self)@.wf(),
    {
        proof {
            if old(self)@.wf() && (forall|i: int|
                0 <= i < all.len() ==> distinct_names(
                    (#[trigger] all.deep_view()[i]).declarations,
                )) {
                lemma_put_modules_wf(old(self)@.entries, all.deep_view(), all.len() as nat);
            }
        }
        let mut i: usize = 0;
        while i < all.len()
            invariant
                i <= all.len(),
                self@.entries == put_modules(old(self)@.entries, all.deep_view(), i as nat),
                self@.attempts == old(self)@.attempts,
            decreases all.len() - i,
        {
            assert(all.deep_view()[i as int] == all[i as int]@);
            put_entry(&mut self.entries, all[i].duplicate());
            i += 1;
        }
    }

    /// The answer to `request`, if it was answered.
    pub fn attempt(&self, request: &LoadRequest) -> (r: Option<&Attempt>)
        ensures
            r.deep_view() == attempt_of(self@.attempts, request@),
    {
        let mut i: usize = 0;
        while i < self.attempts.len()
            invariant
                i <= self.attempts.len(),
                attempt_from(self@.attempts, request@, i as int) == attempt_from(
                    self@.attempts,
                    request@,
                    0,
                ),
            decreases self.attempts.len() - i,
        {
            assert(self@.attempts[i as int] == self.attempts[i as int]@);
            if self.attempts[i].request.same_as(request) {
                return Some(&self.attempts[i]);
            }
            i += 1;
        }
        None
    }

    /// All modules that hold a declaration named `name`, in the order in
    /// which the registry holds them; none where there is none.  Nothing
    /// is loaded.
    pub fn all_modules_containing(&self, name: &String) -> (r: Vec<Vec<String>>)
        ensures
            r.deep_view() == modules_containing(self@.entries, name@, self@.entries.len()),
    {
        let mut found: Vec<Vec<String>> = Vec::new();
        let mut i: usize = 0;
        assert(found.deep_view() =~= Seq::<Seq<Seq<char>>>::empty());
        while i < self.entries.len()
            invariant
                i <= self.entries.len(),
                found.deep_view() == modules_containing(self@.entries, name@, i as nat),
            decreases self.entries.len() - i,
        {
            assert(self@.entries[i as int] == self.entries[i as int]@);
            let ghost before = found.deep_view();
            if find_declaration(&self.entries[i].declarations, name).is_some() {
                found.push(copy_names(&self.entries[i].path));
                assert(found.deep_view() =~= before.push(self.entries[i as int]@.path));
            }
            i += 1;
        }
        assert(self@.entries.len() == self.entries.len());
        found
    }

    /// All modules that hold a flatten-marked declaration named `name`, in
    /// the order in which the registry holds them.
    pub fn find_marked_enum_modules(&self, name: &String) -> (r: Result<
        Option<Vec<Vec<String>>>,
        Diagnostic,
    >)
        ensures
            result_view(r) == marked_locations(self@.entries, name@),
    {
        let mut found: Vec<Vec<String>> = Vec::new();
        let mut i: usize = 0;
        assert(found.deep_view() =~= Seq::<Seq<Seq<char>>>::empty());
        while i < self.entries.len()
            invariant
                i <= self.entries.len(),
                marked_modules(self@.entries, name@, i as nat) == Ok::<
                    Seq<Seq<Seq<char>>>,
                    DiagnosticView,
                >(found.deep_view()),
            decreases self.entries.len() - i,
        {
            assert(self@.entries[i as int] == self.entries[i as int]@);
            let ghost before = found.deep_view();
            match find_declaration(&self.entries[i].declarations, name) {
                None => {},
                Some(d) => {
                    match nestum_attr_kind(&d.attrs, Site::Registry) {
                        Err(e) => {
                            proof {
                                lemma_marked_modules_error(
                                    self@.entries,
                                    name@,
                                    (i + 1) as nat,
                                    self.entries.len() as nat,
                                );
                            }
                            return Err(e);
                        },
                        Ok(Marker::Plain) => {
                            found.push(copy_names(&self.entries[i].path));
                            assert(found.deep_view() =~= before.push(self.entries[i as int]@.path));
                        },
                        Ok(Marker::WithArgs) => {
                            proof {
                                lemma_marked_modules_error(
                                    self@.entries,
                                    name@,
                                    (i + 1) as nat,
                                    self.entries.len() as nat,
                                );
                            }
                            return Err(arguments_on_declaration(name.as_str(), Site::Registry));
                        },
                        Ok(Marker::Absent) => {},
                    }
                },
            }
            i += 1;
        }
        assert(found.deep_view().len() == found.len());
        if found.len() == 0 {
            Ok(None)
        } else {
            Ok(Some(found))
        }
    }

    /// The declarations of the module of a request.
    pub fn ensure_module_enums_loaded(&self, context: &ModuleContext) -> (r: Outcome<
        &Vec<Declaration>,
    >)
        ensures
            r@ == current_module_state(self@, context@),
    {
        match self.registry_get(&context.module) {
            Some(decls) => Outcome::Ready(decls),
            None => {
                let request = LoadRequest::File(context.file.clone());
                match self.attempt(&request) {
                    None => Outcome::Load(request),
                    Some(attempt) => match &attempt.failure {
                        Some(d) => Outcome::Failed(d.duplicate()),
                        None => Outcome::Failed(no_declarations()),
                    },
                }
            },
        }
    }

    /// Whether `module` can be looked up, and what is missing where not.
    pub fn ensure_external_module_loaded(&self, module: &Vec<String>, site: Site) -> (r: Outcome<
        (),
    >)
        ensures
            r@ == external_module_state(self@, module.deep_view(), site),
    {
        if self.registry_get(module).is_some() {
            return Outcome::Ready(());
        }
        let request = LoadRequest::Module(copy_names(module));
        match self.attempt(&request) {
            None => Outcome::Load(request),
            Some(attempt) => match &attempt.failure {
                Some(d) => {
                    let site = match d.kind {
                        ErrorKind::NotFound => site,
                        _ => d.site,
                    };
                    Outcome::Failed(
                        Diagnostic { kind: d.kind, site, message: d.message.clone() },
                    )
                },
                None => Outcome::Ready(()),
            },
        }
    }

    /// Records the answer `outcome` to `request`; `root` is the directory
    /// that module paths are relative to.
    pub fn record_load(&mut self, request: LoadRequest, root: &str, outcome: LoadOutcome)
        ensures
            final(self)@ == recorded(old(self)@, request@, root@, outcome@),
            old(self)@.wf() ==> final(self)@.wf(),
    {
        proof {
            if old(self)@.wf() {
                lemma_recorded_wf(old(self)@, request@, root@, outcome@);
            }
        }
        let ghost before = self.attempts.deep_view();
        let failure = match &outcome {
            LoadOutcome::Parsed { file, items } => {
                let added = collect_enums_by_module_path(file.as_str(), root, items);
                assert(added.deep_view().len() == added.len());
                self.registry_insert_all(added);
                None
            },
            LoadOutcome::NotFound => {
                let text = match &request {
                    LoadRequest::File(file) => file.clone(),
                    LoadRequest::Module(path) => module_path_to_string(path),
                };
                Some(module_file_missing(text.as_str(), Site::CallSite))
            },
            LoadOutcome::Unreadable(why) => Some(unreadable(why.as_str())),
            LoadOutcome::Unparsable(why) => Some(unparsable(why.as_str())),
        };
        let attempt = Attempt { request, failure };
        self.attempts.push(attempt);
        assert(self.attempts.deep_view() =~= before.push(attempt@));
    }
}

/// Once the scan has met an error, the error stays.
pub proof fn lemma_marked_modules_error(
    entries: Seq<ModuleEntryView>,
    name: Seq<char>,
    n: nat,
    m: nat,
)
    requires
        n <= m,
        marked_modules(entries, name, n) is Err,
    ensures
        marked_modules(entries, name, m) == marked_modules(entries, name, n),
    decreases m - n,
{
    if n < m {
        lemma_marked_modules_error(entries, name, n, (m - 1) as nat);
    }
}

} // verus!
