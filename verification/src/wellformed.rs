//! What holds of the registry.
//!
//! Every module is held once, and every name is declared once in its
//! module; whatever is put in keeps that.  Loading a file a second time
//! changes nothing.  And what a file contributes to a module is what is
//! written in that module, whatever else the file holds.

use vstd::prelude::*;
use crate::modpath::module_path_of;
use crate::outside::file_module_text;
use crate::registry::{
    add_decl, collect_spec, decl_from, distinct_names, distinct_paths, entries_wf, entry_from,
    marked_locations, marked_modules, module_decls, put_decl, put_module, put_modules, recorded, visit_item_spec, visit_items_spec,
    LoadOutcomeView, LoadRequestView, ModuleEntryView, RegistryView,
};
use crate::syntax::{DeclarationView, ItemView};

verus! {

/// Where the search for a declaration ends: at the first declaration of
/// the name, or behind the last declaration where none has the name.
pub proof fn lemma_decl_search(decls: Seq<DeclarationView>, name: Seq<char>, from: int)
    requires
        0 <= from <= decls.len(),
    ensures
        from <= decl_from(decls, name, from) <= decls.len(),
        decl_from(decls, name, from) < decls.len() ==> decls[decl_from(decls, name, from)].name
            == name,
        forall|j: int|
            from <= j < decl_from(decls, name, from) ==> (#[trigger] decls[j]).name != name,
    decreases decls.len() - from,
{
    if from < decls.len() && decls[from].name != name {
        lemma_decl_search(decls, name, from + 1);
    }
}

/// Where the search for a module ends.
pub proof fn lemma_entry_search(entries: Seq<ModuleEntryView>, path: Seq<Seq<char>>, from: int)
    requires
        0 <= from <= entries.len(),
    ensures
        from <= entry_from(entries, path, from) <= entries.len(),
        entry_from(entries, path, from) < entries.len() ==> entries[entry_from(
            entries,
            path,
            from,
        )].path == path,
        forall|j: int|
            from <= j < entry_from(entries, path, from) ==> (#[trigger] entries[j]).path != path,
    decreases entries.len() - from,
{
    if from < entries.len() && entries[from].path != path {
        lemma_entry_search(entries, path, from + 1);
    }
}

/// Putting a declaration in keeps the names distinct.
pub proof fn lemma_put_decl_distinct(decls: Seq<DeclarationView>, d: DeclarationView)
    requires
        distinct_names(decls),
    ensures
        distinct_names(put_decl(decls, d)),
{
    lemma_decl_search(decls, d.name, 0);
    let at = decl_from(decls, d.name, 0);
    let after = put_decl(decls, d);
    assert forall|i: int, j: int| 0 <= i < j < after.len() implies (#[trigger] after[i]).name != (
    #[trigger] after[j]).name by {
        if at < decls.len() {
            assert(after[i].name == decls[i].name);
            assert(after[j].name == decls[j].name);
        } else {
            if j < decls.len() {
                assert(after[i] == decls[i]);
                assert(after[j] == decls[j]);
            } else {
                assert(after[i] == decls[i]);
                assert(after[j] == d);
            }
        }
    }
}

/// Putting a module in keeps the invariant, where the names of the module
/// are distinct.
pub proof fn lemma_put_module_wf(entries: Seq<ModuleEntryView>, e: ModuleEntryView)
    requires
        entries_wf(entries),
        distinct_names(e.declarations),
    ensures
        entries_wf(put_module(entries, e)),
{
    lemma_entry_search(entries, e.path, 0);
    let at = entry_from(entries, e.path, 0);
    let after = put_module(entries, e);
    assert forall|i: int, j: int| 0 <= i < j < after.len() implies (#[trigger] after[i]).path != (
    #[trigger] after[j]).path by {
        if at < entries.len() {
            assert(after[i].path == entries[i].path);
            assert(after[j].path == entries[j].path);
        } else {
            assert(after[i] == entries[i]);
            if j < entries.len() {
                assert(after[j] == entries[j]);
            }
        }
    }
    assert forall|i: int| 0 <= i < after.len() implies distinct_names(
        (#[trigger] after[i]).declarations,
    ) by {
        if i != at {
            assert(after[i] == entries[i]);
        }
    }
}

/// Putting a declaration into a module keeps the invariant.
pub proof fn lemma_add_decl_wf(
    entries: Seq<ModuleEntryView>,
    path: Seq<Seq<char>>,
    d: DeclarationView,
)
    requires
        entries_wf(entries),
    ensures
        entries_wf(add_decl(entries, path, d)),
{
    lemma_entry_search(entries, path, 0);
    let at = entry_from(entries, path, 0);
    if at < entries.len() {
        let e = ModuleEntryView { path, declarations: put_decl(entries[at].declarations, d) };
        assert(distinct_names(entries[at].declarations));
        lemma_put_decl_distinct(entries[at].declarations, d);
        lemma_put_module_wf(entries, e);
        assert(add_decl(entries, path, d) == put_module(entries, e));
    } else {
        let e = ModuleEntryView { path, declarations: seq![d] };
        lemma_put_module_wf(entries, e);
        assert(add_decl(entries, path, d) == put_module(entries, e));
    }
}

/// Walking the items of a file keeps the invariant.
pub proof fn lemma_visit_items_wf(
    items: Seq<ItemView>,
    n: nat,
    stack: Seq<Seq<char>>,
    base: Seq<Seq<char>>,
    table: Seq<ModuleEntryView>,
)
    requires
        entries_wf(table),
    ensures
        entries_wf(visit_items_spec(items, n, stack, base, table)),
    decreases items, n,
{
    if n == 0 || n > items.len() {
    } else {
        lemma_visit_items_wf(items, (n - 1) as nat, stack, base, table);
        lemma_visit_item_wf(
            items[n - 1],
            stack,
            base,
            visit_items_spec(items, (n - 1) as nat, stack, base, table),
        );
    }
}

/// Visiting one item keeps the invariant.
pub proof fn lemma_visit_item_wf(
    item: ItemView,
    stack: Seq<Seq<char>>,
    base: Seq<Seq<char>>,
    table: Seq<ModuleEntryView>,
)
    requires
        entries_wf(table),
    ensures
        entries_wf(visit_item_spec(item, stack, base, table)),
    decreases item, 0nat,
{
    match item {
        ItemView::Declaration(d) => {
            lemma_add_decl_wf(table, base + stack, d);
        },
        ItemView::Module { name, items } => {
            lemma_visit_items_wf(items, items.len(), stack.push(name), base, table);
        },
        ItemView::Other => {},
    }
}

/// What a file contributes holds every module once and every name once in
/// its module.
pub proof fn lemma_collect_wf(items: Seq<ItemView>, base: Seq<Seq<char>>)
    ensures
        entries_wf(collect_spec(items, base)),
{
    lemma_visit_items_wf(items, items.len(), Seq::empty(), base, Seq::empty());
}

/// Putting modules in one after the other keeps the invariant, where the
/// names of each are distinct.
pub proof fn lemma_put_modules_wf(
    entries: Seq<ModuleEntryView>,
    added: Seq<ModuleEntryView>,
    n: nat,
)
    requires
        entries_wf(entries),
        n <= added.len(),
        forall|i: int| 0 <= i < added.len() ==> distinct_names((#[trigger] added[i]).declarations),
    ensures
        entries_wf(put_modules(entries, added, n)),
    decreases n,
{
    if n > 0 {
        lemma_put_modules_wf(entries, added, (n - 1) as nat);
        lemma_put_module_wf(put_modules(entries, added, (n - 1) as nat), added[n - 1]);
    }
}

/// Recording the answer to a request keeps the invariant of the registry.
pub proof fn lemma_recorded_wf(
    registry: RegistryView,
    request: LoadRequestView,
    root: Seq<char>,
    outcome: LoadOutcomeView,
)
    requires
        registry.wf(),
    ensures
        recorded(registry, request, root, outcome).wf(),
{
    match outcome {
        LoadOutcomeView::Parsed { file, items } => {
            let added = collect_spec(items, module_path_of(file_module_text(file, root)));
            lemma_collect_wf(items, module_path_of(file_module_text(file, root)));
            lemma_put_modules_wf(registry.entries, added, added.len());
        },
        _ => {},
    }
}

/// A module that was put in is held as it was put in.
pub proof fn lemma_put_module_then_get(entries: Seq<ModuleEntryView>, e: ModuleEntryView)
    ensures
        module_decls(put_module(entries, e), e.path) == Some(e.declarations),
        forall|other: Seq<Seq<char>>|
            other != e.path ==> module_decls(put_module(entries, e), other)
                == module_decls(entries, other),
{
    lemma_entry_search(entries, e.path, 0);
    let at = entry_from(entries, e.path, 0);
    let after = put_module(entries, e);
    lemma_entry_at(after, e.path, 0, at);
    assert forall|other: Seq<Seq<char>>| other != e.path implies module_decls(
        after,
        other,
    ) == module_decls(entries, other) by {
        lemma_entry_search(entries, other, 0);
        let k = entry_from(entries, other, 0);
        if k < entries.len() {
            assert(after[k] == entries[k]);
            assert forall|j: int| 0 <= j < k implies (#[trigger] after[j]).path != other by {
                if j == at {
                } else {
                    assert(after[j] == entries[j]);
                }
            }
            lemma_entry_at(after, other, 0, k);
        } else {
            assert forall|j: int| 0 <= j < after.len() implies (#[trigger] after[j]).path
                != other by {
                if j < entries.len() && j != at {
                    assert(after[j] == entries[j]);
                }
            }
            lemma_entry_none(after, other, 0);
        }
    }
}

/// Where the entry at `at` has the path and no entry from `from` up to it
/// has, the search from `from` ends at `at`.
pub proof fn lemma_entry_at(
    entries: Seq<ModuleEntryView>,
    path: Seq<Seq<char>>,
    from: int,
    at: int,
)
    requires
        0 <= from <= at < entries.len(),
        entries[at].path == path,
        forall|j: int| from <= j < at ==> (#[trigger] entries[j]).path != path,
    ensures
        entry_from(entries, path, from) == at,
    decreases at - from,
{
    if from < at {
        lemma_entry_at(entries, path, from + 1, at);
    }
}

/// Where no entry from `from` on has the path, the search ends behind the
/// last entry.
pub proof fn lemma_entry_none(entries: Seq<ModuleEntryView>, path: Seq<Seq<char>>, from: int)
    requires
        0 <= from <= entries.len(),
        forall|j: int| from <= j < entries.len() ==> (#[trigger] entries[j]).path != path,
    ensures
        entry_from(entries, path, from) == entries.len(),
    decreases entries.len() - from,
{
    if from < entries.len() {
        lemma_entry_none(entries, path, from + 1);
    }
}

/// Putting in a module that is held as it is changes nothing.
pub proof fn lemma_put_module_again(entries: Seq<ModuleEntryView>, e: ModuleEntryView)
    requires
        module_decls(entries, e.path) == Some(e.declarations),
    ensures
        put_module(entries, e) == entries,
{
    lemma_entry_search(entries, e.path, 0);
    let at = entry_from(entries, e.path, 0);
    assert(entries[at] == e);
    assert(put_module(entries, e) =~= entries);
}

/// After modules with distinct paths were put in, each is held as it was
/// put in.
pub proof fn lemma_put_modules_then_get(
    entries: Seq<ModuleEntryView>,
    added: Seq<ModuleEntryView>,
    n: nat,
)
    requires
        n <= added.len(),
        distinct_paths(added),
    ensures
        forall|i: int|
            0 <= i < n ==> module_decls(
                put_modules(entries, added, n),
                (#[trigger] added[i]).path,
            ) == Some(added[i].declarations),
    decreases n,
{
    if n > 0 {
        let before = put_modules(entries, added, (n - 1) as nat);
        lemma_put_modules_then_get(entries, added, (n - 1) as nat);
        lemma_put_module_then_get(before, added[n - 1]);
        assert forall|i: int| 0 <= i < n implies module_decls(
            put_modules(entries, added, n),
            (#[trigger] added[i]).path,
        ) == Some(added[i].declarations) by {
            if i < n - 1 {
                assert(added[i].path != added[n - 1].path);
            }
        }
    }
}

/// Loading is idempotent: putting the same modules in a second time
/// changes nothing.
pub proof fn lemma_put_modules_again(
    entries: Seq<ModuleEntryView>,
    added: Seq<ModuleEntryView>,
    m: nat,
)
    requires
        m <= added.len(),
        distinct_paths(added),
    ensures
        put_modules(put_modules(entries, added, added.len()), added, m) == put_modules(
            entries,
            added,
            added.len(),
        ),
    decreases m,
{
    if m > 0 {
        let once = put_modules(entries, added, added.len());
        lemma_put_modules_again(entries, added, (m - 1) as nat);
        lemma_put_modules_then_get(entries, added, added.len());
        lemma_put_module_again(once, added[m - 1]);
    }
}

/// Reloading an unchanged file leaves every module as it is: to record the
/// same parsed file a second time changes nothing but the list of answered
/// requests.
pub proof fn lemma_reload_changes_nothing(
    registry: RegistryView,
    first: LoadRequestView,
    second: LoadRequestView,
    root: Seq<char>,
    outcome: LoadOutcomeView,
)
    ensures
        recorded(recorded(registry, first, root, outcome), second, root, outcome).entries
            == recorded(registry, first, root, outcome).entries,
{
    match outcome {
        LoadOutcomeView::Parsed { file, items } => {
            let added = collect_spec(items, module_path_of(file_module_text(file, root)));
            lemma_collect_wf(items, module_path_of(file_module_text(file, root)));
            lemma_put_modules_again(registry.entries, added, added.len());
        },
        _ => {},
    }
}

// ------------------------------------------------------- marked modules

/// Whether one of the first `n` entries is for the module `path`.
pub open spec fn held_among(entries: Seq<ModuleEntryView>, n: nat, path: Seq<Seq<char>>) -> bool {
    exists|i: int| 0 <= i < n && (#[trigger] entries[i]).path == path
}

/// Whether no module stands twice in a list of modules.
pub open spec fn each_module_once(found: Seq<Seq<Seq<char>>>) -> bool {
    forall|a: int, b: int| 0 <= a < b < found.len() ==> found[a] != found[b]
}

/// Among entries for distinct modules, the modules that hold a
/// flatten-marked declaration of a name are modules of the entries, each
/// once.
pub proof fn lemma_marked_modules_once(entries: Seq<ModuleEntryView>, name: Seq<char>, n: nat)
    requires
        distinct_paths(entries),
        n <= entries.len(),
    ensures
        marked_modules(entries, name, n) matches Ok(found) ==> each_module_once(found) && forall|
            k: int,
        |
            0 <= k < found.len() ==> held_among(entries, n, #[trigger] found[k]),
    decreases n,
{
    if n > 0 {
        lemma_marked_modules_once(entries, name, (n - 1) as nat);
        match marked_modules(entries, name, n) {
            Ok(found) => {
                let before = marked_modules(entries, name, (n - 1) as nat)->Ok_0;
                let last = entries[n - 1].path;
                assert forall|k: int| 0 <= k < before.len() implies #[trigger] before[k] != last
                    && held_among(entries, n, before[k]) by {
                    assert(held_among(entries, (n - 1) as nat, before[k]));
                    let i = choose|i: int|
                        0 <= i < n - 1 && (#[trigger] entries[i]).path == before[k];
                    assert(entries[i].path != entries[n - 1].path);
                }
                assert(held_among(entries, n, last)) by {
                    assert(entries[n - 1].path == last);
                }
                assert forall|k: int| 0 <= k < found.len() implies held_among(
                    entries,
                    n,
                    #[trigger] found[k],
                ) by {
                    if k < before.len() {
                        assert(found[k] == before[k]);
                    }
                }
                assert forall|a: int, b: int| 0 <= a < b < found.len() implies found[a]
                    != found[b] by {
                    if b < before.len() {
                        assert(found[a] == before[a] && found[b] == before[b]);
                    } else {
                        assert(found[a] == before[a]);
                    }
                }
            },
            Err(_) => {},
        }
    }
}

/// In a registry that meets its invariant, the list of the modules that
/// hold a flatten-marked declaration of a name holds each module once, and
/// only modules that the registry holds.
pub proof fn lemma_marked_locations_once(registry: RegistryView, name: Seq<char>)
    requires
        registry.wf(),
    ensures
        marked_locations(registry.entries, name) matches Ok(Some(found)) ==> each_module_once(found)
            && forall|k: int|
            0 <= k < found.len() ==> module_decls(registry.entries, #[trigger] found[k]) is Some,
{
    lemma_marked_modules_once(registry.entries, name, registry.entries.len());
    match marked_locations(registry.entries, name) {
        Ok(Some(found)) => {
            assert forall|k: int| 0 <= k < found.len() implies module_decls(
                registry.entries,
                #[trigger] found[k],
            ) is Some by {
                assert(held_among(registry.entries, registry.entries.len(), found[k]));
                let i = choose|i: int|
                    0 <= i < registry.entries.len() && (#[trigger] registry.entries[i]).path
                        == found[k];
                lemma_entry_search(registry.entries, found[k], 0);
            }
        },
        _ => {},
    }
}

// ------------------------------------------------- what a file contributes

/// The declarations held for a module; none where the module is not held.
pub open spec fn decls_of(entries: Seq<ModuleEntryView>, path: Seq<Seq<char>>) -> Seq<
    DeclarationView,
> {
    match module_decls(entries, path) {
        Some(decls) => decls,
        None => Seq::empty(),
    }
}

/// Whether `path` starts with `prefix`.
pub open spec fn has_prefix(path: Seq<Seq<char>>, prefix: Seq<Seq<char>>) -> bool {
    prefix.len() <= path.len() && path.subrange(0, prefix.len() as int) == prefix
}

/// The declarations that the first `n` of `items` contribute to the module
/// that lies `rest` below them, on top of `start`: a declaration belongs to
/// the module that it is written in, an inline module named like the first
/// name of `rest` contributes what its body holds for the remaining names,
/// and a later declaration of a name takes the place of an earlier one.
pub open spec fn decls_at(
    items: Seq<ItemView>,
    n: nat,
    rest: Seq<Seq<char>>,
    start: Seq<DeclarationView>,
) -> Seq<DeclarationView>
    decreases items, n,
{
    if n == 0 || n > items.len() {
        start
    } else {
        let before = decls_at(items, (n - 1) as nat, rest, start);
        match items[n - 1] {
            ItemView::Declaration(d) => if rest.len() == 0 {
                put_decl(before, d)
            } else {
                before
            },
            ItemView::Module { name, items: body } => if rest.len() > 0 && rest[0] == name {
                decls_at(body, body.len(), rest.drop_first(), before)
            } else {
                before
            },
            ItemView::Other => before,
        }
    }
}

/// Putting a declaration into a module changes that module alone.
pub proof fn lemma_add_decl_frame(
    entries: Seq<ModuleEntryView>,
    path: Seq<Seq<char>>,
    d: DeclarationView,
    other: Seq<Seq<char>>,
)
    ensures
        other != path ==> module_decls(add_decl(entries, path, d), other) == module_decls(
            entries,
            other,
        ),
        decls_of(add_decl(entries, path, d), path) == put_decl(decls_of(entries, path), d),
{
    lemma_entry_search(entries, path, 0);
    let at = entry_from(entries, path, 0);
    let e = if at < entries.len() {
        ModuleEntryView { path, declarations: put_decl(entries[at].declarations, d) }
    } else {
        ModuleEntryView { path, declarations: seq![d] }
    };
    assert(add_decl(entries, path, d) == put_module(entries, e));
    lemma_put_module_then_get(entries, e);
    if at >= entries.len() {
        assert(put_decl(Seq::<DeclarationView>::empty(), d) =~= seq![d]);
    }
}

/// A walk below the modules `stack` changes no module outside of them.
pub proof fn lemma_visit_items_frame(
    items: Seq<ItemView>,
    n: nat,
    stack: Seq<Seq<char>>,
    base: Seq<Seq<char>>,
    table: Seq<ModuleEntryView>,
    other: Seq<Seq<char>>,
)
    requires
        !has_prefix(other, base + stack),
    ensures
        module_decls(visit_items_spec(items, n, stack, base, table), other) == module_decls(
            table,
            other,
        ),
    decreases items, n,
{
    if n == 0 || n > items.len() {
    } else {
        lemma_visit_items_frame(items, (n - 1) as nat, stack, base, table, other);
        lemma_visit_item_frame(
            items[n - 1],
            stack,
            base,
            visit_items_spec(items, (n - 1) as nat, stack, base, table),
            other,
        );
    }
}

/// Visiting an item below the modules `stack` changes no module outside
/// of them.
pub proof fn lemma_visit_item_frame(
    item: ItemView,
    stack: Seq<Seq<char>>,
    base: Seq<Seq<char>>,
    table: Seq<ModuleEntryView>,
    other: Seq<Seq<char>>,
)
    requires
        !has_prefix(other, base + stack),
    ensures
        module_decls(visit_item_spec(item, stack, base, table), other) == module_decls(
            table,
            other,
        ),
    decreases item, 0nat,
{
    match item {
        ItemView::Declaration(d) => {
            assert((base + stack).subrange(0, (base + stack).len() as int) =~= base + stack);
            lemma_add_decl_frame(table, base + stack, d, other);
        },
        ItemView::Module { name, items } => {
            let deeper = base + stack.push(name);
            if has_prefix(other, deeper) {
                assert(deeper.subrange(0, (base + stack).len() as int) =~= base + stack);
                assert(other.subrange(0, (base + stack).len() as int) =~= other.subrange(
                    0,
                    deeper.len() as int,
                ).subrange(0, (base + stack).len() as int));
            }
            lemma_visit_items_frame(items, items.len(), stack.push(name), base, table, other);
        },
        ItemView::Other => {},
    }
}

/// What a walk holds for a module, in terms of the items alone.  After the
/// first `n` of `items` were visited below the modules `stack`, the module
/// that lies `rest` below them holds what it held before and what the items
/// contribute to it.
pub proof fn lemma_visit_items_attributes(
    items: Seq<ItemView>,
    n: nat,
    stack: Seq<Seq<char>>,
    base: Seq<Seq<char>>,
    table: Seq<ModuleEntryView>,
    rest: Seq<Seq<char>>,
)
    ensures
        decls_of(visit_items_spec(items, n, stack, base, table), base + stack + rest) == decls_at(
            items,
            n,
            rest,
            decls_of(table, base + stack + rest),
        ),
    decreases items, n,
{
    if n == 0 || n > items.len() {
    } else {
        let path = base + stack + rest;
        let before = visit_items_spec(items, (n - 1) as nat, stack, base, table);
        let held = decls_at(items, (n - 1) as nat, rest, decls_of(table, path));
        lemma_visit_items_attributes(items, (n - 1) as nat, stack, base, table, rest);
        assert(decls_of(before, path) == held);
        let after = visit_item_spec(items[n - 1], stack, base, before);
        assert(visit_items_spec(items, n, stack, base, table) == after);
        match items[n - 1] {
            ItemView::Declaration(d) => {
                if rest.len() == 0 {
                    assert(path =~= base + stack);
                    lemma_add_decl_frame(before, base + stack, d, path);
                    assert(decls_of(after, path) == put_decl(held, d));
                } else {
                    assert(path.len() != (base + stack).len());
                    lemma_add_decl_frame(before, base + stack, d, path);
                    assert(decls_of(after, path) == held);
                }
            },
            ItemView::Module { name, items: body } => {
                if rest.len() > 0 && rest[0] == name {
                    assert(base + stack.push(name) + rest.drop_first() =~= path);
                    lemma_visit_items_attributes(
                        body,
                        body.len(),
                        stack.push(name),
                        base,
                        before,
                        rest.drop_first(),
                    );
                    assert(decls_of(after, path) == decls_at(
                        body,
                        body.len(),
                        rest.drop_first(),
                        held,
                    ));
                } else {
                    let deeper = base + stack.push(name);
                    let at = (base + stack).len() as int;
                    if has_prefix(path, deeper) {
                        assert(path.subrange(0, deeper.len() as int)[at] == path[at]);
                        assert(deeper[at] == name);
                        assert(path[at] == rest[0]);
                    }
                    lemma_visit_items_frame(body, body.len(), stack.push(name), base, before, path);
                    assert(decls_of(after, path) == held);
                }
            },
            ItemView::Other => {
                assert(decls_of(after, path) == held);
            },
        }
    }
}

/// Every declaration of a file belongs to the module that it is written
/// in.  The module that lies `rest` below the module of the file holds
/// what the items of the file contribute to it: a declaration in an inline
/// module belongs to that module and not to the module around it.
pub proof fn lemma_declarations_belong_to_their_module(
    items: Seq<ItemView>,
    base: Seq<Seq<char>>,
    rest: Seq<Seq<char>>,
)
    ensures
        decls_of(collect_spec(items, base), base + rest) == decls_at(
            items,
            items.len(),
            rest,
            Seq::empty(),
        ),
{
    lemma_visit_items_attributes(items, items.len(), Seq::empty(), base, Seq::empty(), rest);
    assert(base + Seq::<Seq<char>>::empty() + rest =~= base + rest);
}

} // verus!
