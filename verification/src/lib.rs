//! Flattened access to nested sum types.
//!
//! A sum type whose case wraps another sum type can be marked so that the
//! wrapped type's cases are constructed and matched through the outer type:
//! `Outer::Wrap::A` stands for `Outer::Wrap(Inner::A)`.  This crate is the
//! engine behind that notation.  It keeps a registry of the declarations
//! found in each module (`registry`), derives the forwarding constructors of
//! a marked declaration (`expand`), and rewrites dotted patterns into nested
//! ones (`rewrite`).
//!
//! The engine works on a plain model of the syntax it needs (`syntax`,
//! `pattern`) and never touches the file system: where it needs a module
//! that the registry does not hold yet, it answers with a load request, and
//! the caller hands the parsed file back through `Registry::record_load` and
//! asks again.  Patterns can be had as source text (`render`); how an
//! expansion is laid out in namespaces, and the text of its forwarders, is
//! told in `layout`.
//!
//! What holds of the engine as a whole is proved in `laws` and
//! `wellformed`; the few calls that leave the crate stand in `outside`.

pub mod attrs;
pub mod diag;
pub mod expand;
pub mod wellformed;
pub mod laws;
pub mod layout;
pub mod modpath;
pub mod outside;
pub mod pattern;
pub mod registry;
pub mod render;
pub mod rewrite;
pub mod syntax;
pub mod text;

use vstd::prelude::*;
use crate::diag::{
    arguments_on_request, arguments_on_request_spec, not_a_declaration, not_a_declaration_spec,
    result_view, Diagnostic, DiagnosticView,
};
use crate::expand::{expand_enum, expand_enum_spec, Expansion, ExpansionView};
use crate::modpath::{ModuleContext, ModuleContextView};
use crate::pattern::{Pattern, PatternView};
use crate::registry::{Outcome, OutcomeView, Registry, RegistryView};
use crate::rewrite::{expand_match, expand_match_spec};
use crate::syntax::{Item, ItemView};

verus! {

/// What a request to expand `item` comes to.  The annotation itself must
/// carry no arguments and must stand on a declaration; the module of the
/// request must be known; then the declaration is expanded.
pub open spec fn nestum_spec(
    has_arguments: bool,
    item: ItemView,
    context: Result<ModuleContextView, DiagnosticView>,
    registry: RegistryView,
) -> OutcomeView<ExpansionView> {
    if has_arguments {
        OutcomeView::Failed(arguments_on_request_spec())
    } else {
        match item {
            ItemView::Declaration(d) => match context {
                Err(e) => OutcomeView::Failed(e),
                Ok(c) => expand_enum_spec(d, c, registry),
            },
            _ => OutcomeView::Failed(not_a_declaration_spec()),
        }
    }
}

/// What a request to rewrite the patterns of a match comes to.
pub open spec fn nestum_match_spec(
    arms: Seq<PatternView>,
    context: Result<ModuleContextView, DiagnosticView>,
    registry: RegistryView,
) -> OutcomeView<Seq<PatternView>> {
    match context {
        Err(e) => OutcomeView::Failed(e),
        Ok(c) => expand_match_spec(arms, c, registry),
    }
}

/// Expands the item that the flatten annotation stands on.
/// `has_arguments` says whether the annotation carries arguments, and
/// `context` is the module of the request, or why it is not known.
pub fn nestum(
    has_arguments: bool,
    item: &Item,
    context: &Result<ModuleContext, Diagnostic>,
    registry: &Registry,
) -> (r: Outcome<Expansion>)
    ensures
        r@ == nestum_spec(has_arguments, item@, result_view(*context), registry@),
{
    if has_arguments {
        return Outcome::Failed(arguments_on_request());
    }
    match item {
        Item::Declaration(d) => match context {
            Err(e) => Outcome::Failed(e.duplicate()),
            Ok(c) => expand_enum(d, c, registry),
        },
        _ => Outcome::Failed(not_a_declaration()),
    }
}

/// Rewrites the patterns of the arms of a match, in order.  `context` is
/// the module of the request, or why it is not known.
pub fn nestum_match(
    arms: &Vec<Pattern>,
    context: &Result<ModuleContext, Diagnostic>,
    registry: &Registry,
) -> (r: Outcome<Vec<Pattern>>)
    ensures
        r@ == nestum_match_spec(arms.deep_view(), result_view(*context), registry@),
{
    match context {
        Err(e) => Outcome::Failed(e.duplicate()),
        Ok(c) => expand_match(arms, c, registry),
    }
}

/// Another name for `nestum_match`.
pub fn nested(
    arms: &Vec<Pattern>,
    context: &Result<ModuleContext, Diagnostic>,
    registry: &Registry,
) -> (r: Outcome<Vec<Pattern>>)
    ensures
        r@ == nestum_match_spec(arms.deep_view(), result_view(*context), registry@),
{
    nestum_match(arms, context, registry)
}

} // verus!
