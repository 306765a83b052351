//! What the annotations of a declaration or of a case say.
//!
//! Only the first annotation named `nestum` counts.  On a declaration it
//! must carry no arguments and marks the declaration for flattening.  On a
//! case it must carry `external = "<path>"` and names the declaration
//! inside the case by its path.

use vstd::prelude::*;
use vstd::string::*;
use crate::diag::{
    bare_case_annotation, bare_case_annotation_spec, external_key_missing,
    external_key_missing_spec, external_not_path, external_not_path_spec, external_not_string,
    external_not_string_spec, malformed_annotation, malformed_annotation_spec, result_view,
    type_not_path, type_not_path_spec, type_without_segments, type_without_segments_spec,
    Diagnostic, DiagnosticView, Site,
};
use crate::syntax::{
    Attribute, AttributeArgs, AttributeArgsView, AttributeView, Case, Meta, MetaValue,
    MetaValueView, MetaView, Payload, PayloadView, TypeRef, TypeRefView,
};
use crate::text::{copy_names, is_word};

verus! {

/// What a declaration's annotations say about flattening.
#[derive(Clone, Copy, Debug, PartialEq, Eq, Structural)]
pub enum Marker {
    /// No flatten annotation.
    Absent,
    /// The flatten annotation, without arguments.
    Plain,
    /// The flatten annotation, with arguments.
    WithArgs,
}

impl DeepView for Marker {
    type V = Marker;

    open spec fn deep_view(&self) -> Marker {
        *self
    }
}

/// The name of the annotation.
pub open spec fn marker_word() -> Seq<char> {
    "nestum"@
}

/// The key that introduces an external reference.
pub open spec fn external_key() -> Seq<char> {
    "external"@
}

/// Whether an annotation is named `nestum`.
pub open spec fn is_marker(attr: AttributeView) -> bool {
    attr.name == Some(marker_word())
}

/// The index of the first annotation named `nestum` at or after `from`;
/// the number of annotations where there is none.
pub open spec fn marker_from(attrs: Seq<AttributeView>, from: int) -> int
    decreases attrs.len() - from,
{
    if from >= attrs.len() {
        attrs.len() as int
    } else if is_marker(attrs[from]) {
        from
    } else {
        marker_from(attrs, from + 1)
    }
}

/// What the annotations of a declaration say about flattening.  Arguments
/// that do not read as a list are an error at `site`.
pub open spec fn marker_kind(attrs: Seq<AttributeView>, site: Site) -> Result<
    Marker,
    DiagnosticView,
> {
    let i = marker_from(attrs, 0);
    if i >= attrs.len() {
        Ok(Marker::Absent)
    } else {
        match attrs[i].args {
            AttributeArgsView::Absent => Ok(Marker::Plain),
            AttributeArgsView::List(items) => if items.len() == 0 {
                Ok(Marker::Plain)
            } else {
                Ok(Marker::WithArgs)
            },
            AttributeArgsView::Malformed(why) => Err(malformed_annotation_spec(why, site)),
        }
    }
}

/// Whether the annotations mark a declaration for flattening.
pub open spec fn is_marked(attrs: Seq<AttributeView>) -> bool {
    marker_kind(attrs, Site::Registry) == Ok::<Marker, DiagnosticView>(Marker::Plain)
}

/// The first `n` annotations without those named `nestum`, in their order.
pub open spec fn unmarked_prefix(attrs: Seq<AttributeView>, n: nat) -> Seq<AttributeView>
    decreases n,
{
    if n == 0 {
        Seq::empty()
    } else {
        let before = unmarked_prefix(attrs, (n - 1) as nat);
        if is_marker(attrs[n - 1]) {
            before
        } else {
            before.push(attrs[n - 1])
        }
    }
}

/// The annotations without those named `nestum`, in their order.
pub open spec fn without_markers(attrs: Seq<AttributeView>) -> Seq<AttributeView> {
    unmarked_prefix(attrs, attrs.len())
}

/// An external reference: the path as written and the names of its segments.
#[derive(Clone, Debug, PartialEq, Eq)]
pub struct ExternalPath {
    pub text: String,
    pub names: Vec<String>,
}

pub struct ExternalPathView {
    pub text: Seq<char>,
    pub names: Seq<Seq<char>>,
}

impl View for ExternalPath {
    type V = ExternalPathView;

    open spec fn view(&self) -> ExternalPathView {
        ExternalPathView { text: self.text@, names: self.names.deep_view() }
    }
}

impl DeepView for ExternalPath {
    type V = ExternalPathView;

    open spec fn deep_view(&self) -> ExternalPathView {
        self@
    }
}

/// Whether an argument has the key `external`.
pub open spec fn is_external_item(item: MetaView) -> bool {
    item matches MetaView::NameValue { key, .. } && key == Some(external_key())
}

/// The index of the first argument with the key `external` at or after
/// `from`; the number of arguments where there is none.
pub open spec fn external_item_from(items: Seq<MetaView>, from: int) -> int
    decreases items.len() - from,
{
    if from >= items.len() {
        items.len() as int
    } else if is_external_item(items[from]) {
        from
    } else {
        external_item_from(items, from + 1)
    }
}

/// The external reference written as `text`, where `parsed` holds the
/// names of the path that the text was read as, if it was read as one.
pub open spec fn external_from_parsed(
    text: Seq<char>,
    parsed: Option<Seq<Seq<char>>>,
    site: Site,
) -> Result<Option<ExternalPathView>, DiagnosticView> {
    match parsed {
        Some(names) => Ok(Some(ExternalPathView { text, names })),
        None => Err(external_not_path_spec(site)),
    }
}

/// The external reference that the value of an `external` argument gives.
pub open spec fn external_from_value(value: MetaValueView, site: Site) -> Result<
    Option<ExternalPathView>,
    DiagnosticView,
> {
    match value {
        MetaValueView::Text { text, path } => external_from_parsed(text, path, site),
        _ => Err(external_not_string_spec(site)),
    }
}

/// The external reference that the arguments of a case's annotation give.
pub open spec fn external_from_args(args: AttributeArgsView, site: Site) -> Result<
    Option<ExternalPathView>,
    DiagnosticView,
> {
    match args {
        AttributeArgsView::Malformed(why) => Err(malformed_annotation_spec(why, site)),
        AttributeArgsView::Absent => Err(bare_case_annotation_spec(site)),
        AttributeArgsView::List(items) => {
            if items.len() == 0 {
                Err(bare_case_annotation_spec(site))
            } else {
                let k = external_item_from(items, 0);
                if k >= items.len() {
                    Err(external_key_missing_spec(site))
                } else {
                    external_from_value(items[k]->value, site)
                }
            }
        },
    }
}

/// The external reference of a case: `Ok(None)` where the case has no
/// annotation named `nestum`; the reference where its first such annotation
/// holds `external = "<path>"` and the value was read as a path; an error
/// at `site` otherwise.
pub open spec fn external_path_spec(attrs: Seq<AttributeView>, site: Site) -> Result<
    Option<ExternalPathView>,
    DiagnosticView,
> {
    let i = marker_from(attrs, 0);
    if i >= attrs.len() {
        Ok(None)
    } else {
        external_from_args(attrs[i].args, site)
    }
}

/// The type of the only field of a tuple case; `None` for any other case.
pub open spec fn single_tuple_type(payload: PayloadView) -> Option<TypeRefView> {
    match payload {
        PayloadView::Tuple(fields) => if fields.len() == 1 {
            Some(fields[0])
        } else {
            None
        },
        _ => None,
    }
}

/// The name that a type reference ends in, where it is an unqualified path.
pub open spec fn simple_ident_spec(ty: TypeRefView, site: Site) -> Result<
    Seq<char>,
    DiagnosticView,
> {
    match ty.path {
        Some(names) => if names.len() > 0 {
            Ok(names[names.len() - 1])
        } else {
            Err(type_without_segments_spec(site))
        },
        None => Err(type_not_path_spec(site)),
    }
}

/// Whether an annotation is named `nestum`.
pub fn attribute_is_marker(attr: &Attribute) -> (r: bool)
    ensures
        r == is_marker(attr@),
{
    match &attr.name {
        Some(name) => is_word(name, "nestum"),
        None => false,
    }
}

/// The first annotation named `nestum`, if there is one.
pub fn first_marker(attrs: &Vec<Attribute>) -> (r: Option<usize>)
    ensures
        match r {
            Some(i) => i < attrs.len() && i == marker_from(attrs.deep_view(), 0),
            None => marker_from(attrs.deep_view(), 0) >= attrs.len(),
        },
{
    let mut i: usize = 0;
    while i < attrs.len()
        invariant
            i <= attrs.len(),
            marker_from(attrs.deep_view(), i as int) == marker_from(attrs.deep_view(), 0),
        decreases attrs.len() - i,
    {
        assert(attrs.deep_view()[i as int] == attrs[i as int]@);
        if attribute_is_marker(&attrs[i]) {
            return Some(i);
        }
        i += 1;
    }
    None
}

/// What the annotations of a declaration say about flattening.
pub fn nestum_attr_kind(attrs: &Vec<Attribute>, site: Site) -> (r: Result<Marker, Diagnostic>)
    ensures
        result_view(r) == marker_kind(attrs.deep_view(), site),
{
    match first_marker(attrs) {
        None => Ok(Marker::Absent),
        Some(i) => {
            assert(attrs.deep_view()[i as int] == attrs[i as int]@);
            match &attrs[i].args {
                AttributeArgs::Absent => Ok(Marker::Plain),
                AttributeArgs::List(items) => {
                    assert(items.deep_view().len() == items.len());
                    if items.len() == 0 {
                        Ok(Marker::Plain)
                    } else {
                        Ok(Marker::WithArgs)
                    }
                },
                AttributeArgs::Malformed(why) => Err(malformed_annotation(why, site)),
            }
        },
    }
}

/// Whether the annotations mark a declaration for flattening.
pub fn attributes_mark(attrs: &Vec<Attribute>) -> (r: bool)
    ensures
        r == is_marked(attrs.deep_view()),
{
    match nestum_attr_kind(attrs, Site::Registry) {
        Ok(Marker::Plain) => true,
        _ => false,
    }
}

/// The external reference written as `text`, given the names of the path
/// that the text was read as, if it was read as one.
pub fn external_path_from(text: &String, parsed: Option<Vec<String>>, site: Site) -> (r: Result<
    Option<ExternalPath>,
    Diagnostic,
>)
    ensures
        result_view(r) == external_from_parsed(text@, parsed.deep_view(), site),
{
    match parsed {
        Some(names) => Ok(Some(ExternalPath { text: text.clone(), names })),
        None => Err(external_not_path(site)),
    }
}

/// Whether an argument has the key `external`.
pub fn meta_is_external(item: &Meta) -> (r: bool)
    ensures
        r == is_external_item(item@),
{
    match item {
        Meta::NameValue { key, value: _ } => match key {
            Some(k) => is_word(k, "external"),
            None => false,
        },
        Meta::Other => false,
    }
}

/// The external reference of a case, read from its annotations.
pub fn parse_variant_external_path(attrs: &Vec<Attribute>, site: Site) -> (r: Result<
    Option<ExternalPath>,
    Diagnostic,
>)
    ensures
        result_view(r) == external_path_spec(attrs.deep_view(), site),
{
    let i = match first_marker(attrs) {
        None => {
            return Ok(None);
        },
        Some(i) => i,
    };
    assert(attrs.deep_view()[i as int] == attrs[i as int]@);
    match &attrs[i].args {
        AttributeArgs::Malformed(why) => Err(malformed_annotation(why, site)),
        AttributeArgs::Absent => Err(bare_case_annotation(site)),
        AttributeArgs::List(items) => {
            assert(items.deep_view().len() == items.len());
            if items.len() == 0 {
                return Err(bare_case_annotation(site));
            }
            let mut k: usize = 0;
            while k < items.len()
                invariant
                    k <= items.len(),
                    items.len() > 0,
                    i < attrs.len(),
                    i == marker_from(attrs.deep_view(), 0),
                    attrs.deep_view()[i as int].args == AttributeArgsView::List(items.deep_view()),
                    external_item_from(items.deep_view(), k as int) == external_item_from(
                        items.deep_view(),
                        0,
                    ),
                decreases items.len() - k,
            {
                assert(items.deep_view()[k as int] == items[k as int]@);
                if meta_is_external(&items[k]) {
                    match &items[k] {
                        Meta::NameValue { key: _, value } => {
                            match value {
                                MetaValue::Text { text, path } => {
                                    let parsed = match path {
                                        Some(names) => Some(copy_names(names)),
                                        None => None,
                                    };
                                    return external_path_from(text, parsed, site);
                                },
                                _ => {
                                    return Err(external_not_string(site));
                                },
                            }
                        },
                        Meta::Other => {
                            return Err(external_key_missing(site));
                        },
                    }
                }
                k += 1;
            }
            Err(external_key_missing(site))
        },
    }
}

/// The type of the only field of a tuple case.
pub fn extract_single_tuple_type(case: &Case) -> (r: Option<&TypeRef>)
    ensures
        r.deep_view() == single_tuple_type(case@.payload),
{
    match &case.payload {
        Payload::Tuple(fields) => {
            assert(fields.deep_view().len() == fields.len());
            if fields.len() == 1 {
                assert(fields.deep_view()[0] == fields[0]@);
                Some(&fields[0])
            } else {
                None
            }
        },
        _ => None,
    }
}

/// The name that a type reference ends in.
pub fn extract_simple_ident(ty: &TypeRef, site: Site) -> (r: Result<&String, Diagnostic>)
    ensures
        result_view(r) == simple_ident_spec(ty@, site),
{
    match &ty.path {
        Some(names) => {
            assert(names.deep_view().len() == names.len());
            if names.len() > 0 {
                assert(names.deep_view()[names.len() - 1] == names[names.len() - 1]@);
                Ok(&names[names.len() - 1])
            } else {
                Err(type_without_segments(site))
            }
        },
        None => Err(type_not_path(site)),
    }
}

/// The annotations without those named `nestum`, in their order.
pub fn strip_markers(attrs: &Vec<Attribute>) -> (r: Vec<Attribute>)
    ensures
        r.deep_view() == without_markers(attrs.deep_view()),
{
    let mut out: Vec<Attribute> = Vec::new();
    let mut i: usize = 0;
    assert(out.deep_view() =~= Seq::<AttributeView>::empty());
    while i < attrs.len()
        invariant
            i <= attrs.len(),
            out.deep_view() == unmarked_prefix(attrs.deep_view(), i as nat),
        decreases attrs.len() - i,
    {
        let ghost before = out.deep_view();
        assert(attrs.deep_view()[i as int] == attrs[i as int]@);
        if !attribute_is_marker(&attrs[i]) {
            out.push(attrs[i].duplicate());
            assert(out.deep_view() =~= before.push(attrs[i as int]@));
        }
        i += 1;
    }
    out
}

} // verus!
