//! The syntax that the engine reads, as plain data: annotations, type
//! references, cases, declarations and the items of a source file.
//!
//! Each type has a view in which every string is a sequence of characters;
//! the contracts of the crate are stated over these views.

use vstd::prelude::*;
use vstd::string::*;
use crate::outside::parse_path_names;
use crate::text::copy_names;

verus! {

/// A copy of an optional name.
pub fn copy_optional(name: &Option<String>) -> (r: Option<String>)
    ensures
        r.deep_view() == name.deep_view(),
{
    match name {
        Some(n) => Some(n.clone()),
        None => None,
    }
}

/// The longest text, in characters, that is handed to the path parser.
pub const PATH_TEXT_LIMIT: usize = 256;

/// The value of a `key = value` argument of an annotation.
#[derive(Clone, Debug, PartialEq, Eq)]
pub enum MetaValue {
    /// A string literal: its contents, and the names of the segments of the
    /// path that the contents were read as, where they were read as one.
    Text { text: String, path: Option<Vec<String>> },
    /// Any other literal.
    Literal,
    /// Anything that is not a literal.
    Expression,
}

pub enum MetaValueView {
    Text { text: Seq<char>, path: Option<Seq<Seq<char>>> },
    Literal,
    Expression,
}

impl View for MetaValue {
    type V = MetaValueView;

    open spec fn view(&self) -> MetaValueView {
        match self {
            MetaValue::Text { text, path } => MetaValueView::Text {
                text: text@,
                path: path.deep_view(),
            },
            MetaValue::Literal => MetaValueView::Literal,
            MetaValue::Expression => MetaValueView::Expression,
        }
    }
}

impl DeepView for MetaValue {
    type V = MetaValueView;

    open spec fn deep_view(&self) -> MetaValueView {
        self@
    }
}

impl MetaValue {
    /// A copy.
    pub fn duplicate(&self) -> (r: MetaValue)
        ensures
            r@ == self@,
    {
        match self {
            MetaValue::Text { text, path } => MetaValue::Text {
                text: text.clone(),
                path: match path {
                    Some(names) => Some(copy_names(names)),
                    None => None,
                },
            },
            MetaValue::Literal => MetaValue::Literal,
            MetaValue::Expression => MetaValue::Expression,
        }
    }

    /// The value of a string literal with the contents `text`.  The
    /// contents are kept as they are, and are read as a path by the path
    /// parser, unless they are longer than `PATH_TEXT_LIMIT` characters:
    /// such a text is not read, and counts as no path.  A path that was
    /// read has at least one name.
    pub fn text(text: String) -> (r: MetaValue)
        ensures
            r@ is Text,
            r@->text == text@,
            text@.len() > PATH_TEXT_LIMIT ==> r@->path is None,
            r@->path matches Some(names) ==> names.len() >= 1,
    {
        let path = if text.as_str().unicode_len() <= PATH_TEXT_LIMIT {
            let parsed = parse_path_names(text.as_str());
            assert(parsed matches Some(names) ==> parsed.deep_view()->0.len() == names.len());
            parsed
        } else {
            None
        };
        MetaValue::Text { text, path }
    }
}

/// One argument of an annotation.
#[derive(Clone, Debug, PartialEq, Eq)]
pub enum Meta {
    /// `key = value`; `key` is the name where the key is a single name.
    NameValue { key: Option<String>, value: MetaValue },
    /// A bare path or a nested list.
    Other,
}

pub enum MetaView {
    NameValue { key: Option<Seq<char>>, value: MetaValueView },
    Other,
}

impl View for Meta {
    type V = MetaView;

    open spec fn view(&self) -> MetaView {
        match self {
            Meta::NameValue { key, value } => MetaView::NameValue {
                key: key.deep_view(),
                value: value@,
            },
            Meta::Other => MetaView::Other,
        }
    }
}

impl DeepView for Meta {
    type V = MetaView;

    open spec fn deep_view(&self) -> MetaView {
        self@
    }
}

impl Meta {
    /// A copy.
    pub fn duplicate(&self) -> (r: Meta)
        ensures
            r@ == self@,
    {
        match self {
            Meta::NameValue { key, value } => Meta::NameValue {
                key: copy_optional(key),
                value: value.duplicate(),
            },
            Meta::Other => Meta::Other,
        }
    }
}

/// What stands behind the name of an annotation.
#[derive(Clone, Debug, PartialEq, Eq)]
pub enum AttributeArgs {
    /// Nothing: the annotation is a bare name.
    Absent,
    /// A parenthesised, comma-separated list of arguments.
    List(Vec<Meta>),
    /// Something that does not read as such a list, with the reason.
    Malformed(String),
}

pub enum AttributeArgsView {
    Absent,
    List(Seq<MetaView>),
    Malformed(Seq<char>),
}

impl View for AttributeArgs {
    type V = AttributeArgsView;

    open spec fn view(&self) -> AttributeArgsView {
        match self {
            AttributeArgs::Absent => AttributeArgsView::Absent,
            AttributeArgs::List(items) => AttributeArgsView::List(items.deep_view()),
            AttributeArgs::Malformed(why) => AttributeArgsView::Malformed(why@),
        }
    }
}

impl AttributeArgs {
    /// A copy.
    pub fn duplicate(&self) -> (r: AttributeArgs)
        ensures
            r@ == self@,
    {
        match self {
            AttributeArgs::Absent => AttributeArgs::Absent,
            AttributeArgs::List(items) => {
                let mut out: Vec<Meta> = Vec::new();
                let mut i: usize = 0;
                while i < items.len()
                    invariant
                        i <= items.len(),
                        out.len() == i,
                        forall|j: int| 0 <= j < i ==> out[j]@ == items[j]@,
                    decreases items.len() - i,
                {
                    out.push(items[i].duplicate());
                    i += 1;
                }
                assert(out.deep_view() =~= items.deep_view());
                AttributeArgs::List(out)
            },
            AttributeArgs::Malformed(why) => AttributeArgs::Malformed(why.clone()),
        }
    }
}

/// An annotation on a declaration or on a case.
#[derive(Clone, Debug, PartialEq, Eq)]
pub struct Attribute {
    /// The annotation's name, where it is a single name.
    pub name: Option<String>,
    pub args: AttributeArgs,
    /// The annotation as written.
    pub text: String,
}

pub struct AttributeView {
    pub name: Option<Seq<char>>,
    pub args: AttributeArgsView,
    pub text: Seq<char>,
}

impl View for Attribute {
    type V = AttributeView;

    open spec fn view(&self) -> AttributeView {
        AttributeView { name: self.name.deep_view(), args: self.args@, text: self.text@ }
    }
}

impl DeepView for Attribute {
    type V = AttributeView;

    open spec fn deep_view(&self) -> AttributeView {
        self@
    }
}

impl Attribute {
    /// A copy.
    pub fn duplicate(&self) -> (r: Attribute)
        ensures
            r@ == self@,
    {
        Attribute {
            name: copy_optional(&self.name),
            args: self.args.duplicate(),
            text: self.text.clone(),
        }
    }
}

/// A copy of a list of annotations.
pub fn copy_attributes(attrs: &Vec<Attribute>) -> (r: Vec<Attribute>)
    ensures
        r.deep_view() == attrs.deep_view(),
{
    let mut out: Vec<Attribute> = Vec::new();
    let mut i: usize = 0;
    while i < attrs.len()
        invariant
            i <= attrs.len(),
            out.len() == i,
            forall|j: int| 0 <= j < i ==> out[j]@ == attrs[j]@,
        decreases attrs.len() - i,
    {
        out.push(attrs[i].duplicate());
        i += 1;
    }
    assert(out.deep_view() =~= attrs.deep_view());
    out
}

/// A reference to a type in a field.
#[derive(Clone, Debug, PartialEq, Eq)]
pub struct TypeRef {
    /// The type as written.
    pub text: String,
    /// The names of its path segments, where the type is an unqualified path.
    pub path: Option<Vec<String>>,
}

pub struct TypeRefView {
    pub text: Seq<char>,
    pub path: Option<Seq<Seq<char>>>,
}

impl View for TypeRef {
    type V = TypeRefView;

    open spec fn view(&self) -> TypeRefView {
        TypeRefView { text: self.text@, path: self.path.deep_view() }
    }
}

impl DeepView for TypeRef {
    type V = TypeRefView;

    open spec fn deep_view(&self) -> TypeRefView {
        self@
    }
}

impl TypeRef {
    /// A copy.
    pub fn duplicate(&self) -> (r: TypeRef)
        ensures
            r@ == self@,
    {
        let path = match &self.path {
            Some(p) => Some(copy_names(p)),
            None => None,
        };
        TypeRef { text: self.text.clone(), path }
    }
}

/// A named field of a record case.
#[derive(Clone, Debug, PartialEq, Eq)]
pub struct NamedField {
    pub name: String,
    pub ty: TypeRef,
}

pub struct NamedFieldView {
    pub name: Seq<char>,
    pub ty: TypeRefView,
}

impl View for NamedField {
    type V = NamedFieldView;

    open spec fn view(&self) -> NamedFieldView {
        NamedFieldView { name: self.name@, ty: self.ty@ }
    }
}

impl DeepView for NamedField {
    type V = NamedFieldView;

    open spec fn deep_view(&self) -> NamedFieldView {
        self@
    }
}

/// The data that a case carries.
#[derive(Clone, Debug, PartialEq, Eq)]
pub enum Payload {
    /// No data.
    Unit,
    /// Positional fields, in declared order.
    Tuple(Vec<TypeRef>),
    /// Named fields, in declared order.
    Record(Vec<NamedField>),
}

pub enum PayloadView {
    Unit,
    Tuple(Seq<TypeRefView>),
    Record(Seq<NamedFieldView>),
}

impl View for Payload {
    type V = PayloadView;

    open spec fn view(&self) -> PayloadView {
        match self {
            Payload::Unit => PayloadView::Unit,
            Payload::Tuple(fields) => PayloadView::Tuple(fields.deep_view()),
            Payload::Record(fields) => PayloadView::Record(fields.deep_view()),
        }
    }
}

impl Payload {
    /// A copy.
    pub fn duplicate(&self) -> (r: Payload)
        ensures
            r@ == self@,
    {
        match self {
            Payload::Unit => Payload::Unit,
            Payload::Tuple(fields) => {
                let mut out: Vec<TypeRef> = Vec::new();
                let mut i: usize = 0;
                while i < fields.len()
                    invariant
                        i <= fields.len(),
                        out.len() == i,
                        forall|j: int| 0 <= j < i ==> out[j]@ == fields[j]@,
                    decreases fields.len() - i,
                {
                    out.push(fields[i].duplicate());
                    i += 1;
                }
                assert(out.deep_view() =~= fields.deep_view());
                Payload::Tuple(out)
            },
            Payload::Record(fields) => {
                let mut out: Vec<NamedField> = Vec::new();
                let mut i: usize = 0;
                while i < fields.len()
                    invariant
                        i <= fields.len(),
                        out.len() == i,
                        forall|j: int| 0 <= j < i ==> out[j]@ == fields[j]@,
                    decreases fields.len() - i,
                {
                    out.push(NamedField { name: fields[i].name.clone(), ty: fields[i].ty.duplicate() });
                    i += 1;
                }
                assert(out.deep_view() =~= fields.deep_view());
                Payload::Record(out)
            },
        }
    }
}

/// One named alternative of a declaration.
#[derive(Clone, Debug, PartialEq, Eq)]
pub struct Case {
    pub name: String,
    pub attrs: Vec<Attribute>,
    pub payload: Payload,
}

pub struct CaseView {
    pub name: Seq<char>,
    pub attrs: Seq<AttributeView>,
    pub payload: PayloadView,
}

impl View for Case {
    type V = CaseView;

    open spec fn view(&self) -> CaseView {
        CaseView { name: self.name@, attrs: self.attrs.deep_view(), payload: self.payload@ }
    }
}

impl DeepView for Case {
    type V = CaseView;

    open spec fn deep_view(&self) -> CaseView {
        self@
    }
}

impl Case {
    /// A copy.
    pub fn duplicate(&self) -> (r: Case)
        ensures
            r@ == self@,
    {
        Case {
            name: self.name.clone(),
            attrs: copy_attributes(&self.attrs),
            payload: self.payload.duplicate(),
        }
    }
}

/// A named sum type.
#[derive(Clone, Debug, PartialEq, Eq)]
pub struct Declaration {
    pub name: String,
    pub attrs: Vec<Attribute>,
    pub cases: Vec<Case>,
}

pub struct DeclarationView {
    pub name: Seq<char>,
    pub attrs: Seq<AttributeView>,
    pub cases: Seq<CaseView>,
}

impl View for Declaration {
    type V = DeclarationView;

    open spec fn view(&self) -> DeclarationView {
        DeclarationView {
            name: self.name@,
            attrs: self.attrs.deep_view(),
            cases: self.cases.deep_view(),
        }
    }
}

impl DeepView for Declaration {
    type V = DeclarationView;

    open spec fn deep_view(&self) -> DeclarationView {
        self@
    }
}

impl Declaration {
    /// A copy.
    pub fn duplicate(&self) -> (r: Declaration)
        ensures
            r@ == self@,
    {
        let mut cases: Vec<Case> = Vec::new();
        let mut i: usize = 0;
        while i < self.cases.len()
            invariant
                i <= self.cases.len(),
                cases.len() == i,
                forall|j: int| 0 <= j < i ==> cases[j]@ == self.cases[j]@,
            decreases self.cases.len() - i,
        {
            cases.push(self.cases[i].duplicate());
            i += 1;
        }
        assert(cases.deep_view() =~= self.cases.deep_view());
        Declaration { name: self.name.clone(), attrs: copy_attributes(&self.attrs), cases }
    }
}

/// A copy of a list of declarations.
pub fn copy_declarations(decls: &Vec<Declaration>) -> (r: Vec<Declaration>)
    ensures
        r.deep_view() == decls.deep_view(),
{
    let mut out: Vec<Declaration> = Vec::new();
    let mut i: usize = 0;
    while i < decls.len()
        invariant
            i <= decls.len(),
            out.len() == i,
            forall|j: int| 0 <= j < i ==> out[j]@ == decls[j]@,
        decreases decls.len() - i,
    {
        out.push(decls[i].duplicate());
        i += 1;
    }
    assert(out.deep_view() =~= decls.deep_view());
    out
}

/// An item of a source file or of an inline module.
#[derive(Debug, PartialEq, Eq)]
pub enum Item {
    /// A sum type.
    Declaration(Declaration),
    /// A module that is written inline, with its body.
    Module { name: String, items: Vec<Item> },
    /// Anything else, a module that lives in a file of its own included.
    Other,
}

pub enum ItemView {
    Declaration(DeclarationView),
    Module { name: Seq<char>, items: Seq<ItemView> },
    Other,
}

impl View for Item {
    type V = ItemView;

    open spec fn view(&self) -> ItemView
        decreases self,
    {
        match self {
            Item::Declaration(d) => ItemView::Declaration(d@),
            Item::Module { name, items } => ItemView::Module {
                name: name@,
                items: Seq::new(
                    items.len() as nat,
                    |i: int|
                        if 0 <= i < items.len() {
                            items[i].view()
                        } else {
                            ItemView::Other
                        },
                ),
            },
            Item::Other => ItemView::Other,
        }
    }
}

impl DeepView for Item {
    type V = ItemView;

    open spec fn deep_view(&self) -> ItemView {
        self@
    }
}

/// The view of an inline module's body is the view of each of its items.
pub proof fn lemma_module_view(item: Item)
    requires
        item is Module,
    ensures
        item@ is Module,
        item@->name == item->name@,
        item@->items == item->items.deep_view(),
{
    assert(item@->items =~= item->items.deep_view());
}

} // verus!
