//! What is generated for a type: the decisions of the three derives.
//!
//! A derive is given the declaration of a type as plain values: its name, its
//! kind, and its attributes as far as they read as meta items. It answers
//! with what to generate, or with the reason why nothing is generated. Only a
//! struct that is exported to the host, which shows by its `wasm_bindgen`
//! attribute, gets conversions.

use vstd::prelude::*;
use vstd::string::*;
use crate::search::{first, lemma_first_is, lemma_first_is_none};
use crate::text::same_text;
use crate::tokens::lex;

verus! {

/// The three derives.
#[derive(Clone, Copy, Debug, PartialEq, Eq, Structural)]
pub enum Derive {
    /// The downcast of a single boundary value.
    TryFromJsValue,
    /// The export of a sequence of native values.
    TryVecToJsArray,
    /// The import of a boundary collection.
    TryJsArrayToVec,
}

/// The kind of the type that a derive stands on.
#[derive(Clone, Copy, Debug, PartialEq, Eq, Structural)]
pub enum Data {
    Struct,
    Enum,
    Union,
}

/// A literal in an attribute.
#[derive(Clone, Debug, PartialEq, Eq)]
pub enum Lit {
    /// A string literal, with the text that it stands for.
    Str(String),
    /// Any other literal.
    Other,
}

/// One item in the list of an attribute.
#[derive(Clone, Debug, PartialEq, Eq)]
pub enum NestedMeta {
    /// `name = literal`. `ident` is the name where it is a lone identifier.
    NameValue { ident: Option<String>, lit: Lit },
    /// Anything else: a literal, a path, or a list of its own.
    Other,
}

/// One attribute of the type. `ident` is its name where that is a lone
/// identifier, and `None` where it is a longer path.
#[derive(Clone, Debug, PartialEq, Eq)]
pub enum Attribute {
    /// The attribute does not read as a meta item.
    Unparsed,
    /// `#[name]`
    Path { ident: Option<String> },
    /// `#[name(..)]`, with the items of the list in order.
    List { ident: Option<String>, nested: Vec<NestedMeta> },
    /// `#[name = literal]`
    NameValue { ident: Option<String>, lit: Lit },
}

/// The declaration of the type that a derive stands on.
#[derive(Clone, Debug, PartialEq, Eq)]
pub struct DeriveInput {
    /// The name of the type.
    pub ident: String,
    /// Its kind.
    pub data: Data,
    /// Its attributes, in the order in which they are written.
    pub attrs: Vec<Attribute>,
}

/// The options that the `ergo` attribute gives to the two bulk derives.
#[derive(Clone, Debug, PartialEq, Eq)]
pub struct TryVecToJsArrayOpts {
    /// The name of the array type that is declared as the counterpart of a
    /// sequence of the type.
    pub array_type: String,
}

/// The attribute under which the boundary-callable part of the downcast is
/// exported.
#[derive(Debug)]
pub enum ClassAttribute {
    /// `wasm_bindgen`: the type is known to the host under its own name.
    Plain,
    /// `wasm_bindgen(js_class = "..")`: the type is known to the host as
    /// `js_class`. `text` is the attribute as text and `tokens` the same as
    /// tokens.
    WithClass { js_class: String, text: String, tokens: proc_macro2::TokenStream },
}

/// What `TryFromJsValue` generates: the identity accessor and the downcast of
/// the type `name`.
#[derive(Debug)]
pub struct TryFromJsValueImpl {
    pub name: String,
    pub attribute: ClassAttribute,
}

/// What `TryVecToJsArray` generates: the trait `trait_name` with the two
/// exports, for sequences of the type `name`, which return `return_type`.
#[derive(Clone, Debug, PartialEq, Eq)]
pub struct TryVecToJsArrayImpl {
    pub name: String,
    pub trait_name: String,
    pub return_type: String,
}

/// What `TryJsArrayToVec` generates: the trait `trait_name` with the import,
/// for references to `array_type`, which returns values of the type `name`.
#[derive(Clone, Debug, PartialEq, Eq)]
pub struct TryJsArrayToVecImpl {
    pub name: String,
    pub trait_name: String,
    pub array_type: String,
}

/// Why a derive generates nothing.
#[derive(Clone, Debug, PartialEq, Eq)]
pub enum DeriveError {
    /// The type is no struct.
    NotAStruct { derive: Derive },
    /// The type has no `wasm_bindgen` attribute.
    NotExported { derive: Derive },
    /// The class attribute, written out as `text`, is no sequence of tokens.
    MalformedClass { text: String },
}

/// The text of an optional name.
pub open spec fn text_of(name: Option<String>) -> Option<Seq<char>> {
    match name {
        Some(name) => Some(name@),
        None => None,
    }
}

/// The mathematical value of a `Lit`.
pub enum LitView {
    Str(Seq<char>),
    Other,
}

/// The mathematical value of a `NestedMeta`.
pub enum NestedMetaView {
    NameValue { ident: Option<Seq<char>>, lit: LitView },
    Other,
}

/// The mathematical value of an `Attribute`.
pub enum AttributeView {
    Unparsed,
    Path { ident: Option<Seq<char>> },
    List { ident: Option<Seq<char>>, nested: Seq<NestedMetaView> },
    NameValue { ident: Option<Seq<char>>, lit: LitView },
}

/// The mathematical value of a `DeriveInput`.
pub struct DeriveInputView {
    pub ident: Seq<char>,
    pub data: Data,
    pub attrs: Seq<AttributeView>,
}

/// The mathematical value of a `DeriveError`.
pub enum DeriveErrorView {
    NotAStruct { derive: Derive },
    NotExported { derive: Derive },
    MalformedClass { text: Seq<char> },
}

impl View for Lit {
    type V = LitView;

    open spec fn view(&self) -> LitView {
        match self {
            Lit::Str(text) => LitView::Str(text@),
            Lit::Other => LitView::Other,
        }
    }
}

impl View for NestedMeta {
    type V = NestedMetaView;

    open spec fn view(&self) -> NestedMetaView {
        match self {
            NestedMeta::NameValue { ident, lit } => NestedMetaView::NameValue {
                ident: text_of(*ident),
                lit: lit@,
            },
            NestedMeta::Other => NestedMetaView::Other,
        }
    }
}

/// The values of the items of a list, one for one.
pub open spec fn nested_views(nested: Seq<NestedMeta>) -> Seq<NestedMetaView> {
    Seq::new(nested.len(), |i: int| nested[i]@)
}

impl View for Attribute {
    type V = AttributeView;

    open spec fn view(&self) -> AttributeView {
        match self {
            Attribute::Unparsed => AttributeView::Unparsed,
            Attribute::Path { ident } => AttributeView::Path { ident: text_of(*ident) },
            Attribute::List { ident, nested } => AttributeView::List {
                ident: text_of(*ident),
                nested: nested_views(nested@),
            },
            Attribute::NameValue { ident, lit } => AttributeView::NameValue {
                ident: text_of(*ident),
                lit: lit@,
            },
        }
    }
}

/// The values of a sequence of attributes, one for one.
pub open spec fn attribute_views(attrs: Seq<Attribute>) -> Seq<AttributeView> {
    Seq::new(attrs.len(), |i: int| attrs[i]@)
}

impl View for DeriveInput {
    type V = DeriveInputView;

    open spec fn view(&self) -> DeriveInputView {
        DeriveInputView {
            ident: self.ident@,
            data: self.data,
            attrs: attribute_views(self.attrs@),
        }
    }
}

impl View for DeriveError {
    type V = DeriveErrorView;

    open spec fn view(&self) -> DeriveErrorView {
        match self {
            DeriveError::NotAStruct { derive } => DeriveErrorView::NotAStruct { derive: *derive },
            DeriveError::NotExported { derive } => DeriveErrorView::NotExported { derive: *derive },
            DeriveError::MalformedClass { text } => DeriveErrorView::MalformedClass { text: text@ },
        }
    }
}

impl Derive {
    /// The name under which the derive is written.
    pub open spec fn spec_name(self) -> Seq<char> {
        match self {
            Derive::TryFromJsValue => "TryFromJsValue"@,
            Derive::TryVecToJsArray => "TryVecToJsArray"@,
            Derive::TryJsArrayToVec => "TryJsArrayToVec"@,
        }
    }

    /// The name under which the derive is written.
    pub fn name(&self) -> (name: &'static str)
        ensures
            name@ == self.spec_name(),
    {
        match self {
            Derive::TryFromJsValue => "TryFromJsValue",
            Derive::TryVecToJsArray => "TryVecToJsArray",
            Derive::TryJsArrayToVec => "TryJsArrayToVec",
        }
    }
}

impl NestedMetaView {
    /// The name that the item gives to the type on the host's side: the text
    /// of `js_name = ".."`, where the item is one.
    pub open spec fn js_name(self) -> Option<Seq<char>> {
        match self {
            NestedMetaView::NameValue { ident: Some(ident), lit: LitView::Str(text) } => if ident
                == "js_name"@ {
                Some(text)
            } else {
                None
            },
            _ => None,
        }
    }
}

/// The item gives the type a name on the host's side.
pub open spec fn gives_js_name() -> spec_fn(NestedMetaView) -> bool {
    |item: NestedMetaView| item.js_name() is Some
}

/// The attribute is written with the lone identifier `name`.
pub open spec fn is_named(name: Seq<char>) -> spec_fn(AttributeView) -> bool {
    |attr: AttributeView| attr.ident() == Some(name)
}

impl AttributeView {
    /// The name of the attribute, where it reads as a meta item and its name
    /// is a lone identifier.
    pub open spec fn ident(self) -> Option<Seq<char>> {
        match self {
            AttributeView::Unparsed => None,
            AttributeView::Path { ident } => ident,
            AttributeView::List { ident, .. } => ident,
            AttributeView::NameValue { ident, .. } => ident,
        }
    }

    /// The class that the host knows the type as: what the first `js_name` in
    /// the attribute's list gives, where the attribute has a list and the
    /// list has such an item.
    pub open spec fn js_class(self) -> Option<Seq<char>> {
        match self {
            AttributeView::List { nested, .. } => match first(nested, gives_js_name()) {
                Some(index) => nested[index].js_name(),
                None => None,
            },
            _ => None,
        }
    }
}

/// The attribute that exports the type to the host: the first one that is
/// named `wasm_bindgen`.
pub open spec fn wasm_bindgen_attribute(attrs: Seq<AttributeView>) -> Option<AttributeView> {
    match first(attrs, is_named("wasm_bindgen"@)) {
        Some(index) => Some(attrs[index]),
        None => None,
    }
}

/// What every derive asks of the type before it generates anything: it is a
/// struct, and it is exported. The result is the exporting attribute, or the
/// reason why `derive` generates nothing.
pub open spec fn exporting_attribute(input: DeriveInputView, derive: Derive) -> Result<
    AttributeView,
    DeriveErrorView,
> {
    if !(input.data is Struct) {
        Err(DeriveErrorView::NotAStruct { derive })
    } else {
        match wasm_bindgen_attribute(input.attrs) {
            Some(attr) => Ok(attr),
            None => Err(DeriveErrorView::NotExported { derive }),
        }
    }
}

/// The class attribute for the class `js_class`, as text.
pub open spec fn class_attribute_text(js_class: Seq<char>) -> Seq<char> {
    "wasm_bindgen(js_class = \""@ + js_class + "\")"@
}

/// The name of the trait that holds the exports of sequences of `name`.
pub open spec fn export_trait_name(name: Seq<char>) -> Seq<char> {
    "__ergo__"@ + name + "__TryToJsArray"@
}

/// The name of the trait that holds the import of sequences of `name`.
pub open spec fn import_trait_name(name: Seq<char>) -> Seq<char> {
    "__ergo__"@ + name + "__TryJsArrayToVec"@
}

impl DeriveErrorView {
    /// The description of the failure.
    pub open spec fn message(self) -> Seq<char> {
        match self {
            DeriveErrorView::NotAStruct { derive } => derive.spec_name()
                + " may only be derived on structs"@,
            DeriveErrorView::NotExported { derive } => derive.spec_name()
                + " can be defined only on struct exported to wasm with #[wasm_bindgen]"@,
            DeriveErrorView::MalformedClass { text } => "cannot read the attribute "@ + text,
        }
    }
}

impl DeriveError {
    /// Writes the failure out, as the text of a compile error.
    pub fn message(&self) -> (text: String)
        ensures
            text@ == self@.message(),
    {
        match self {
            DeriveError::NotAStruct { derive } => {
                let mut text = String::from_str(derive.name());
                text.append(" may only be derived on structs");
                text
            },
            DeriveError::NotExported { derive } => {
                let mut text = String::from_str(derive.name());
                text.append(" can be defined only on struct exported to wasm with #[wasm_bindgen]");
                text
            },
            DeriveError::MalformedClass { text } => {
                let mut message = String::from_str("cannot read the attribute ");
                message.append(text.as_str());
                message
            },
        }
    }
}

/// The optional name is the lone identifier `name`.
fn ident_is(ident: &Option<String>, name: &str) -> (same: bool)
    ensures
        same == (text_of(*ident) == Some(name@)),
{
    match ident {
        Some(ident) => same_text(ident.as_str(), name),
        None => false,
    }
}

impl NestedMeta {
    /// The name that the item gives to the type on the host's side, where it
    /// gives one.
    pub fn js_name(&self) -> (name: Option<String>)
        ensures
            text_of(name) == self@.js_name(),
    {
        match self {
            NestedMeta::NameValue { ident: Some(ident), lit: Lit::Str(text) } => {
                if same_text(ident.as_str(), "js_name") {
                    Some(text.clone())
                } else {
                    None
                }
            },
            _ => None,
        }
    }
}

impl Attribute {
    /// The attribute is written with the lone identifier `name`.
    pub fn is_ident(&self, name: &str) -> (same: bool)
        ensures
            same == (self@.ident() == Some(name@)),
    {
        match self {
            Attribute::Unparsed => false,
            Attribute::Path { ident } => ident_is(ident, name),
            Attribute::List { ident, .. } => ident_is(ident, name),
            Attribute::NameValue { ident, .. } => ident_is(ident, name),
        }
    }

    /// The class that the host knows the type as, where the attribute names
    /// one.
    pub fn js_class(&self) -> (class: Option<String>)
        ensures
            text_of(class) == self@.js_class(),
    {
        let nested = match self {
            Attribute::List { nested, .. } => nested,
            _ => {
                return None;
            },
        };
        let mut i: usize = 0;
        while i < nested.len()
            invariant
                i <= nested.len(),
                self@ matches AttributeView::List { nested: items, .. } && items == nested_views(
                    nested@,
                ),
                forall|j: int|
                    0 <= j < i ==> !#[trigger] (gives_js_name())(nested_views(nested@)[j]),
            decreases nested.len() - i,
        {
            let name = nested[i].js_name();
            if name.is_some() {
                proof {
                    lemma_first_is(nested_views(nested@), gives_js_name(), i as int);
                }
                return name;
            }
            i = i + 1;
        }
        proof {
            lemma_first_is_none(nested_views(nested@), gives_js_name());
        }
        None
    }
}

impl DeriveInput {
    /// Finds the attribute that exports the type to the host, as every derive
    /// does before it generates anything.
    pub fn exporting_attribute(&self, derive: Derive) -> (r: Result<&Attribute, DeriveError>)
        ensures
            match r {
                Ok(attr) => exporting_attribute(self@, derive) == Ok::<
                    AttributeView,
                    DeriveErrorView,
                >(attr@),
                Err(error) => exporting_attribute(self@, derive) == Err::<
                    AttributeView,
                    DeriveErrorView,
                >(error@),
            },
    {
        match self.data {
            Data::Struct => {},
            _ => {
                return Err(DeriveError::NotAStruct { derive });
            },
        }
        let mut i: usize = 0;
        while i < self.attrs.len()
            invariant
                i <= self.attrs.len(),
                self.data is Struct,
                forall|j: int|
                    0 <= j < i ==> !#[trigger] (is_named("wasm_bindgen"@))(
                        attribute_views(self.attrs@)[j],
                    ),
            decreases self.attrs.len() - i,
        {
            if self.attrs[i].is_ident("wasm_bindgen") {
                proof {
                    lemma_first_is(
                        attribute_views(self.attrs@),
                        is_named("wasm_bindgen"@),
                        i as int,
                    );
                }
                return Ok(&self.attrs[i]);
            }
            i = i + 1;
        }
        proof {
            lemma_first_is_none(attribute_views(self.attrs@), is_named("wasm_bindgen"@));
        }
        Err(DeriveError::NotExported { derive })
    }
}

impl ClassAttribute {
    /// The class attribute for `js_class`, once its text has been lexed:
    /// with the tokens where there are tokens, and else the failure that the
    /// text is malformed.
    pub fn from_lexed(
        js_class: String,
        text: String,
        lexed: Result<proc_macro2::TokenStream, proc_macro2::LexError>,
    ) -> (r: Result<ClassAttribute, DeriveError>)
        ensures
            match lexed {
                Ok(tokens) => r == Ok::<ClassAttribute, DeriveError>(
                    ClassAttribute::WithClass { js_class, text, tokens },
                ),
                Err(_) => r == Err::<ClassAttribute, DeriveError>(
                    DeriveError::MalformedClass { text },
                ),
            },
    {
        match lexed {
            Ok(tokens) => Ok(ClassAttribute::WithClass { js_class, text, tokens }),
            Err(_) => Err(DeriveError::MalformedClass { text }),
        }
    }

    /// The class attribute for an optional class. Without a class it is the
    /// plain attribute. With one, the attribute is written out and lexed;
    /// whether the text lexes is not decided here.
    pub fn new(js_class: Option<String>) -> (r: Result<ClassAttribute, DeriveError>)
        ensures
            match js_class {
                None => r matches Ok(attribute) && attribute is Plain,
                Some(class) => match r {
                    Ok(attribute) => {
                        &&& attribute matches ClassAttribute::WithClass { js_class, text, .. }
                        &&& js_class == class
                        &&& text@ == class_attribute_text(class@)
                    },
                    Err(error) => error@ == (DeriveErrorView::MalformedClass {
                        text: class_attribute_text(class@),
                    }),
                },
            },
    {
        match js_class {
            None => Ok(ClassAttribute::Plain),
            Some(class) => {
                let mut text = String::from_str("wasm_bindgen(js_class = \"");
                text.append(class.as_str());
                text.append("\")");
                let lexed = lex(text.as_str());
                ClassAttribute::from_lexed(class, text, lexed)
            },
        }
    }
}

/// Decides what `TryFromJsValue` generates for a type. A type that is no
/// struct, or is not exported, gets nothing. The type's `js_name`, where it
/// has one, becomes the class of the boundary-callable part.
pub fn derive_try_from_jsvalue(input: &DeriveInput) -> (r: Result<TryFromJsValueImpl, DeriveError>)
    ensures
        match exporting_attribute(input@, Derive::TryFromJsValue) {
            Err(reason) => r matches Err(error) && error@ == reason,
            Ok(attr) => match attr.js_class() {
                None => {
                    &&& r matches Ok(generated)
                    &&& generated.name@ == input@.ident
                    &&& generated.attribute is Plain
                },
                Some(class) => match r {
                    Ok(generated) => {
                        &&& generated.name@ == input@.ident
                        &&& generated.attribute matches ClassAttribute::WithClass {
                            js_class,
                            text,
                            ..
                        }
                        &&& js_class@ == class
                        &&& text@ == class_attribute_text(class)
                    },
                    Err(error) => error@ == (DeriveErrorView::MalformedClass {
                        text: class_attribute_text(class),
                    }),
                },
            },
        },
{
    let attr = match input.exporting_attribute(Derive::TryFromJsValue) {
        Ok(attr) => attr,
        Err(error) => {
            return Err(error);
        },
    };
    match ClassAttribute::new(attr.js_class()) {
        Ok(attribute) => Ok(TryFromJsValueImpl { name: input.ident.clone(), attribute }),
        Err(error) => Err(error),
    }
}

/// Decides what `TryVecToJsArray` generates for a type. A type that is no
/// struct, or is not exported, gets nothing.
pub fn derive_try_vec_to_js_array(input: &DeriveInput, opts: &TryVecToJsArrayOpts) -> (r: Result<
    TryVecToJsArrayImpl,
    DeriveError,
>)
    ensures
        match exporting_attribute(input@, Derive::TryVecToJsArray) {
            Err(reason) => r matches Err(error) && error@ == reason,
            Ok(_) => {
                &&& r matches Ok(generated)
                &&& generated.name@ == input@.ident
                &&& generated.trait_name@ == export_trait_name(input@.ident)
                &&& generated.return_type@ == opts.array_type@
            },
        },
{
    match input.exporting_attribute(Derive::TryVecToJsArray) {
        Ok(_) => {},
        Err(error) => {
            return Err(error);
        },
    }
    let mut trait_name = String::from_str("__ergo__");
    trait_name.append(input.ident.as_str());
    trait_name.append("__TryToJsArray");
    Ok(
        TryVecToJsArrayImpl {
            name: input.ident.clone(),
            trait_name,
            return_type: opts.array_type.clone(),
        },
    )
}

/// Decides what `TryJsArrayToVec` generates for a type. A type that is no
/// struct, or is not exported, gets nothing.
pub fn derive_try_js_array_to_vec(input: &DeriveInput, opts: &TryVecToJsArrayOpts) -> (r: Result<
    TryJsArrayToVecImpl,
    DeriveError,
>)
    ensures
        match exporting_attribute(input@, Derive::TryJsArrayToVec) {
            Err(reason) => r matches Err(error) && error@ == reason,
            Ok(_) => {
                &&& r matches Ok(generated)
                &&& generated.name@ == input@.ident
                &&& generated.trait_name@ == import_trait_name(input@.ident)
                &&& generated.array_type@ == opts.array_type@
            },
        },
{
    match input.exporting_attribute(Derive::TryJsArrayToVec) {
        Ok(_) => {},
        Err(error) => {
            return Err(error);
        },
    }
    let mut trait_name = String::from_str("__ergo__");
    trait_name.append(input.ident.as_str());
    trait_name.append("__TryJsArrayToVec");
    Ok(
        TryJsArrayToVecImpl {
            name: input.ident.clone(),
            trait_name,
            array_type: opts.array_type.clone(),
        },
    )
}

} // verus!
