//! A provider declaration as its author wrote it, before anything is checked:
//! the configuration of the provider, and the signature and the configuration
//! of each event.

use crate::errors::Span;
use crate::well_known_types::DeclaredType;
use vstd::prelude::*;

verus! {

/// The value that a configuration key is given.
#[derive(Debug)]
pub enum AttrValue {
    /// A string literal.
    Str(String),
    /// An integer literal.
    Int(u64),
    /// No value: the key stands alone.
    Flag,
    /// Any other form of value.
    Other,
}

/// One item of configuration: a key, its value, and where it stands.
#[derive(Debug)]
pub struct RawAttr {
    /// The key.
    pub key: String,
    /// The value.
    pub value: AttrValue,
    /// Where the item stands.
    pub span: Span,
}

/// What an attribute on an event or on a parameter is.
#[derive(Copy, Clone, PartialEq, Eq, Structural, Hash, Debug)]
pub enum AttrKind {
    /// Documentation, which is carried through.
    Doc,
    /// Event options, written as a list of items.
    Event,
    /// Event options that are not written as a list of items.
    EventMalformed,
    /// Any other attribute.
    Foreign,
}

/// An attribute on an event or on a parameter.
#[derive(Debug)]
pub struct RawAttribute {
    /// What the attribute is.
    pub kind: AttrKind,
    /// The items of an event-options attribute; the text of documentation
    /// as the string value of one item.
    pub items: Vec<RawAttr>,
    /// Where the attribute stands.
    pub span: Span,
}

/// One parameter of an event signature.
#[derive(Debug)]
pub struct RawParam {
    /// Whether the parameter is a receiver, such as `&self`.
    pub receiver: bool,
    /// Whether the parameter is bound by a plain identifier.
    pub plain_name: bool,
    /// The name of the parameter.
    pub name: String,
    /// The declared type of the parameter.
    pub ty: DeclaredType,
    /// The attributes on the parameter.
    pub attrs: Vec<RawAttribute>,
    /// Where the parameter stands.
    pub span: Span,
}

/// The signature of one event, and what is attached to it.
#[derive(Debug)]
pub struct RawEvent {
    /// The name of the event.
    pub name: String,
    /// Whether the signature is marked asynchronous.
    pub is_async: bool,
    /// Whether the signature is marked unsafe.
    pub is_unsafe: bool,
    /// Whether the signature has generic parameters, lifetimes among them.
    pub is_generic: bool,
    /// Whether the signature has a return type.
    pub has_return_type: bool,
    /// Whether the signature comes with a body.
    pub has_body: bool,
    /// The documentation of the event: free text, which is carried through.
    pub doc: String,
    /// The parameters, in the order of the signature.
    pub params: Vec<RawParam>,
    /// The attributes on the event.
    pub attrs: Vec<RawAttribute>,
    /// Where the event stands.
    pub span: Span,
}

/// The kind of item that a provider declaration is attached to.
#[derive(Copy, Clone, PartialEq, Eq, Structural, Hash, Debug)]
pub enum ItemKind {
    /// A group of event signatures.
    Trait,
    /// Any other kind of item.
    Other,
}

/// A provider declaration as its author wrote it.
#[derive(Debug)]
pub struct RawDeclaration {
    /// The kind of item that the declaration is attached to.
    pub kind: ItemKind,
    /// The identifier of the item; the provider's name where no name is configured.
    pub ident: String,
    /// The configuration of the provider.
    pub attrs: Vec<RawAttr>,
    /// The events, in the order in which they are declared.
    pub events: Vec<RawEvent>,
    /// Where the declaration stands.
    pub span: Span,
}

} // verus!
