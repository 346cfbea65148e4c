//! The markup tree that the folder works on.
//!
//! These types carry, as plain values, exactly what the folding logic reads
//! of the host language's syntax tree: tag names, attribute names and
//! values, children, object-literal properties, and the configured template
//! tag.  A host expression that the folder never looks inside is carried as
//! an opaque handle (`Expr::Other`), under which the caller keeps the real
//! node.  Numeric and big-integer literals are carried as their printed
//! text, which is all the folder ever uses of them.

use vstd::prelude::*;

verus! {

/// The tag name of a markup element.
#[derive(Debug, PartialEq, Eq)]
pub enum JsxName {
    /// A plain identifier, such as `div`.
    Ident(String),
    /// A namespaced name `ns:name`.
    Namespaced(String, String),
    /// A member path such as `a.b`: not a foldable element name.
    Member,
}

/// The name of one attribute.
#[derive(Debug, PartialEq, Eq)]
pub enum AttrName {
    /// A plain identifier.
    Ident(String),
    /// A namespaced name `ns:name`.
    Namespaced(String, String),
}

/// The key of an object-literal property.
#[derive(Debug, PartialEq, Eq)]
pub enum PropKey {
    /// A plain-name key.
    Ident(String),
    /// A string-literal key.
    Str(String),
    /// Any other key shape (computed, numeric, ...), by opaque handle.
    Other(u64),
}

/// One property of an object literal.
#[derive(Debug, PartialEq, Eq)]
pub enum Prop {
    /// `key: value`.
    KeyValue(PropKey, Expr),
    /// `...expr`.
    Spread(Expr),
    /// Any other property shape (shorthand, method, getter, ...), by
    /// opaque handle.
    Other(u64),
}

/// A host expression, as far as the folder reads it.
#[derive(Debug, PartialEq, Eq)]
pub enum Expr {
    /// A string literal.
    Str(String),
    /// A boolean literal.
    Bool(bool),
    /// A numeric literal, carried as its printed text.
    Num(String),
    /// A big-integer literal, carried as its base-10 digits.
    BigInt(String),
    /// A template literal with no interpolations, carried as the text of
    /// its single segment (the cooked text, or the trimmed raw text when
    /// no cooked text exists).
    Tpl(String),
    /// An inline object literal.
    Object(Vec<Prop>),
    /// A nested markup element.
    Element(Box<JsxElement>),
    /// A nested markup fragment (its children).
    Fragment(Vec<JsxChild>),
    /// An empty expression (the inside of an empty `{}` container).
    Empty,
    /// Any other expression, by opaque handle.
    Other(u64),
}

/// The value of one attribute.
#[derive(Debug, PartialEq, Eq)]
pub enum AttrValue {
    /// `name="text"`: a plain string-literal value.
    Str(String),
    /// `name={expr}`: an expression container.
    Container(Expr),
    /// `name={}`: an empty expression container.
    EmptyContainer,
    /// `name=<elt/>`: a markup element as the value.
    Element(Box<JsxElement>),
    /// `name=<>...</>`: a markup fragment as the value.
    Fragment(Vec<JsxChild>),
}

/// One attribute: a name and an optional value.  An attribute without a
/// value marks bare presence.
#[derive(Debug, PartialEq, Eq)]
pub struct JsxAttr {
    pub name: AttrName,
    pub value: Option<AttrValue>,
}

/// One entry of an element's attribute list: an attribute or a spread.
#[derive(Debug, PartialEq, Eq)]
pub enum AttrOrSpread {
    Attr(JsxAttr),
    Spread(Expr),
}

/// One child of an element or fragment.
#[derive(Debug, PartialEq, Eq)]
pub enum JsxChild {
    /// Literal text between tags.
    Text(String),
    /// A nested element.
    Element(Box<JsxElement>),
    /// A nested fragment.
    Fragment(Vec<JsxChild>),
    /// `{expr}`: an expression container.
    Container(Expr),
    /// `{}`: an empty expression container (skipped by the folder).
    EmptyContainer,
    /// `{...expr}`: a spread child.
    Spread(Expr),
}

/// A markup element: tag name, attributes, children.
#[derive(Debug, PartialEq, Eq)]
pub struct JsxElement {
    pub name: JsxName,
    pub attrs: Vec<AttrOrSpread>,
    pub children: Vec<JsxChild>,
}

/// The configured template-tag expression, as far as this library reads
/// it: a plain name (the only shape the import planner accepts), a
/// two-part member access (the default tag), or anything else by opaque
/// handle.
#[derive(Debug, PartialEq, Eq)]
pub enum TemplateTag {
    Ident(String),
    Member(String, String),
    Other(u64),
}

} // verus!
