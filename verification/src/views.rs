//! Mathematical views of the markup tree.
//!
//! Each tree type of `ast` has a mirror here whose text is `Seq<char>` and
//! whose lists are `Seq`.  The contracts of the folder speak over these
//! views; the `*_v` functions map a tree value to its view.

use crate::ast::{
    AttrName, AttrOrSpread, AttrValue, Expr, JsxAttr, JsxChild, JsxElement, JsxName, Prop, PropKey,
    TemplateTag,
};
use vstd::prelude::*;

verus! {

/// View of `JsxName`.
pub enum NameV {
    Ident(Seq<char>),
    Namespaced(Seq<char>, Seq<char>),
    Member,
}

/// View of `AttrName`.
pub enum AttrNameV {
    Ident(Seq<char>),
    Namespaced(Seq<char>, Seq<char>),
}

/// View of `PropKey`.
pub enum PropKeyV {
    Ident(Seq<char>),
    Str(Seq<char>),
    Other(u64),
}

/// View of `Prop`.
pub enum PropV {
    KeyValue(PropKeyV, ExprV),
    Spread(ExprV),
    Other(u64),
}

/// View of `Expr`.
pub enum ExprV {
    Str(Seq<char>),
    Bool(bool),
    Num(Seq<char>),
    BigInt(Seq<char>),
    Tpl(Seq<char>),
    Object(Seq<PropV>),
    Element(ElementV),
    Fragment(Seq<ChildV>),
    Empty,
    Other(u64),
}

/// View of `AttrValue`.
pub enum AttrValueV {
    Str(Seq<char>),
    Container(ExprV),
    EmptyContainer,
    Element(ElementV),
    Fragment(Seq<ChildV>),
}

/// View of `JsxAttr`.
pub struct AttrV {
    pub name: AttrNameV,
    pub value: Option<AttrValueV>,
}

/// View of `AttrOrSpread`.
pub enum AttrOrSpreadV {
    Attr(AttrV),
    Spread(ExprV),
}

/// View of `JsxChild`.
pub enum ChildV {
    Text(Seq<char>),
    Element(ElementV),
    Fragment(Seq<ChildV>),
    Container(ExprV),
    EmptyContainer,
    Spread(ExprV),
}

/// View of `JsxElement`.
pub struct ElementV {
    pub name: NameV,
    pub attrs: Seq<AttrOrSpreadV>,
    pub children: Seq<ChildV>,
}

/// View of `TemplateTag`.
pub enum TemplateTagV {
    Ident(Seq<char>),
    Member(Seq<char>, Seq<char>),
    Other(u64),
}

pub open spec fn name_v(n: JsxName) -> NameV {
    match n {
        JsxName::Ident(s) => NameV::Ident(s@),
        JsxName::Namespaced(ns, name) => NameV::Namespaced(ns@, name@),
        JsxName::Member => NameV::Member,
    }
}

pub open spec fn attr_name_v(n: AttrName) -> AttrNameV {
    match n {
        AttrName::Ident(s) => AttrNameV::Ident(s@),
        AttrName::Namespaced(ns, name) => AttrNameV::Namespaced(ns@, name@),
    }
}

pub open spec fn prop_key_v(k: PropKey) -> PropKeyV {
    match k {
        PropKey::Ident(s) => PropKeyV::Ident(s@),
        PropKey::Str(s) => PropKeyV::Str(s@),
        PropKey::Other(h) => PropKeyV::Other(h),
    }
}

pub open spec fn prop_v(p: Prop) -> PropV
    decreases p,
{
    match p {
        Prop::KeyValue(k, v) => PropV::KeyValue(prop_key_v(k), expr_v(v)),
        Prop::Spread(e) => PropV::Spread(expr_v(e)),
        Prop::Other(h) => PropV::Other(h),
    }
}

pub open spec fn props_v(ps: Seq<Prop>) -> Seq<PropV>
    decreases ps,
{
    Seq::new(
        ps.len(),
        |i: int|
            if 0 <= i < ps.len() {
                prop_v(ps[i])
            } else {
                arbitrary()
            },
    )
}

pub open spec fn expr_v(e: Expr) -> ExprV
    decreases e,
{
    match e {
        Expr::Str(s) => ExprV::Str(s@),
        Expr::Bool(b) => ExprV::Bool(b),
        Expr::Num(s) => ExprV::Num(s@),
        Expr::BigInt(s) => ExprV::BigInt(s@),
        Expr::Tpl(s) => ExprV::Tpl(s@),
        Expr::Object(ps) => ExprV::Object(props_v(ps@)),
        Expr::Element(el) => ExprV::Element(element_v(*el)),
        Expr::Fragment(ch) => ExprV::Fragment(children_v(ch@)),
        Expr::Empty => ExprV::Empty,
        Expr::Other(h) => ExprV::Other(h),
    }
}

pub open spec fn attr_value_v(v: AttrValue) -> AttrValueV
    decreases v,
{
    match v {
        AttrValue::Str(s) => AttrValueV::Str(s@),
        AttrValue::Container(e) => AttrValueV::Container(expr_v(e)),
        AttrValue::EmptyContainer => AttrValueV::EmptyContainer,
        AttrValue::Element(el) => AttrValueV::Element(element_v(*el)),
        AttrValue::Fragment(ch) => AttrValueV::Fragment(children_v(ch@)),
    }
}

pub open spec fn attr_v(a: JsxAttr) -> AttrV
    decreases a,
{
    AttrV {
        name: attr_name_v(a.name),
        value: match a.value {
            Some(v) => Some(attr_value_v(v)),
            None => None,
        },
    }
}

pub open spec fn attr_or_spread_v(a: AttrOrSpread) -> AttrOrSpreadV
    decreases a,
{
    match a {
        AttrOrSpread::Attr(at) => AttrOrSpreadV::Attr(attr_v(at)),
        AttrOrSpread::Spread(e) => AttrOrSpreadV::Spread(expr_v(e)),
    }
}

pub open spec fn attrs_v(attrs: Seq<AttrOrSpread>) -> Seq<AttrOrSpreadV>
    decreases attrs,
{
    Seq::new(
        attrs.len(),
        |i: int|
            if 0 <= i < attrs.len() {
                attr_or_spread_v(attrs[i])
            } else {
                arbitrary()
            },
    )
}

pub open spec fn child_v(c: JsxChild) -> ChildV
    decreases c,
{
    match c {
        JsxChild::Text(s) => ChildV::Text(s@),
        JsxChild::Element(el) => ChildV::Element(element_v(*el)),
        JsxChild::Fragment(ch) => ChildV::Fragment(children_v(ch@)),
        JsxChild::Container(e) => ChildV::Container(expr_v(e)),
        JsxChild::EmptyContainer => ChildV::EmptyContainer,
        JsxChild::Spread(e) => ChildV::Spread(expr_v(e)),
    }
}

pub open spec fn children_v(ch: Seq<JsxChild>) -> Seq<ChildV>
    decreases ch,
{
    Seq::new(
        ch.len(),
        |i: int|
            if 0 <= i < ch.len() {
                child_v(ch[i])
            } else {
                arbitrary()
            },
    )
}

pub open spec fn element_v(e: JsxElement) -> ElementV
    decreases e,
{
    ElementV { name: name_v(e.name), attrs: attrs_v(e.attrs@), children: children_v(e.children@) }
}

pub open spec fn template_tag_v(t: TemplateTag) -> TemplateTagV {
    match t {
        TemplateTag::Ident(s) => TemplateTagV::Ident(s@),
        TemplateTag::Member(a, b) => TemplateTagV::Member(a@, b@),
        TemplateTag::Other(h) => TemplateTagV::Other(h),
    }
}

/// View of a segment list.
pub open spec fn quasis_v(qs: Seq<String>) -> Seq<Seq<char>> {
    Seq::new(qs.len(), |i: int| qs[i]@)
}

/// View of a slot list.
pub open spec fn exprs_v(es: Seq<Expr>) -> Seq<ExprV> {
    Seq::new(es.len(), |i: int| expr_v(es[i]))
}

} // verus!
