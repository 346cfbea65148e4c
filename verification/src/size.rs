//! Sizes of markup-tree values: the termination measure of the folder.
//!
//! Every recursive pass over the tree strictly decreases the size of the
//! value it works on.

use crate::ast::{AttrOrSpread, AttrValue, Expr, JsxAttr, JsxChild, JsxElement, Prop};
use vstd::prelude::*;

verus! {

pub open spec fn prop_size(p: Prop) -> nat
    decreases p,
{
    match p {
        Prop::KeyValue(_, v) => expr_size(v) + 1,
        Prop::Spread(e) => expr_size(e) + 1,
        Prop::Other(_) => 1,
    }
}

pub open spec fn props_size(ps: Seq<Prop>) -> nat
    decreases ps,
{
    if ps.len() == 0 {
        0
    } else {
        prop_size(ps[0]) + props_size(ps.drop_first())
    }
}

pub open spec fn expr_size(e: Expr) -> nat
    decreases e,
{
    match e {
        Expr::Object(ps) => props_size(ps@) + 1,
        Expr::Element(el) => element_size(*el) + 1,
        Expr::Fragment(ch) => children_size(ch@) + 1,
        _ => 1,
    }
}

pub open spec fn attr_value_size(v: AttrValue) -> nat
    decreases v,
{
    match v {
        AttrValue::Container(e) => expr_size(e) + 1,
        AttrValue::Element(el) => element_size(*el) + 1,
        AttrValue::Fragment(ch) => children_size(ch@) + 1,
        _ => 1,
    }
}

pub open spec fn attr_size(a: JsxAttr) -> nat
    decreases a,
{
    match a.value {
        Some(v) => attr_value_size(v) + 1,
        None => 1,
    }
}

pub open spec fn attr_or_spread_size(a: AttrOrSpread) -> nat
    decreases a,
{
    match a {
        AttrOrSpread::Attr(at) => attr_size(at) + 1,
        AttrOrSpread::Spread(e) => expr_size(e) + 1,
    }
}

pub open spec fn attrs_size(attrs: Seq<AttrOrSpread>) -> nat
    decreases attrs,
{
    if attrs.len() == 0 {
        0
    } else {
        attr_or_spread_size(attrs[0]) + attrs_size(attrs.drop_first())
    }
}

pub open spec fn child_size(c: JsxChild) -> nat
    decreases c,
{
    match c {
        JsxChild::Element(el) => element_size(*el) + 1,
        JsxChild::Fragment(ch) => children_size(ch@) + 1,
        JsxChild::Container(e) => expr_size(e) + 1,
        JsxChild::Spread(e) => expr_size(e) + 1,
        _ => 1,
    }
}

pub open spec fn children_size(ch: Seq<JsxChild>) -> nat
    decreases ch,
{
    if ch.len() == 0 {
        0
    } else {
        child_size(ch[0]) + children_size(ch.drop_first())
    }
}

pub open spec fn element_size(e: JsxElement) -> nat
    decreases e,
{
    attrs_size(e.attrs@) + children_size(e.children@) + 1
}

/// An element of a property list weighs no more than the list.
pub proof fn lemma_props_size_index(ps: Seq<Prop>, i: int)
    requires
        0 <= i < ps.len(),
    ensures
        prop_size(ps[i]) <= props_size(ps),
    decreases ps.len(),
{
    if i > 0 {
        lemma_props_size_index(ps.drop_first(), i - 1);
    }
}

/// An element of a child list weighs no more than the list.
pub proof fn lemma_children_size_index(ch: Seq<JsxChild>, i: int)
    requires
        0 <= i < ch.len(),
    ensures
        child_size(ch[i]) <= children_size(ch),
    decreases ch.len(),
{
    if i > 0 {
        lemma_children_size_index(ch.drop_first(), i - 1);
    }
}

} // verus!
