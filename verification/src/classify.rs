//! The attribute classifier: decides whether one attribute is
//! static-foldable and what text it prints.
//!
//! An attribute is static when its value is a plain string literal, a
//! numeric literal, a template with no interpolations, the boolean literal
//! `true` (bare presence), or when it has no value at all (bare presence).
//! Everything else — `false`, big-integer literals, arbitrary expressions,
//! nested markup as a value, empty containers — is dynamic.

use crate::ast::{AttrName, AttrValue, Expr, JsxAttr};
use crate::views::{attr_name_v, attr_v, AttrNameV, AttrV, AttrValueV, ExprV};
use vstd::prelude::*;
use vstd::string::StringExecFns;

verus! {

/// The text of an attribute name: `name`, or `ns:name`.
pub open spec fn attr_name_text(n: AttrNameV) -> Seq<char> {
    match n {
        AttrNameV::Ident(s) => s,
        AttrNameV::Namespaced(ns, name) => ns + seq![':'] + name,
    }
}

/// Prints an attribute name: a plain name as itself, a namespaced name as
/// `ns:name`.
pub fn jsx_attr_name_as_str(n: &AttrName) -> (r: String)
    ensures
        r@ == attr_name_text(attr_name_v(*n)),
{
    match n {
        AttrName::Ident(s) => s.clone(),
        AttrName::Namespaced(ns, name) => {
            let mut out = ns.clone();
            out.append(":");
            out.append(name.as_str());
            proof {
                reveal_strlit(":");
                assert(out@ =~= ns@ + seq![':'] + name@);
            }
            out
        },
    }
}

/// The static value of an attribute, when it has one: `None` means the
/// attribute is dynamic; `Some(None)` bare presence; `Some(Some(t))` the
/// value text `t`.
pub open spec fn static_attr_value(v: Option<AttrValueV>) -> Option<Option<Seq<char>>> {
    match v {
        None => Some(None),
        Some(AttrValueV::Str(s)) => Some(Some(s)),
        Some(AttrValueV::Container(e)) => match e {
            ExprV::Tpl(t) => Some(Some(t)),
            ExprV::Bool(b) => if b {
                Some(None)
            } else {
                None
            },
            ExprV::Str(s) => Some(Some(s)),
            ExprV::Num(n) => Some(Some(n)),
            _ => None,
        },
        Some(_) => None,
    }
}

/// The classification of one attribute: its printed name and its static
/// value, or `None` when it is dynamic.
pub open spec fn classify_attr(a: AttrV) -> Option<(Seq<char>, Option<Seq<char>>)> {
    match static_attr_value(a.value) {
        Some(v) => Some((attr_name_text(a.name), v)),
        None => None,
    }
}

/// View of an optional text.
pub open spec fn opt_text(v: Option<String>) -> Option<Seq<char>> {
    match v {
        Some(s) => Some(s@),
        None => None,
    }
}

/// Classifies one attribute: its printed name and static value text when it
/// is static, `None` when it is dynamic.
pub fn extract_static_attr_pair(attr: &JsxAttr) -> (r: Option<(String, Option<String>)>)
    ensures
        match r {
            Some(pair) => classify_attr(attr_v(*attr)) == Some((pair.0@, opt_text(pair.1))),
            None => classify_attr(attr_v(*attr)) is None,
        },
{
    match &attr.value {
        None => Some((jsx_attr_name_as_str(&attr.name), None)),
        Some(AttrValue::Str(s)) => Some((jsx_attr_name_as_str(&attr.name), Some(s.clone()))),
        Some(AttrValue::Container(e)) => match e {
            Expr::Tpl(t) => Some((jsx_attr_name_as_str(&attr.name), Some(t.clone()))),
            Expr::Bool(b) => if *b {
                Some((jsx_attr_name_as_str(&attr.name), None))
            } else {
                None
            },
            Expr::Str(s) => Some((jsx_attr_name_as_str(&attr.name), Some(s.clone()))),
            Expr::Num(n) => Some((jsx_attr_name_as_str(&attr.name), Some(n.clone()))),
            _ => None,
        },
        Some(_) => None,
    }
}

/// Whether `name` is a void element: one that cannot contain children and
/// closes with a bare `>`.
pub open spec fn is_void_name(name: Seq<char>) -> bool {
    ||| name == "area"@
    ||| name == "base"@
    ||| name == "br"@
    ||| name == "col"@
    ||| name == "embed"@
    ||| name == "hr"@
    ||| name == "img"@
    ||| name == "input"@
    ||| name == "link"@
    ||| name == "meta"@
    ||| name == "param"@
    ||| name == "source"@
    ||| name == "track"@
    ||| name == "wbr"@
}

/// Whether `name` is a void element.
pub fn is_void_element(name: &str) -> (r: bool)
    ensures
        r == is_void_name(name@),
{
    crate::text::str_eq(name, "area") || crate::text::str_eq(name, "base") || crate::text::str_eq(
        name,
        "br",
    ) || crate::text::str_eq(name, "col") || crate::text::str_eq(name, "embed")
        || crate::text::str_eq(name, "hr") || crate::text::str_eq(name, "img")
        || crate::text::str_eq(name, "input") || crate::text::str_eq(name, "link")
        || crate::text::str_eq(name, "meta") || crate::text::str_eq(name, "param")
        || crate::text::str_eq(name, "source") || crate::text::str_eq(name, "track")
        || crate::text::str_eq(name, "wbr")
}

/// The printed form of one static attribute: `name="value"`, or the bare
/// name for a presence-only attribute.
pub open spec fn attr_pair_text(name: Seq<char>, value: Option<Seq<char>>) -> Seq<char> {
    match value {
        Some(v) => name + seq!['=', '"'] + v + seq!['"'],
        None => name,
    }
}

/// Prints one static attribute: `name="value"`, or the bare name.
pub fn print_attr_pair(name: String, value: Option<String>) -> (r: String)
    ensures
        r@ == attr_pair_text(name@, opt_text(value)),
{
    match value {
        Some(v) => {
            let mut out = name;
            out.append("=\"");
            out.append(v.as_str());
            out.append("\"");
            proof {
                reveal_strlit("=\"");
                reveal_strlit("\"");
                assert(out@ =~= attr_pair_text(name@, Some(v@)));
            }
            out
        },
        None => name,
    }
}

} // verus!
