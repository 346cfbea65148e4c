//! The static property extractor.
//!
//! Given the property list of an inline object literal (one used in a
//! spread), it writes every literal key/value pair into the enclosing text
//! buffer and removes it from the list, leaving only unresolved properties.
//! It recurses into spreads of nested object literals and drops one whose
//! object is left empty.  Running it again on its own residue is a no-op.

use crate::ast::{Expr, Prop, PropKey};
use crate::size::{lemma_props_size_index, prop_size, props_size};
use crate::views::{prop_v, props_v, ExprV, PropKeyV, PropV};
use vstd::prelude::*;
use vstd::string::StringExecFns;

verus! {

/// The name under which a property key extracts, when it has one: a plain
/// name or a string key.
pub open spec fn prop_key_name(k: PropKeyV) -> Option<Seq<char>> {
    match k {
        PropKeyV::Ident(s) => Some(s),
        PropKeyV::Str(s) => Some(s),
        PropKeyV::Other(_) => None,
    }
}

/// `name="value" `: one written property, trailing space included.
pub open spec fn name_value_text(name: Seq<char>, value: Seq<char>) -> Seq<char> {
    name + seq!['=', '"'] + value + seq!['"', ' ']
}

/// The text a static property value writes under key `name`: `name="text" `
/// for string, numeric, big-integer and template literals; `name ` for
/// `true`; nothing for `false`.  `None` when the value is no such literal.
pub open spec fn static_prop_text(name: Seq<char>, v: ExprV) -> Option<Seq<char>> {
    match v {
        ExprV::Str(s) => Some(name_value_text(name, s)),
        ExprV::Bool(b) => Some(
            if b {
                name + seq![' ']
            } else {
                Seq::<char>::empty()
            },
        ),
        ExprV::Num(s) => Some(name_value_text(name, s)),
        ExprV::BigInt(s) => Some(name_value_text(name, s)),
        ExprV::Tpl(s) => Some(name_value_text(name, s)),
        _ => None,
    }
}

/// What extraction does to one property: the kept residue, if any, and the
/// written text.
pub open spec fn extract_prop_spec(p: PropV) -> (Option<PropV>, Seq<char>)
    decreases p,
{
    match p {
        PropV::KeyValue(k, v) => match prop_key_name(k) {
            Some(name) => match static_prop_text(name, v) {
                Some(t) => (None, t),
                None => (Some(p), Seq::<char>::empty()),
            },
            None => (Some(p), Seq::<char>::empty()),
        },
        PropV::Spread(e) => match e {
            ExprV::Object(inner) => {
                let r = extract_props_spec(inner);
                if r.0.len() == 0 {
                    (None, r.1)
                } else {
                    (Some(PropV::Spread(ExprV::Object(r.0))), r.1)
                }
            },
            _ => (Some(p), Seq::<char>::empty()),
        },
        PropV::Other(_) => (Some(p), Seq::<char>::empty()),
    }
}

/// What extraction does to a property list: the kept residue, in order, and
/// the written text, in order.
pub open spec fn extract_props_spec(ps: Seq<PropV>) -> (Seq<PropV>, Seq<char>)
    decreases ps,
{
    if ps.len() == 0 {
        (Seq::<PropV>::empty(), Seq::<char>::empty())
    } else {
        let head = extract_prop_spec(ps[0]);
        let rest = extract_props_spec(ps.drop_first());
        (
            match head.0 {
                Some(q) => seq![q] + rest.0,
                None => rest.0,
            },
            head.1 + rest.1,
        )
    }
}

/// Extraction distributes over concatenation of property lists.
pub proof fn lemma_extract_concat(a: Seq<PropV>, b: Seq<PropV>)
    ensures
        extract_props_spec(a + b).0 =~= extract_props_spec(a).0 + extract_props_spec(b).0,
        extract_props_spec(a + b).1 =~= extract_props_spec(a).1 + extract_props_spec(b).1,
    decreases a.len(),
{
    if a.len() == 0 {
        assert(a + b =~= b);
        assert(extract_props_spec(a).0 =~= Seq::<PropV>::empty());
    } else {
        assert((a + b).drop_first() =~= a.drop_first() + b);
        assert((a + b)[0] == a[0]);
        lemma_extract_concat(a.drop_first(), b);
        match extract_prop_spec(a[0]).0 {
            Some(q) => {
                assert(seq![q] + (extract_props_spec(a.drop_first()).0 + extract_props_spec(b).0)
                    =~= (seq![q] + extract_props_spec(a.drop_first()).0) + extract_props_spec(
                    b,
                ).0);
            },
            None => {},
        }
    }
}

proof fn lemma_extract_prop_idempotent(p: PropV)
    ensures
        match extract_prop_spec(p).0 {
            Some(q) => extract_prop_spec(q).0 == Some(q) && extract_prop_spec(q).1
                =~= Seq::<char>::empty(),
            None => true,
        },
    decreases p,
{
    match p {
        PropV::Spread(e) => match e {
            ExprV::Object(inner) => {
                lemma_extract_props_idempotent(inner);
            },
            _ => {},
        },
        _ => {},
    }
}

/// Idempotence of extraction: run on its own residue, it keeps every
/// property and writes nothing.
pub proof fn lemma_extract_props_idempotent(ps: Seq<PropV>)
    ensures
        extract_props_spec(extract_props_spec(ps).0).0 =~= extract_props_spec(ps).0,
        extract_props_spec(extract_props_spec(ps).0).1 =~= Seq::<char>::empty(),
    decreases ps,
{
    if ps.len() == 0 {
    } else {
        lemma_extract_prop_idempotent(ps[0]);
        lemma_extract_props_idempotent(ps.drop_first());
        let rest = extract_props_spec(ps.drop_first()).0;
        match extract_prop_spec(ps[0]).0 {
            Some(q) => {
                lemma_extract_concat(seq![q], rest);
                assert(seq![q].drop_first() =~= Seq::<PropV>::empty());
                assert(extract_props_spec(Seq::<PropV>::empty()).0 =~= Seq::<PropV>::empty());
                assert(extract_props_spec(Seq::<PropV>::empty()).1 =~= Seq::<char>::empty());
                assert(extract_props_spec(seq![q]).0 =~= seq![q]);
                assert(extract_props_spec(seq![q]).1 =~= Seq::<char>::empty());
                assert(extract_props_spec(ps).0 == seq![q] + rest);
            },
            None => {},
        }
    }
}

/// Text that ends in a space, or is empty.
pub open spec fn ends_space_or_empty(t: Seq<char>) -> bool {
    t.len() == 0 || t.last() == ' '
}

proof fn lemma_extract_prop_text_shape(p: PropV)
    ensures
        ends_space_or_empty(extract_prop_spec(p).1),
    decreases p,
{
    match p {
        PropV::Spread(e) => match e {
            ExprV::Object(inner) => {
                lemma_extract_props_text_shape(inner);
            },
            _ => {},
        },
        _ => {},
    }
}

/// Whatever extraction writes is empty or ends in a space.
pub proof fn lemma_extract_props_text_shape(ps: Seq<PropV>)
    ensures
        ends_space_or_empty(extract_props_spec(ps).1),
    decreases ps,
{
    if ps.len() > 0 {
        lemma_extract_prop_text_shape(ps[0]);
        lemma_extract_props_text_shape(ps.drop_first());
        let a = extract_prop_spec(ps[0]).1;
        let b = extract_props_spec(ps.drop_first()).1;
        if b.len() == 0 {
            assert(a + b =~= a);
        } else {
            assert((a + b).last() == b.last());
        }
    }
}

/// `props_v` distributes over concatenation.
pub proof fn lemma_props_v_concat(a: Seq<Prop>, b: Seq<Prop>)
    ensures
        props_v(a + b) =~= props_v(a) + props_v(b),
{
}

/// Extracts every static property of `props` into `buffer`, leaving the
/// residual list in place: literal-valued properties with a plain or string
/// key are printed and dropped, spreads of object literals are extracted
/// recursively and dropped when nothing of them remains, and everything else
/// is kept unchanged, in order.
pub fn extract_static_props(props: &mut Vec<Prop>, buffer: &mut String)
    ensures
        props_v(final(props)@) =~= extract_props_spec(props_v(old(props)@)).0,
        final(buffer)@ == old(buffer)@ + extract_props_spec(props_v(old(props)@)).1,
    decreases props_size(old(props)@),
{
    let ghost input = old(props)@;
    let mut res: Vec<Prop> = Vec::new();
    let ghost mut i: int = 0;
    while props.len() > 0
        invariant
            input == old(props)@,
            0 <= i <= input.len(),
            i == input.len() - props@.len(),
            props@ =~= input.subrange(i, input.len() as int),
            props_v(res@) =~= extract_props_spec(props_v(input.subrange(0, i))).0,
            buffer@ == old(buffer)@ + extract_props_spec(props_v(input.subrange(0, i))).1,
        decreases props@.len(),
    {
        let p = props.remove(0);
        proof {
            assert(p == input[i]);
            assert(props@ =~= input.subrange(i + 1, input.len() as int));
        }
        let ghost pv = prop_v(p);
        match p {
            Prop::KeyValue(key, value) => {
                let key_name: Option<String> = match &key {
                    PropKey::Ident(s) => Some(s.clone()),
                    PropKey::Str(s) => Some(s.clone()),
                    PropKey::Other(_) => None,
                };
                match key_name {
                    Some(name) => {
                        match value {
                            Expr::Str(s) => {
                                append_name_value(buffer, &name, s.as_str());
                            },
                            Expr::Bool(b) => {
                                if b {
                                    buffer.append(name.as_str());
                                    buffer.append(" ");
                                    proof {
                                        reveal_strlit(" ");
                                        assert(buffer@ =~= old(buffer)@ + extract_props_spec(
                                            props_v(input.subrange(0, i)),
                                        ).1 + (name@ + seq![' ']));
                                    }
                                }
                            },
                            Expr::Num(s) => {
                                append_name_value(buffer, &name, s.as_str());
                            },
                            Expr::BigInt(s) => {
                                append_name_value(buffer, &name, s.as_str());
                            },
                            Expr::Tpl(s) => {
                                append_name_value(buffer, &name, s.as_str());
                            },
                            other => {
                                res.push(Prop::KeyValue(key, other));
                                proof {
                                    assert(prop_v(Prop::KeyValue(key, other)) == pv);
                                    assert(extract_prop_spec(pv).0 == Some(pv));
                                }
                            },
                        }
                    },
                    None => {
                        res.push(Prop::KeyValue(key, value));
                        proof {
                            assert(prop_v(Prop::KeyValue(key, value)) == pv);
                            assert(extract_prop_spec(pv).0 == Some(pv));
                        }
                    },
                }
            },
            Prop::Spread(e) => {
                match e {
                    Expr::Object(mut inner) => {
                        proof {
                            lemma_props_size_index(input, i);
                            assert(prop_size(input[i]) == props_size(inner@) + 2);
                        }
                        extract_static_props(&mut inner, buffer);
                        if inner.len() > 0 {
                            res.push(Prop::Spread(Expr::Object(inner)));
                        }
                    },
                    other => {
                        res.push(Prop::Spread(other));
                        proof {
                            assert(prop_v(Prop::Spread(other)) == pv);
                            assert(extract_prop_spec(pv).0 == Some(pv));
                        }
                    },
                }
            },
            Prop::Other(h) => {
                res.push(Prop::Other(h));
                proof {
                    assert(prop_v(Prop::Other(h)) == pv);
                    assert(extract_prop_spec(pv).0 == Some(pv));
                }
            },
        }
        proof {
            let done = input.subrange(0, i);
            let done1 = input.subrange(0, i + 1);
            assert(done1 =~= done + seq![input[i]]);
            lemma_props_v_concat(done, seq![input[i]]);
            assert(props_v(seq![input[i]]) =~= seq![pv]);
            lemma_extract_concat(props_v(done), seq![pv]);
            assert(seq![pv].drop_first() =~= Seq::<PropV>::empty());
            assert(extract_props_spec(Seq::<PropV>::empty()).0 =~= Seq::<PropV>::empty());
            assert(extract_props_spec(Seq::<PropV>::empty()).1 =~= Seq::<char>::empty());
            assert(extract_props_spec(seq![pv]).0 =~= match extract_prop_spec(pv).0 {
                Some(q) => seq![q],
                None => Seq::<PropV>::empty(),
            });
            assert(extract_props_spec(seq![pv]).1 =~= extract_prop_spec(pv).1);
            i = i + 1;
        }
    }
    proof {
        assert(input.subrange(0, input.len() as int) =~= input);
    }
    *props = res;
}

/// Appends `name="value" ` to `buffer`.
fn append_name_value(buffer: &mut String, name: &String, value: &str)
    ensures
        final(buffer)@ == old(buffer)@ + name_value_text(name@, value@),
{
    buffer.append(name.as_str());
    buffer.append("=\"");
    buffer.append(value);
    buffer.append("\" ");
    proof {
        reveal_strlit("=\"");
        reveal_strlit("\" ");
        assert(buffer@ =~= old(buffer)@ + name_value_text(name@, value@));
    }
}

} // verus!
