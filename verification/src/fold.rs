//! The element folder: the core recursive algorithm.
//!
//! Folding walks one markup root and grows a builder state: an ordered list
//! of string segments and an ordered list of dynamic slot expressions.
//! Static attributes and literal children extend the current segment;
//! every dynamic part pushes one slot and opens a new segment.  Once a root
//! is folded the state is assembled into a template: segments and slots in
//! strict alternation, one segment more than there are slots.

use crate::ast::{
    AttrOrSpread, AttrValue, Expr, JsxAttr, JsxChild, JsxElement, JsxName, Prop, PropKey,
    TemplateTag,
};
use crate::classify::{
    attr_name_text, attr_pair_text, classify_attr, extract_static_attr_pair, is_void_element,
    is_void_name, jsx_attr_name_as_str, print_attr_pair,
};
use crate::extract::{
    extract_props_spec, extract_static_props, lemma_extract_props_text_shape,
};
use crate::size::{child_size, children_size, element_size, lemma_children_size_index};
use crate::text::{fold_lines, fold_lines_spec, trim_spec, trim_str};
use crate::views::{
    attr_or_spread_v, attr_v, attrs_v, child_v, children_v, element_v, expr_v, exprs_v, props_v,
    quasis_v, AttrOrSpreadV, AttrValueV, ChildV, ElementV, ExprV, NameV, PropKeyV, PropV,
};
use vstd::prelude::*;
use vstd::string::StrSliceExecFns;
use vstd::string::StringExecFns;

verus! {

/// The builder state, mathematically: the segments and the slots grown so
/// far while folding one root.
#[verifier::ext_equal]
pub struct StateV {
    pub quasis: Seq<Seq<char>>,
    pub exprs: Seq<ExprV>,
}

/// The three configured marker names.
pub struct MarkersV {
    pub spread: Seq<char>,
    pub child: Seq<char>,
    pub children: Seq<char>,
}

/// A balanced state: one segment more than there are slots.
pub open spec fn state_wf(st: StateV) -> bool {
    st.quasis.len() == st.exprs.len() + 1
}

/// The state before anything of a root was folded.
pub open spec fn state_empty(st: StateV) -> bool {
    st.quasis.len() == 0 && st.exprs.len() == 0
}

/// The last segment exists, is not empty, and ends in a space.
pub open spec fn ends_space(st: StateV) -> bool {
    st.quasis.len() > 0 && st.quasis.last().len() > 0 && st.quasis.last().last() == ' '
}

/// Appends text to the current (last) segment.
pub open spec fn st_append(st: StateV, t: Seq<char>) -> StateV
    recommends
        st.quasis.len() > 0,
{
    StateV {
        quasis: st.quasis.update(st.quasis.len() - 1, st.quasis.last() + t),
        exprs: st.exprs,
    }
}

/// Pushes one slot: the slot expression, and a new segment holding a single
/// space.
pub open spec fn st_push(st: StateV, e: ExprV) -> StateV {
    StateV { quasis: st.quasis.push(seq![' ']), exprs: st.exprs.push(e) }
}

/// Drops the last character of the current segment (the separating space)
/// and appends `t` in its place.
pub open spec fn st_pop_append(st: StateV, t: Seq<char>) -> StateV
    recommends
        st.quasis.len() > 0,
        st.quasis.last().len() > 0,
{
    StateV {
        quasis: st.quasis.update(st.quasis.len() - 1, st.quasis.last().drop_last() + t),
        exprs: st.exprs,
    }
}

/// One slot wrapping `e` in an object literal under the marker name
/// `marker`.
pub open spec fn marker_slot(marker: Seq<char>, e: ExprV) -> ExprV {
    ExprV::Object(seq![PropV::KeyValue(PropKeyV::Ident(marker), e)])
}

/// The value expression a dynamic attribute defers: the container's
/// expression, an empty expression for an empty container, the nested
/// markup for a markup value, the literal itself for a string value.
pub open spec fn dyn_attr_value(v: Option<AttrValueV>) -> ExprV {
    match v {
        Some(AttrValueV::Str(s)) => ExprV::Str(s),
        Some(AttrValueV::Container(e)) => e,
        Some(AttrValueV::EmptyContainer) => ExprV::Empty,
        Some(AttrValueV::Element(el)) => ExprV::Element(el),
        Some(AttrValueV::Fragment(ch)) => ExprV::Fragment(ch),
        None => ExprV::Empty,
    }
}

/// The printed tag name of an element: `None` for a member-path name, which
/// no element this folder accepts may carry.
pub open spec fn name_text(n: NameV) -> Option<Seq<char>> {
    match n {
        NameV::Ident(s) => Some(s),
        NameV::Namespaced(ns, nm) => Some(ns + seq![':'] + nm),
        NameV::Member => None,
    }
}

/// Emits the pending deferred dynamic attributes, when there are any, as one
/// object-literal slot.
pub open spec fn flush_pending(st: StateV, pending: Seq<PropV>) -> StateV {
    if pending.len() == 0 {
        st
    } else {
        st_push(st, ExprV::Object(pending))
    }
}

/// What one attribute-list entry does to the state and to the pending
/// deferred dynamic attributes.
pub open spec fn fold_attr_step(
    a: AttrOrSpreadV,
    st: StateV,
    pending: Seq<PropV>,
    spread_marker: Seq<char>,
) -> (StateV, Seq<PropV>) {
    match a {
        AttrOrSpreadV::Attr(at) => match classify_attr(at) {
            Some(pair) => (st_append(st, attr_pair_text(pair.0, pair.1) + seq![' ']), pending),
            None => (
                st,
                pending.push(
                    PropV::KeyValue(
                        PropKeyV::Str(attr_name_text(at.name)),
                        dyn_attr_value(at.value),
                    ),
                ),
            ),
        },
        AttrOrSpreadV::Spread(e) => {
            let st1 = flush_pending(st, pending);
            match e {
                ExprV::Object(inner) => {
                    let r = extract_props_spec(inner);
                    let st2 = st_append(st1, r.1);
                    if r.0.len() == 0 {
                        (st2, Seq::<PropV>::empty())
                    } else {
                        (
                            st_push(st2, marker_slot(spread_marker, ExprV::Object(r.0))),
                            Seq::<PropV>::empty(),
                        )
                    }
                },
                _ => (st_push(st1, marker_slot(spread_marker, e)), Seq::<PropV>::empty()),
            }
        },
    }
}

/// What a whole attribute list does to the state and the pending deferred
/// dynamic attributes, entry by entry from the left.
pub open spec fn fold_attrs_spec(
    attrs: Seq<AttrOrSpreadV>,
    st: StateV,
    pending: Seq<PropV>,
    spread_marker: Seq<char>,
) -> (StateV, Seq<PropV>)
    decreases attrs.len(),
{
    if attrs.len() == 0 {
        (st, pending)
    } else {
        let step = fold_attr_step(attrs[0], st, pending, spread_marker);
        fold_attrs_spec(attrs.drop_first(), step.0, step.1, spread_marker)
    }
}

/// Folds one element into the state: the opening tag with its static
/// attributes merged, the slots of its dynamic attributes and spreads, its
/// children, and the close.  `Err` when the tag name is a member path.
pub open spec fn fold_element_spec(el: ElementV, st: StateV, m: MarkersV) -> Result<StateV, ()>
    decreases el,
{
    match name_text(el.name) {
        None => Err(()),
        Some(name) => {
            let open = seq!['<'] + name + seq![' '];
            let st1 = if st.quasis.len() == 0 {
                StateV { quasis: seq![open], exprs: st.exprs }
            } else {
                st_append(st, open)
            };
            let r = fold_attrs_spec(el.attrs, st1, Seq::<PropV>::empty(), m.spread);
            let st3 = flush_pending(r.0, r.1);
            if el.children.len() == 0 {
                if is_void_name(name) {
                    Ok(st_pop_append(st3, seq!['>']))
                } else {
                    Ok(st_append(st3, seq!['/', '>']))
                }
            } else {
                let st4 = st_pop_append(st3, seq!['>']);
                match fold_children_spec(el.children, st4, m) {
                    Ok(st5) => Ok(st_append(st5, seq!['<', '/'] + name + seq!['>'])),
                    Err(e) => Err(e),
                }
            }
        },
    }
}

/// Folds a child list into the state, in order, stopping at the first
/// failure.
pub open spec fn fold_children_spec(ch: Seq<ChildV>, st: StateV, m: MarkersV) -> Result<
    StateV,
    (),
>
    decreases ch,
{
    if ch.len() == 0 {
        Ok(st)
    } else {
        match fold_child_spec(ch[0], st, m) {
            Ok(st1) => fold_children_spec(ch.drop_first(), st1, m),
            Err(e) => Err(e),
        }
    }
}

/// Folds one child into the state: text is trimmed into the current
/// segment, nested markup recurses, containers fold by their expression,
/// and a spread child becomes one slot under the `children` marker.
pub open spec fn fold_child_spec(c: ChildV, st: StateV, m: MarkersV) -> Result<StateV, ()>
    decreases c,
{
    match c {
        ChildV::Text(t) => Ok(st_append(st, trim_spec(t))),
        ChildV::Element(el) => fold_element_spec(el, st, m),
        ChildV::Fragment(ch) => fold_children_spec(ch, st, m),
        ChildV::Container(e) => fold_container_spec(e, st, m),
        ChildV::EmptyContainer => Ok(st),
        ChildV::Spread(e) => Ok(st_push(st, marker_slot(m.children, e))),
    }
}

/// The failure of a fold: the one construct the folder rejects.
#[derive(Debug, PartialEq, Eq, Structural)]
pub enum FoldError {
    /// The element's tag name is a member path.
    UnsupportedTagName,
}

/// The folder: the configuration of one run, and the builder state of the
/// root currently being folded.
pub struct TransformVisitor {
    /// The configured template tag, or `None` for a bare template literal.
    pub template: Option<TemplateTag>,
    /// The configured module specifier for import injection.
    pub import_source: Option<String>,
    /// The marker name for spread slots.
    pub spread: String,
    /// The marker name for dynamic-child slots.
    pub child: String,
    /// The marker name for spread-children slots.
    pub children: String,
    /// The string segments grown so far.
    pub quasis: Vec<String>,
    /// The slot expressions grown so far.
    pub exprs: Vec<Expr>,
}

/// Whether two folders carry the same configuration.
pub open spec fn same_config(a: TransformVisitor, b: TransformVisitor) -> bool {
    &&& a.template == b.template
    &&& a.import_source == b.import_source
    &&& a.spread == b.spread
    &&& a.child == b.child
    &&& a.children == b.children
}

impl TransformVisitor {
    /// The builder state, mathematically.
    pub open spec fn st(self) -> StateV {
        StateV { quasis: quasis_v(self.quasis@), exprs: exprs_v(self.exprs@) }
    }

    /// The configured marker names, mathematically.
    pub open spec fn markers(self) -> MarkersV {
        MarkersV { spread: self.spread@, child: self.child@, children: self.children@ }
    }

    /// Appends text to the current (last) segment.
    fn append_last(&mut self, t: &str)
        requires
            old(self).st().quasis.len() > 0,
        ensures
            final(self).st() == st_append(old(self).st(), t@),
            same_config(*final(self), *old(self)),
    {
        let mut s = self.quasis.pop().unwrap();
        s.append(t);
        self.quasis.push(s);
        proof {
            assert(self.st().quasis =~~= st_append(old(self).st(), t@).quasis);
            assert(self.st().exprs =~~= st_append(old(self).st(), t@).exprs);
            assert(self.st() =~= st_append(old(self).st(), t@));
        }
    }

    /// Pushes one slot: the expression, and a fresh segment holding a single
    /// space.
    fn push(&mut self, expr: Expr)
        ensures
            final(self).st() == st_push(old(self).st(), expr_v(expr)),
            same_config(*final(self), *old(self)),
    {
        let s = String::from_str(" ");
        proof {
            reveal_strlit(" ");
        }
        self.quasis.push(s);
        self.exprs.push(expr);
        proof {
            assert(self.st().quasis =~~= st_push(old(self).st(), expr_v(expr)).quasis);
            assert(self.st().exprs =~~= st_push(old(self).st(), expr_v(expr)).exprs);
            assert(self.st() =~= st_push(old(self).st(), expr_v(expr)));
        }
    }

    /// Drops the last character of the current segment and appends `t`.
    fn pop_close(&mut self, t: &str)
        requires
            old(self).st().quasis.len() > 0,
            old(self).st().quasis.last().len() > 0,
        ensures
            final(self).st() == st_pop_append(old(self).st(), t@),
            same_config(*final(self), *old(self)),
    {
        let s = self.quasis.pop().unwrap();
        let n = s.as_str().unicode_len();
        let mut cut = s.as_str().substring_char(0, n - 1).to_owned();
        cut.append(t);
        self.quasis.push(cut);
        proof {
            assert(s@.subrange(0, s@.len() - 1) =~= s@.drop_last());
            assert(self.st().quasis =~~= st_pop_append(old(self).st(), t@).quasis);
            assert(self.st().exprs =~~= st_pop_append(old(self).st(), t@).exprs);
            assert(self.st() =~= st_pop_append(old(self).st(), t@));
        }
    }

    /// Emits the pending deferred dynamic attributes, if any, as one
    /// object-literal slot, and empties the pending list.
    fn flush_pending_props(&mut self, pending: &mut Vec<Prop>)
        ensures
            final(self).st() == flush_pending(old(self).st(), props_v(old(pending)@)),
            final(pending)@.len() == 0,
            same_config(*final(self), *old(self)),
    {
        if pending.len() > 0 {
            let mut taken: Vec<Prop> = Vec::new();
            core::mem::swap(&mut taken, pending);
            self.push(Expr::Object(taken));
            proof {
                assert(expr_v(Expr::Object(taken)) == ExprV::Object(props_v(old(pending)@)));
            }
        }
    }
}

/// Folds the expression of a child container: nested markup recurses, a
/// string literal appends its trimmed text and a space, a numeric literal
/// its text and a space, an uninterpolated template its folded lines, and
/// anything else becomes one slot under the `child` marker.
pub open spec fn fold_container_spec(e: ExprV, st: StateV, m: MarkersV) -> Result<StateV, ()>
    decreases e,
{
    match e {
        ExprV::Element(el) => fold_element_spec(el, st, m),
        ExprV::Fragment(ch) => fold_children_spec(ch, st, m),
        ExprV::Str(s) => Ok(st_append(st, trim_spec(s) + seq![' '])),
        ExprV::Num(n) => Ok(st_append(st, n + seq![' '])),
        ExprV::Tpl(t) => Ok(st_append(st, fold_lines_spec(t))),
        _ => Ok(st_push(st, marker_slot(m.child, e))),
    }
}

/// Whether one attribute-list entry is a static attribute: an attribute
/// (not a spread) that the classifier folds.
pub open spec fn is_static_attr(a: AttrOrSpreadV) -> bool {
    match a {
        AttrOrSpreadV::Attr(at) => classify_attr(at) is Some,
        AttrOrSpreadV::Spread(_) => false,
    }
}

/// The text one static attribute merges into the opening tag, trailing
/// space included.
pub open spec fn static_attr_text_of(a: AttrOrSpreadV) -> Seq<char> {
    match a {
        AttrOrSpreadV::Attr(at) => match classify_attr(at) {
            Some(pair) => attr_pair_text(pair.0, pair.1) + seq![' '],
            None => Seq::<char>::empty(),
        },
        AttrOrSpreadV::Spread(_) => Seq::<char>::empty(),
    }
}

/// The text a list of static attributes merges into the opening tag.
pub open spec fn static_attrs_text(attrs: Seq<AttrOrSpreadV>) -> Seq<char>
    decreases attrs.len(),
{
    if attrs.len() == 0 {
        Seq::<char>::empty()
    } else {
        static_attr_text_of(attrs[0]) + static_attrs_text(attrs.drop_first())
    }
}

proof fn lemma_fold_attrs_all_static(
    attrs: Seq<AttrOrSpreadV>,
    st: StateV,
    pending: Seq<PropV>,
    sp: Seq<char>,
)
    requires
        st.quasis.len() > 0,
        forall|i: int| 0 <= i < attrs.len() ==> is_static_attr(attrs[i]),
    ensures
        fold_attrs_spec(attrs, st, pending, sp) == (st_append(st, static_attrs_text(attrs)), pending),
    decreases attrs.len(),
{
    if attrs.len() == 0 {
        assert(st_append(st, Seq::<char>::empty()).quasis =~~= st.quasis);
        assert(st_append(st, Seq::<char>::empty()) =~= st);
    } else {
        let t0 = static_attr_text_of(attrs[0]);
        assert(is_static_attr(attrs[0]));
        assert(fold_attr_step(attrs[0], st, pending, sp) == (st_append(st, t0), pending));
        lemma_fold_attrs_all_static(attrs.drop_first(), st_append(st, t0), pending, sp);
        lemma_st_append_concat(st, t0, static_attrs_text(attrs.drop_first()));
    }
}

/// For every element whose attributes are all static and which has no
/// children, folding from an empty state yields exactly one terminal
/// segment — the opening tag with every attribute printed, closed with `/>`,
/// or with a bare `>` for a void element — and no slots at all.
pub proof fn lemma_fold_all_static_childless(el: ElementV, m: MarkersV, name: Seq<char>)
    requires
        name_text(el.name) == Some(name),
        forall|i: int| 0 <= i < el.attrs.len() ==> is_static_attr(el.attrs[i]),
        el.children.len() == 0,
    ensures
        ({
            let body = seq!['<'] + name + seq![' '] + static_attrs_text(el.attrs);
            let text = if is_void_name(name) {
                body.drop_last() + seq!['>']
            } else {
                body + seq!['/', '>']
            };
            fold_element_spec(el, StateV { quasis: Seq::empty(), exprs: Seq::empty() }, m)
                == Ok::<StateV, ()>(StateV { quasis: seq![text], exprs: Seq::empty() })
        }),
{
    let st0 = StateV { quasis: Seq::<Seq<char>>::empty(), exprs: Seq::<ExprV>::empty() };
    let open = seq!['<'] + name + seq![' '];
    let st1 = StateV { quasis: seq![open], exprs: st0.exprs };
    lemma_fold_attrs_all_static(el.attrs, st1, Seq::<PropV>::empty(), m.spread);
    let body = open + static_attrs_text(el.attrs);
    let st2 = st_append(st1, static_attrs_text(el.attrs));
    assert(st2.quasis =~~= seq![body]);
    if is_void_name(name) {
        let text = body.drop_last() + seq!['>'];
        assert(st_pop_append(st2, seq!['>']).quasis =~~= seq![text]);
        assert(fold_element_spec(el, st0, m) == Ok::<StateV, ()>(
            StateV { quasis: seq![text], exprs: Seq::empty() },
        ));
        assert(seq!['<'] + name + seq![' '] + static_attrs_text(el.attrs) =~= body);
    } else {
        let text = body + seq!['/', '>'];
        assert(st_append(st2, seq!['/', '>']).quasis =~~= seq![text]);
        assert(fold_element_spec(el, st0, m) == Ok::<StateV, ()>(
            StateV { quasis: seq![text], exprs: Seq::empty() },
        ));
        assert(seq!['<'] + name + seq![' '] + static_attrs_text(el.attrs) =~= body);
    }
}

proof fn lemma_st_append_concat(st: StateV, a: Seq<char>, b: Seq<char>)
    requires
        st.quasis.len() > 0,
    ensures
        st_append(st_append(st, a), b) == st_append(st, a + b),
{
    assert(st_append(st_append(st, a), b).quasis =~~= st_append(st, a + b).quasis);
    assert(st_append(st_append(st, a), b) =~= st_append(st, a + b));
}

/// Builds one marker slot: an object literal holding `value` under the
/// marker name `key`.
fn make_marker_slot(key: String, value: Expr) -> (r: Expr)
    ensures
        expr_v(r) == marker_slot(key@, expr_v(value)),
{
    let mut v: Vec<Prop> = Vec::new();
    let ghost value_v = expr_v(value);
    v.push(Prop::KeyValue(PropKey::Ident(key), value));
    proof {
        assert(props_v(v@) =~= seq![PropV::KeyValue(PropKeyV::Ident(key@), value_v)]);
    }
    Expr::Object(v)
}

impl TransformVisitor {
    /// Folds one child into the builder state.
    pub fn fold_jsx_child(&mut self, child: &mut JsxChild) -> (r: Result<(), FoldError>)
        requires
            state_wf(old(self).st()),
        ensures
            same_config(*final(self), *old(self)),
            match r {
                Ok(_) => {
                    &&& fold_child_spec(child_v(*old(child)), old(self).st(), old(self).markers())
                        == Ok::<StateV, ()>(final(self).st())
                    &&& state_wf(final(self).st())
                },
                Err(_) => fold_child_spec(
                    child_v(*old(child)),
                    old(self).st(),
                    old(self).markers(),
                ) is Err,
            },
        decreases child_size(*old(child)), 0nat,
    {
        let ghost st0 = old(self).st();
        let ghost m = old(self).markers();
        let mut c = JsxChild::EmptyContainer;
        core::mem::swap(&mut c, child);
        proof {
            assert(c == *old(child));
        }
        match c {
            JsxChild::Text(t) => {
                let trimmed = trim_str(t.as_str());
                self.append_last(trimmed.as_str());
                Ok(())
            },
            JsxChild::Element(mut el) => self.fold_jsx_element(&mut *el),
            JsxChild::Fragment(mut ch) => self.fold_child_list(&mut ch),
            JsxChild::Container(e) => {
                match e {
                    Expr::Element(mut el) => self.fold_jsx_element(&mut *el),
                    Expr::Fragment(mut ch) => self.fold_child_list(&mut ch),
                    Expr::Str(s) => {
                        let trimmed = trim_str(s.as_str());
                        self.append_last(trimmed.as_str());
                        self.append_last(" ");
                        proof {
                            reveal_strlit(" ");
                            assert(" "@ =~= seq![' ']);
                            lemma_st_append_concat(st0, trim_spec(s@), seq![' ']);
                        }
                        Ok(())
                    },
                    Expr::Num(n) => {
                        self.append_last(n.as_str());
                        self.append_last(" ");
                        proof {
                            reveal_strlit(" ");
                            assert(" "@ =~= seq![' ']);
                            lemma_st_append_concat(st0, n@, seq![' ']);
                        }
                        Ok(())
                    },
                    Expr::Tpl(t) => {
                        let mut buf = self.quasis.pop().unwrap();
                        fold_lines(&mut buf, t.as_str());
                        self.quasis.push(buf);
                        proof {
                            assert(self.st().quasis =~~= st_append(
                                st0,
                                fold_lines_spec(t@),
                            ).quasis);
                            assert(self.st() =~= st_append(st0, fold_lines_spec(t@)));
                        }
                        Ok(())
                    },
                    other => {
                        let key = self.child.clone();
                        let slot = make_marker_slot(key, other);
                        self.push(slot);
                        Ok(())
                    },
                }
            },
            JsxChild::EmptyContainer => Ok(()),
            JsxChild::Spread(e) => {
                let key = self.children.clone();
                let slot = make_marker_slot(key, e);
                self.push(slot);
                Ok(())
            },
        }
    }

    /// Folds a list of children into the builder state, in order, stopping
    /// at the first failure.
    pub fn fold_child_list(&mut self, ch: &mut Vec<JsxChild>) -> (r: Result<(), FoldError>)
        requires
            state_wf(old(self).st()),
        ensures
            same_config(*final(self), *old(self)),
            match r {
                Ok(_) => {
                    &&& fold_children_spec(
                        children_v(old(ch)@),
                        old(self).st(),
                        old(self).markers(),
                    ) == Ok::<StateV, ()>(final(self).st())
                    &&& state_wf(final(self).st())
                },
                Err(_) => fold_children_spec(
                    children_v(old(ch)@),
                    old(self).st(),
                    old(self).markers(),
                ) is Err,
            },
        decreases children_size(old(ch)@), 1nat,
    {
        let ghost mut j: int = 0;
        while ch.len() > 0
            invariant
                same_config(*self, *old(self)),
                state_wf(self.st()),
                0 <= j <= old(ch)@.len(),
                j == old(ch)@.len() - ch@.len(),
                ch@ =~= old(ch)@.subrange(j, old(ch)@.len() as int),
                fold_children_spec(children_v(old(ch)@), old(self).st(), old(self).markers())
                    == fold_children_spec(children_v(ch@), self.st(), old(self).markers()),
            decreases ch@.len(),
        {
            let ghost rem_pre = ch@;
            let ghost st_in = self.st();
            let mut c = ch.remove(0);
            proof {
                assert(c == old(ch)@[j]);
                assert(ch@ =~= rem_pre.drop_first());
                lemma_children_size_index(old(ch)@, j);
            }
            let res = self.fold_jsx_child(&mut c);
            proof {
                assert(children_v(rem_pre)[0] == child_v(rem_pre[0]));
                assert(children_v(rem_pre).drop_first() =~= children_v(ch@));
            }
            match res {
                Ok(()) => {
                    proof {
                        assert(fold_children_spec(children_v(rem_pre), st_in, old(self).markers())
                            == fold_children_spec(children_v(ch@), self.st(), old(self).markers()));
                        j = j + 1;
                    }
                },
                Err(e) => {
                    proof {
                        assert(fold_children_spec(
                            children_v(rem_pre),
                            st_in,
                            old(self).markers(),
                        ) is Err);
                    }
                    return Err(e);
                },
            }
        }
        proof {
            assert(children_v(ch@).len() == 0);
        }
        Ok(())
    }

    /// Folds one element into the builder state: the opening tag with every
    /// static attribute merged into text, one deferred slot per run of
    /// dynamic attributes, the spread slots in source order, the children,
    /// and the close — `/>` for a childless element, a bare `>` for a void
    /// element, `</name>` after the children otherwise.
    pub fn fold_jsx_element(&mut self, elt: &mut JsxElement) -> (r: Result<(), FoldError>)
        requires
            state_wf(old(self).st()) || state_empty(old(self).st()),
        ensures
            same_config(*final(self), *old(self)),
            match r {
                Ok(_) => {
                    &&& fold_element_spec(
                        element_v(*old(elt)),
                        old(self).st(),
                        old(self).markers(),
                    ) == Ok::<StateV, ()>(final(self).st())
                    &&& state_wf(final(self).st())
                },
                Err(_) => fold_element_spec(
                    element_v(*old(elt)),
                    old(self).st(),
                    old(self).markers(),
                ) is Err,
            },
        decreases element_size(*old(elt)), 0nat,
    {
        let ghost el0 = element_v(*old(elt));
        let ghost st0 = old(self).st();
        let ghost m = old(self).markers();
        let mut owned = JsxElement { name: JsxName::Member, attrs: Vec::new(), children: Vec::new() };
        core::mem::swap(&mut owned, elt);
        proof {
            assert(owned == *old(elt));
        }
        let JsxElement { name: ename, attrs: attrs_in, children: children_in } = owned;
        let name: String;
        match &ename {
            JsxName::Ident(s) => {
                name = s.clone();
                proof {
                    assert(name_text(el0.name) == Some(name@));
                }
            },
            JsxName::Namespaced(ns, nm) => {
                let mut o = ns.clone();
                o.append(":");
                o.append(nm.as_str());
                proof {
                    reveal_strlit(":");
                    assert(o@ =~= ns@ + seq![':'] + nm@);
                }
                name = o;
                proof {
                    assert(name_text(el0.name) == Some(name@));
                }
            },
            JsxName::Member => {
                proof {
                    assert(name_text(el0.name) is None);
                }
                return Err(FoldError::UnsupportedTagName);
            },
        }
        let ghost attrs_view = attrs_v(attrs_in@);
        let ghost children_view = children_v(children_in@);
        proof {
            assert(el0.attrs =~= attrs_view);
            assert(el0.children =~= children_view);
        }
        // The opening text: `<name `.
        let mut open = String::new();
        open.append("<");
        open.append(name.as_str());
        open.append(" ");
        proof {
            reveal_strlit("<");
            reveal_strlit(" ");
            assert(open@ =~= seq!['<'] + name@ + seq![' ']);
        }
        let ghost open_text = seq!['<'] + name@ + seq![' '];
        if self.quasis.len() == 0 {
            self.quasis.push(open);
            proof {
                assert(self.st().quasis =~~= seq![open_text]);
                assert(self.st().exprs =~~= st0.exprs);
            }
        } else {
            self.append_last(open.as_str());
        }
        let ghost st1 = if st0.quasis.len() == 0 {
            StateV { quasis: seq![open_text], exprs: st0.exprs }
        } else {
            st_append(st0, open_text)
        };
        proof {
            assert(self.st() =~= st1);
            assert(state_wf(st1));
            assert(st1.quasis.last().last() == ' ');
            assert(ends_space(st1));
        }
        // The attributes, in source order.
        let mut attrs = attrs_in;
        let mut pending: Vec<Prop> = Vec::new();
        proof {
            assert(props_v(pending@) =~= Seq::<PropV>::empty());
            assert(attrs_v(attrs@) == attrs_view);
            assert(self.st() == st1);
        }
        while attrs.len() > 0
            invariant
                same_config(*self, *old(self)),
                state_wf(self.st()),
                ends_space(self.st()),
                fold_attrs_spec(attrs_view, st1, Seq::<PropV>::empty(), m.spread)
                    == fold_attrs_spec(attrs_v(attrs@), self.st(), props_v(pending@), m.spread),
                m == old(self).markers(),
            decreases attrs@.len(),
        {
            let ghost rem_pre = attrs@;
            let ghost st_in = self.st();
            let ghost pend_in = props_v(pending@);
            let a = attrs.remove(0);
            proof {
                assert(a == rem_pre[0]);
                assert(attrs@ =~= rem_pre.drop_first());
                assert(attrs_v(rem_pre)[0] == attr_or_spread_v(a));
                assert(attrs_v(rem_pre).drop_first() =~= attrs_v(attrs@));
            }
            let ghost av = attr_or_spread_v(a);
            let ghost step = fold_attr_step(av, st_in, pend_in, m.spread);
            match a {
                AttrOrSpread::Attr(at) => {
                    match extract_static_attr_pair(&at) {
                        Some(pair) => {
                            let (pname, pval) = pair;
                            let ghost pname_v = pname@;
                            let ghost pval_v = crate::classify::opt_text(pval);
                            let form = print_attr_pair(pname, pval);
                            self.append_last(form.as_str());
                            self.append_last(" ");
                            proof {
                                reveal_strlit(" ");
                                assert(" "@ =~= seq![' ']);
                                lemma_st_append_concat(st_in, form@, seq![' ']);
                                assert(classify_attr(attr_v(at)) == Some((pname_v, pval_v)));
                                assert(form@ == attr_pair_text(pname_v, pval_v));
                                assert(self.st() == step.0);
                                assert(props_v(pending@) =~= step.1);
                            }
                        },
                        None => {
                            let ghost at_v = attr_v(at);
                            let JsxAttr { name: aname, value: avalue } = at;
                            let name_str = jsx_attr_name_as_str(&aname);
                            let ghost avalue_v = at_v.value;
                            let vexpr: Expr = match avalue {
                                Some(AttrValue::Str(s)) => Expr::Str(s),
                                Some(AttrValue::Container(e)) => e,
                                Some(AttrValue::EmptyContainer) => Expr::Empty,
                                Some(AttrValue::Element(el)) => Expr::Element(el),
                                Some(AttrValue::Fragment(ch)) => Expr::Fragment(ch),
                                None => Expr::Empty,
                            };
                            proof {
                                assert(expr_v(vexpr) == dyn_attr_value(avalue_v));
                            }
                            pending.push(Prop::KeyValue(PropKey::Str(name_str), vexpr));
                            proof {
                                assert(props_v(pending@) =~= pend_in.push(
                                    PropV::KeyValue(PropKeyV::Str(name_str@), expr_v(vexpr)),
                                ));
                                assert(self.st() == step.0);
                                assert(props_v(pending@) =~= step.1);
                            }
                        },
                    }
                },
                AttrOrSpread::Spread(e) => {
                    self.flush_pending_props(&mut pending);
                    let ghost st_flushed = flush_pending(st_in, pend_in);
                    proof {
                        assert(self.st() == st_flushed);
                        assert(ends_space(st_flushed));
                    }
                    match e {
                        Expr::Object(mut inner) => {
                            let ghost inner0 = props_v(inner@);
                            let mut buf = self.quasis.pop().unwrap();
                            extract_static_props(&mut inner, &mut buf);
                            self.quasis.push(buf);
                            proof {
                                lemma_extract_props_text_shape(inner0);
                                assert(self.st().quasis =~~= st_append(
                                    st_flushed,
                                    extract_props_spec(inner0).1,
                                ).quasis);
                                assert(self.st() =~= st_append(
                                    st_flushed,
                                    extract_props_spec(inner0).1,
                                ));
                                assert(ends_space(self.st()));
                            }
                            if inner.len() > 0 {
                                let key = self.spread.clone();
                                let slot = make_marker_slot(key, Expr::Object(inner));
                                self.push(slot);
                                proof {
                                    assert(self.st() == step.0);
                                    assert(props_v(pending@) =~= step.1);
                                }
                            } else {
                                proof {
                                    assert(extract_props_spec(inner0).0.len() == 0);
                                    assert(self.st() == step.0);
                                    assert(props_v(pending@) =~= step.1);
                                }
                            }
                        },
                        other => {
                            let key = self.spread.clone();
                            let slot = make_marker_slot(key, other);
                            self.push(slot);
                            proof {
                                assert(self.st() == step.0);
                                assert(props_v(pending@) =~= step.1);
                            }
                        },
                    }
                },
            }
            proof {
                assert(fold_attrs_spec(attrs_v(rem_pre), st_in, pend_in, m.spread)
                    == fold_attrs_spec(attrs_v(attrs@), self.st(), props_v(pending@), m.spread));
            }
        }
        proof {
            assert(attrs_v(attrs@).len() == 0);
            assert(fold_attrs_spec(attrs_v(attrs@), self.st(), props_v(pending@), m.spread) == (
                self.st(),
                props_v(pending@),
            ));
        }
        let ghost r2 = fold_attrs_spec(attrs_view, st1, Seq::<PropV>::empty(), m.spread);
        self.flush_pending_props(&mut pending);
        let ghost st3 = self.st();
        proof {
            assert(st3 == flush_pending(r2.0, r2.1));
            assert(ends_space(st3));
        }
        // The children, and the close.
        let mut children = children_in;
        if children.len() == 0 {
            if is_void_element(name.as_str()) {
                self.pop_close(">");
                proof {
                    reveal_strlit(">");
                    assert(">"@ =~= seq!['>']);
                    assert(fold_element_spec(el0, st0, m) == Ok::<StateV, ()>(self.st()));
                }
            } else {
                self.append_last("/>");
                proof {
                    reveal_strlit("/>");
                    assert("/>"@ =~= seq!['/', '>']);
                    assert(fold_element_spec(el0, st0, m) == Ok::<StateV, ()>(self.st()));
                }
            }
            return Ok(());
        }
        self.pop_close(">");
        let ghost st4 = self.st();
        proof {
            reveal_strlit(">");
            assert(">"@ =~= seq!['>']);
            assert(st4 == st_pop_append(st3, seq!['>']));
        }
        let res = self.fold_child_list(&mut children);
        match res {
            Err(e) => {
                proof {
                    assert(fold_children_spec(children_view, st4, m) is Err);
                    assert(fold_element_spec(el0, st0, m) is Err);
                }
                return Err(e);
            },
            Ok(()) => {},
        }
        let mut close = String::new();
        close.append("</");
        close.append(name.as_str());
        close.append(">");
        proof {
            reveal_strlit("</");
            reveal_strlit(">");
            assert(close@ =~= seq!['<', '/'] + name@ + seq!['>']);
        }
        self.append_last(close.as_str());
        proof {
            assert(fold_element_spec(el0, st0, m) == Ok::<StateV, ()>(self.st()));
        }
        Ok(())
    }
}

} // verus!
