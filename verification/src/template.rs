//! The template assembler and the folder's configuration.
//!
//! Once a root is folded, the accumulated segments and slots become a
//! `Template`: the strictly alternating sequence segment, slot, segment, …,
//! segment, whose last segment is the terminal one, together with the
//! configured template tag (or none, for a bare template literal).

use crate::ast::{Expr, JsxChild, JsxElement, JsxName, TemplateTag};
use crate::fold::{
    fold_children_spec, fold_element_spec, same_config, state_empty, state_wf, FoldError, StateV,
    TransformVisitor,
};
use crate::views::{
    children_v, element_v, exprs_v, name_v, quasis_v, template_tag_v, ExprV, NameV, TemplateTagV,
};
use vstd::prelude::*;
use vstd::string::StrSliceExecFns;
use vstd::string::StringExecFns;

verus! {

/// The folded form of one root: segments and slots in strict alternation,
/// one segment more than there are slots, the last segment terminal, and
/// the tag to wrap them with, when one is configured.
#[derive(Debug)]
pub struct Template {
    /// The string segments, in order.  The last one is the terminal
    /// segment.
    pub quasis: Vec<String>,
    /// The slot expressions, in order; slot `i` stands between segments `i`
    /// and `i + 1`.
    pub exprs: Vec<Expr>,
    /// The template tag, or `None` for a bare template literal.
    pub tag: Option<TemplateTag>,
}

/// View of an optional template tag.
pub open spec fn tag_view(t: Option<TemplateTag>) -> Option<TemplateTagV> {
    match t {
        Some(tag) => Some(template_tag_v(tag)),
        None => None,
    }
}

/// Copies a configured template tag.
fn duplicate_tag(t: &Option<TemplateTag>) -> (r: Option<TemplateTag>)
    ensures
        r == *t,
{
    match t {
        None => None,
        Some(TemplateTag::Ident(s)) => Some(TemplateTag::Ident(s.clone())),
        Some(TemplateTag::Member(a, b)) => Some(TemplateTag::Member(a.clone(), b.clone())),
        Some(TemplateTag::Other(h)) => Some(TemplateTag::Other(*h)),
    }
}

fn default_spread() -> (r: String)
    ensures
        r@ == "$$spread"@,
{
    String::from_str("$$spread")
}

fn default_child() -> (r: String)
    ensures
        r@ == "$$child"@,
{
    String::from_str("$$child")
}

fn default_children() -> (r: String)
    ensures
        r@ == "$$children"@,
{
    String::from_str("$$children")
}

fn default_template_fn() -> (r: Option<TemplateTag>)
    ensures
        tag_view(r) == Some(TemplateTagV::Member("String"@, "raw"@)),
{
    Some(TemplateTag::Member(String::from_str("String"), String::from_str("raw")))
}

impl Default for TransformVisitor {
    /// The default configuration: the well-known `String.raw` tag, no
    /// module source, the three double-dollar marker names, and an empty
    /// builder state.
    fn default() -> (r: Self)
        ensures
            tag_view(r.template) == Some(TemplateTagV::Member("String"@, "raw"@)),
            r.import_source is None,
            r.spread@ == "$$spread"@,
            r.child@ == "$$child"@,
            r.children@ == "$$children"@,
            state_empty(r.st()),
    {
        TransformVisitor {
            template: default_template_fn(),
            import_source: None,
            spread: default_spread(),
            child: default_child(),
            children: default_children(),
            quasis: Vec::new(),
            exprs: Vec::new(),
        }
    }
}

impl TransformVisitor {
    /// Empties the builder state, leaving the configuration as it is.
    pub fn reset(&mut self)
        ensures
            same_config(*final(self), *old(self)),
            state_empty(final(self).st()),
    {
        self.quasis.clear();
        self.exprs.clear();
    }

    /// Converts the accumulated builder state into a template and leaves
    /// the state empty.  The segments and slots carry over in order; the
    /// template's tag is the configured one.
    pub fn take_template(&mut self) -> (t: Template)
        requires
            state_wf(old(self).st()),
        ensures
            same_config(*final(self), *old(self)),
            state_empty(final(self).st()),
            quasis_v(t.quasis@) == old(self).st().quasis,
            exprs_v(t.exprs@) == old(self).st().exprs,
            t.quasis@.len() == t.exprs@.len() + 1,
            t.tag == old(self).template,
    {
        let mut qs: Vec<String> = Vec::new();
        core::mem::swap(&mut qs, &mut self.quasis);
        let mut es: Vec<Expr> = Vec::new();
        core::mem::swap(&mut es, &mut self.exprs);
        let tag = duplicate_tag(&self.template);
        Template { quasis: qs, exprs: es, tag }
    }

    /// Folds one root and assembles the result: an element root when one is
    /// given, else whatever the state already holds (a fragment root whose
    /// children were folded by the caller).  The builder state is empty
    /// afterwards, whatever happened.  The assembled template's segments
    /// are always one more than its slots.
    pub fn replace_jsx_element(&mut self, elt: Option<JsxElement>) -> (r: Result<
        Template,
        FoldError,
    >)
        requires
            match elt {
                Some(_) => state_wf(old(self).st()) || state_empty(old(self).st()),
                None => state_wf(old(self).st()),
            },
        ensures
            same_config(*final(self), *old(self)),
            state_empty(final(self).st()),
            match elt {
                Some(el) => match r {
                    Ok(t) => {
                        &&& fold_element_spec(element_v(el), old(self).st(), old(self).markers())
                            == Ok::<StateV, ()>(
                            StateV { quasis: quasis_v(t.quasis@), exprs: exprs_v(t.exprs@) },
                        )
                        &&& t.quasis@.len() == t.exprs@.len() + 1
                        &&& t.tag == old(self).template
                    },
                    Err(_) => fold_element_spec(
                        element_v(el),
                        old(self).st(),
                        old(self).markers(),
                    ) is Err,
                },
                None => match r {
                    Ok(t) => {
                        &&& quasis_v(t.quasis@) == old(self).st().quasis
                        &&& exprs_v(t.exprs@) == old(self).st().exprs
                        &&& t.quasis@.len() == t.exprs@.len() + 1
                        &&& t.tag == old(self).template
                    },
                    Err(_) => false,
                },
            },
    {
        match elt {
            Some(el) => {
                let mut owned = el;
                let res = self.fold_jsx_element(&mut owned);
                match res {
                    Ok(()) => Ok(self.take_template()),
                    Err(e) => {
                        self.reset();
                        Err(e)
                    },
                }
            },
            None => Ok(self.take_template()),
        }
    }

    /// Folds one element root, from an empty state, into its template.
    pub fn fold_root_element(&mut self, elt: JsxElement) -> (r: Result<Template, FoldError>)
        requires
            state_empty(old(self).st()),
        ensures
            same_config(*final(self), *old(self)),
            state_empty(final(self).st()),
            match r {
                Ok(t) => {
                    &&& fold_element_spec(element_v(elt), old(self).st(), old(self).markers())
                        == Ok::<StateV, ()>(
                        StateV { quasis: quasis_v(t.quasis@), exprs: exprs_v(t.exprs@) },
                    )
                    &&& t.quasis@.len() == t.exprs@.len() + 1
                    &&& t.tag == old(self).template
                },
                Err(_) => fold_element_spec(
                    element_v(elt),
                    old(self).st(),
                    old(self).markers(),
                ) is Err,
            },
    {
        self.replace_jsx_element(Some(elt))
    }

    /// Folds one fragment root, from an empty state, into its template: its
    /// children are folded after an empty leading segment, in place of a
    /// tag-opening literal.
    pub fn fold_root_fragment(&mut self, children: Vec<JsxChild>) -> (r: Result<
        Template,
        FoldError,
    >)
        requires
            state_empty(old(self).st()),
        ensures
            same_config(*final(self), *old(self)),
            state_empty(final(self).st()),
            match r {
                Ok(t) => {
                    &&& fold_children_spec(
                        children_v(children@),
                        StateV { quasis: seq![Seq::<char>::empty()], exprs: Seq::<ExprV>::empty() },
                        old(self).markers(),
                    ) == Ok::<StateV, ()>(
                        StateV { quasis: quasis_v(t.quasis@), exprs: exprs_v(t.exprs@) },
                    )
                    &&& t.quasis@.len() == t.exprs@.len() + 1
                    &&& t.tag == old(self).template
                },
                Err(_) => fold_children_spec(
                    children_v(children@),
                    StateV { quasis: seq![Seq::<char>::empty()], exprs: Seq::<ExprV>::empty() },
                    old(self).markers(),
                ) is Err,
            },
    {
        self.quasis.push(String::new());
        proof {
            assert(self.st().quasis =~~= seq![Seq::<char>::empty()]);
            assert(self.st().exprs =~~= Seq::<ExprV>::empty());
        }
        let mut ch = children;
        let res = self.fold_child_list(&mut ch);
        match res {
            Ok(()) => Ok(self.take_template()),
            Err(e) => {
                self.reset();
                Err(e)
            },
        }
    }
}

/// Whether `c` is an ASCII lower-case letter.
pub open spec fn is_ascii_lower(c: char) -> bool {
    0x61 <= (c as u32) && (c as u32) <= 0x7A
}

/// Whether an element with this name is a foldable root: a plain name that
/// starts with an ASCII lower-case letter (upper-case-leading names are
/// conventionally components and are left alone), or any namespaced name.
pub open spec fn foldable_root_name(n: NameV) -> bool {
    match n {
        NameV::Ident(s) => s.len() > 0 && is_ascii_lower(s[0]),
        NameV::Namespaced(_, _) => true,
        NameV::Member => false,
    }
}

/// Whether an element with this name is a foldable root.
pub fn jsx_name_is_foldable(n: &JsxName) -> (r: bool)
    ensures
        r == foldable_root_name(name_v(*n)),
{
    match n {
        JsxName::Ident(s) => {
            if s.as_str().unicode_len() == 0 {
                false
            } else {
                let c = s.as_str().get_char(0);
                let u = c as u32;
                0x61 <= u && u <= 0x7A
            }
        },
        JsxName::Namespaced(_, _) => true,
        JsxName::Member => false,
    }
}

/// What the module integrator should do, decided from the configuration.
pub enum ImportPlan {
    /// No module source is configured: nothing to inject.
    NoImport,
    /// A module source is configured but the template tag is not a plain
    /// name reference: report the incompatibility and skip injection.
    Incompatible,
    /// Rewrite the tag reference to the fresh alias `local` and prepend one
    /// named import binding `local` to the configured name `imported`.
    Inject { local: String, imported: String },
}

impl TransformVisitor {
    /// Decides the module-integration step: inject an import only when a
    /// module source is configured and the template tag is a plain name;
    /// the alias is the name with a leading underscore.
    pub fn plan_import(&self) -> (r: ImportPlan)
        ensures
            self.import_source is None ==> r == ImportPlan::NoImport,
            self.import_source is Some ==> match self.template {
                Some(TemplateTag::Ident(name)) => r matches ImportPlan::Inject {
                    local,
                    imported,
                } && imported@ == name@ && local@ == seq!['_'] + name@,
                _ => r == ImportPlan::Incompatible,
            },
    {
        if self.import_source.is_none() {
            return ImportPlan::NoImport;
        }
        match &self.template {
            Some(TemplateTag::Ident(name)) => {
                let mut local = String::from_str("_");
                local.append(name.as_str());
                proof {
                    reveal_strlit("_");
                    assert(local@ =~= seq!['_'] + name@);
                }
                ImportPlan::Inject { local, imported: name.clone() }
            },
            _ => ImportPlan::Incompatible,
        }
    }
}

} // verus!
