use static_jsx::ast::{
    AttrName, AttrOrSpread, AttrValue, Expr, JsxAttr, JsxChild, JsxElement, JsxName, Prop, PropKey,
    TemplateTag,
};
use static_jsx::fold::{FoldError, TransformVisitor};
use static_jsx::template::Template;

fn ident_attr(name: &str, value: Option<AttrValue>) -> AttrOrSpread {
    AttrOrSpread::Attr(JsxAttr {
        name: AttrName::Ident(name.to_string()),
        value,
    })
}

fn str_attr(name: &str, value: &str) -> AttrOrSpread {
    ident_attr(name, Some(AttrValue::Str(value.to_string())))
}

fn expr_attr(name: &str, e: Expr) -> AttrOrSpread {
    ident_attr(name, Some(AttrValue::Container(e)))
}

fn elt(name: &str, attrs: Vec<AttrOrSpread>, children: Vec<JsxChild>) -> JsxElement {
    JsxElement {
        name: JsxName::Ident(name.to_string()),
        attrs,
        children,
    }
}

fn fold_ok(e: JsxElement) -> Template {
    let mut v = TransformVisitor::default();
    v.fold_root_element(e).unwrap()
}

fn kv(key: &str, value: Expr) -> Prop {
    Prop::KeyValue(PropKey::Str(key.to_string()), value)
}

fn marker_obj(marker: &str, value: Expr) -> Expr {
    Expr::Object(vec![Prop::KeyValue(
        PropKey::Ident(marker.to_string()),
        value,
    )])
}

#[test]
fn all_static_attrs_fold_to_one_segment() {
    let t = fold_ok(elt(
        "div",
        vec![str_attr("foo", "1"), str_attr("foo", "2")],
        vec![],
    ));
    assert_eq!(t.quasis, vec!["<div foo=\"1\" foo=\"2\" />".to_string()]);
    assert_eq!(t.exprs, Vec::<Expr>::new());
}

#[test]
fn void_element_closes_with_bare_gt() {
    let t = fold_ok(elt("img", vec![str_attr("src", "a.png")], vec![]));
    assert_eq!(t.quasis, vec!["<img src=\"a.png\">".to_string()]);
    assert_eq!(t.exprs, Vec::<Expr>::new());
}

#[test]
fn void_element_without_attrs() {
    let t = fold_ok(elt("br", vec![], vec![]));
    assert_eq!(t.quasis, vec!["<br>".to_string()]);
    assert_eq!(t.exprs, Vec::<Expr>::new());
}

#[test]
fn dynamic_attr_becomes_one_slot() {
    let t = fold_ok(elt("div", vec![expr_attr("foo", Expr::Other(7))], vec![]));
    assert_eq!(t.quasis, vec!["<div ".to_string(), " />".to_string()]);
    assert_eq!(
        t.exprs,
        vec![Expr::Object(vec![kv("foo", Expr::Other(7))])]
    );
}

#[test]
fn mixed_ordering_keeps_later_static_in_text() {
    let t = fold_ok(elt(
        "div",
        vec![
            str_attr("foo", "1"),
            expr_attr("foo", Expr::Other(7)),
            str_attr("foo", "3"),
        ],
        vec![],
    ));
    assert_eq!(
        t.quasis,
        vec!["<div foo=\"1\" foo=\"3\" ".to_string(), " />".to_string()]
    );
    assert_eq!(
        t.exprs,
        vec![Expr::Object(vec![kv("foo", Expr::Other(7))])]
    );
}

#[test]
fn number_literal_attr_is_static() {
    let t = fold_ok(elt(
        "div",
        vec![expr_attr("foo", Expr::Num("2".to_string()))],
        vec![],
    ));
    assert_eq!(t.quasis, vec!["<div foo=\"2\" />".to_string()]);
    assert_eq!(t.exprs, Vec::<Expr>::new());
}

#[test]
fn template_literal_attr_is_static() {
    let t = fold_ok(elt(
        "div",
        vec![expr_attr("foo", Expr::Tpl("bar".to_string()))],
        vec![],
    ));
    assert_eq!(t.quasis, vec!["<div foo=\"bar\" />".to_string()]);
    assert_eq!(t.exprs, Vec::<Expr>::new());
}

#[test]
fn true_literal_folds_to_bare_presence() {
    let t = fold_ok(elt("div", vec![expr_attr("hidden", Expr::Bool(true))], vec![]));
    assert_eq!(t.quasis, vec!["<div hidden />".to_string()]);
    assert_eq!(t.exprs, Vec::<Expr>::new());
}

#[test]
fn false_literal_attr_is_dynamic() {
    let t = fold_ok(elt("div", vec![expr_attr("hidden", Expr::Bool(false))], vec![]));
    assert_eq!(t.quasis, vec!["<div ".to_string(), " />".to_string()]);
    assert_eq!(
        t.exprs,
        vec![Expr::Object(vec![kv("hidden", Expr::Bool(false))])]
    );
}

#[test]
fn valueless_attr_folds_to_bare_presence() {
    let t = fold_ok(elt("div", vec![ident_attr("x", None)], vec![]));
    assert_eq!(t.quasis, vec!["<div x />".to_string()]);
    assert_eq!(t.exprs, Vec::<Expr>::new());
}

#[test]
fn bigint_literal_attr_is_dynamic() {
    let t = fold_ok(elt(
        "div",
        vec![expr_attr("n", Expr::BigInt("10".to_string()))],
        vec![],
    ));
    assert_eq!(t.quasis, vec!["<div ".to_string(), " />".to_string()]);
    assert_eq!(
        t.exprs,
        vec![Expr::Object(vec![kv("n", Expr::BigInt("10".to_string()))])]
    );
}

#[test]
fn all_static_spread_folds_to_text() {
    let spread = AttrOrSpread::Spread(Expr::Object(vec![
        Prop::KeyValue(
            PropKey::Ident("foo".to_string()),
            Expr::Str("foo".to_string()),
        ),
        Prop::KeyValue(PropKey::Ident("bar".to_string()), Expr::Bool(true)),
    ]));
    let t = fold_ok(elt("div", vec![spread], vec![]));
    assert_eq!(t.quasis, vec!["<div foo=\"foo\" bar />".to_string()]);
    assert_eq!(t.exprs, Vec::<Expr>::new());
}

#[test]
fn spread_with_residual_emits_one_slot() {
    let spread = AttrOrSpread::Spread(Expr::Object(vec![
        Prop::KeyValue(
            PropKey::Ident("foo".to_string()),
            Expr::Str("foo".to_string()),
        ),
        Prop::Other(3),
    ]));
    let t = fold_ok(elt("div", vec![spread], vec![]));
    assert_eq!(
        t.quasis,
        vec!["<div foo=\"foo\" ".to_string(), " />".to_string()]
    );
    assert_eq!(
        t.exprs,
        vec![marker_obj(
            "$$spread",
            Expr::Object(vec![Prop::Other(3)])
        )]
    );
}

#[test]
fn non_object_spread_is_one_slot() {
    let t = fold_ok(elt(
        "div",
        vec![AttrOrSpread::Spread(Expr::Other(5))],
        vec![],
    ));
    assert_eq!(t.quasis, vec!["<div ".to_string(), " />".to_string()]);
    assert_eq!(t.exprs, vec![marker_obj("$$spread", Expr::Other(5))]);
}

#[test]
fn spread_between_dynamic_attrs_splits_the_deferred_slot() {
    let t = fold_ok(elt(
        "div",
        vec![
            expr_attr("a", Expr::Other(1)),
            AttrOrSpread::Spread(Expr::Other(2)),
            expr_attr("b", Expr::Other(3)),
        ],
        vec![],
    ));
    assert_eq!(
        t.quasis,
        vec![
            "<div ".to_string(),
            " ".to_string(),
            " ".to_string(),
            " />".to_string()
        ]
    );
    assert_eq!(
        t.exprs,
        vec![
            Expr::Object(vec![kv("a", Expr::Other(1))]),
            marker_obj("$$spread", Expr::Other(2)),
            Expr::Object(vec![kv("b", Expr::Other(3))]),
        ]
    );
}

#[test]
fn text_child_is_trimmed() {
    let t = fold_ok(elt(
        "div",
        vec![],
        vec![JsxChild::Text("  hello  ".to_string())],
    ));
    assert_eq!(t.quasis, vec!["<div>hello</div>".to_string()]);
    assert_eq!(t.exprs, Vec::<Expr>::new());
}

#[test]
fn string_literal_child_gets_trailing_space() {
    let t = fold_ok(elt(
        "div",
        vec![],
        vec![JsxChild::Container(Expr::Str(" x ".to_string()))],
    ));
    assert_eq!(t.quasis, vec!["<div>x </div>".to_string()]);
}

#[test]
fn number_literal_child_gets_trailing_space() {
    let t = fold_ok(elt(
        "div",
        vec![],
        vec![JsxChild::Container(Expr::Num("42".to_string()))],
    ));
    assert_eq!(t.quasis, vec!["<div>42 </div>".to_string()]);
}

#[test]
fn template_child_folds_lines() {
    let t = fold_ok(elt(
        "div",
        vec![],
        vec![JsxChild::Container(Expr::Tpl("  a \n\n b \n".to_string()))],
    ));
    assert_eq!(t.quasis, vec!["<div>a\nb\n</div>".to_string()]);
    assert_eq!(t.exprs, Vec::<Expr>::new());
}

#[test]
fn dynamic_child_becomes_child_slot() {
    let t = fold_ok(elt(
        "div",
        vec![],
        vec![JsxChild::Container(Expr::Other(9))],
    ));
    assert_eq!(t.quasis, vec!["<div>".to_string(), " </div>".to_string()]);
    assert_eq!(t.exprs, vec![marker_obj("$$child", Expr::Other(9))]);
}

#[test]
fn spread_child_becomes_children_slot() {
    let t = fold_ok(elt("div", vec![], vec![JsxChild::Spread(Expr::Other(4))]));
    assert_eq!(t.quasis, vec!["<div>".to_string(), " </div>".to_string()]);
    assert_eq!(t.exprs, vec![marker_obj("$$children", Expr::Other(4))]);
}

#[test]
fn empty_container_child_is_skipped() {
    let t = fold_ok(elt("div", vec![], vec![JsxChild::EmptyContainer]));
    assert_eq!(t.quasis, vec!["<div></div>".to_string()]);
    assert_eq!(t.exprs, Vec::<Expr>::new());
}

#[test]
fn nested_element_folds_inline() {
    let inner = elt("br", vec![], vec![]);
    let t = fold_ok(elt(
        "div",
        vec![],
        vec![JsxChild::Element(Box::new(inner))],
    ));
    assert_eq!(t.quasis, vec!["<div><br></div>".to_string()]);
    assert_eq!(t.exprs, Vec::<Expr>::new());
}

#[test]
fn fragment_child_is_flattened() {
    let t = fold_ok(elt(
        "div",
        vec![],
        vec![JsxChild::Fragment(vec![
            JsxChild::Text("a".to_string()),
            JsxChild::Text("b".to_string()),
        ])],
    ));
    assert_eq!(t.quasis, vec!["<div>ab</div>".to_string()]);
}

#[test]
fn container_with_nested_element_recurses() {
    let inner = elt("hr", vec![], vec![]);
    let t = fold_ok(elt(
        "div",
        vec![],
        vec![JsxChild::Container(Expr::Element(Box::new(inner)))],
    ));
    assert_eq!(t.quasis, vec!["<div><hr></div>".to_string()]);
}

#[test]
fn namespaced_element_and_attr() {
    let t = fold_ok(JsxElement {
        name: JsxName::Namespaced("svg".to_string(), "use".to_string()),
        attrs: vec![AttrOrSpread::Attr(JsxAttr {
            name: AttrName::Namespaced("xlink".to_string(), "href".to_string()),
            value: Some(AttrValue::Str("#a".to_string())),
        })],
        children: vec![],
    });
    assert_eq!(t.quasis, vec!["<svg:use xlink:href=\"#a\" />".to_string()]);
}

#[test]
fn namespaced_void_lookalike_is_not_void() {
    let t = fold_ok(JsxElement {
        name: JsxName::Namespaced("x".to_string(), "img".to_string()),
        attrs: vec![],
        children: vec![],
    });
    assert_eq!(t.quasis, vec!["<x:img />".to_string()]);
}

#[test]
fn member_tag_name_is_rejected() {
    let mut v = TransformVisitor::default();
    let r = v.fold_root_element(JsxElement {
        name: JsxName::Member,
        attrs: vec![],
        children: vec![],
    });
    assert_eq!(r.unwrap_err(), FoldError::UnsupportedTagName);
}

#[test]
fn nested_member_tag_name_is_rejected() {
    let inner = JsxElement {
        name: JsxName::Member,
        attrs: vec![],
        children: vec![],
    };
    let mut v = TransformVisitor::default();
    let r = v.fold_root_element(elt(
        "div",
        vec![],
        vec![JsxChild::Element(Box::new(inner))],
    ));
    assert_eq!(r.unwrap_err(), FoldError::UnsupportedTagName);
}

#[test]
fn folder_is_reusable_after_an_error() {
    let mut v = TransformVisitor::default();
    let bad = JsxElement {
        name: JsxName::Member,
        attrs: vec![],
        children: vec![],
    };
    assert!(v.fold_root_element(bad).is_err());
    let t = v.fold_root_element(elt("br", vec![], vec![])).unwrap();
    assert_eq!(t.quasis, vec!["<br>".to_string()]);
}

#[test]
fn fragment_root_starts_with_empty_segment() {
    let mut v = TransformVisitor::default();
    let t = v
        .fold_root_fragment(vec![
            JsxChild::Text(" hi ".to_string()),
            JsxChild::Container(Expr::Other(1)),
        ])
        .unwrap();
    assert_eq!(t.quasis, vec!["hi".to_string(), " ".to_string()]);
    assert_eq!(t.exprs, vec![marker_obj("$$child", Expr::Other(1))]);
}

#[test]
fn empty_fragment_root_is_one_empty_segment() {
    let mut v = TransformVisitor::default();
    let t = v.fold_root_fragment(vec![]).unwrap();
    assert_eq!(t.quasis, vec!["".to_string()]);
    assert_eq!(t.exprs, Vec::<Expr>::new());
}

#[test]
fn segments_always_outnumber_slots_by_one() {
    let t = fold_ok(elt(
        "section",
        vec![
            str_attr("id", "s"),
            expr_attr("a", Expr::Other(1)),
            AttrOrSpread::Spread(Expr::Other(2)),
        ],
        vec![
            JsxChild::Text("x".to_string()),
            JsxChild::Container(Expr::Other(3)),
            JsxChild::Spread(Expr::Other(4)),
        ],
    ));
    assert_eq!(t.quasis.len(), t.exprs.len() + 1);
}

#[test]
fn template_carries_the_configured_tag() {
    let t = fold_ok(elt("br", vec![], vec![]));
    assert_eq!(
        t.tag,
        Some(TemplateTag::Member("String".to_string(), "raw".to_string()))
    );
}

#[test]
fn element_valued_attr_is_dynamic() {
    let t = fold_ok(elt(
        "div",
        vec![ident_attr(
            "icon",
            Some(AttrValue::Element(Box::new(elt("br", vec![], vec![])))),
        )],
        vec![],
    ));
    assert_eq!(t.quasis, vec!["<div ".to_string(), " />".to_string()]);
    assert_eq!(
        t.exprs,
        vec![Expr::Object(vec![kv(
            "icon",
            Expr::Element(Box::new(elt("br", vec![], vec![])))
        )])]
    );
}

#[test]
fn custom_marker_names_are_used_in_slots() {
    let mut v = TransformVisitor {
        template: None,
        import_source: None,
        spread: "sp".to_string(),
        child: "ch".to_string(),
        children: "chn".to_string(),
        quasis: Vec::new(),
        exprs: Vec::new(),
    };
    let t = v
        .fold_root_element(elt(
            "div",
            vec![AttrOrSpread::Spread(Expr::Other(1))],
            vec![
                JsxChild::Container(Expr::Other(2)),
                JsxChild::Spread(Expr::Other(3)),
            ],
        ))
        .unwrap();
    assert_eq!(t.tag, None);
    assert_eq!(t.exprs, vec![
        marker_obj("sp", Expr::Other(1)),
        marker_obj("ch", Expr::Other(2)),
        marker_obj("chn", Expr::Other(3)),
    ]);
}

#[test]
fn nested_structure_folds_in_one_pass() {
    let inner = elt(
        "li",
        vec![str_attr("class", "item")],
        vec![JsxChild::Container(Expr::Other(8))],
    );
    let t = fold_ok(elt(
        "ul",
        vec![],
        vec![
            JsxChild::Text(" \n ".to_string()),
            JsxChild::Element(Box::new(inner)),
            JsxChild::Text(" tail ".to_string()),
        ],
    ));
    assert_eq!(
        t.quasis,
        vec![
            "<ul><li class=\"item\">".to_string(),
            " </li>tail</ul>".to_string()
        ]
    );
    assert_eq!(t.exprs, vec![marker_obj("$$child", Expr::Other(8))]);
}
