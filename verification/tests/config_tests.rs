use static_jsx::ast::{AttrName, JsxName, TemplateTag};
use static_jsx::classify::{is_void_element, jsx_attr_name_as_str};
use static_jsx::fold::TransformVisitor;
use static_jsx::template::{jsx_name_is_foldable, ImportPlan};
use static_jsx::text::{fold_lines, str_eq, trim_str};

#[test]
fn default_configuration() {
    let v = TransformVisitor::default();
    assert_eq!(
        v.template,
        Some(TemplateTag::Member("String".to_string(), "raw".to_string()))
    );
    assert_eq!(v.import_source, None);
    assert_eq!(v.spread, "$$spread");
    assert_eq!(v.child, "$$child");
    assert_eq!(v.children, "$$children");
    assert_eq!(v.quasis.len(), 0);
    assert_eq!(v.exprs.len(), 0);
}

#[test]
fn plan_import_without_module_source() {
    let v = TransformVisitor::default();
    assert!(matches!(v.plan_import(), ImportPlan::NoImport));
}

#[test]
fn plan_import_with_plain_name_tag() {
    let mut v = TransformVisitor::default();
    v.import_source = Some("my-mod".to_string());
    v.template = Some(TemplateTag::Ident("html".to_string()));
    match v.plan_import() {
        ImportPlan::Inject { local, imported } => {
            assert_eq!(local, "_html");
            assert_eq!(imported, "html");
        }
        _ => panic!("expected an injection plan"),
    }
}

#[test]
fn plan_import_with_member_tag_is_incompatible() {
    let mut v = TransformVisitor::default();
    v.import_source = Some("my-mod".to_string());
    assert!(matches!(v.plan_import(), ImportPlan::Incompatible));
}

#[test]
fn plan_import_without_any_tag_is_incompatible() {
    let mut v = TransformVisitor::default();
    v.import_source = Some("my-mod".to_string());
    v.template = None;
    assert!(matches!(v.plan_import(), ImportPlan::Incompatible));
}

#[test]
fn foldable_root_names() {
    assert!(jsx_name_is_foldable(&JsxName::Ident("div".to_string())));
    assert!(!jsx_name_is_foldable(&JsxName::Ident("Div".to_string())));
    assert!(!jsx_name_is_foldable(&JsxName::Ident("".to_string())));
    assert!(jsx_name_is_foldable(&JsxName::Namespaced(
        "A".to_string(),
        "b".to_string()
    )));
    assert!(!jsx_name_is_foldable(&JsxName::Member));
}

#[test]
fn void_element_set() {
    for name in [
        "area", "base", "br", "col", "embed", "hr", "img", "input", "link", "meta", "param",
        "source", "track", "wbr",
    ] {
        assert!(is_void_element(name));
    }
    assert!(!is_void_element("div"));
    assert!(!is_void_element("image"));
    assert!(!is_void_element("im"));
}

#[test]
fn attr_name_printing() {
    assert_eq!(
        jsx_attr_name_as_str(&AttrName::Ident("foo".to_string())),
        "foo"
    );
    assert_eq!(
        jsx_attr_name_as_str(&AttrName::Namespaced(
            "xlink".to_string(),
            "href".to_string()
        )),
        "xlink:href"
    );
}

#[test]
fn trimming_uses_the_whitespace_set() {
    assert_eq!(trim_str(" \t a b \n"), "a b");
    assert_eq!(trim_str("   "), "");
    assert_eq!(trim_str(""), "");
    assert_eq!(trim_str("x"), "x");
    assert_eq!(trim_str("\u{a0}x\u{3000}"), "x");
}

#[test]
fn folded_lines_drop_blanks_and_trim() {
    let mut buf = String::new();
    fold_lines(&mut buf, "  a \r\n\n  \n b\nc");
    assert_eq!(buf, "a\nb\nc\n");
    let mut buf2 = String::new();
    fold_lines(&mut buf2, "");
    assert_eq!(buf2, "");
}

#[test]
fn text_equality_by_characters() {
    assert!(str_eq("abc", "abc"));
    assert!(!str_eq("abc", "abd"));
    assert!(!str_eq("abc", "ab"));
    assert!(str_eq("", ""));
}
