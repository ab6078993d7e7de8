use solid_jsx::classify::{
    attribute_alias, escape_html, is_built_in, is_component, is_dynamic, is_svg_element,
    is_void, to_event_name, trim_whitespace,
};
use solid_jsx::context::BlockContext;
use solid_jsx::model::{ExprKind, JsExpr};

#[test]
fn component_classification() {
    assert!(is_component("Button"));
    assert!(is_component("my.widget"));
    assert!(!is_component("div"));
    assert!(!is_component(""));
}

#[test]
fn built_in_set_is_exact() {
    for t in ["For", "Show", "Switch", "Match", "Index", "Suspense", "Portal", "Dynamic",
        "ErrorBoundary"] {
        assert!(is_built_in(t));
    }
    assert!(!is_built_in("Forx"));
    assert!(!is_built_in("div"));
}

#[test]
fn void_and_svg_sets() {
    for t in ["area", "base", "br", "col", "embed", "hr", "img", "input", "link", "meta",
        "param", "source", "track", "wbr"] {
        assert!(is_void(t));
    }
    assert!(!is_void("div"));
    assert!(is_svg_element("svg"));
    assert!(is_svg_element("feGaussianBlur"));
    assert!(!is_svg_element("div"));
}

#[test]
fn aliases_rewrite_known_keys_only() {
    assert_eq!(attribute_alias("className"), "class");
    assert_eq!(attribute_alias("htmlFor"), "for");
    assert_eq!(attribute_alias("id"), "id");
}

#[test]
fn event_names_strip_on_and_lowercase() {
    assert_eq!(to_event_name("onClick"), "click");
    assert_eq!(to_event_name("onDblClick"), "dblclick");
    assert_eq!(to_event_name("ONMouseDown"), "mousedown");
}

#[test]
fn escape_html_rewrites_all_special_characters() {
    assert_eq!(escape_html("a < b & c > d", false), "a &lt; b &amp; c &gt; d");
    assert_eq!(escape_html("say \"hi\"", true), "say &quot;hi&quot;");
    assert_eq!(escape_html("say \"hi\"", false), "say \"hi\"");
    assert_eq!(escape_html("", true), "");
    let out = escape_html("<script>alert(\"x\")</script>", true);
    assert!(!out.contains('<'));
    assert!(!out.contains('>'));
    assert!(!out.contains('"'));
}

#[test]
fn trim_whitespace_collapses_and_drops() {
    assert_eq!(trim_whitespace("a  b\t c"), "a b c");
    assert_eq!(trim_whitespace("  \n  "), "");
    assert_eq!(trim_whitespace("   "), " ");
    assert_eq!(trim_whitespace("a\nb"), "a b");
}

#[test]
fn reactivity_inference_follows_the_static_rule() {
    let lit = JsExpr { code: "\"x\"".to_string(), kind: ExprKind::StrLit("x".to_string()), once: false };
    assert!(!is_dynamic(&lit));
    let call = JsExpr { code: "f()".to_string(), kind: ExprKind::Other, once: false };
    assert!(is_dynamic(&call));
    let once = JsExpr { code: "f()".to_string(), kind: ExprKind::Other, once: true };
    assert!(!is_dynamic(&once));
    let imm = JsExpr { code: "K".to_string(), kind: ExprKind::Ident { immutable: true }, once: false };
    assert!(!is_dynamic(&imm));
    let mu = JsExpr { code: "k".to_string(), kind: ExprKind::Ident { immutable: false }, once: false };
    assert!(is_dynamic(&mu));
}

#[test]
fn context_registration_is_idempotent_and_ordered() {
    let mut ctx = BlockContext::new();
    ctx.register_helper("insert");
    ctx.register_helper("template");
    ctx.register_helper("insert");
    assert_eq!(ctx.helpers, vec!["insert".to_string(), "template".to_string()]);
    let ev = "click".to_string();
    ctx.register_delegate(&ev);
    ctx.register_delegate(&ev);
    assert_eq!(ctx.delegates, vec!["click".to_string()]);
}

#[test]
fn template_registration_deduplicates_and_numbers() {
    let mut ctx = BlockContext::new();
    let a = "<div></div>".to_string();
    let b = "<span></span>".to_string();
    let id1 = ctx.register_template(&a);
    let id2 = ctx.register_template(&b);
    let id3 = ctx.register_template(&a);
    assert_eq!(id1, "_tmpl$0");
    assert_eq!(id2, "_tmpl$1");
    assert_eq!(id3, id1);
    assert_eq!(ctx.templates, vec![a, b]);
}

#[test]
fn uid_generation_counts_up() {
    let mut ctx = BlockContext::new();
    assert_eq!(ctx.generate_uid("el$"), "el$0");
    assert_eq!(ctx.generate_uid("el$"), "el$1");
    assert_eq!(ctx.generate_uid("t$"), "t$2");
}
