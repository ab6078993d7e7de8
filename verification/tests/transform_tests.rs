use solid_jsx::classify::{escape_html, to_event_name, trim_whitespace};
use solid_jsx::context::BlockContext;
use solid_jsx::element::transform_element;
use solid_jsx::component::transform_component;
use solid_jsx::model::{
    AttrItem, AttrValue, ExprKind, JsExpr, JsxElement, JsxNode, Program, ProgramItem,
    TransformOptions,
};
use solid_jsx::transform::{SolidTransform, TransformError, TransformInfo};
use solid_jsx::transform;

fn s(x: &str) -> String {
    x.to_string()
}

fn attr_lit(name: &str, value: &str) -> AttrItem {
    AttrItem::Attr { name: s(name), value: AttrValue::StrLit(s(value)) }
}

fn attr_expr(name: &str, code: &str, kind: ExprKind) -> AttrItem {
    AttrItem::Attr {
        name: s(name),
        value: AttrValue::Expr(JsExpr { code: s(code), kind, once: false }),
    }
}

fn dyn_expr(code: &str) -> JsExpr {
    JsExpr { code: s(code), kind: ExprKind::Other, once: false }
}

fn ident(code: &str) -> ExprKind {
    let _ = code;
    ExprKind::Ident { immutable: true }
}

fn el(tag: &str, attrs: Vec<AttrItem>, children: Vec<JsxNode>) -> JsxElement {
    JsxElement { tag: s(tag), attrs, children }
}

fn info() -> TransformInfo {
    TransformInfo {
        top_level: true,
        last_element: true,
        skip_id: false,
        component_child: false,
        fragment_child: false,
    }
}

fn jsx_program(node: JsxNode) -> Program {
    Program { items: vec![ProgramItem::Jsx(node)] }
}

#[test]
fn test_basic_element() {
    let div = el("div", vec![attr_lit("class", "hello")], vec![JsxNode::Text(s("world"))]);
    let result = transform(&jsx_program(JsxNode::Element(div)), None).unwrap();
    assert!(!result.code.is_empty());
}

#[test]
fn test_dynamic_attribute() {
    let div = el(
        "div",
        vec![attr_expr("class", "style()", ExprKind::Other)],
        vec![JsxNode::Text(s("content"))],
    );
    let result = transform(&jsx_program(JsxNode::Element(div)), None).unwrap();
    assert!(!result.code.is_empty());
}

#[test]
fn test_component() {
    let button = el(
        "Button",
        vec![attr_expr("onClick", "handler", ident("handler"))],
        vec![JsxNode::Text(s("Click me"))],
    );
    let result = transform(&jsx_program(JsxNode::Element(button)), None).unwrap();
    assert!(!result.code.is_empty());
}

#[test]
fn test_for_loop() {
    let inner = el(
        "div",
        vec![],
        vec![JsxNode::Expr(JsExpr {
            code: s("item"),
            kind: ExprKind::Ident { immutable: false },
            once: false,
        })],
    );
    let for_el = el(
        "For",
        vec![attr_expr("each", "items", ident("items"))],
        vec![JsxNode::Expr(JsExpr {
            code: String::new(),
            kind: ExprKind::ArrowJsx { params: s("item"), body: Box::new(JsxNode::Element(inner)) },
            once: false,
        })],
    );
    let result = transform(&jsx_program(JsxNode::Element(for_el)), None).unwrap();
    assert!(!result.code.is_empty());
}

#[test]
fn static_element_has_exact_template_and_no_dynamics() {
    let div = el("div", vec![attr_lit("class", "hello")], vec![JsxNode::Text(s("world"))]);
    let mut ctx = BlockContext::new();
    let opts = TransformOptions::solid_defaults();
    let r = transform_element(&div, "div", &info(), &mut ctx, &opts);
    assert_eq!(r.template_with_closing_tags, "<div class=\"hello\">world</div>");
    assert_eq!(r.template, "<div class=\"hello\">world");
    assert_eq!(r.dynamics.len(), 0);
    assert_eq!(r.exprs.len(), 0);
    assert!(!r.is_svg);
    assert!(!r.is_void);
}

#[test]
fn static_element_full_output_uses_template_helper_only() {
    let div = el("div", vec![attr_lit("class", "hello")], vec![JsxNode::Text(s("world"))]);
    let mut t = SolidTransform::new(TransformOptions::solid_defaults());
    let code = t.transform(&jsx_program(JsxNode::Element(div))).unwrap();
    assert_eq!(t.context.helpers, vec![s("template")]);
    assert_eq!(t.context.templates, vec![s("<div class=\"hello\">world</div>")]);
    assert_eq!(t.context.delegates.len(), 0);
    assert_eq!(
        code,
        "import { template as _template } from \"solid-js/web\";\n\
         const _tmpl$0 = _template(`<div class=\"hello\">world</div>`);\n\
         (() => { var el$0 = _tmpl$0(); return el$0; })();\n"
    );
}

#[test]
fn dynamic_class_and_child_produce_binding_and_insert() {
    let div = el(
        "div",
        vec![attr_expr("class", "style()", ExprKind::Other)],
        vec![JsxNode::Expr(dyn_expr("count()"))],
    );
    let mut ctx = BlockContext::new();
    let opts = TransformOptions::solid_defaults();
    let r = transform_element(&div, "div", &info(), &mut ctx, &opts);
    assert_eq!(r.template_with_closing_tags, "<div></div>");
    assert_eq!(r.dynamics.len(), 1);
    assert_eq!(r.dynamics[0].key, "class");
    assert_eq!(r.dynamics[0].value, "style()");
    assert_eq!(r.dynamics[0].elem, "el$0");
    assert_eq!(r.exprs.len(), 1);
    assert_eq!(r.exprs[0].code, "_insert(el$0, () => count())");
}

#[test]
fn dynamic_element_full_output_registers_expected_helpers() {
    let div = el(
        "div",
        vec![attr_expr("class", "style()", ExprKind::Other)],
        vec![JsxNode::Expr(dyn_expr("count()"))],
    );
    let mut t = SolidTransform::new(TransformOptions::solid_defaults());
    let code = t.transform(&jsx_program(JsxNode::Element(div))).unwrap();
    let helpers = &t.context.helpers;
    assert!(helpers.contains(&s("template")));
    assert!(helpers.contains(&s("effect")));
    assert!(helpers.contains(&s("className")));
    assert!(helpers.contains(&s("insert")));
    assert_eq!(helpers.len(), 4);
    assert!(code.contains("_effect(() => _className(el$0, style()))"));
}

#[test]
fn component_props_and_children_getter() {
    let button = el(
        "Button",
        vec![attr_expr("onClick", "handler", ident("handler"))],
        vec![JsxNode::Text(s("Click me"))],
    );
    let mut ctx = BlockContext::new();
    let opts = TransformOptions::solid_defaults();
    let r = transform_component(&button, "Button", &mut ctx, &opts);
    assert_eq!(r.exprs.len(), 1);
    assert_eq!(
        r.exprs[0].code,
        "_createComponent(Button, { onClick: handler, get children() { return \"Click me\"; } })"
    );
    assert_eq!(ctx.helpers, vec![s("createComponent")]);
}

#[test]
fn for_builtin_uses_callback_children() {
    let inner = el(
        "div",
        vec![],
        vec![JsxNode::Expr(JsExpr {
            code: s("item"),
            kind: ExprKind::Ident { immutable: false },
            once: false,
        })],
    );
    let for_el = el(
        "For",
        vec![attr_expr("each", "items", ident("items"))],
        vec![JsxNode::Expr(JsExpr {
            code: String::new(),
            kind: ExprKind::ArrowJsx { params: s("item"), body: Box::new(JsxNode::Element(inner)) },
            once: false,
        })],
    );
    let mut ctx = BlockContext::new();
    let opts = TransformOptions::solid_defaults();
    let r = transform_component(&for_el, "For", &mut ctx, &opts);
    assert_eq!(r.exprs.len(), 1);
    let code = &r.exprs[0].code;
    assert!(code.starts_with("_createComponent(_For, { each: items, children: item => "));
    assert!(ctx.helpers.contains(&s("createComponent")));
    assert!(ctx.helpers.contains(&s("For")));
    assert!(ctx.helpers.contains(&s("template")));
    assert!(ctx.helpers.contains(&s("insert")));
}

#[test]
fn void_element_without_children() {
    let input = el(
        "input",
        vec![AttrItem::Attr { name: s("disabled"), value: AttrValue::Absent }],
        vec![],
    );
    let mut ctx = BlockContext::new();
    let opts = TransformOptions::solid_defaults();
    let r = transform_element(&input, "input", &info(), &mut ctx, &opts);
    assert_eq!(r.template_with_closing_tags, "<input disabled>");
    assert!(r.is_void);
    assert_eq!(r.dynamics.len(), 0);
    assert_eq!(r.exprs.len(), 0);
}

#[test]
fn svg_preserves_namespaced_attribute_verbatim() {
    let use_el = el("use", vec![attr_lit("xlink:href", "#id")], vec![]);
    let svg = el("svg", vec![], vec![JsxNode::Element(use_el)]);
    let mut ctx = BlockContext::new();
    let opts = TransformOptions::solid_defaults();
    let r = transform_element(&svg, "svg", &info(), &mut ctx, &opts);
    assert!(r.is_svg);
    assert!(r.template_with_closing_tags.contains("xlink:href=\"#id\""));
    assert_eq!(
        r.template_with_closing_tags,
        "<svg><use xlink:href=\"#id\"></use></svg>"
    );
}

#[test]
fn classname_is_aliased_but_not_on_svg() {
    let div = el("div", vec![attr_lit("className", "a")], vec![]);
    let mut ctx = BlockContext::new();
    let opts = TransformOptions::solid_defaults();
    let r = transform_element(&div, "div", &info(), &mut ctx, &opts);
    assert_eq!(r.template_with_closing_tags, "<div class=\"a\"></div>");

    let text_el = el("text", vec![attr_lit("className", "a")], vec![]);
    let r2 = transform_element(&text_el, "text", &info(), &mut ctx, &opts);
    assert_eq!(r2.template_with_closing_tags, "<text className=\"a\"></text>");
}

#[test]
fn void_element_with_children_is_rejected() {
    let img = el("img", vec![], vec![JsxNode::Text(s("oops"))]);
    let errs = transform(&jsx_program(JsxNode::Element(img)), None).unwrap_err();
    assert_eq!(errs.len(), 1);
    assert!(matches!(&errs[0], TransformError::VoidElementWithChildren { tag } if tag == "img"));
}

#[test]
fn switch_rejects_non_match_children() {
    let div = el("div", vec![], vec![]);
    let sw = el("Switch", vec![], vec![JsxNode::Element(div)]);
    let errs = transform(&jsx_program(JsxNode::Element(sw)), None).unwrap_err();
    assert_eq!(errs.len(), 1);
    assert!(matches!(&errs[0], TransformError::NonMatchChildOfSwitch));
}

#[test]
fn switch_accepts_match_children() {
    let m = el(
        "Match",
        vec![attr_expr("when", "cond()", ExprKind::Other)],
        vec![JsxNode::Text(s("yes"))],
    );
    let sw = el("Switch", vec![], vec![JsxNode::Element(m)]);
    let result = transform(&jsx_program(JsxNode::Element(sw)), None).unwrap();
    assert!(result.code.contains("_createComponent(_Switch, "));
    assert!(result.code.contains("_createComponent(_Match, "));
}

#[test]
fn transform_is_deterministic() {
    let make = || {
        let div = el(
            "div",
            vec![attr_expr("class", "style()", ExprKind::Other), attr_lit("id", "x")],
            vec![JsxNode::Expr(dyn_expr("count()")), JsxNode::Text(s("tail"))],
        );
        jsx_program(JsxNode::Element(div))
    };
    let r1 = transform(&make(), None).unwrap();
    let r2 = transform(&make(), None).unwrap();
    assert_eq!(r1.code, r2.code);
    assert!(r1.map.is_none());
}

#[test]
fn transform_text_normalizes_and_escapes() {
    let t = SolidTransform::new(TransformOptions::solid_defaults());
    let ir = t.transform_text(&s("  a &  b  ")).unwrap();
    assert_eq!(ir.template, " a &amp; b ");
    assert!(ir.text);
    assert!(t.transform_text(&s(" \n ")).is_none());
}

#[test]
fn find_prop_returns_first_index_by_name() {
    let e = el(
        "Show",
        vec![
            attr_expr("when", "cond()", ExprKind::Other),
            attr_lit("fallback", "none"),
        ],
        vec![],
    );
    assert_eq!(solid_jsx::component::find_prop(&e, "fallback"), Some(1));
    assert_eq!(solid_jsx::component::find_prop(&e, "when"), Some(0));
    assert_eq!(solid_jsx::component::find_prop(&e, "keyed"), None);
}

#[test]
fn empty_options_resolve_to_defaults() {
    let j = solid_jsx::JsTransformOptions::empty();
    let o = j.resolve();
    assert_eq!(o.module_name, "solid-js/web");
    assert!(o.delegate_events);
    assert!(o.wrap_conditionals);
    assert!(!o.hydratable);
    assert_eq!(o.effect_wrapper, "effect");
    assert_eq!(o.memo_wrapper, "memo");
}

#[test]
fn delegated_event_emits_property_and_registration() {
    let btn = el(
        "button",
        vec![attr_expr("onClick", "handler", ExprKind::Other)],
        vec![JsxNode::Text(s("go"))],
    );
    let mut t = SolidTransform::new(TransformOptions::solid_defaults());
    let code = t.transform(&jsx_program(JsxNode::Element(btn))).unwrap();
    assert_eq!(t.context.delegates, vec![s("click")]);
    assert!(code.contains("el$0.$$click = handler"));
    assert!(code.contains("_delegateEvents([\"click\"]);"));
    assert!(code.contains("delegateEvents as _delegateEvents"));
}

#[test]
fn non_delegated_event_uses_add_event_listener() {
    let d = el(
        "div",
        vec![attr_expr("onScroll", "onScroll", ExprKind::Other)],
        vec![],
    );
    let mut ctx = BlockContext::new();
    let opts = TransformOptions::solid_defaults();
    let r = transform_element(&d, "div", &info(), &mut ctx, &opts);
    assert_eq!(r.exprs.len(), 1);
    assert_eq!(r.exprs[0].code, "_addEventListener(el$0, \"scroll\", onScroll)");
    assert_eq!(ctx.delegates.len(), 0);
    assert!(ctx.helpers.contains(&s("addEventListener")));
}

#[test]
fn later_duplicate_attribute_wins() {
    let d = el(
        "div",
        vec![attr_lit("class", "first"), attr_lit("class", "second")],
        vec![],
    );
    let mut ctx = BlockContext::new();
    let opts = TransformOptions::solid_defaults();
    let r = transform_element(&d, "div", &info(), &mut ctx, &opts);
    assert_eq!(r.template_with_closing_tags, "<div class=\"second\"></div>");
}

#[test]
fn marker_comment_between_static_siblings() {
    let d = el(
        "div",
        vec![],
        vec![
            JsxNode::Text(s("a")),
            JsxNode::Expr(dyn_expr("mid()")),
            JsxNode::Text(s("b")),
        ],
    );
    let mut ctx = BlockContext::new();
    let opts = TransformOptions::solid_defaults();
    let r = transform_element(&d, "div", &info(), &mut ctx, &opts);
    assert_eq!(r.template_with_closing_tags, "<div>a<!>b</div>");
    assert_eq!(r.declarations.len(), 1);
    assert_eq!(r.declarations[0].init, "el$0.firstChild.nextSibling");
    assert_eq!(r.exprs[0].code, "_insert(el$0, () => mid(), el$1)");
}

#[test]
fn leading_dynamic_child_uses_first_child_anchor() {
    let d = el(
        "div",
        vec![],
        vec![JsxNode::Expr(dyn_expr("head()")), JsxNode::Text(s("b"))],
    );
    let mut ctx = BlockContext::new();
    let opts = TransformOptions::solid_defaults();
    let r = transform_element(&d, "div", &info(), &mut ctx, &opts);
    assert_eq!(r.template_with_closing_tags, "<div>b</div>");
    assert_eq!(r.exprs[0].code, "_insert(el$0, () => head(), el$0.firstChild)");
}

#[test]
fn conditional_child_is_memo_wrapped() {
    let d = el(
        "div",
        vec![],
        vec![JsxNode::Expr(JsExpr {
            code: s("a() ? 1 : 2"),
            kind: ExprKind::Conditional,
            once: false,
        })],
    );
    let mut ctx = BlockContext::new();
    let opts = TransformOptions::solid_defaults();
    let r = transform_element(&d, "div", &info(), &mut ctx, &opts);
    assert_eq!(r.exprs[0].code, "_insert(el$0, _memo(() => a() ? 1 : 2))");
    assert!(ctx.helpers.contains(&s("memo")));
}

#[test]
fn spread_attribute_and_merge_props() {
    let c = el(
        "Widget",
        vec![
            AttrItem::Spread(dyn_expr("rest")),
            attr_lit("id", "x"),
        ],
        vec![],
    );
    let mut ctx = BlockContext::new();
    let opts = TransformOptions::solid_defaults();
    let r = transform_component(&c, "Widget", &mut ctx, &opts);
    assert_eq!(
        r.exprs[0].code,
        "_createComponent(Widget, _mergeProps(rest, { id: \"x\" }))"
    );
    assert!(ctx.helpers.contains(&s("mergeProps")));
}

#[test]
fn unrecognized_builtin_prop_warns_and_passes_through() {
    let sh = el(
        "Show",
        vec![
            attr_expr("when", "c()", ExprKind::Other),
            attr_lit("frobnicate", "x"),
        ],
        vec![JsxNode::Text(s("y"))],
    );
    let mut ctx = BlockContext::new();
    let opts = TransformOptions::solid_defaults();
    let r = transform_component(&sh, "Show", &mut ctx, &opts);
    assert_eq!(ctx.warnings.len(), 1);
    assert!(ctx.warnings[0].contains("frobnicate"));
    assert!(r.exprs[0].code.contains("frobnicate: \"x\""));
}

#[test]
fn once_marked_expression_is_inlined_statically() {
    let d = el(
        "div",
        vec![AttrItem::Attr {
            name: s("title"),
            value: AttrValue::Expr(JsExpr { code: s("t()"), kind: ExprKind::Other, once: true }),
        }],
        vec![],
    );
    let mut ctx = BlockContext::new();
    let opts = TransformOptions::solid_defaults();
    let r = transform_element(&d, "div", &info(), &mut ctx, &opts);
    assert_eq!(r.dynamics.len(), 0);
    assert_eq!(r.template_with_closing_tags, "<div title=\"t()\"></div>");
}

#[test]
fn dom_property_keys_are_assigned_not_set() {
    let d = el(
        "input",
        vec![attr_expr("value", "v()", ExprKind::Other)],
        vec![],
    );
    let mut t = SolidTransform::new(TransformOptions::solid_defaults());
    let code = t.transform(&jsx_program(JsxNode::Element(d))).unwrap();
    assert!(code.contains("_effect(() => el$0.value = v())"));
    assert!(!t.context.helpers.contains(&s("setAttribute")));
}

#[test]
fn ref_use_prop_style_class_namespaces() {
    let d = el(
        "div",
        vec![
            AttrItem::Attr {
                name: s("ref"),
                value: AttrValue::Expr(dyn_expr("myRef")),
            },
            AttrItem::Attr {
                name: s("use:clickOutside"),
                value: AttrValue::Expr(dyn_expr("onOut")),
            },
            AttrItem::Attr {
                name: s("prop:scrollTop"),
                value: AttrValue::Expr(dyn_expr("top()")),
            },
            AttrItem::Attr {
                name: s("style:color"),
                value: AttrValue::Expr(dyn_expr("c()")),
            },
            AttrItem::Attr {
                name: s("class:active"),
                value: AttrValue::Expr(dyn_expr("isActive()")),
            },
        ],
        vec![],
    );
    let mut ctx = BlockContext::new();
    let opts = TransformOptions::solid_defaults();
    let r = transform_element(&d, "div", &info(), &mut ctx, &opts);
    assert_eq!(r.exprs[0].code, "_use(myRef, el$0)");
    assert_eq!(r.exprs[1].code, "_use(clickOutside, el$0, () => onOut)");
    assert_eq!(r.exprs[2].code, "el$0.scrollTop = top()");
    assert_eq!(r.dynamics.len(), 2);
    assert_eq!(r.dynamics[0].key, "style:color");
    assert_eq!(r.dynamics[1].key, "class:active");
    assert!(ctx.helpers.contains(&s("use")));
}

#[test]
fn capture_namespace_forces_direct_listener() {
    let d = el(
        "div",
        vec![AttrItem::Attr {
            name: s("oncapture:click"),
            value: AttrValue::Expr(dyn_expr("h")),
        }],
        vec![],
    );
    let mut ctx = BlockContext::new();
    let opts = TransformOptions::solid_defaults();
    let r = transform_element(&d, "div", &info(), &mut ctx, &opts);
    assert_eq!(r.exprs[0].code, "_addEventListener(el$0, \"click\", h, true)");
    assert_eq!(ctx.delegates.len(), 0);
}

#[test]
fn top_level_fragment_becomes_array() {
    let a = el("span", vec![], vec![JsxNode::Text(s("a"))]);
    let frag = JsxNode::Fragment(vec![
        JsxNode::Element(a),
        JsxNode::Expr(dyn_expr("x()")),
    ]);
    let result = transform(&jsx_program(frag), None).unwrap();
    assert!(result.code.contains("[(() => { var el$0 = _tmpl$0(); return el$0; })(), x()];"));
}

#[test]
fn style_effect_targets_sub_property() {
    let d = el(
        "div",
        vec![AttrItem::Attr {
            name: s("style:color"),
            value: AttrValue::Expr(dyn_expr("c()")),
        }],
        vec![],
    );
    let mut t = SolidTransform::new(TransformOptions::solid_defaults());
    let code = t.transform(&jsx_program(JsxNode::Element(d))).unwrap();
    assert!(code.contains("_effect(() => _style(el$0, \"color\", c()))"));
    assert!(t.context.helpers.contains(&s("style")));
}
