//! Lowering of native host elements: template text, attribute classification,
//! event wiring, walk-path declarations and child composition.

use vstd::prelude::*;
use vstd::string::{StringExecFns, StrSliceExecFns};
use crate::classify::{
    attribute_alias, bool_text, escape_html, is_component, is_custom_element, is_dynamic,
    is_svg_element, is_void, new_string, render_static, spec_alias, spec_bool_text, spec_escape,
    spec_event_name, spec_is_component, spec_is_custom_element, spec_is_static,
    spec_is_svg, spec_is_void, spec_render_static, spec_starts_with, spec_trim,
    str_eq, str_starts_with, str_suffix, to_event_name, trim_whitespace,
};
use crate::context::{BlockContext, CtxView};
use crate::ir::{
    DynamicBinding, SpecDecl, SpecDyn, SpecIr, TransformResult, empty_ir, reg_delegate,
    reg_helper, spec_uid,
};
use crate::model::{AttrItem, AttrValue, JsExpr, JsxElement, JsxNode, TransformOptions};
use crate::transform::TransformInfo;

verus! {

broadcast use vstd::std_specs::vec::axiom_vec_index_decreases;

// ---------------------------------------------------------------------------
// the built-in delegation set
// ---------------------------------------------------------------------------

/// The built-in set of events that may be delegated to a document-level
/// listener.
pub open spec fn spec_is_delegated(ev: Seq<char>) -> bool {
    ||| ev == "beforeinput"@ ||| ev == "click"@ ||| ev == "dblclick"@
    ||| ev == "contextmenu"@ ||| ev == "focusin"@ ||| ev == "focusout"@
    ||| ev == "input"@ ||| ev == "keydown"@ ||| ev == "keyup"@
    ||| ev == "mousedown"@ ||| ev == "mousemove"@ ||| ev == "mouseout"@
    ||| ev == "mouseover"@ ||| ev == "mouseup"@ ||| ev == "pointerdown"@
    ||| ev == "pointermove"@ ||| ev == "pointerout"@ ||| ev == "pointerover"@
    ||| ev == "pointerup"@ ||| ev == "touchend"@ ||| ev == "touchmove"@
    ||| ev == "touchstart"@
}

/// Membership in the built-in delegation set.
pub fn is_delegated_event(ev: &str) -> (r: bool)
    ensures
        r == spec_is_delegated(ev@),
{
    str_eq(ev, "beforeinput") || str_eq(ev, "click") || str_eq(ev, "dblclick")
        || str_eq(ev, "contextmenu") || str_eq(ev, "focusin") || str_eq(ev, "focusout")
        || str_eq(ev, "input") || str_eq(ev, "keydown") || str_eq(ev, "keyup")
        || str_eq(ev, "mousedown") || str_eq(ev, "mousemove") || str_eq(ev, "mouseout")
        || str_eq(ev, "mouseover") || str_eq(ev, "mouseup") || str_eq(ev, "pointerdown")
        || str_eq(ev, "pointermove") || str_eq(ev, "pointerout") || str_eq(ev, "pointerover")
        || str_eq(ev, "pointerup") || str_eq(ev, "touchend") || str_eq(ev, "touchmove")
        || str_eq(ev, "touchstart")
}

/// Whether `ev` is in the user-supplied delegation additions.
pub open spec fn spec_in_user_delegated(evs: Seq<String>, ev: Seq<char>) -> bool {
    exists|i: int| 0 <= i < evs.len() && evs[i]@ == ev
}

fn in_user_delegated(evs: &Vec<String>, ev: &String) -> (r: bool)
    ensures
        r == spec_in_user_delegated(evs@, ev@),
{
    let mut i: usize = 0;
    while i < evs.len()
        invariant
            0 <= i <= evs@.len(),
            forall|j: int| 0 <= j < i ==> evs@[j]@ != ev@,
        decreases evs@.len() - i,
    {
        let e = &evs[i];
        if e.eq(ev) {
            return true;
        }
        i = i + 1;
    }
    false
}

// ---------------------------------------------------------------------------
// attribute lowering, spec level
// ---------------------------------------------------------------------------

/// The code of an attribute value in expression position: `true` when absent,
/// a string literal's quoted text, or the expression's source text.
pub open spec fn spec_value_code(v: AttrValue) -> Seq<char> {
    match v {
        AttrValue::Absent => "true"@,
        AttrValue::StrLit(s) => "\""@ + s@ + "\""@,
        AttrValue::Expr(e) => e.code@,
    }
}

/// Lowering of a `ref` attribute: registers the `use` helper and binds the
/// user reference to the node.
pub open spec fn spec_lower_ref(v: AttrValue, elem_id: Seq<char>, ir: SpecIr, ctx: CtxView) -> (
    SpecIr,
    CtxView,
) {
    let ctx1 = reg_helper(ctx, "use"@);
    match v {
        AttrValue::Expr(e) => (
            SpecIr {
                exprs: ir.exprs.push("_use("@ + e.code@ + ", "@ + elem_id + ")"@),
                ..ir
            },
            ctx1,
        ),
        _ => (ir, ctx1),
    }
}

/// Lowering of an event attribute. `on:` and `oncapture:` namespaces force a
/// direct listener with the matching capture flag; otherwise the event is
/// delegated when delegation is on and the event is in the delegation set.
pub open spec fn spec_lower_event(
    key: Seq<char>,
    v: AttrValue,
    elem_id: Seq<char>,
    ir: SpecIr,
    ctx: CtxView,
    opts: TransformOptions,
) -> (SpecIr, CtxView) {
    if spec_starts_with(key, "on:"@) {
        let ev = key.subrange(3, key.len() as int);
        let ctx1 = reg_helper(ctx, "addEventListener"@);
        match v {
            AttrValue::Expr(e) => (
                SpecIr {
                    exprs: ir.exprs.push(
                        "_addEventListener("@ + elem_id + ", \""@ + ev + "\", "@ + e.code@
                            + ", false)"@,
                    ),
                    ..ir
                },
                ctx1,
            ),
            _ => (ir, ctx1),
        }
    } else if spec_starts_with(key, "oncapture:"@) {
        let ev = key.subrange(10, key.len() as int);
        let ctx1 = reg_helper(ctx, "addEventListener"@);
        match v {
            AttrValue::Expr(e) => (
                SpecIr {
                    exprs: ir.exprs.push(
                        "_addEventListener("@ + elem_id + ", \""@ + ev + "\", "@ + e.code@
                            + ", true)"@,
                    ),
                    ..ir
                },
                ctx1,
            ),
            _ => (ir, ctx1),
        }
    } else {
        let ev = spec_event_name(key);
        let delegated = opts.delegate_events && (spec_is_delegated(ev) || spec_in_user_delegated(
            opts.delegated_events@,
            ev,
        ));
        match v {
            AttrValue::Expr(e) => if delegated {
                (
                    SpecIr {
                        exprs: ir.exprs.push(elem_id + ".$$"@ + ev + " = "@ + e.code@),
                        ..ir
                    },
                    reg_delegate(ctx, ev),
                )
            } else {
                (
                    SpecIr {
                        exprs: ir.exprs.push(
                            "_addEventListener("@ + elem_id + ", \""@ + ev + "\", "@ + e.code@
                                + ")"@,
                        ),
                        ..ir
                    },
                    reg_helper(ctx, "addEventListener"@),
                )
            },
            _ => (ir, ctx),
        }
    }
}

/// Lowering of a `use:` directive: registers the `use` helper and invokes the
/// directive with the node and a getter for the value.
pub open spec fn spec_lower_directive(
    key: Seq<char>,
    v: AttrValue,
    elem_id: Seq<char>,
    ir: SpecIr,
    ctx: CtxView,
) -> (SpecIr, CtxView) {
    let dir = key.subrange(4, key.len() as int);
    (
        SpecIr {
            exprs: ir.exprs.push(
                "_use("@ + dir + ", "@ + elem_id + ", () => "@ + spec_value_code(v) + ")"@,
            ),
            ..ir
        },
        reg_helper(ctx, "use"@),
    )
}

/// Lowering of one attribute of a native element.
pub open spec fn spec_lower_attr(
    a: AttrItem,
    elem_id: Seq<char>,
    tag: Seq<char>,
    svg: bool,
    ce: bool,
    has_children: bool,
    ir: SpecIr,
    ctx: CtxView,
    opts: TransformOptions,
) -> (SpecIr, CtxView) {
    match a {
        AttrItem::Spread(e) => (
            SpecIr {
                exprs: ir.exprs.push(
                    "_spread("@ + elem_id + ", "@ + e.code@ + ", "@ + spec_bool_text(svg) + ", "@
                        + spec_bool_text(has_children) + ")"@,
                ),
                ..ir
            },
            reg_helper(ctx, "spread"@),
        ),
        AttrItem::Attr { name, value } => {
            let key = name@;
            if key == "ref"@ {
                spec_lower_ref(value, elem_id, ir, ctx)
            } else if spec_starts_with(key, "use:"@) {
                spec_lower_directive(key, value, elem_id, ir, ctx)
            } else if spec_starts_with(key, "on"@) {
                spec_lower_event(key, value, elem_id, ir, ctx, opts)
            } else if spec_starts_with(key, "style:"@) || spec_starts_with(key, "class:"@) {
                (
                    SpecIr {
                        dynamics: ir.dynamics.push(
                            SpecDyn {
                                elem: elem_id,
                                key,
                                value: spec_value_code(value),
                                is_svg: svg,
                                is_ce: ce,
                                tag_name: tag,
                            },
                        ),
                        ..ir
                    },
                    ctx,
                )
            } else if spec_starts_with(key, "prop:"@) {
                let sub = key.subrange(5, key.len() as int);
                (
                    SpecIr {
                        exprs: ir.exprs.push(elem_id + "."@ + sub + " = "@ + spec_value_code(value)),
                        ..ir
                    },
                    ctx,
                )
            } else if spec_starts_with(key, "attr:"@) {
                let sub = key.subrange(5, key.len() as int);
                match value {
                    AttrValue::Absent => (
                        SpecIr {
                            template: ir.template + " "@ + sub,
                            template_close: ir.template_close + " "@ + sub,
                            ..ir
                        },
                        ctx,
                    ),
                    AttrValue::StrLit(s) => (
                        SpecIr {
                            template: ir.template + " "@ + sub + "=\""@ + spec_escape(s@, true)
                                + "\""@,
                            template_close: ir.template_close + " "@ + sub + "=\""@ + spec_escape(
                                s@,
                                true,
                            ) + "\""@,
                            ..ir
                        },
                        ctx,
                    ),
                    AttrValue::Expr(e) => if spec_is_static(e) {
                        (
                            SpecIr {
                                template: ir.template + " "@ + sub + "=\""@ + spec_escape(
                                    spec_render_static(e),
                                    true,
                                ) + "\""@,
                                template_close: ir.template_close + " "@ + sub + "=\""@
                                    + spec_escape(spec_render_static(e), true) + "\""@,
                                ..ir
                            },
                            ctx,
                        )
                    } else {
                        (
                            SpecIr {
                                dynamics: ir.dynamics.push(
                                    SpecDyn {
                                        elem: elem_id,
                                        key,
                                        value: e.code@,
                                        is_svg: svg,
                                        is_ce: ce,
                                        tag_name: tag,
                                    },
                                ),
                                ..ir
                            },
                            ctx,
                        )
                    },
                }
            } else {
                // a regular attribute; aliasing is suppressed on SVG elements
                let akey = if svg { key } else { spec_alias(key) };
                match value {
                    AttrValue::Absent => (
                        SpecIr {
                            template: ir.template + " "@ + key,
                            template_close: ir.template_close + " "@ + key,
                            ..ir
                        },
                        ctx,
                    ),
                    AttrValue::StrLit(s) => (
                        SpecIr {
                            template: ir.template + " "@ + akey + "=\""@ + spec_escape(s@, true)
                                + "\""@,
                            template_close: ir.template_close + " "@ + akey + "=\""@ + spec_escape(
                                s@,
                                true,
                            ) + "\""@,
                            ..ir
                        },
                        ctx,
                    ),
                    AttrValue::Expr(e) => if spec_is_static(e) {
                        (
                            SpecIr {
                                template: ir.template + " "@ + akey + "=\""@ + spec_escape(
                                    spec_render_static(e),
                                    true,
                                ) + "\""@,
                                template_close: ir.template_close + " "@ + akey + "=\""@
                                    + spec_escape(spec_render_static(e), true) + "\""@,
                                ..ir
                            },
                            ctx,
                        )
                    } else {
                        (
                            SpecIr {
                                dynamics: ir.dynamics.push(
                                    SpecDyn {
                                        elem: elem_id,
                                        key,
                                        value: e.code@,
                                        is_svg: svg,
                                        is_ce: ce,
                                        tag_name: tag,
                                    },
                                ),
                                ..ir
                            },
                            ctx,
                        )
                    },
                }
            }
        },
    }
}

/// The name of a named attribute.
pub open spec fn spec_attr_name(a: AttrItem) -> Option<Seq<char>> {
    match a {
        AttrItem::Attr { name, value } => Some(name@),
        AttrItem::Spread(_) => None,
    }
}

/// Whether a later attribute repeats the name of attribute `i`: the later
/// occurrence wins and the earlier one is dropped entirely.
pub open spec fn spec_dup_later(attrs: Seq<AttrItem>, i: int) -> bool {
    match attrs[i] {
        AttrItem::Attr { name, value } => exists|j: int|
            i < j < attrs.len() && #[trigger] spec_attr_name(attrs[j]) == Some(name@),
        AttrItem::Spread(_) => false,
    }
}

/// Lowering of the attribute list from index `i` on, in source order,
/// skipping attributes that a later occurrence of the same name overrides.
pub open spec fn spec_lower_attrs(
    attrs: Seq<AttrItem>,
    i: int,
    elem_id: Seq<char>,
    tag: Seq<char>,
    svg: bool,
    ce: bool,
    has_children: bool,
    ir: SpecIr,
    ctx: CtxView,
    opts: TransformOptions,
) -> (SpecIr, CtxView)
    decreases attrs.len() - i,
{
    if i < 0 || i >= attrs.len() {
        (ir, ctx)
    } else {
        let (ir1, ctx1) = if spec_dup_later(attrs, i) {
            (ir, ctx)
        } else {
            spec_lower_attr(attrs[i], elem_id, tag, svg, ce, has_children, ir, ctx, opts)
        };
        spec_lower_attrs(attrs, i + 1, elem_id, tag, svg, ce, has_children, ir1, ctx1, opts)
    }
}

// ---------------------------------------------------------------------------
// child lowering, spec level
// ---------------------------------------------------------------------------

/// The walk state while composing children: whether any DOM node has been
/// placed yet, and the expression addressing the previous placed node.
pub ghost struct WalkSt {
    pub first: bool,
    pub prev: Seq<char>,
}

/// The walk-path expression addressing the next DOM node.
pub open spec fn walk_access(parent_id: Seq<char>, w: WalkSt) -> Seq<char> {
    if w.first {
        parent_id + ".firstChild"@
    } else {
        w.prev + ".nextSibling"@
    }
}

/// Whether a child contributes a node to the static template: nonempty text,
/// a native element, a static expression, or a fragment containing one.
pub open spec fn spec_contributes_dom(n: JsxNode) -> bool
    decreases n,
{
    match n {
        JsxNode::Text(t) => spec_trim(t@).len() > 0,
        JsxNode::Element(e) => !spec_is_component(e.tag@),
        JsxNode::Expr(e) => spec_is_static(e),
        JsxNode::Fragment(v) => exists|k: int|
            0 <= k < v@.len() && spec_contributes_dom(#[trigger] v@[k]),
        JsxNode::SpreadChild(_) => false,
    }
}

/// Whether any child from index `i` on contributes a template node.
pub open spec fn spec_follows_dom(s: Seq<JsxNode>, i: int) -> bool {
    exists|j: int| i <= j < s.len() && spec_contributes_dom(#[trigger] s[j])
}

/// The value expression of a dynamic child insert: conditionals are wrapped
/// in the memo primitive when the option asks for it, everything else in a
/// thunk.
pub open spec fn spec_insert_value(e: JsExpr, ctx: CtxView, opts: TransformOptions) -> (
    Seq<char>,
    CtxView,
) {
    if opts.wrap_conditionals && e.kind is Conditional {
        (
            "_"@ + opts.memo_wrapper@ + "(() => "@ + e.code@ + ")"@,
            reg_helper(ctx, opts.memo_wrapper@),
        )
    } else {
        ("() => "@ + e.code@, ctx)
    }
}

/// Lowering of one dynamic child (an expression, a component or a spread
/// child) into an insert expression. A marker comment is placed in the
/// template only between two placed nodes; a leading dynamic child uses the
/// parent's first child as its anchor, a trailing one none at all.
pub open spec fn spec_insert_child(
    value: Seq<char>,
    parent_id: Seq<char>,
    follows: bool,
    ir: SpecIr,
    ctx: CtxView,
    w: WalkSt,
) -> (SpecIr, CtxView, WalkSt) {
    let ctx1 = reg_helper(ctx, "insert"@);
    if !follows {
        (
            SpecIr {
                exprs: ir.exprs.push("_insert("@ + parent_id + ", "@ + value + ")"@),
                ..ir
            },
            ctx1,
            w,
        )
    } else if w.first {
        (
            SpecIr {
                exprs: ir.exprs.push(
                    "_insert("@ + parent_id + ", "@ + value + ", "@ + parent_id + ".firstChild)"@,
                ),
                ..ir
            },
            ctx1,
            w,
        )
    } else {
        let (uid, ctx2) = spec_uid(ctx1, "el$"@);
        let access = w.prev + ".nextSibling"@;
        (
            SpecIr {
                template: ir.template + "<!>"@,
                template_close: ir.template_close + "<!>"@,
                decls: ir.decls.push(SpecDecl { id: uid, init: access }),
                exprs: ir.exprs.push("_insert("@ + parent_id + ", "@ + value + ", "@ + uid + ")"@),
                ..ir
            },
            ctx2,
            WalkSt { first: false, prev: uid },
        )
    }
}

/// Lowering of the children of a native element from index `i` on: text and
/// static expressions append escaped template text, native elements recurse
/// and merge, components and dynamic expressions become inserts, fragments
/// splice in place.
pub open spec fn spec_lower_children(
    s: Seq<JsxNode>,
    i: int,
    parent_id: Seq<char>,
    ir: SpecIr,
    ctx: CtxView,
    w: WalkSt,
    opts: TransformOptions,
) -> (SpecIr, CtxView, WalkSt)
    decreases s, s.len() - i, 2int,
{
    if i < 0 || i >= s.len() {
        (ir, ctx, w)
    } else {
        let follows = spec_follows_dom(s, i + 1);
        let (ir1, ctx1, w1) = spec_lower_child(s, i, parent_id, ir, ctx, w, opts, follows);
        spec_lower_children(s, i + 1, parent_id, ir1, ctx1, w1, opts)
    }
}

/// Lowering of the single child at index `i`, given whether template nodes
/// follow it.
pub open spec fn spec_lower_child(
    s: Seq<JsxNode>,
    i: int,
    parent_id: Seq<char>,
    ir: SpecIr,
    ctx: CtxView,
    w: WalkSt,
    opts: TransformOptions,
    follows: bool,
) -> (SpecIr, CtxView, WalkSt)
    decreases s, s.len() - i, 1int,
{
    if i < 0 || i >= s.len() {
        (ir, ctx, w)
    } else {
        match s[i] {
            JsxNode::Text(t) => {
                let tv = spec_trim(t@);
                if tv.len() == 0 {
                    (ir, ctx, w)
                } else {
                    let esc = spec_escape(tv, false);
                    (
                        SpecIr {
                            template: ir.template + esc,
                            template_close: ir.template_close + esc,
                            ..ir
                        },
                        ctx,
                        WalkSt { first: false, prev: walk_access(parent_id, w) },
                    )
                }
            },
            JsxNode::Expr(e) => {
                if spec_is_static(e) {
                    let esc = spec_escape(spec_render_static(e), false);
                    (
                        SpecIr {
                            template: ir.template + esc,
                            template_close: ir.template_close + esc,
                            ..ir
                        },
                        ctx,
                        WalkSt { first: false, prev: walk_access(parent_id, w) },
                    )
                } else {
                    let (value, ctxa) = spec_insert_value(e, ctx, opts);
                    spec_insert_child(value, parent_id, follows, ir, ctxa, w)
                }
            },
            JsxNode::SpreadChild(e) => {
                let value = "() => [..."@ + e.code@ + "]"@;
                spec_insert_child(value, parent_id, follows, ir, ctx, w)
            },
            JsxNode::Element(e) => {
                if spec_is_component(e.tag@) {
                    let (cir, ctxa) = crate::component::spec_lower_component(e, ctx, opts);
                    let value = if cir.exprs.len() > 0 {
                        cir.exprs[0]
                    } else {
                        "null"@
                    };
                    spec_insert_child(value, parent_id, follows, ir, ctxa, w)
                } else {
                    let (cir, ctxa) = spec_lower_element(e, false, ctx, opts);
                    let access = walk_access(parent_id, w);
                    match cir.id {
                        Some(cid) => (
                            SpecIr {
                                template: ir.template + cir.template,
                                template_close: ir.template_close + cir.template_close,
                                decls: ir.decls.push(SpecDecl { id: cid, init: access })
                                    + cir.decls,
                                exprs: ir.exprs + cir.exprs,
                                dynamics: ir.dynamics + cir.dynamics,
                                ..ir
                            },
                            ctxa,
                            WalkSt { first: false, prev: cid },
                        ),
                        None => (
                            SpecIr {
                                template: ir.template + cir.template,
                                template_close: ir.template_close + cir.template_close,
                                decls: ir.decls + cir.decls,
                                exprs: ir.exprs + cir.exprs,
                                dynamics: ir.dynamics + cir.dynamics,
                                ..ir
                            },
                            ctxa,
                            WalkSt { first: false, prev: access },
                        ),
                    }
                }
            },
            JsxNode::Fragment(v) => spec_lower_children(v@, 0, parent_id, ir, ctx, w, opts),
        }
    }
}

// ---------------------------------------------------------------------------
// attribute lowering, executable level
// ---------------------------------------------------------------------------

/// The code of an attribute value in expression position.
pub fn value_code(v: &AttrValue) -> (r: String)
    ensures
        r@ == spec_value_code(*v),
{
    match v {
        AttrValue::Absent => new_string("true"),
        AttrValue::StrLit(s) => {
            let mut c = new_string("\"");
            c.append(s.as_str());
            c.append("\"");
            proof {
                assert(c@ =~= "\""@ + s@ + "\""@);
            }
            c
        }
        AttrValue::Expr(e) => e.code.clone(),
    }
}

/// Lowers a `ref` attribute: registers the `use` helper and emits the
/// reference binding.
pub fn transform_ref(
    value: &AttrValue,
    elem_id: &String,
    res: &mut TransformResult,
    ctx: &mut BlockContext,
)
    ensures
        ({
            let (ir2, c2) = spec_lower_ref(*value, elem_id@, old(res)@, old(ctx)@);
            final(res)@ == ir2 && final(ctx)@ == c2
        }),
{
    ctx.register_helper("use");
    match value {
        AttrValue::Expr(e) => {
            let mut c = new_string("_use(");
            c.append(e.code.as_str());
            c.append(", ");
            c.append(elem_id.as_str());
            c.append(")");
            proof {
                assert(c@ =~= "_use("@ + e.code@ + ", "@ + elem_id@ + ")"@);
            }
            res.push_expr(c);
        }
        _ => {}
    }
}

/// Lowers an event attribute: `on:` and `oncapture:` force direct listeners
/// with the matching capture flag; otherwise the event is delegated when the
/// options and the delegation sets allow it.
pub fn transform_event(
    key: &String,
    value: &AttrValue,
    elem_id: &String,
    res: &mut TransformResult,
    ctx: &mut BlockContext,
    opts: &TransformOptions,
)
    ensures
        ({
            let (ir2, c2) = spec_lower_event(key@, *value, elem_id@, old(res)@, old(ctx)@, *opts);
            final(res)@ == ir2 && final(ctx)@ == c2
        }),
{
    proof {
        reveal_strlit("on:");
        reveal_strlit("oncapture:");
    }
    if str_starts_with(key.as_str(), "on:") {
        let ev = str_suffix(key.as_str(), 3);
        ctx.register_helper("addEventListener");
        match value {
            AttrValue::Expr(e) => {
                let mut c = new_string("_addEventListener(");
                c.append(elem_id.as_str());
                c.append(", \"");
                c.append(ev.as_str());
                c.append("\", ");
                c.append(e.code.as_str());
                c.append(", false)");
                proof {
                    assert(c@ =~= "_addEventListener("@ + elem_id@ + ", \""@ + ev@ + "\", "@
                        + e.code@ + ", false)"@);
                }
                res.push_expr(c);
            }
            _ => {}
        }
    } else if str_starts_with(key.as_str(), "oncapture:") {
        let ev = str_suffix(key.as_str(), 10);
        ctx.register_helper("addEventListener");
        match value {
            AttrValue::Expr(e) => {
                let mut c = new_string("_addEventListener(");
                c.append(elem_id.as_str());
                c.append(", \"");
                c.append(ev.as_str());
                c.append("\", ");
                c.append(e.code.as_str());
                c.append(", true)");
                proof {
                    assert(c@ =~= "_addEventListener("@ + elem_id@ + ", \""@ + ev@ + "\", "@
                        + e.code@ + ", true)"@);
                }
                res.push_expr(c);
            }
            _ => {}
        }
    } else {
        let ev = to_event_name(key.as_str());
        let delegated = opts.delegate_events && (is_delegated_event(ev.as_str())
            || in_user_delegated(&opts.delegated_events, &ev));
        match value {
            AttrValue::Expr(e) => {
                if delegated {
                    ctx.register_delegate(&ev);
                    let mut c = elem_id.clone();
                    c.append(".$$");
                    c.append(ev.as_str());
                    c.append(" = ");
                    c.append(e.code.as_str());
                    proof {
                        assert(c@ =~= elem_id@ + ".$$"@ + ev@ + " = "@ + e.code@);
                    }
                    res.push_expr(c);
                } else {
                    ctx.register_helper("addEventListener");
                    let mut c = new_string("_addEventListener(");
                    c.append(elem_id.as_str());
                    c.append(", \"");
                    c.append(ev.as_str());
                    c.append("\", ");
                    c.append(e.code.as_str());
                    c.append(")");
                    proof {
                        assert(c@ =~= "_addEventListener("@ + elem_id@ + ", \""@ + ev@ + "\", "@
                            + e.code@ + ")"@);
                    }
                    res.push_expr(c);
                }
            }
            _ => {}
        }
    }
}

/// Lowers a `use:` directive: invokes the directive with the node and a
/// getter for the value.
pub fn transform_directive(
    key: &String,
    value: &AttrValue,
    elem_id: &String,
    res: &mut TransformResult,
    ctx: &mut BlockContext,
)
    requires
        spec_starts_with(key@, "use:"@),
    ensures
        ({
            let (ir2, c2) = spec_lower_directive(key@, *value, elem_id@, old(res)@, old(ctx)@);
            final(res)@ == ir2 && final(ctx)@ == c2
        }),
{
    proof {
        reveal_strlit("use:");
    }
    let dir = str_suffix(key.as_str(), 4);
    ctx.register_helper("use");
    let vc = value_code(value);
    let mut c = new_string("_use(");
    c.append(dir.as_str());
    c.append(", ");
    c.append(elem_id.as_str());
    c.append(", () => ");
    c.append(vc.as_str());
    c.append(")");
    proof {
        assert(c@ =~= "_use("@ + dir@ + ", "@ + elem_id@ + ", () => "@ + vc@ + ")"@);
    }
    res.push_expr(c);
}

/// Appends ` key="escaped"` to both template forms.
fn push_attr_text(res: &mut TransformResult, akey: &String, escaped: &String)
    ensures
        final(res)@ == (SpecIr {
            template: old(res)@.template + " "@ + akey@ + "=\""@ + escaped@ + "\""@,
            template_close: old(res)@.template_close + " "@ + akey@ + "=\""@ + escaped@ + "\""@,
            ..old(res)@
        }),
{
    res.push_template(" ");
    res.push_template(akey.as_str());
    res.push_template("=\"");
    res.push_template(escaped.as_str());
    res.push_template("\"");
    proof {
        assert(res@.template
            =~= old(res)@.template + " "@ + akey@ + "=\""@ + escaped@ + "\""@);
        assert(res@.template_close
            =~= old(res)@.template_close + " "@ + akey@ + "=\""@ + escaped@ + "\""@);
    }
}

/// Lowers one attribute of a native element, dispatching on its key.
pub fn transform_attribute(
    a: &AttrItem,
    elem_id: &String,
    tag_name: &str,
    svg: bool,
    ce: bool,
    has_children: bool,
    res: &mut TransformResult,
    ctx: &mut BlockContext,
    opts: &TransformOptions,
)
    ensures
        ({
            let (ir2, c2) = spec_lower_attr(
                *a, elem_id@, tag_name@, svg, ce, has_children, old(res)@, old(ctx)@, *opts);
            final(res)@ == ir2 && final(ctx)@ == c2
        }),
{
    match a {
        AttrItem::Spread(e) => {
            ctx.register_helper("spread");
            let mut c = new_string("_spread(");
            c.append(elem_id.as_str());
            c.append(", ");
            c.append(e.code.as_str());
            c.append(", ");
            c.append(bool_text(svg));
            c.append(", ");
            c.append(bool_text(has_children));
            c.append(")");
            proof {
                assert(c@ =~= "_spread("@ + elem_id@ + ", "@ + e.code@ + ", "@
                    + spec_bool_text(svg) + ", "@ + spec_bool_text(has_children) + ")"@);
            }
            res.push_expr(c);
        }
        AttrItem::Attr { name, value } => {
            proof {
                reveal_strlit("use:");
                reveal_strlit("on");
                reveal_strlit("style:");
                reveal_strlit("class:");
                reveal_strlit("prop:");
                reveal_strlit("attr:");
            }
            if str_eq(name.as_str(), "ref") {
                transform_ref(value, elem_id, res, ctx);
            } else if str_starts_with(name.as_str(), "use:") {
                transform_directive(name, value, elem_id, res, ctx);
            } else if str_starts_with(name.as_str(), "on") {
                transform_event(name, value, elem_id, res, ctx, opts);
            } else if str_starts_with(name.as_str(), "style:")
                || str_starts_with(name.as_str(), "class:") {
                let d = DynamicBinding {
                    elem: elem_id.clone(),
                    key: name.clone(),
                    value: value_code(value),
                    is_svg: svg,
                    is_ce: ce,
                    tag_name: new_string(tag_name),
                };
                res.push_dynamic(d);
            } else if str_starts_with(name.as_str(), "prop:") {
                let sub = str_suffix(name.as_str(), 5);
                let vc = value_code(value);
                let mut c = elem_id.clone();
                c.append(".");
                c.append(sub.as_str());
                c.append(" = ");
                c.append(vc.as_str());
                proof {
                    assert(c@ =~= elem_id@ + "."@ + sub@ + " = "@ + vc@);
                }
                res.push_expr(c);
            } else if str_starts_with(name.as_str(), "attr:") {
                let sub = str_suffix(name.as_str(), 5);
                match value {
                    AttrValue::Absent => {
                        res.push_template(" ");
                        res.push_template(sub.as_str());
                        proof {
                            assert(res@.template
                                =~= old(res)@.template + " "@ + sub@);
                            assert(res@.template_close
                                =~= old(res)@.template_close + " "@ + sub@);
                        }
                    }
                    AttrValue::StrLit(s) => {
                        let esc = escape_html(s.as_str(), true);
                        push_attr_text(res, &sub, &esc);
                    }
                    AttrValue::Expr(e) => {
                        if is_dynamic(e) {
                            let d = DynamicBinding {
                                elem: elem_id.clone(),
                                key: name.clone(),
                                value: e.code.clone(),
                                is_svg: svg,
                                is_ce: ce,
                                tag_name: new_string(tag_name),
                            };
                            res.push_dynamic(d);
                        } else {
                            let rendered = render_static(e);
                            let esc = escape_html(rendered.as_str(), true);
                            push_attr_text(res, &sub, &esc);
                        }
                    }
                }
            } else {
                let akey = if svg {
                    name.clone()
                } else {
                    attribute_alias(name.as_str())
                };
                match value {
                    AttrValue::Absent => {
                        res.push_template(" ");
                        res.push_template(name.as_str());
                        proof {
                            assert(res@.template
                                =~= old(res)@.template + " "@ + name@);
                            assert(res@.template_close
                                =~= old(res)@.template_close + " "@ + name@);
                        }
                    }
                    AttrValue::StrLit(s) => {
                        let esc = escape_html(s.as_str(), true);
                        push_attr_text(res, &akey, &esc);
                    }
                    AttrValue::Expr(e) => {
                        if is_dynamic(e) {
                            let d = DynamicBinding {
                                elem: elem_id.clone(),
                                key: name.clone(),
                                value: e.code.clone(),
                                is_svg: svg,
                                is_ce: ce,
                                tag_name: new_string(tag_name),
                            };
                            res.push_dynamic(d);
                        } else {
                            let rendered = render_static(e);
                            let esc = escape_html(rendered.as_str(), true);
                            push_attr_text(res, &akey, &esc);
                        }
                    }
                }
            }
        }
    }
}

/// Whether a later attribute repeats the name of attribute `i`.
#[verifier::loop_isolation(false)]
fn has_later_dup(attrs: &Vec<AttrItem>, i: usize) -> (r: bool)
    requires
        i < attrs@.len(),
    ensures
        r == spec_dup_later(attrs@, i as int),
{
    let a = &attrs[i];
    match a {
        AttrItem::Spread(_) => false,
        AttrItem::Attr { name, value } => {
            let n = attrs.len();
            let mut j: usize = i + 1;
            while j < n
                invariant
                    i < j <= attrs@.len(),
                    n == attrs@.len(),
                    spec_attr_name(attrs@[i as int]) == Some(name@),
                    forall|k: int| i < k < j ==>
                        #[trigger] spec_attr_name(attrs@[k]) != Some(name@),
                decreases attrs@.len() - j,
            {
                let b = &attrs[j];
                match b {
                    AttrItem::Attr { name: n2, value: v2 } => {
                        if n2.eq(name) {
                            proof {
                                assert(spec_attr_name(attrs@[j as int]) == Some(name@));
                            }
                            return true;
                        }
                    }
                    _ => {}
                }
                j = j + 1;
            }
            false
        }
    }
}

/// Lowers the attribute list in source order; an attribute that a later
/// occurrence of the same name overrides is dropped entirely.
#[verifier::loop_isolation(false)]
pub fn transform_attributes(
    element: &JsxElement,
    elem_id: &String,
    tag_name: &str,
    svg: bool,
    ce: bool,
    res: &mut TransformResult,
    ctx: &mut BlockContext,
    opts: &TransformOptions,
)
    ensures
        ({
            let (ir2, c2) = spec_lower_attrs(
                element.attrs@, 0, elem_id@, tag_name@, svg, ce,
                element.children@.len() > 0, old(res)@, old(ctx)@, *opts);
            final(res)@ == ir2 && final(ctx)@ == c2
        }),
{
    let has_children = element.children.len() > 0;
    let ghost ir0 = res@;
    let ghost ctx0 = ctx@;
    let mut i: usize = 0;
    while i < element.attrs.len()
        invariant
            0 <= i <= element.attrs@.len(),
            spec_lower_attrs(element.attrs@, i as int, elem_id@, tag_name@, svg, ce,
                has_children, res@, ctx@, *opts)
                == spec_lower_attrs(element.attrs@, 0, elem_id@, tag_name@, svg, ce,
                    has_children, ir0, ctx0, *opts),
        decreases element.attrs@.len() - i,
    {
        let dup = has_later_dup(&element.attrs, i);
        if !dup {
            let a = &element.attrs[i];
            transform_attribute(a, elem_id, tag_name, svg, ce, has_children, res, ctx, opts);
        }
        i = i + 1;
    }
}

// ---------------------------------------------------------------------------
// child lowering, executable level
// ---------------------------------------------------------------------------

/// Whether a child contributes a node to the static template.
#[verifier::loop_isolation(false)]
pub fn contributes_dom(n: &JsxNode) -> (r: bool)
    ensures
        r == spec_contributes_dom(*n),
    decreases *n,
{
    match n {
        JsxNode::Text(t) => {
            let tv = trim_whitespace(t.as_str());
            StrSliceExecFns::unicode_len(tv.as_str()) > 0
        }
        JsxNode::Element(e) => !is_component(e.tag.as_str()),
        JsxNode::Expr(e) => !is_dynamic(e),
        JsxNode::SpreadChild(_) => false,
        JsxNode::Fragment(v) => {
            let mut k: usize = 0;
            let mut found = false;
            while k < v.len()
                invariant
                    0 <= k <= v@.len(),
                    found == exists|m: int|
                        0 <= m < k && spec_contributes_dom(#[trigger] v@[m]),
                decreases v@.len() - k, 0int,
            {
                let c = contributes_dom(&v[k]);
                if c {
                    found = true;
                }
                k = k + 1;
            }
            found
        }
    }
}

/// Whether any child from index `i` on contributes a template node.
#[verifier::loop_isolation(false)]
pub fn follows_dom(s: &Vec<JsxNode>, i: usize) -> (r: bool)
    ensures
        r == spec_follows_dom(s@, i as int),
{
    let mut j: usize = i;
    let mut found = false;
    while j < s.len()
        invariant
            i <= j <= s@.len() || (i > s@.len() && j == i),
            found == exists|m: int| i <= m < j && spec_contributes_dom(#[trigger] s@[m]),
        decreases s@.len() - j,
    {
        let c = contributes_dom(&s[j]);
        if c {
            found = true;
        }
        j = j + 1;
    }
    found
}

/// The walk-path expression addressing the next DOM node.
fn access_of(parent_id: &String, first: bool, prev: &String) -> (r: String)
    ensures
        r@ == walk_access(parent_id@, WalkSt { first, prev: prev@ }),
{
    if first {
        let mut c = parent_id.clone();
        c.append(".firstChild");
        c
    } else {
        let mut c = prev.clone();
        c.append(".nextSibling");
        c
    }
}

/// Emits the insert expression of one dynamic child and returns the new walk
/// state; a marker comment enters the template only between two placed nodes.
fn insert_child(
    value: String,
    parent_id: &String,
    follows: bool,
    res: &mut TransformResult,
    ctx: &mut BlockContext,
    first: bool,
    prev: String,
) -> (w: (bool, String))
    ensures
        ({
            let (ir2, c2, w2) = spec_insert_child(
                value@, parent_id@, follows, old(res)@, old(ctx)@,
                WalkSt { first, prev: prev@ });
            final(res)@ == ir2 && final(ctx)@ == c2 && w2.first == w.0 && w2.prev == w.1@
        }),
{
    ctx.register_helper("insert");
    if !follows {
        let mut c = new_string("_insert(");
        c.append(parent_id.as_str());
        c.append(", ");
        c.append(value.as_str());
        c.append(")");
        proof {
            assert(c@ =~= "_insert("@ + parent_id@ + ", "@ + value@ + ")"@);
        }
        res.push_expr(c);
        (first, prev)
    } else if first {
        let mut c = new_string("_insert(");
        c.append(parent_id.as_str());
        c.append(", ");
        c.append(value.as_str());
        c.append(", ");
        c.append(parent_id.as_str());
        c.append(".firstChild)");
        proof {
            assert(c@ =~= "_insert("@ + parent_id@ + ", "@ + value@ + ", "@ + parent_id@
                + ".firstChild)"@);
        }
        res.push_expr(c);
        (first, prev)
    } else {
        let uid = ctx.generate_uid("el$");
        let mut access = prev.clone();
        access.append(".nextSibling");
        res.push_template("<!>");
        res.push_decl(uid.clone(), access);
        let mut c = new_string("_insert(");
        c.append(parent_id.as_str());
        c.append(", ");
        c.append(value.as_str());
        c.append(", ");
        c.append(uid.as_str());
        c.append(")");
        proof {
            assert(c@ =~= "_insert("@ + parent_id@ + ", "@ + value@ + ", "@ + uid@ + ")"@);
        }
        res.push_expr(c);
        (false, uid)
    }
}

/// Lowers the children of a native element from index `i` on and returns the
/// final walk state.
#[verifier::rlimit(100)]
pub fn transform_children(
    s: &Vec<JsxNode>,
    i: usize,
    parent_id: &String,
    res: &mut TransformResult,
    ctx: &mut BlockContext,
    opts: &TransformOptions,
    first: bool,
    prev: String,
) -> (w: (bool, String))
    ensures
        ({
            let (ir2, c2, w2) = spec_lower_children(
                s@, i as int, parent_id@, old(res)@, old(ctx)@,
                WalkSt { first, prev: prev@ }, *opts);
            final(res)@ == ir2 && final(ctx)@ == c2 && w2.first == w.0 && w2.prev == w.1@
        }),
    decreases *s, s@.len() - i, 2int,
{
    if i >= s.len() {
        return (first, prev);
    }
    let follows = follows_dom(s, i + 1);
    let node = &s[i];
    let mut nfirst = first;
    let mut nprev = prev;
    match node {
        JsxNode::Text(t) => {
            let tv = trim_whitespace(t.as_str());
            if StrSliceExecFns::unicode_len(tv.as_str()) > 0 {
                let esc = escape_html(tv.as_str(), false);
                res.push_template(esc.as_str());
                let acc = access_of(parent_id, nfirst, &nprev);
                nfirst = false;
                nprev = acc;
            }
        }
        JsxNode::Expr(e) => {
            if is_dynamic(e) {
                let value: String;
                let is_cond = match &e.kind {
                    crate::model::ExprKind::Conditional => true,
                    _ => false,
                };
                if opts.wrap_conditionals && is_cond {
                    ctx.register_helper(opts.memo_wrapper.as_str());
                    let mut c = new_string("_");
                    c.append(opts.memo_wrapper.as_str());
                    c.append("(() => ");
                    c.append(e.code.as_str());
                    c.append(")");
                    proof {
                        assert(c@ =~= "_"@ + opts.memo_wrapper@ + "(() => "@ + e.code@ + ")"@);
                    }
                    value = c;
                } else {
                    let mut c = new_string("() => ");
                    c.append(e.code.as_str());
                    proof {
                        assert(c@ =~= "() => "@ + e.code@);
                    }
                    value = c;
                }
                let w = insert_child(value, parent_id, follows, res, ctx, nfirst, nprev);
                nfirst = w.0;
                nprev = w.1;
            } else {
                let rendered = render_static(e);
                let esc = escape_html(rendered.as_str(), false);
                res.push_template(esc.as_str());
                let acc = access_of(parent_id, nfirst, &nprev);
                nfirst = false;
                nprev = acc;
            }
        }
        JsxNode::SpreadChild(e) => {
            let mut c = new_string("() => [...");
            c.append(e.code.as_str());
            c.append("]");
            proof {
                assert(c@ =~= "() => [..."@ + e.code@ + "]"@);
            }
            let w = insert_child(c, parent_id, follows, res, ctx, nfirst, nprev);
            nfirst = w.0;
            nprev = w.1;
        }
        JsxNode::Element(e) => {
            if is_component(e.tag.as_str()) {
                let cir = crate::component::transform_component(
                    e, e.tag.as_str(), ctx, opts);
                let value: String;
                if cir.exprs.len() > 0 {
                    let e0 = &cir.exprs[0];
                    value = e0.code.clone();
                    proof {
                        assert(crate::ir::exprs_view(cir.exprs@)[0] == cir.exprs@[0].code@);
                    }
                } else {
                    value = new_string("null");
                }
                let w = insert_child(value, parent_id, follows, res, ctx, nfirst, nprev);
                nfirst = w.0;
                nprev = w.1;
            } else {
                let info = TransformInfo {
                    top_level: false,
                    last_element: false,
                    skip_id: false,
                    component_child: false,
                    fragment_child: false,
                };
                let mut cir = transform_element(e, e.tag.as_str(), &info, ctx, opts);
                let acc = access_of(parent_id, nfirst, &nprev);
                res.template.append(cir.template.as_str());
                res.template_with_closing_tags.append(
                    cir.template_with_closing_tags.as_str());
                match &cir.id {
                    Some(cid) => {
                        let c2 = cid.clone();
                        res.push_decl(c2.clone(), acc);
                        nfirst = false;
                        nprev = c2;
                    }
                    None => {
                        nfirst = false;
                        nprev = acc;
                    }
                }
                let ghost dpre = res.declarations@;
                let ghost epre = res.exprs@;
                let ghost ypre = res.dynamics@;
                let ghost cd = cir.declarations@;
                let ghost ce2 = cir.exprs@;
                let ghost cy = cir.dynamics@;
                res.declarations.append(&mut cir.declarations);
                res.exprs.append(&mut cir.exprs);
                res.dynamics.append(&mut cir.dynamics);
                proof {
                    assert(crate::ir::decls_view(res.declarations@)
                        =~= crate::ir::decls_view(dpre) + crate::ir::decls_view(cd));
                    assert(crate::ir::exprs_view(res.exprs@)
                        =~= crate::ir::exprs_view(epre) + crate::ir::exprs_view(ce2));
                    assert(crate::ir::dyns_view(res.dynamics@)
                        =~= crate::ir::dyns_view(ypre) + crate::ir::dyns_view(cy));
                }
            }
        }
        JsxNode::Fragment(v) => {
            let w = transform_children(v, 0, parent_id, res, ctx, opts, nfirst, nprev);
            nfirst = w.0;
            nprev = w.1;
        }
    }
    proof {
        let stepped = spec_lower_child(
            s@, i as int, parent_id@, old(res)@, old(ctx)@,
            WalkSt { first, prev: prev@ }, *opts, spec_follows_dom(s@, i as int + 1));
        assert(res@ == stepped.0);
        assert(ctx@ == stepped.1);
        assert(nfirst == stepped.2.first && nprev@ == stepped.2.prev);
    }
    transform_children(s, i + 1, parent_id, res, ctx, opts, nfirst, nprev)
}

/// Lowering of a native host element: classification, identifier allocation,
/// the opening tag with its attributes, the children, and the closing tag
/// (appended only to the closing-tags form of the template). A void element's
/// children are never emitted; rejecting them is the validator's task.
pub open spec fn spec_lower_element(
    el: JsxElement,
    skip_id: bool,
    ctx: CtxView,
    opts: TransformOptions,
) -> (SpecIr, CtxView)
    decreases el, 0int, 3int,
{
    let tag = el.tag@;
    let svg = spec_is_svg(tag);
    let voided = spec_is_void(tag);
    let ce = spec_is_custom_element(tag);
    let (id, ctx1): (Option<Seq<char>>, CtxView) = if !skip_id {
        let (uid, c) = spec_uid(ctx, "el$"@);
        (Some(uid), c)
    } else {
        (None, ctx)
    };
    let (elem_id, ctx2): (Seq<char>, CtxView) = match id {
        Some(x) => (x, ctx1),
        None => spec_uid(ctx1, "el$"@),
    };
    let ir0 = SpecIr {
        id,
        template: "<"@ + tag,
        template_close: "<"@ + tag,
        tag_name: Some(tag),
        is_svg: svg,
        has_custom_element: ce,
        is_void: voided,
        ..empty_ir()
    };
    let (ir1, ctx3) = spec_lower_attrs(
        el.attrs@,
        0,
        elem_id,
        tag,
        svg,
        ce,
        el.children@.len() > 0,
        ir0,
        ctx2,
        opts,
    );
    let ir2 = SpecIr {
        template: ir1.template + ">"@,
        template_close: ir1.template_close + ">"@,
        ..ir1
    };
    if voided {
        (ir2, ctx3)
    } else {
        let (ir3, ctx4, _w) = spec_lower_children(
            el.children@,
            0,
            elem_id,
            ir2,
            ctx3,
            WalkSt { first: true, prev: Seq::empty() },
            opts,
        );
        (
            SpecIr { template_close: ir3.template_close + "</"@ + tag + ">"@, ..ir3 },
            ctx4,
        )
    }
}


/// Lowers a native HTML or SVG element to its IR: classifies the tag,
/// allocates the root identifier, emits the opening tag and attributes,
/// composes the children and closes the tag.
pub fn transform_element(
    element: &JsxElement,
    tag_name: &str,
    info: &TransformInfo,
    context: &mut BlockContext,
    options: &TransformOptions,
) -> (r: TransformResult)
    requires
        tag_name@ == element.tag@,
    ensures
        ({
            let (ir, c2) = spec_lower_element(*element, info.skip_id, old(context)@, *options);
            r@ == ir && final(context)@ == c2
        }),
    decreases *element, 0int, 3int,
{
    let svg = is_svg_element(tag_name);
    let voided = is_void(tag_name);
    let ce = is_custom_element(tag_name);
    let mut res = TransformResult::new();
    res.is_svg = svg;
    res.is_void = voided;
    res.has_custom_element = ce;
    res.tag_name = Some(new_string(tag_name));
    let elem_id: String;
    if !info.skip_id {
        let uid = context.generate_uid("el$");
        res.id = Some(uid.clone());
        elem_id = uid;
    } else {
        elem_id = context.generate_uid("el$");
    }
    res.push_template("<");
    res.push_template(tag_name);
    proof {
        assert(res@.template =~= "<"@ + element.tag@);
        assert(res@.template_close =~= "<"@ + element.tag@);
    }
    transform_attributes(element, &elem_id, tag_name, svg, ce, &mut res, context, options);
    res.push_template(">");
    if voided {
        res
    } else {
        let prev0 = String::new();
        let _w = transform_children(
            &element.children, 0, &elem_id, &mut res, context, options, true, prev0);
        res.push_template_close("</");
        res.push_template_close(tag_name);
        res.push_template_close(">");
        proof {
            let (ir, c2) = spec_lower_element(*element, info.skip_id, old(context)@, *options);
            assert(res@.template_close =~= ir.template_close);
        }
        res
    }
}

} // verus!
