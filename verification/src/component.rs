//! Lowering of user components and built-in control-flow components into
//! runtime constructor calls with prop descriptors.

use vstd::prelude::*;
use vstd::string::{StringExecFns, StrSliceExecFns};
use crate::classify::{
    is_built_in, is_dynamic, new_string, spec_is_built_in, spec_is_static, spec_trim, str_eq,
    trim_whitespace,
};
use crate::context::{BlockContext, CtxView};
use crate::ir::{SpecIr, TransformResult, empty_ir, reg_helper, reg_warning, spec_join};
use crate::model::{AttrItem, AttrValue, ExprKind, JsExpr, JsxElement, JsxNode, TransformOptions};

verus! {

broadcast use vstd::std_specs::vec::axiom_vec_index_decreases;

// ---------------------------------------------------------------------------
// built-in prop tables
// ---------------------------------------------------------------------------

/// The recognized props of each built-in; `Dynamic` passes everything
/// through. Any other prop on a built-in draws a warning.
pub open spec fn spec_recognized_prop(tag: Seq<char>, key: Seq<char>) -> bool {
    if tag == "For"@ || tag == "Index"@ {
        key == "each"@ || key == "fallback"@
    } else if tag == "Show"@ {
        key == "when"@ || key == "fallback"@ || key == "keyed"@
    } else if tag == "Switch"@ {
        key == "fallback"@
    } else if tag == "Match"@ {
        key == "when"@ || key == "keyed"@
    } else if tag == "Suspense"@ {
        key == "fallback"@
    } else if tag == "Portal"@ {
        key == "mount"@ || key == "useShadow"@ || key == "ref"@
    } else if tag == "ErrorBoundary"@ {
        key == "fallback"@
    } else {
        true
    }
}

/// Membership in a built-in's recognized prop set.
pub fn recognized_prop(tag: &str, key: &str) -> (r: bool)
    ensures
        r == spec_recognized_prop(tag@, key@),
{
    if str_eq(tag, "For") || str_eq(tag, "Index") {
        str_eq(key, "each") || str_eq(key, "fallback")
    } else if str_eq(tag, "Show") {
        str_eq(key, "when") || str_eq(key, "fallback") || str_eq(key, "keyed")
    } else if str_eq(tag, "Switch") {
        str_eq(key, "fallback")
    } else if str_eq(tag, "Match") {
        str_eq(key, "when") || str_eq(key, "keyed")
    } else if str_eq(tag, "Suspense") {
        str_eq(key, "fallback")
    } else if str_eq(tag, "Portal") {
        str_eq(key, "mount") || str_eq(key, "useShadow") || str_eq(key, "ref")
    } else if str_eq(tag, "ErrorBoundary") {
        str_eq(key, "fallback")
    } else {
        true
    }
}

/// Whether a built-in records its children as a plain callback property
/// instead of a getter: the list builders do.
pub open spec fn spec_callback_children(tag: Seq<char>) -> bool {
    tag == "For"@ || tag == "Index"@
}

// ---------------------------------------------------------------------------
// prop building, spec level
// ---------------------------------------------------------------------------

/// The accumulating state of prop building: plain properties, lazy getters
/// and spread expressions, in source order, plus the context.
pub ghost struct PropsSt {
    pub statics: Seq<Seq<char>>,
    pub getters: Seq<Seq<char>>,
    pub spreads: Seq<Seq<char>>,
    pub ctx: CtxView,
}

/// The warning text for an unrecognized prop on a built-in.
pub open spec fn spec_builtin_warning(tag: Seq<char>, key: Seq<char>) -> Seq<char> {
    "unrecognized prop `"@ + key + "` on built-in <"@ + tag + ">"@
}

/// One attribute of a component: static values become plain properties,
/// dynamic values lazy getters, spreads collect separately. An unrecognized
/// prop on a built-in (other than `Dynamic`) draws a warning and is then
/// treated as a user-component prop.
pub open spec fn spec_build_prop(
    a: AttrItem,
    tag: Seq<char>,
    builtin: bool,
    st: PropsSt,
) -> PropsSt {
    match a {
        AttrItem::Spread(e) => PropsSt { spreads: st.spreads.push(e.code@), ..st },
        AttrItem::Attr { name, value } => {
            let key = name@;
            let st1 = if builtin && !spec_recognized_prop(tag, key) {
                PropsSt { ctx: reg_warning(st.ctx, spec_builtin_warning(tag, key)), ..st }
            } else {
                st
            };
            match value {
                AttrValue::Absent => PropsSt {
                    statics: st1.statics.push(key + ": true"@),
                    ..st1
                },
                AttrValue::StrLit(s) => PropsSt {
                    statics: st1.statics.push(key + ": \""@ + s@ + "\""@),
                    ..st1
                },
                AttrValue::Expr(e) => if spec_is_static(e) {
                    PropsSt { statics: st1.statics.push(key + ": "@ + e.code@), ..st1 }
                } else {
                    PropsSt {
                        getters: st1.getters.push(
                            "get "@ + key + "() { return "@ + e.code@ + "; }"@,
                        ),
                        ..st1
                    }
                },
            }
        },
    }
}

/// Folds the attribute list into the prop state.
pub open spec fn spec_build_props_from(
    attrs: Seq<AttrItem>,
    i: int,
    tag: Seq<char>,
    builtin: bool,
    st: PropsSt,
) -> PropsSt
    decreases attrs.len() - i,
{
    if i < 0 || i >= attrs.len() {
        st
    } else {
        spec_build_props_from(attrs, i + 1, tag, builtin, spec_build_prop(attrs[i], tag, builtin, st))
    }
}

/// The code of each child of a component, in source order: text becomes a
/// string literal, expressions their source (an arrow whose body is JSX is
/// lowered in place), elements are lowered and materialized, fragments become
/// arrays, spread children spread into place. Whitespace-only text that spans
/// a line break disappears.
pub open spec fn spec_children_codes(
    s: Seq<JsxNode>,
    i: int,
    ctx: CtxView,
    opts: TransformOptions,
    acc: Seq<Seq<char>>,
) -> (Seq<Seq<char>>, CtxView)
    decreases s, s.len() - i, 1int,
{
    if i < 0 || i >= s.len() {
        (acc, ctx)
    } else {
        let (acc1, ctx1): (Seq<Seq<char>>, CtxView) = match s[i] {
            JsxNode::Text(t) => {
                let tv = spec_trim(t@);
                if tv.len() == 0 {
                    (acc, ctx)
                } else {
                    (acc.push("\""@ + tv + "\""@), ctx)
                }
            },
            JsxNode::Expr(e) => match e.kind {
                ExprKind::ArrowJsx { params, body } => {
                    let (bc, c1) = crate::transform::spec_node_code(*body, ctx, opts);
                    (acc.push(params@ + " => "@ + bc), c1)
                },
                _ => (acc.push(e.code@), ctx),
            },
            JsxNode::SpreadChild(e) => (acc.push("..."@ + e.code@), ctx),
            JsxNode::Element(e) => {
                let (c, c1) = crate::transform::spec_node_code(JsxNode::Element(e), ctx, opts);
                (acc.push(c), c1)
            },
            JsxNode::Fragment(v) => {
                let (inner, c1) = spec_children_codes(v@, 0, ctx, opts, Seq::empty());
                (acc.push("["@ + spec_join(inner, ", "@) + "]"@), c1)
            },
        };
        spec_children_codes(s, i + 1, ctx1, opts, acc1)
    }
}

/// The single children expression of a component: the sole child's code, or
/// an array of the children's codes in source order.
pub open spec fn spec_children_expr(codes: Seq<Seq<char>>) -> Seq<char> {
    if codes.len() == 1 {
        codes[0]
    } else {
        "["@ + spec_join(codes, ", "@) + "]"@
    }
}

/// The prop descriptor of a component: plain properties, then getters, then
/// the children property; spreads wrap the descriptor in a merge call.
pub open spec fn spec_build_props(
    el: JsxElement,
    builtin: bool,
    ctx: CtxView,
    opts: TransformOptions,
) -> (Seq<char>, CtxView)
    decreases el, 0int, 2int,
{
    let tag = el.tag@;
    let st0 = PropsSt {
        statics: Seq::empty(),
        getters: Seq::empty(),
        spreads: Seq::empty(),
        ctx,
    };
    let st1 = spec_build_props_from(el.attrs@, 0, tag, builtin, st0);
    let (codes, ctx2) = spec_children_codes(el.children@, 0, st1.ctx, opts, Seq::empty());
    let parts = if codes.len() == 0 {
        st1.statics + st1.getters
    } else if builtin && spec_callback_children(tag) {
        st1.statics + st1.getters + seq!["children: "@ + spec_children_expr(codes)]
    } else {
        st1.statics + st1.getters + seq![
            "get children() { return "@ + spec_children_expr(codes) + "; }"@,
        ]
    };
    if st1.spreads.len() > 0 {
        (
            "_mergeProps("@ + spec_join(st1.spreads, ", "@) + ", { "@ + spec_join(parts, ", "@)
                + " })"@,
            reg_helper(ctx2, "mergeProps"@),
        )
    } else if parts.len() == 0 {
        ("{}"@, ctx2)
    } else {
        ("{ "@ + spec_join(parts, ", "@) + " }"@, ctx2)
    }
}

/// Lowering of a component element into a `createComponent` call. A built-in
/// is constructed from its imported runtime helper; a user component from its
/// tag expression.
pub open spec fn spec_lower_component(el: JsxElement, ctx: CtxView, opts: TransformOptions) -> (
    SpecIr,
    CtxView,
)
    decreases el, 0int, 3int,
{
    let tag = el.tag@;
    if spec_is_built_in(tag) {
        let ctx1 = reg_helper(reg_helper(ctx, "createComponent"@), tag);
        let (props, ctx2) = spec_build_props(el, true, ctx1, opts);
        (
            SpecIr {
                exprs: seq!["_createComponent(_"@ + tag + ", "@ + props + ")"@],
                ..empty_ir()
            },
            ctx2,
        )
    } else {
        let ctx1 = reg_helper(ctx, "createComponent"@);
        let (props, ctx2) = spec_build_props(el, false, ctx1, opts);
        (
            SpecIr {
                exprs: seq!["_createComponent("@ + tag + ", "@ + props + ")"@],
                ..empty_ir()
            },
            ctx2,
        )
    }
}

// ---------------------------------------------------------------------------
// executable level
// ---------------------------------------------------------------------------

/// The index of the first attribute named `name`, if any.
pub fn find_prop(element: &JsxElement, name: &str) -> (r: Option<usize>)
    ensures
        match r {
            Some(i) => i < element.attrs@.len()
                && crate::element::spec_attr_name(element.attrs@[i as int]) == Some(name@)
                && forall|j: int| 0 <= j < i ==>
                    #[trigger] crate::element::spec_attr_name(element.attrs@[j]) != Some(name@),
            None => forall|j: int| 0 <= j < element.attrs@.len() ==>
                #[trigger] crate::element::spec_attr_name(element.attrs@[j]) != Some(name@),
        },
{
    let n = new_string(name);
    let mut i: usize = 0;
    while i < element.attrs.len()
        invariant
            0 <= i <= element.attrs@.len(),
            n@ == name@,
            forall|j: int| 0 <= j < i ==>
                #[trigger] crate::element::spec_attr_name(element.attrs@[j]) != Some(name@),
        decreases element.attrs@.len() - i,
    {
        let a = &element.attrs[i];
        match a {
            AttrItem::Attr { name: n2, value } => {
                if n2.eq(&n) {
                    return Some(i);
                }
            }
            _ => {}
        }
        i = i + 1;
    }
    None
}

/// The codes of a component's children from index `i` on, appended to `acc`.
#[verifier::loop_isolation(false)]
pub fn children_codes_from(
    s: &Vec<JsxNode>,
    i: usize,
    ctx: &mut BlockContext,
    opts: &TransformOptions,
    acc: &mut Vec<String>,
)
    ensures
        ({
            let (cs, c2) = spec_children_codes(
                s@, i as int, old(ctx)@, *opts, crate::context::strs_view(old(acc)@));
            crate::context::strs_view(final(acc)@) == cs && final(ctx)@ == c2
        }),
    decreases *s, s@.len() - i, 1int,
{
    if i >= s.len() {
        return;
    }
    let node = &s[i];
    match node {
        JsxNode::Text(t) => {
            let tv = trim_whitespace(t.as_str());
            if StrSliceExecFns::unicode_len(tv.as_str()) > 0 {
                let mut c = new_string("\"");
                c.append(tv.as_str());
                c.append("\"");
                proof {
                    assert(c@ =~= "\""@ + spec_trim(t@) + "\""@);
                }
                let ghost pre = acc@;
                acc.push(c);
                proof {
                    assert(crate::context::strs_view(acc@)
                        =~= crate::context::strs_view(pre).push(acc@.last()@));
                }
            }
        }
        JsxNode::Expr(e) => {
            let mut arrow = false;
            match &e.kind {
                ExprKind::ArrowJsx { params, body } => {
                    arrow = true;
                    let bc = crate::transform::node_code(body, ctx, opts);
                    let mut c = params.clone();
                    c.append(" => ");
                    c.append(bc.as_str());
                    proof {
                        assert(c@ =~= params@ + " => "@ + bc@);
                    }
                    let ghost pre = acc@;
                    acc.push(c);
                    proof {
                        assert(crate::context::strs_view(acc@)
                            =~= crate::context::strs_view(pre).push(acc@.last()@));
                    }
                }
                _ => {
                    let ghost pre = acc@;
                    acc.push(e.code.clone());
                    proof {
                        assert(crate::context::strs_view(acc@)
                            =~= crate::context::strs_view(pre).push(acc@.last()@));
                    }
                }
            }
        }
        JsxNode::SpreadChild(e) => {
            let mut c = new_string("...");
            c.append(e.code.as_str());
            proof {
                assert(c@ =~= "..."@ + e.code@);
            }
            let ghost pre = acc@;
            acc.push(c);
            proof {
                assert(crate::context::strs_view(acc@)
                    =~= crate::context::strs_view(pre).push(acc@.last()@));
            }
        }
        JsxNode::Element(e) => {
            let c = crate::transform::node_code(node, ctx, opts);
            let ghost pre = acc@;
            acc.push(c);
            proof {
                assert(crate::context::strs_view(acc@)
                    =~= crate::context::strs_view(pre).push(acc@.last()@));
            }
        }
        JsxNode::Fragment(v) => {
            let mut inner: Vec<String> = Vec::new();
            proof {
                assert(crate::context::strs_view(inner@) =~= Seq::<Seq<char>>::empty());
            }
            children_codes_from(v, 0, ctx, opts, &mut inner);
            let mut c = new_string("[");
            crate::ir::append_join(&mut c, &inner, ", ");
            c.append("]");
            proof {
                assert(c@ =~= "["@ + spec_join(crate::context::strs_view(inner@), ", "@) + "]"@);
            }
            let ghost pre = acc@;
            acc.push(c);
            proof {
                assert(crate::context::strs_view(acc@)
                    =~= crate::context::strs_view(pre).push(acc@.last()@));
            }
        }
    }
    children_codes_from(s, i + 1, ctx, opts, acc);
}

/// The single children expression: the sole child's code or an array.
pub fn get_children_expr(codes: &Vec<String>) -> (r: String)
    ensures
        r@ == spec_children_expr(crate::context::strs_view(codes@)),
{
    if codes.len() == 1 {
        let c0 = &codes[0];
        let r = c0.clone();
        proof {
            assert(crate::context::strs_view(codes@)[0] == codes@[0]@);
        }
        r
    } else {
        let mut c = new_string("[");
        crate::ir::append_join(&mut c, codes, ", ");
        c.append("]");
        proof {
            assert(c@ =~= "["@ + spec_join(crate::context::strs_view(codes@), ", "@) + "]"@);
        }
        c
    }
}

/// Builds the prop descriptor of a component: plain properties, then lazy
/// getters, then the children property; spreads wrap it all in a merge call.
#[verifier::loop_isolation(false)]
pub fn build_props(
    element: &JsxElement,
    builtin: bool,
    ctx: &mut BlockContext,
    opts: &TransformOptions,
) -> (props: String)
    ensures
        ({
            let (p, c2) = spec_build_props(*element, builtin, old(ctx)@, *opts);
            props@ == p && final(ctx)@ == c2
        }),
    decreases *element, 0int, 2int,
{
    let tag = &element.tag;
    let mut statics: Vec<String> = Vec::new();
    let mut getters: Vec<String> = Vec::new();
    let mut spreads: Vec<String> = Vec::new();
    let ghost ctx0 = ctx@;
    proof {
        assert(crate::context::strs_view(statics@) =~= Seq::<Seq<char>>::empty());
        assert(crate::context::strs_view(getters@) =~= Seq::<Seq<char>>::empty());
        assert(crate::context::strs_view(spreads@) =~= Seq::<Seq<char>>::empty());
    }
    let mut i: usize = 0;
    while i < element.attrs.len()
        invariant
            0 <= i <= element.attrs@.len(),
            spec_build_props_from(element.attrs@, i as int, element.tag@, builtin,
                PropsSt {
                    statics: crate::context::strs_view(statics@),
                    getters: crate::context::strs_view(getters@),
                    spreads: crate::context::strs_view(spreads@),
                    ctx: ctx@,
                })
                == spec_build_props_from(element.attrs@, 0, element.tag@, builtin,
                    PropsSt {
                        statics: Seq::empty(),
                        getters: Seq::empty(),
                        spreads: Seq::empty(),
                        ctx: ctx0,
                    }),
        decreases element.attrs@.len() - i,
    {
        let a = &element.attrs[i];
        match a {
            AttrItem::Spread(e) => {
                let ghost pre = spreads@;
                spreads.push(e.code.clone());
                proof {
                    assert(crate::context::strs_view(spreads@)
                        =~= crate::context::strs_view(pre).push(spreads@.last()@));
                }
            }
            AttrItem::Attr { name, value } => {
                if builtin && !recognized_prop(tag.as_str(), name.as_str()) {
                    let mut w = new_string("unrecognized prop `");
                    w.append(name.as_str());
                    w.append("` on built-in <");
                    w.append(tag.as_str());
                    w.append(">");
                    proof {
                        assert(w@ =~= spec_builtin_warning(element.tag@, name@));
                    }
                    ctx.register_warning(w);
                }
                match value {
                    AttrValue::Absent => {
                        let mut c = name.clone();
                        c.append(": true");
                        proof {
                            assert(c@ =~= name@ + ": true"@);
                        }
                        let ghost pre = statics@;
                        statics.push(c);
                        proof {
                            assert(crate::context::strs_view(statics@)
                                =~= crate::context::strs_view(pre).push(statics@.last()@));
                        }
                    }
                    AttrValue::StrLit(s) => {
                        let mut c = name.clone();
                        c.append(": \"");
                        c.append(s.as_str());
                        c.append("\"");
                        proof {
                            assert(c@ =~= name@ + ": \""@ + s@ + "\""@);
                        }
                        let ghost pre = statics@;
                        statics.push(c);
                        proof {
                            assert(crate::context::strs_view(statics@)
                                =~= crate::context::strs_view(pre).push(statics@.last()@));
                        }
                    }
                    AttrValue::Expr(e) => {
                        if is_dynamic(e) {
                            let mut c = new_string("get ");
                            c.append(name.as_str());
                            c.append("() { return ");
                            c.append(e.code.as_str());
                            c.append("; }");
                            proof {
                                assert(c@ =~= "get "@ + name@ + "() { return "@ + e.code@
                                    + "; }"@);
                            }
                            let ghost pre = getters@;
                            getters.push(c);
                            proof {
                                assert(crate::context::strs_view(getters@)
                                    =~= crate::context::strs_view(pre).push(getters@.last()@));
                            }
                        } else {
                            let mut c = name.clone();
                            c.append(": ");
                            c.append(e.code.as_str());
                            proof {
                                assert(c@ =~= name@ + ": "@ + e.code@);
                            }
                            let ghost pre = statics@;
                            statics.push(c);
                            proof {
                                assert(crate::context::strs_view(statics@)
                                    =~= crate::context::strs_view(pre).push(statics@.last()@));
                            }
                        }
                    }
                }
            }
        }
        i = i + 1;
    }
    let mut codes: Vec<String> = Vec::new();
    proof {
        assert(crate::context::strs_view(codes@) =~= Seq::<Seq<char>>::empty());
    }
    children_codes_from(&element.children, 0, ctx, opts, &mut codes);
    let mut parts: Vec<String> = statics;
    let ghost sv = crate::context::strs_view(parts@);
    let ghost gv = crate::context::strs_view(getters@);
    let mut getters2 = getters;
    parts.append(&mut getters2);
    proof {
        assert(crate::context::strs_view(parts@) =~= sv + gv);
    }
    if codes.len() > 0 {
        let ce = get_children_expr(&codes);
        let callback = builtin && (str_eq(tag.as_str(), "For") || str_eq(tag.as_str(), "Index"));
        let ghost pv = crate::context::strs_view(parts@);
        if callback {
            let mut c = new_string("children: ");
            c.append(ce.as_str());
            proof {
                assert(c@ =~= "children: "@ + ce@);
            }
            parts.push(c);
        } else {
            let mut c = new_string("get children() { return ");
            c.append(ce.as_str());
            c.append("; }");
            proof {
                assert(c@ =~= "get children() { return "@ + ce@ + "; }"@);
            }
            parts.push(c);
        }
        proof {
            assert(crate::context::strs_view(parts@) =~= pv.push(parts@.last()@));
            assert(pv.push(parts@.last()@) =~= pv + seq![parts@.last()@]);
        }
    }
    if spreads.len() > 0 {
        ctx.register_helper("mergeProps");
        let mut c = new_string("_mergeProps(");
        crate::ir::append_join(&mut c, &spreads, ", ");
        c.append(", { ");
        crate::ir::append_join(&mut c, &parts, ", ");
        c.append(" })");
        proof {
            assert(c@ =~= "_mergeProps("@ + spec_join(crate::context::strs_view(spreads@), ", "@)
                + ", { "@ + spec_join(crate::context::strs_view(parts@), ", "@) + " })"@);
        }
        c
    } else if parts.len() == 0 {
        new_string("{}")
    } else {
        let mut c = new_string("{ ");
        crate::ir::append_join(&mut c, &parts, ", ");
        c.append(" }");
        proof {
            assert(c@ =~= "{ "@ + spec_join(crate::context::strs_view(parts@), ", "@) + " }"@);
        }
        c
    }
}

/// The shared core of every built-in lowering: registers `createComponent`
/// and the built-in's own helper, builds the props, and emits the
/// constructor call against the imported helper.
#[verifier::loop_isolation(false)]
fn builtin_core(
    element: &JsxElement,
    res: &mut TransformResult,
    ctx: &mut BlockContext,
    opts: &TransformOptions,
)
    requires
        spec_is_built_in(element.tag@),
    ensures
        ({
            let ctx1 = reg_helper(reg_helper(old(ctx)@, "createComponent"@), element.tag@);
            let (props, c2) = spec_build_props(*element, true, ctx1, *opts);
            final(res)@ == (SpecIr {
                exprs: old(res)@.exprs.push(
                    "_createComponent(_"@ + element.tag@ + ", "@ + props + ")"@),
                ..old(res)@
            }) && final(ctx)@ == c2
        }),
    decreases *element, 0int, 3int,
{
    ctx.register_helper("createComponent");
    ctx.register_helper(element.tag.as_str());
    let props = build_props(element, true, ctx, opts);
    let mut c = new_string("_createComponent(_");
    c.append(element.tag.as_str());
    c.append(", ");
    c.append(props.as_str());
    c.append(")");
    proof {
        assert(c@ =~= "_createComponent(_"@ + element.tag@ + ", "@ + props@ + ")"@);
    }
    res.push_expr(c);
}

/// Lowers `<For each={...}>{(item, index) => ...}</For>`.
pub fn transform_for(
    element: &JsxElement,
    res: &mut TransformResult,
    ctx: &mut BlockContext,
    opts: &TransformOptions,
)
    requires
        element.tag@ == "For"@,
    ensures
        ({
            let ctx1 = reg_helper(reg_helper(old(ctx)@, "createComponent"@), element.tag@);
            let (props, c2) = spec_build_props(*element, true, ctx1, *opts);
            final(res)@ == (SpecIr {
                exprs: old(res)@.exprs.push(
                    "_createComponent(_"@ + element.tag@ + ", "@ + props + ")"@),
                ..old(res)@
            }) && final(ctx)@ == c2
        }),
    decreases *element, 1int, 0int,
{
    proof {
        reveal_strlit("For");
    }
    builtin_core(element, res, ctx, opts);
}

/// Lowers `<Show when={...} fallback={...}>...</Show>`.
pub fn transform_show(
    element: &JsxElement,
    res: &mut TransformResult,
    ctx: &mut BlockContext,
    opts: &TransformOptions,
)
    requires
        element.tag@ == "Show"@,
    ensures
        ({
            let ctx1 = reg_helper(reg_helper(old(ctx)@, "createComponent"@), element.tag@);
            let (props, c2) = spec_build_props(*element, true, ctx1, *opts);
            final(res)@ == (SpecIr {
                exprs: old(res)@.exprs.push(
                    "_createComponent(_"@ + element.tag@ + ", "@ + props + ")"@),
                ..old(res)@
            }) && final(ctx)@ == c2
        }),
    decreases *element, 1int, 0int,
{
    proof {
        reveal_strlit("Show");
    }
    builtin_core(element, res, ctx, opts);
}

/// Lowers `<Switch>...</Switch>`; that every child is a `Match` is the
/// validator's concern.
pub fn transform_switch(
    element: &JsxElement,
    res: &mut TransformResult,
    ctx: &mut BlockContext,
    opts: &TransformOptions,
)
    requires
        element.tag@ == "Switch"@,
    ensures
        ({
            let ctx1 = reg_helper(reg_helper(old(ctx)@, "createComponent"@), element.tag@);
            let (props, c2) = spec_build_props(*element, true, ctx1, *opts);
            final(res)@ == (SpecIr {
                exprs: old(res)@.exprs.push(
                    "_createComponent(_"@ + element.tag@ + ", "@ + props + ")"@),
                ..old(res)@
            }) && final(ctx)@ == c2
        }),
    decreases *element, 1int, 0int,
{
    proof {
        reveal_strlit("Switch");
    }
    builtin_core(element, res, ctx, opts);
}

/// Lowers `<Match when={...}>...</Match>`.
pub fn transform_match(
    element: &JsxElement,
    res: &mut TransformResult,
    ctx: &mut BlockContext,
    opts: &TransformOptions,
)
    requires
        element.tag@ == "Match"@,
    ensures
        ({
            let ctx1 = reg_helper(reg_helper(old(ctx)@, "createComponent"@), element.tag@);
            let (props, c2) = spec_build_props(*element, true, ctx1, *opts);
            final(res)@ == (SpecIr {
                exprs: old(res)@.exprs.push(
                    "_createComponent(_"@ + element.tag@ + ", "@ + props + ")"@),
                ..old(res)@
            }) && final(ctx)@ == c2
        }),
    decreases *element, 1int, 0int,
{
    proof {
        reveal_strlit("Match");
    }
    builtin_core(element, res, ctx, opts);
}

/// Lowers `<Index each={...}>{(item, index) => ...}</Index>`.
pub fn transform_index(
    element: &JsxElement,
    res: &mut TransformResult,
    ctx: &mut BlockContext,
    opts: &TransformOptions,
)
    requires
        element.tag@ == "Index"@,
    ensures
        ({
            let ctx1 = reg_helper(reg_helper(old(ctx)@, "createComponent"@), element.tag@);
            let (props, c2) = spec_build_props(*element, true, ctx1, *opts);
            final(res)@ == (SpecIr {
                exprs: old(res)@.exprs.push(
                    "_createComponent(_"@ + element.tag@ + ", "@ + props + ")"@),
                ..old(res)@
            }) && final(ctx)@ == c2
        }),
    decreases *element, 1int, 0int,
{
    proof {
        reveal_strlit("Index");
    }
    builtin_core(element, res, ctx, opts);
}

/// Lowers `<Suspense fallback={...}>...</Suspense>`.
pub fn transform_suspense(
    element: &JsxElement,
    res: &mut TransformResult,
    ctx: &mut BlockContext,
    opts: &TransformOptions,
)
    requires
        element.tag@ == "Suspense"@,
    ensures
        ({
            let ctx1 = reg_helper(reg_helper(old(ctx)@, "createComponent"@), element.tag@);
            let (props, c2) = spec_build_props(*element, true, ctx1, *opts);
            final(res)@ == (SpecIr {
                exprs: old(res)@.exprs.push(
                    "_createComponent(_"@ + element.tag@ + ", "@ + props + ")"@),
                ..old(res)@
            }) && final(ctx)@ == c2
        }),
    decreases *element, 1int, 0int,
{
    proof {
        reveal_strlit("Suspense");
    }
    builtin_core(element, res, ctx, opts);
}

/// Lowers `<Portal mount={...}>...</Portal>`.
pub fn transform_portal(
    element: &JsxElement,
    res: &mut TransformResult,
    ctx: &mut BlockContext,
    opts: &TransformOptions,
)
    requires
        element.tag@ == "Portal"@,
    ensures
        ({
            let ctx1 = reg_helper(reg_helper(old(ctx)@, "createComponent"@), element.tag@);
            let (props, c2) = spec_build_props(*element, true, ctx1, *opts);
            final(res)@ == (SpecIr {
                exprs: old(res)@.exprs.push(
                    "_createComponent(_"@ + element.tag@ + ", "@ + props + ")"@),
                ..old(res)@
            }) && final(ctx)@ == c2
        }),
    decreases *element, 1int, 0int,
{
    proof {
        reveal_strlit("Portal");
    }
    builtin_core(element, res, ctx, opts);
}

/// Lowers `<Dynamic component={...} {...props} />`.
pub fn transform_dynamic(
    element: &JsxElement,
    res: &mut TransformResult,
    ctx: &mut BlockContext,
    opts: &TransformOptions,
)
    requires
        element.tag@ == "Dynamic"@,
    ensures
        ({
            let ctx1 = reg_helper(reg_helper(old(ctx)@, "createComponent"@), element.tag@);
            let (props, c2) = spec_build_props(*element, true, ctx1, *opts);
            final(res)@ == (SpecIr {
                exprs: old(res)@.exprs.push(
                    "_createComponent(_"@ + element.tag@ + ", "@ + props + ")"@),
                ..old(res)@
            }) && final(ctx)@ == c2
        }),
    decreases *element, 1int, 0int,
{
    proof {
        reveal_strlit("Dynamic");
    }
    builtin_core(element, res, ctx, opts);
}

/// Lowers `<ErrorBoundary fallback={...}>...</ErrorBoundary>`.
pub fn transform_error_boundary(
    element: &JsxElement,
    res: &mut TransformResult,
    ctx: &mut BlockContext,
    opts: &TransformOptions,
)
    requires
        element.tag@ == "ErrorBoundary"@,
    ensures
        ({
            let ctx1 = reg_helper(reg_helper(old(ctx)@, "createComponent"@), element.tag@);
            let (props, c2) = spec_build_props(*element, true, ctx1, *opts);
            final(res)@ == (SpecIr {
                exprs: old(res)@.exprs.push(
                    "_createComponent(_"@ + element.tag@ + ", "@ + props + ")"@),
                ..old(res)@
            }) && final(ctx)@ == c2
        }),
    decreases *element, 1int, 0int,
{
    proof {
        reveal_strlit("ErrorBoundary");
    }
    builtin_core(element, res, ctx, opts);
}

/// Dispatches a built-in tag to its lowering.
fn transform_builtin(
    element: &JsxElement,
    res: &mut TransformResult,
    ctx: &mut BlockContext,
    opts: &TransformOptions,
)
    requires
        spec_is_built_in(element.tag@),
    ensures
        ({
            let ctx1 = reg_helper(reg_helper(old(ctx)@, "createComponent"@), element.tag@);
            let (props, c2) = spec_build_props(*element, true, ctx1, *opts);
            final(res)@ == (SpecIr {
                exprs: old(res)@.exprs.push(
                    "_createComponent(_"@ + element.tag@ + ", "@ + props + ")"@),
                ..old(res)@
            }) && final(ctx)@ == c2
        }),
    decreases *element, 2int, 0int,
{
    let tag = &element.tag;
    if str_eq(tag.as_str(), "For") {
        transform_for(element, res, ctx, opts);
    } else if str_eq(tag.as_str(), "Show") {
        transform_show(element, res, ctx, opts);
    } else if str_eq(tag.as_str(), "Switch") {
        transform_switch(element, res, ctx, opts);
    } else if str_eq(tag.as_str(), "Match") {
        transform_match(element, res, ctx, opts);
    } else if str_eq(tag.as_str(), "Index") {
        transform_index(element, res, ctx, opts);
    } else if str_eq(tag.as_str(), "Suspense") {
        transform_suspense(element, res, ctx, opts);
    } else if str_eq(tag.as_str(), "Portal") {
        transform_portal(element, res, ctx, opts);
    } else if str_eq(tag.as_str(), "Dynamic") {
        transform_dynamic(element, res, ctx, opts);
    } else {
        transform_error_boundary(element, res, ctx, opts);
    }
}

/// Lowers a component element to a `createComponent` call: a built-in from
/// its imported runtime helper, a user component from its tag expression.
pub fn transform_component(
    element: &JsxElement,
    tag_name: &str,
    ctx: &mut BlockContext,
    opts: &TransformOptions,
) -> (r: TransformResult)
    requires
        tag_name@ == element.tag@,
    ensures
        ({
            let (ir, c2) = spec_lower_component(*element, old(ctx)@, *opts);
            r@ == ir && final(ctx)@ == c2
        }),
    decreases *element, 3int, 0int,
{
    let mut res = TransformResult::new();
    if is_built_in(tag_name) {
        transform_builtin(element, &mut res, ctx, opts);
        proof {
            let ctx1 = reg_helper(reg_helper(old(ctx)@, "createComponent"@), element.tag@);
            let (props, c2) = spec_build_props(*element, true, ctx1, *opts);
            assert(Seq::<Seq<char>>::empty().push(
                "_createComponent(_"@ + element.tag@ + ", "@ + props + ")"@)
                =~= seq!["_createComponent(_"@ + element.tag@ + ", "@ + props + ")"@]);
        }
        res
    } else {
        ctx.register_helper("createComponent");
        let props = build_props(element, false, ctx, opts);
        let mut c = new_string("_createComponent(");
        c.append(tag_name);
        c.append(", ");
        c.append(props.as_str());
        c.append(")");
        proof {
            assert(c@ =~= "_createComponent("@ + element.tag@ + ", "@ + props@ + ")"@);
        }
        res.push_expr(c);
        proof {
            let ctx1 = reg_helper(old(ctx)@, "createComponent"@);
            let (props2, c2) = spec_build_props(*element, false, ctx1, *opts);
            assert(Seq::<Seq<char>>::empty().push(
                "_createComponent("@ + element.tag@ + ", "@ + props2 + ")"@)
                =~= seq!["_createComponent("@ + element.tag@ + ", "@ + props2 + ")"@]);
        }
        res
    }
}

} // verus!
