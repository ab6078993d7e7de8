//! The library-wide laws: determinism of the transform, separation of static
//! and dynamic attributes, structure of element templates, and the registry
//! guarantees behind helper imports.

use vstd::prelude::*;
use crate::classify::{spec_is_dynamic, spec_starts_with};
use crate::context::{CtxView, spec_register};
use crate::element::{
    WalkSt, spec_lower_attr, spec_lower_attrs, spec_lower_children, spec_lower_element,
};
use crate::element::spec_value_code;
use crate::ir::{SpecDyn, SpecIr};
use crate::model::{AttrItem, AttrValue, JsExpr, JsxElement, Program, TransformOptions};
use crate::spec_fresh_ctx;
use crate::transform::spec_transform_program;

verus! {

/// Determinism: the output program is a mathematical function of the input
/// program and the options alone, so two runs on equal inputs produce
/// byte-identical output, helper import order and template numbering
/// included.
pub proof fn lemma_transform_deterministic(
    p1: Program,
    p2: Program,
    o1: TransformOptions,
    o2: TransformOptions,
)
    requires
        p1 == p2,
        o1 == o2,
    ensures
        spec_transform_program(p1, o1, spec_fresh_ctx())
            == spec_transform_program(p2, o2, spec_fresh_ctx()),
{
}

/// Whether an attribute key falls under one of the special lowering rules
/// rather than the regular attribute rule.
pub open spec fn spec_special_key(key: Seq<char>) -> bool {
    ||| key == "ref"@
    ||| spec_starts_with(key, "use:"@)
    ||| spec_starts_with(key, "on"@)
    ||| spec_starts_with(key, "style:"@)
    ||| spec_starts_with(key, "class:"@)
    ||| spec_starts_with(key, "prop:"@)
    ||| spec_starts_with(key, "attr:"@)
}

/// Dynamic/static separation, dynamic half: a regular attribute whose value
/// is a dynamic expression contributes exactly one dynamic binding and leaves
/// the template text and the statement expressions untouched.
pub proof fn lemma_dynamic_attr_separation(
    name: String,
    e: JsExpr,
    elem_id: Seq<char>,
    tag: Seq<char>,
    svg: bool,
    ce: bool,
    has_children: bool,
    ir: SpecIr,
    ctx: CtxView,
    opts: TransformOptions,
)
    requires
        !spec_special_key(name@),
        spec_is_dynamic(e),
    ensures
        ({
            let (ir2, ctx2) = spec_lower_attr(
                AttrItem::Attr { name, value: AttrValue::Expr(e) },
                elem_id, tag, svg, ce, has_children, ir, ctx, opts);
            ir2.dynamics == ir.dynamics.push(SpecDyn {
                elem: elem_id,
                key: name@,
                value: e.code@,
                is_svg: svg,
                is_ce: ce,
                tag_name: tag,
            }) && ir2.template == ir.template && ir2.template_close == ir.template_close
                && ir2.exprs == ir.exprs && ctx2 == ctx
        }),
{
}

/// Dynamic/static separation, static half: a regular attribute whose value
/// is a string literal or a static expression contributes template text only
/// and adds no dynamic binding and no statement expression.
pub proof fn lemma_static_attr_separation(
    name: String,
    value: AttrValue,
    elem_id: Seq<char>,
    tag: Seq<char>,
    svg: bool,
    ce: bool,
    has_children: bool,
    ir: SpecIr,
    ctx: CtxView,
    opts: TransformOptions,
)
    requires
        !spec_special_key(name@),
        !(value matches AttrValue::Expr(e) && spec_is_dynamic(e)),
    ensures
        ({
            let (ir2, ctx2) = spec_lower_attr(
                AttrItem::Attr { name, value },
                elem_id, tag, svg, ce, has_children, ir, ctx, opts);
            ir2.dynamics == ir.dynamics && ir2.exprs == ir.exprs && ctx2 == ctx
                && ir.template.is_prefix_of(ir2.template)
        }),
{
    let (ir2, ctx2) = spec_lower_attr(
        AttrItem::Attr { name, value }, elem_id, tag, svg, ce, has_children, ir, ctx, opts);
    assert(ir.template.is_prefix_of(ir2.template)) by {
        match value {
            AttrValue::Absent => {
                assert(ir2.template.subrange(0, ir.template.len() as int) =~= ir.template);
            }
            AttrValue::StrLit(s) => {
                assert(ir2.template.subrange(0, ir.template.len() as int) =~= ir.template);
            }
            AttrValue::Expr(e) => {
                assert(ir2.template.subrange(0, ir.template.len() as int) =~= ir.template);
            }
        }
    }
}

/// Attribute lowering only appends to the template: the text present before
/// an attribute list is lowered is a prefix of the text present after.
#[verifier::rlimit(100)]
pub proof fn lemma_attrs_extend_template(
    attrs: Seq<AttrItem>,
    i: int,
    elem_id: Seq<char>,
    tag: Seq<char>,
    svg: bool,
    ce: bool,
    has_children: bool,
    ir: SpecIr,
    ctx: CtxView,
    opts: TransformOptions,
)
    ensures
        ir.template_close.is_prefix_of(
            spec_lower_attrs(attrs, i, elem_id, tag, svg, ce, has_children, ir, ctx, opts)
                .0.template_close),
    decreases attrs.len() - i,
{
    if i < 0 || i >= attrs.len() {
        assert(ir.template_close.is_prefix_of(ir.template_close)) by {
            assert(ir.template_close.subrange(0, ir.template_close.len() as int)
                =~= ir.template_close);
        }
    } else {
        let (ir1, ctx1) = if crate::element::spec_dup_later(attrs, i) {
            (ir, ctx)
        } else {
            spec_lower_attr(attrs[i], elem_id, tag, svg, ce, has_children, ir, ctx, opts)
        };
        assert(ir.template_close.is_prefix_of(ir1.template_close)) by {
            assert(ir1.template_close.subrange(0, ir.template_close.len() as int)
                =~= ir.template_close);
        }
        lemma_attrs_extend_template(
            attrs, i + 1, elem_id, tag, svg, ce, has_children, ir1, ctx1, opts);
        let irf = spec_lower_attrs(
            attrs, i, elem_id, tag, svg, ce, has_children, ir, ctx, opts).0;
        assert(irf.template_close.subrange(0, ir.template_close.len() as int)
            =~= ir.template_close);
    }
}

/// Template well-formedness at the element level: the full template of a
/// non-void native element opens with `<` and its tag and closes with the
/// matching closing tag; a void element opens the same way and has no
/// closing tag and no child text.
pub proof fn lemma_element_template_shape(
    el: JsxElement,
    skip_id: bool,
    ctx: CtxView,
    opts: TransformOptions,
)
    ensures
        ({
            let (ir, c2) = spec_lower_element(el, skip_id, ctx, opts);
            let open = "<"@ + el.tag@;
            let close = "</"@ + el.tag@ + ">"@;
            &&& ir.template_close.len() >= open.len()
            &&& ir.template_close.subrange(0, open.len() as int) == open
            &&& (!crate::classify::spec_is_void(el.tag@) ==> ir.template_close.len()
                >= close.len() && ir.template_close.subrange(
                    ir.template_close.len() - close.len(),
                    ir.template_close.len() as int,
                ) == close)
        }),
{
    let (ir, c2) = spec_lower_element(el, skip_id, ctx, opts);
    let tag = el.tag@;
    let open = "<"@ + tag;
    let close = "</"@ + tag + ">"@;
    let (id, ctx1): (Option<Seq<char>>, CtxView) = if !skip_id {
        let (uid, c) = crate::ir::spec_uid(ctx, "el$"@);
        (Some(uid), c)
    } else {
        (None, ctx)
    };
    let (elem_id, ctx2): (Seq<char>, CtxView) = match id {
        Some(x) => (x, ctx1),
        None => crate::ir::spec_uid(ctx1, "el$"@),
    };
    let ir0 = SpecIr {
        id,
        template: open,
        template_close: open,
        tag_name: Some(tag),
        is_svg: crate::classify::spec_is_svg(tag),
        has_custom_element: crate::classify::spec_is_custom_element(tag),
        is_void: crate::classify::spec_is_void(tag),
        ..crate::ir::empty_ir()
    };
    lemma_attrs_extend_template(
        el.attrs@, 0, elem_id, tag, crate::classify::spec_is_svg(tag),
        crate::classify::spec_is_custom_element(tag), el.children@.len() > 0, ir0, ctx2, opts);
    let (ir1, ctx3) = spec_lower_attrs(
        el.attrs@, 0, elem_id, tag, crate::classify::spec_is_svg(tag),
        crate::classify::spec_is_custom_element(tag), el.children@.len() > 0, ir0, ctx2, opts);
    let ir2 = SpecIr {
        template: ir1.template + ">"@,
        template_close: ir1.template_close + ">"@,
        ..ir1
    };
    assert(ir2.template_close.subrange(0, open.len() as int) =~= open);
    if crate::classify::spec_is_void(tag) {
        assert(ir.template_close.subrange(0, open.len() as int) =~= open);
    } else {
        let (ir3, ctx4, _w) = spec_lower_children(
            el.children@, 0, elem_id, ir2, ctx3,
            WalkSt { first: true, prev: Seq::empty() }, opts);
        lemma_children_extend_template(
            el.children@, 0, elem_id, ir2, ctx3,
            WalkSt { first: true, prev: Seq::empty() }, opts);
        assert(ir.template_close =~= ir3.template_close + close);
        assert(ir.template_close.subrange(0, open.len() as int) =~= open);
        assert(ir.template_close.subrange(
            ir.template_close.len() - close.len(), ir.template_close.len() as int) =~= close);
    }
}

/// Child lowering only appends to the template.
pub proof fn lemma_children_extend_template(
    s: Seq<crate::model::JsxNode>,
    i: int,
    parent_id: Seq<char>,
    ir: SpecIr,
    ctx: CtxView,
    w: WalkSt,
    opts: TransformOptions,
)
    ensures
        ir.template_close.is_prefix_of(
            spec_lower_children(s, i, parent_id, ir, ctx, w, opts).0.template_close),
    decreases s, s.len() - i, 3int,
{
    if i < 0 || i >= s.len() {
        assert(ir.template_close.subrange(0, ir.template_close.len() as int)
            =~= ir.template_close);
    } else {
        let follows = crate::element::spec_follows_dom(s, i + 1);
        let stepped = crate::element::spec_lower_child(s, i, parent_id, ir, ctx, w, opts, follows);
        let (ir1, ctx1, w1) = stepped;
        assert(ir.template_close.is_prefix_of(ir1.template_close)) by {
            match s[i] {
                crate::model::JsxNode::Fragment(v) => {
                    lemma_children_extend_template(v@, 0, parent_id, ir, ctx, w, opts);
                }
                _ => {
                    assert(ir1.template_close.subrange(0, ir.template_close.len() as int)
                        =~= ir.template_close);
                }
            }
        }
        lemma_children_extend_template(s, i + 1, parent_id, ir1, ctx1, w1, opts);
        let irf = spec_lower_children(s, i, parent_id, ir, ctx, w, opts).0;
        assert(irf.template_close.subrange(0, ir.template_close.len() as int)
            =~= ir.template_close);
    }
}

/// Registration is idempotent, effective, order-preserving and duplicate-free:
/// what was registered stays, in first-encounter order, exactly once. This is
/// what makes the emitted helper import list minimal and deterministic.
pub proof fn lemma_register_properties(s: Seq<Seq<char>>, x: Seq<char>)
    requires
        forall|i: int, j: int| 0 <= i < j < s.len() ==> s[i] != s[j],
    ensures
        spec_register(s, x).contains(x),
        s.is_prefix_of(spec_register(s, x)),
        forall|i: int, j: int| 0 <= i < j < spec_register(s, x).len()
            ==> spec_register(s, x)[i] != spec_register(s, x)[j],
        s.contains(x) ==> spec_register(s, x) == s,
{
    let r = spec_register(s, x);
    if s.contains(x) {
        assert(s.subrange(0, s.len() as int) =~= s);
    } else {
        assert(r[s.len() as int] == x);
        assert(r.contains(x));
        assert(r.subrange(0, s.len() as int) =~= s);
        assert forall|i: int, j: int| 0 <= i < j < r.len() implies r[i] != r[j] by {
            if j < s.len() {
            } else {
                assert(r[j] == x);
                if r[i] == x {
                    assert(s[i] == x);
                    assert(s.contains(x));
                }
            }
        }
    }
}

/// The emitted import clause list names exactly the registered helpers, in
/// order, each under its underscore alias.
pub proof fn lemma_import_parts_exact(helpers: Seq<Seq<char>>)
    ensures
        crate::transform::spec_import_parts(helpers).len() == helpers.len(),
        forall|i: int| 0 <= i < helpers.len()
            ==> crate::transform::spec_import_parts(helpers)[i]
                == helpers[i] + " as _"@ + helpers[i],
{
}

/// The block context is an append-only registry: no registration removes or
/// reorders what an earlier one put there, and the identifier counter never
/// goes back. This keeps helper imports, template numbering and delegation
/// order stable across a compilation.
pub proof fn lemma_registry_append_only(ctx: CtxView, name: Seq<char>, ev: Seq<char>, w: Seq<char>)
    ensures
        crate::ir::reg_helper(ctx, name).extends(ctx),
        crate::ir::reg_delegate(ctx, ev).extends(ctx),
        crate::ir::reg_warning(ctx, w).extends(ctx),
{
    assert(ctx.helpers.is_prefix_of(spec_register(ctx.helpers, name))) by {
        if ctx.helpers.contains(name) {
            assert(spec_register(ctx.helpers, name).subrange(0, ctx.helpers.len() as int)
                =~= ctx.helpers);
        } else {
            assert(spec_register(ctx.helpers, name).subrange(0, ctx.helpers.len() as int)
                =~= ctx.helpers);
        }
    }
    assert(ctx.delegates.is_prefix_of(spec_register(ctx.delegates, ev))) by {
        assert(spec_register(ctx.delegates, ev).subrange(0, ctx.delegates.len() as int)
            =~= ctx.delegates);
    }
    assert(ctx.warnings.is_prefix_of(ctx.warnings.push(w))) by {
        assert(ctx.warnings.push(w).subrange(0, ctx.warnings.len() as int) =~= ctx.warnings);
    }
    assert(ctx.helpers.is_prefix_of(ctx.helpers)) by {
        assert(ctx.helpers.subrange(0, ctx.helpers.len() as int) =~= ctx.helpers);
    }
    assert(ctx.delegates.is_prefix_of(ctx.delegates)) by {
        assert(ctx.delegates.subrange(0, ctx.delegates.len() as int) =~= ctx.delegates);
    }
    assert(ctx.templates.is_prefix_of(ctx.templates)) by {
        assert(ctx.templates.subrange(0, ctx.templates.len() as int) =~= ctx.templates);
    }
    assert(ctx.warnings.is_prefix_of(ctx.warnings)) by {
        assert(ctx.warnings.subrange(0, ctx.warnings.len() as int) =~= ctx.warnings);
    }
}

/// The dynamic binding that one attribute contributes: one entry for a
/// style or class toggle, for a forced-attribute key with a dynamic value,
/// or for a regular attribute with a dynamic value; none otherwise.
pub open spec fn spec_dyn_of_attr(
    a: AttrItem,
    elem_id: Seq<char>,
    tag: Seq<char>,
    svg: bool,
    ce: bool,
) -> Seq<SpecDyn> {
    match a {
        AttrItem::Spread(_) => Seq::empty(),
        AttrItem::Attr { name, value } => {
            let key = name@;
            if key == "ref"@ {
                Seq::empty()
            } else if spec_starts_with(key, "use:"@) {
                Seq::empty()
            } else if spec_starts_with(key, "on"@) {
                Seq::empty()
            } else if spec_starts_with(key, "style:"@) || spec_starts_with(key, "class:"@) {
                seq![SpecDyn {
                    elem: elem_id,
                    key,
                    value: spec_value_code(value),
                    is_svg: svg,
                    is_ce: ce,
                    tag_name: tag,
                }]
            } else if spec_starts_with(key, "prop:"@) {
                Seq::empty()
            } else {
                match value {
                    AttrValue::Expr(e) => if spec_is_dynamic(e) {
                        seq![SpecDyn {
                            elem: elem_id,
                            key,
                            value: e.code@,
                            is_svg: svg,
                            is_ce: ce,
                            tag_name: tag,
                        }]
                    } else {
                        Seq::empty()
                    },
                    _ => Seq::empty(),
                }
            }
        },
    }
}

/// The dynamic bindings of the attribute list from index `i` on, in source
/// order, skipping attributes that a later duplicate overrides.
pub open spec fn spec_dyns_of_attrs(
    attrs: Seq<AttrItem>,
    i: int,
    elem_id: Seq<char>,
    tag: Seq<char>,
    svg: bool,
    ce: bool,
) -> Seq<SpecDyn>
    decreases attrs.len() - i,
{
    if i < 0 || i >= attrs.len() {
        Seq::empty()
    } else {
        let here: Seq<SpecDyn> = if crate::element::spec_dup_later(attrs, i) {
            Seq::empty()
        } else {
            spec_dyn_of_attr(attrs[i], elem_id, tag, svg, ce)
        };
        here + spec_dyns_of_attrs(attrs, i + 1, elem_id, tag, svg, ce)
    }
}

/// Dynamic/static separation over a whole attribute list: the dynamic
/// bindings that lowering produces are exactly those of the kept dynamic
/// attributes, in source order — every dynamic attribute appears in exactly
/// one binding, and none sneaks into any other channel.
#[verifier::rlimit(100)]
pub proof fn lemma_attrs_dynamics_exact(
    attrs: Seq<AttrItem>,
    i: int,
    elem_id: Seq<char>,
    tag: Seq<char>,
    svg: bool,
    ce: bool,
    has_children: bool,
    ir: SpecIr,
    ctx: CtxView,
    opts: TransformOptions,
)
    ensures
        spec_lower_attrs(attrs, i, elem_id, tag, svg, ce, has_children, ir, ctx, opts).0.dynamics
            == ir.dynamics + spec_dyns_of_attrs(attrs, i, elem_id, tag, svg, ce),
    decreases attrs.len() - i,
{
    if i < 0 || i >= attrs.len() {
        assert(ir.dynamics + Seq::<SpecDyn>::empty() =~= ir.dynamics);
    } else {
        let (ir1, ctx1) = if crate::element::spec_dup_later(attrs, i) {
            (ir, ctx)
        } else {
            spec_lower_attr(attrs[i], elem_id, tag, svg, ce, has_children, ir, ctx, opts)
        };
        let here: Seq<SpecDyn> = if crate::element::spec_dup_later(attrs, i) {
            Seq::empty()
        } else {
            spec_dyn_of_attr(attrs[i], elem_id, tag, svg, ce)
        };
        assert(ir1.dynamics =~= ir.dynamics + here) by {
            if !crate::element::spec_dup_later(attrs, i) {
                match attrs[i] {
                    AttrItem::Spread(e) => {
                        assert(ir1.dynamics =~= ir.dynamics + here);
                    }
                    AttrItem::Attr { name, value } => {
                        let key = name@;
                        if key == "ref"@ {
                            assert(ir1.dynamics =~= ir.dynamics + here);
                        } else if spec_starts_with(key, "use:"@) {
                            assert(ir1.dynamics =~= ir.dynamics + here);
                        } else if spec_starts_with(key, "on"@) {
                            assert(ir1.dynamics =~= ir.dynamics + here);
                        } else if spec_starts_with(key, "style:"@)
                            || spec_starts_with(key, "class:"@) {
                            let d = SpecDyn {
                                elem: elem_id,
                                key,
                                value: spec_value_code(value),
                                is_svg: svg,
                                is_ce: ce,
                                tag_name: tag,
                            };
                            assert(ir1.dynamics == ir.dynamics.push(d));
                            assert(here =~= seq![d]);
                            assert(ir.dynamics.push(d) =~= ir.dynamics + seq![d]);
                            assert(ir1.dynamics =~= ir.dynamics + here);
                        } else if spec_starts_with(key, "prop:"@) {
                            assert(ir1.dynamics =~= ir.dynamics + here);
                        } else {
                            assert(ir1.dynamics =~= ir.dynamics + here);
                        }
                    }
                }
            }
        }
        lemma_attrs_dynamics_exact(
            attrs, i + 1, elem_id, tag, svg, ce, has_children, ir1, ctx1, opts);
        assert((ir.dynamics + here) + spec_dyns_of_attrs(attrs, i + 1, elem_id, tag, svg, ce)
            =~= ir.dynamics + (here + spec_dyns_of_attrs(attrs, i + 1, elem_id, tag, svg, ce)));
    }
}

} // verus!
