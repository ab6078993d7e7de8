//! The driver: walks the program, lowers each JSX expression, materializes
//! the IR into output code, and at program exit prepends the helper import,
//! the template declarations and the delegation call.

use vstd::prelude::*;
use vstd::string::{StringExecFns, StrSliceExecFns};
use crate::classify::{
    is_component, new_string, spec_alias, spec_is_component, spec_is_void, spec_starts_with,
    spec_trim, str_eq, str_starts_with, str_suffix, trim_whitespace,
};
use crate::context::{
    BlockContext, CtxView, spec_register, spec_template_id, spec_template_index,
};
use crate::ir::{SpecDecl, SpecDyn, SpecIr, TransformResult as Ir, reg_helper, spec_join};
use crate::model::{JsxNode, Program, ProgramItem, TransformOptions};

verus! {

broadcast use vstd::std_specs::vec::axiom_vec_index_decreases;

/// Hints passed down by the caller of a lowering.
#[derive(Default, Clone)]
pub struct TransformInfo {
    /// The node is the root of a top-level JSX expression.
    pub top_level: bool,
    /// The node is the last element among its siblings.
    pub last_element: bool,
    /// Do not allocate a fresh identifier for this node's root.
    pub skip_id: bool,
    /// The node is a child of a component.
    pub component_child: bool,
    /// The node is a child of a fragment.
    pub fragment_child: bool,
}

// ---------------------------------------------------------------------------
// serialization of dynamics into effects, spec level
// ---------------------------------------------------------------------------

/// The runtime call that applies one dynamic binding: class bindings go
/// through the class helpers, style and class toggles through theirs,
/// forced attributes and the general case through `setAttribute` (aliasing
/// suppressed on SVG).
pub open spec fn spec_dyn_call(d: SpecDyn, ctx: CtxView) -> (Seq<char>, CtxView) {
    if d.key == "class"@ || d.key == "className"@ {
        (
            "_className("@ + d.elem + ", "@ + d.value + ")"@,
            reg_helper(ctx, "className"@),
        )
    } else if spec_starts_with(d.key, "style:"@) {
        let sub = d.key.subrange(6, d.key.len() as int);
        (
            "_style("@ + d.elem + ", \""@ + sub + "\", "@ + d.value + ")"@,
            reg_helper(ctx, "style"@),
        )
    } else if spec_starts_with(d.key, "class:"@) {
        let sub = d.key.subrange(6, d.key.len() as int);
        (
            "_classList("@ + d.elem + ", { "@ + sub + ": "@ + d.value + " })"@,
            reg_helper(ctx, "classList"@),
        )
    } else if spec_starts_with(d.key, "attr:"@) {
        let sub = d.key.subrange(5, d.key.len() as int);
        (
            "_setAttribute("@ + d.elem + ", \""@ + sub + "\", "@ + d.value + ")"@,
            reg_helper(ctx, "setAttribute"@),
        )
    } else if crate::classify::spec_prefers_property(d.key, d.tag_name) {
        (d.elem + "."@ + d.key + " = "@ + d.value, ctx)
    } else {
        let akey = if d.is_svg { d.key } else { spec_alias(d.key) };
        (
            "_setAttribute("@ + d.elem + ", \""@ + akey + "\", "@ + d.value + ")"@,
            reg_helper(ctx, "setAttribute"@),
        )
    }
}

/// One dynamic binding wrapped in the configured effect primitive.
pub open spec fn spec_effect_for(d: SpecDyn, ctx: CtxView, opts: TransformOptions) -> (
    Seq<char>,
    CtxView,
) {
    let (call, ctx1) = spec_dyn_call(d, ctx);
    (
        "_"@ + opts.effect_wrapper@ + "(() => "@ + call + ")"@,
        reg_helper(ctx1, opts.effect_wrapper@),
    )
}

/// The effect statements of all dynamic bindings, in order.
pub open spec fn spec_effects(
    dyns: Seq<SpecDyn>,
    i: int,
    ctx: CtxView,
    opts: TransformOptions,
    acc: Seq<Seq<char>>,
) -> (Seq<Seq<char>>, CtxView)
    decreases dyns.len() - i,
{
    if i < 0 || i >= dyns.len() {
        (acc, ctx)
    } else {
        let (stmt, ctx1) = spec_effect_for(dyns[i], ctx, opts);
        spec_effects(dyns, i + 1, ctx1, opts, acc.push(stmt))
    }
}

/// The `, id = init` parts of the clone-and-walk declaration list.
pub open spec fn spec_decls_text(decls: Seq<SpecDecl>, i: int, acc: Seq<char>) -> Seq<char>
    decreases decls.len() - i,
{
    if i < 0 || i >= decls.len() {
        acc
    } else {
        spec_decls_text(decls, i + 1, acc + ", "@ + decls[i].id + " = "@ + decls[i].init)
    }
}

/// The statements of the materialized body, each closed by `; `.
pub open spec fn spec_stmts_text(stmts: Seq<Seq<char>>, i: int, acc: Seq<char>) -> Seq<char>
    decreases stmts.len() - i,
{
    if i < 0 || i >= stmts.len() {
        acc
    } else {
        spec_stmts_text(stmts, i + 1, acc + stmts[i] + "; "@)
    }
}

/// Materialization of an IR at an expression position. A fragment with a
/// template becomes a clone-and-walk closure: the template is registered, the
/// root and the walk-path declarations are bound, the statement expressions
/// run, every dynamic binding is wrapped in an effect, and the root node is
/// the value. An IR without a template is its expression (or an array of
/// them).
pub open spec fn spec_materialize(ir: SpecIr, ctx: CtxView, opts: TransformOptions) -> (
    Seq<char>,
    CtxView,
) {
    if ir.template_close.len() > 0 {
        let ctx1 = reg_helper(ctx, "template"@);
        let tid = spec_template_id(spec_template_index(ctx1.templates, ir.template_close));
        let ctx2 = CtxView {
            templates: spec_register(ctx1.templates, ir.template_close),
            ..ctx1
        };
        let root: Seq<char> = match ir.id {
            Some(x) => x,
            None => "_root$"@,
        };
        let head = "var "@ + root + " = "@ + tid + "()"@ + spec_decls_text(ir.decls, 0, Seq::empty())
            + "; "@;
        let (effects, ctx3) = spec_effects(ir.dynamics, 0, ctx2, opts, Seq::empty());
        let body = spec_stmts_text(ir.exprs + effects, 0, Seq::empty());
        ("(() => { "@ + head + body + "return "@ + root + "; })()"@, ctx3)
    } else if ir.exprs.len() == 1 {
        (ir.exprs[0], ctx)
    } else if ir.exprs.len() == 0 {
        ("null"@, ctx)
    } else {
        ("["@ + spec_join(ir.exprs, ", "@) + "]"@, ctx)
    }
}

/// The output expression of one JSX node at an expression position.
pub open spec fn spec_node_code(n: JsxNode, ctx: CtxView, opts: TransformOptions) -> (
    Seq<char>,
    CtxView,
)
    decreases n, 0int, 4int,
{
    match n {
        JsxNode::Element(e) => if spec_is_component(e.tag@) {
            let (cir, ctx1) = crate::component::spec_lower_component(e, ctx, opts);
            (
                if cir.exprs.len() > 0 {
                    cir.exprs[0]
                } else {
                    "null"@
                },
                ctx1,
            )
        } else {
            let (cir, ctx1) = crate::element::spec_lower_element(e, false, ctx, opts);
            spec_materialize(cir, ctx1, opts)
        },
        JsxNode::Fragment(v) => {
            let (codes, ctx1) = crate::component::spec_children_codes(
                v@,
                0,
                ctx,
                opts,
                Seq::empty(),
            );
            ("["@ + spec_join(codes, ", "@) + "]"@, ctx1)
        },
        JsxNode::Text(t) => ("\""@ + spec_trim(t@) + "\""@, ctx),
        JsxNode::Expr(e) => (e.code@, ctx),
        JsxNode::SpreadChild(e) => (e.code@, ctx),
    }
}

// ---------------------------------------------------------------------------
// program assembly, spec level
// ---------------------------------------------------------------------------

/// The body of the output program: host code kept verbatim, each JSX item
/// replaced by its lowered expression as a statement.
pub open spec fn spec_items(
    items: Seq<ProgramItem>,
    i: int,
    ctx: CtxView,
    opts: TransformOptions,
    acc: Seq<char>,
) -> (Seq<char>, CtxView)
    decreases items.len() - i,
{
    if i < 0 || i >= items.len() {
        (acc, ctx)
    } else {
        let (acc1, ctx1): (Seq<char>, CtxView) = match items[i] {
            ProgramItem::Code(s) => (acc + s@ + "\n"@, ctx),
            ProgramItem::Jsx(n) => {
                let (c, ctx1) = spec_node_code(n, ctx, opts);
                (acc + c + ";\n"@, ctx1)
            },
        };
        spec_items(items, i + 1, ctx1, opts, acc1)
    }
}

/// The import clauses: each helper drawn under its underscore alias.
pub open spec fn spec_import_parts(helpers: Seq<Seq<char>>) -> Seq<Seq<char>> {
    helpers.map(|_i: int, h: Seq<char>| h + " as _"@ + h)
}

/// The single import statement, empty when no helper was registered.
pub open spec fn spec_import_text(helpers: Seq<Seq<char>>, module_name: Seq<char>) -> Seq<char> {
    if helpers.len() == 0 {
        Seq::empty()
    } else {
        "import { "@ + spec_join(spec_import_parts(helpers), ", "@) + " } from \""@ + module_name
            + "\";\n"@
    }
}

/// The template declarations, in registration order.
pub open spec fn spec_template_decls(tpls: Seq<Seq<char>>, i: int, acc: Seq<char>) -> Seq<char>
    decreases tpls.len() - i,
{
    if i < 0 || i >= tpls.len() {
        acc
    } else {
        spec_template_decls(
            tpls,
            i + 1,
            acc + "const "@ + spec_template_id(i) + " = _template(`"@ + tpls[i] + "`);\n"@,
        )
    }
}

/// The quoted event names of the delegation call.
pub open spec fn spec_delegate_parts(evs: Seq<Seq<char>>) -> Seq<Seq<char>> {
    evs.map(|_i: int, e: Seq<char>| "\""@ + e + "\""@)
}

/// The delegation registration, empty when no event is delegated.
pub open spec fn spec_delegation_text(evs: Seq<Seq<char>>) -> Seq<char> {
    if evs.len() == 0 {
        Seq::empty()
    } else {
        "_delegateEvents(["@ + spec_join(spec_delegate_parts(evs), ", "@) + "]);\n"@
    }
}

/// The whole output program: import, template declarations and delegation
/// registration prepended to the transformed body.
pub open spec fn spec_transform_program(p: Program, opts: TransformOptions, ctx0: CtxView) -> (
    Seq<char>,
    CtxView,
) {
    let (body, ctx1) = spec_items(p.items@, 0, ctx0, opts, Seq::empty());
    let ctx2 = if ctx1.delegates.len() > 0 {
        reg_helper(ctx1, "delegateEvents"@)
    } else {
        ctx1
    };
    (
        spec_import_text(ctx2.helpers, opts.module_name@) + spec_template_decls(
            ctx2.templates,
            0,
            Seq::empty(),
        ) + spec_delegation_text(ctx2.delegates) + body,
        ctx2,
    )
}

// ---------------------------------------------------------------------------
// validation
// ---------------------------------------------------------------------------

/// A fatal structural error of the input tree.
#[derive(Debug)]
pub enum TransformError {
    /// A void element has children.
    VoidElementWithChildren { tag: String },
    /// A child of `Switch` is not a `Match` element.
    NonMatchChildOfSwitch,
}

/// The mathematical form of a structural error.
pub ghost enum SpecErr {
    VoidChildren(Seq<char>),
    NonMatch,
}

impl View for TransformError {
    type V = SpecErr;

    open spec fn view(&self) -> SpecErr {
        match self {
            TransformError::VoidElementWithChildren { tag } => SpecErr::VoidChildren(tag@),
            TransformError::NonMatchChildOfSwitch => SpecErr::NonMatch,
        }
    }
}

/// Whether a node is an acceptable child of `Switch`: a `Match` element or
/// vanishing whitespace.
pub open spec fn spec_switch_child_ok(n: JsxNode) -> bool {
    match n {
        JsxNode::Element(e) => e.tag@ == "Match"@,
        JsxNode::Text(t) => spec_trim(t@).len() == 0,
        _ => false,
    }
}

/// The first structural error of the tree, in depth-first source order:
/// children on a void element, or a non-`Match` child of `Switch`.
pub open spec fn spec_validate(n: JsxNode) -> Option<SpecErr>
    decreases n, 0int, 1int,
{
    match n {
        JsxNode::Element(e) => {
            if !spec_is_component(e.tag@) && spec_is_void(e.tag@) && e.children@.len() > 0 {
                Some(SpecErr::VoidChildren(e.tag@))
            } else if e.tag@ == "Switch"@ && (exists|k: int|
                0 <= k < e.children@.len() && !spec_switch_child_ok(#[trigger] e.children@[k])) {
                Some(SpecErr::NonMatch)
            } else {
                spec_validate_list(e.children@, 0)
            }
        },
        JsxNode::Fragment(v) => spec_validate_list(v@, 0),
        _ => None,
    }
}

/// The first structural error among the nodes from index `i` on.
pub open spec fn spec_validate_list(s: Seq<JsxNode>, i: int) -> Option<SpecErr>
    decreases s, s.len() - i, 2int,
{
    if i < 0 || i >= s.len() {
        None
    } else {
        match spec_validate(s[i]) {
            Some(e) => Some(e),
            None => spec_validate_list(s, i + 1),
        }
    }
}

// ---------------------------------------------------------------------------
// executable level
// ---------------------------------------------------------------------------

/// The effect statement of one dynamic binding.
fn effect_for(
    d: &crate::ir::DynamicBinding,
    ctx: &mut BlockContext,
    opts: &TransformOptions,
) -> (r: String)
    ensures
        ({
            let (stmt, c2) = spec_effect_for(d@, old(ctx)@, *opts);
            r@ == stmt && final(ctx)@ == c2
        }),
{
    proof {
        reveal_strlit("style:");
        reveal_strlit("class:");
        reveal_strlit("attr:");
    }
    let call: String;
    if str_eq(d.key.as_str(), "class") || str_eq(d.key.as_str(), "className") {
        ctx.register_helper("className");
        let mut c = new_string("_className(");
        c.append(d.elem.as_str());
        c.append(", ");
        c.append(d.value.as_str());
        c.append(")");
        proof {
            assert(c@ =~= "_className("@ + d.elem@ + ", "@ + d.value@ + ")"@);
        }
        call = c;
    } else if str_starts_with(d.key.as_str(), "style:") {
        ctx.register_helper("style");
        let sub = str_suffix(d.key.as_str(), 6);
        let mut c = new_string("_style(");
        c.append(d.elem.as_str());
        c.append(", \"");
        c.append(sub.as_str());
        c.append("\", ");
        c.append(d.value.as_str());
        c.append(")");
        proof {
            assert(c@ =~= "_style("@ + d.elem@ + ", \""@ + sub@ + "\", "@ + d.value@ + ")"@);
        }
        call = c;
    } else if str_starts_with(d.key.as_str(), "class:") {
        ctx.register_helper("classList");
        let sub = str_suffix(d.key.as_str(), 6);
        let mut c = new_string("_classList(");
        c.append(d.elem.as_str());
        c.append(", { ");
        c.append(sub.as_str());
        c.append(": ");
        c.append(d.value.as_str());
        c.append(" })");
        proof {
            assert(c@ =~= "_classList("@ + d.elem@ + ", { "@ + sub@ + ": "@ + d.value@ + " })"@);
        }
        call = c;
    } else if str_starts_with(d.key.as_str(), "attr:") {
        ctx.register_helper("setAttribute");
        let sub = str_suffix(d.key.as_str(), 5);
        let mut c = new_string("_setAttribute(");
        c.append(d.elem.as_str());
        c.append(", \"");
        c.append(sub.as_str());
        c.append("\", ");
        c.append(d.value.as_str());
        c.append(")");
        proof {
            assert(c@ =~= "_setAttribute("@ + d.elem@ + ", \""@ + sub@ + "\", "@ + d.value@
                + ")"@);
        }
        call = c;
    } else if crate::classify::prefers_property(d.key.as_str(), d.tag_name.as_str()) {
        let mut c = d.elem.clone();
        c.append(".");
        c.append(d.key.as_str());
        c.append(" = ");
        c.append(d.value.as_str());
        proof {
            assert(c@ =~= d.elem@ + "."@ + d.key@ + " = "@ + d.value@);
        }
        call = c;
    } else {
        ctx.register_helper("setAttribute");
        let akey = if d.is_svg {
            d.key.clone()
        } else {
            crate::classify::attribute_alias(d.key.as_str())
        };
        let mut c = new_string("_setAttribute(");
        c.append(d.elem.as_str());
        c.append(", \"");
        c.append(akey.as_str());
        c.append("\", ");
        c.append(d.value.as_str());
        c.append(")");
        proof {
            assert(c@ =~= "_setAttribute("@ + d.elem@ + ", \""@ + akey@ + "\", "@ + d.value@
                + ")"@);
        }
        call = c;
    }
    ctx.register_helper(opts.effect_wrapper.as_str());
    let mut w = new_string("_");
    w.append(opts.effect_wrapper.as_str());
    w.append("(() => ");
    w.append(call.as_str());
    w.append(")");
    proof {
        assert(w@ =~= "_"@ + opts.effect_wrapper@ + "(() => "@ + call@ + ")"@);
    }
    w
}

/// The codes of a list of statement expressions, as owned strings.
fn expr_codes(v: &Vec<crate::ir::Expr>) -> (r: Vec<String>)
    ensures
        crate::context::strs_view(r@) == crate::ir::exprs_view(v@),
{
    let mut out: Vec<String> = Vec::new();
    let mut i: usize = 0;
    while i < v.len()
        invariant
            0 <= i <= v@.len(),
            crate::context::strs_view(out@) == crate::ir::exprs_view(v@).take(i as int),
        decreases v@.len() - i,
    {
        let e = &v[i];
        let ghost pre = out@;
        out.push(e.code.clone());
        proof {
            assert(crate::ir::exprs_view(v@)[i as int] == v@[i as int].code@);
            assert(crate::context::strs_view(out@)
                =~= crate::context::strs_view(pre).push(e.code@));
            assert(crate::context::strs_view(out@)
                =~= crate::ir::exprs_view(v@).take((i + 1) as int));
        }
        i = i + 1;
    }
    proof {
        assert(crate::ir::exprs_view(v@).take(v@.len() as int) =~= crate::ir::exprs_view(v@));
    }
    out
}

/// Materializes an IR at an expression position: registers the template,
/// binds the root and the walk-path declarations, runs the statement
/// expressions, wraps every dynamic binding in an effect, and yields the
/// root; an IR without a template is its expression (or an array of them).
#[verifier::loop_isolation(false)]
pub fn materialize(ir: &Ir, ctx: &mut BlockContext, opts: &TransformOptions) -> (r: String)
    ensures
        ({
            let (c, c2) = spec_materialize(ir@, old(ctx)@, *opts);
            r@ == c && final(ctx)@ == c2
        }),
{
    if StrSliceExecFns::unicode_len(ir.template_with_closing_tags.as_str()) > 0 {
        ctx.register_helper("template");
        let tid = ctx.register_template(&ir.template_with_closing_tags);
        let root: String = match &ir.id {
            Some(x) => x.clone(),
            None => new_string("_root$"),
        };
        let mut head = new_string("var ");
        head.append(root.as_str());
        head.append(" = ");
        head.append(tid.as_str());
        head.append("()");
        let ghost head0 = head@;
        let mut k: usize = 0;
        while k < ir.declarations.len()
            invariant
                0 <= k <= ir.declarations@.len(),
                spec_decls_text(ir@.decls, k as int, head@)
                    == spec_decls_text(ir@.decls, 0, head0),
            decreases ir.declarations@.len() - k,
        {
            let dd = &ir.declarations[k];
            let ghost pre = head@;
            head.append(", ");
            head.append(dd.id.as_str());
            head.append(" = ");
            head.append(dd.init.as_str());
            proof {
                assert(ir@.decls[k as int] == ir.declarations@[k as int]@);
                assert(head@ =~= pre + ", "@ + ir@.decls[k as int].id + " = "@
                    + ir@.decls[k as int].init);
            }
            k = k + 1;
        }
        head.append("; ");
        let mut stmts = expr_codes(&ir.exprs);
        let ghost sv0 = crate::context::strs_view(stmts@);
        let ghost effs0 = ctx@;
        proof {
            assert(crate::context::strs_view(stmts@).skip(ir@.exprs.len() as int)
                =~= Seq::<Seq<char>>::empty());
            assert(crate::context::strs_view(stmts@).take(ir@.exprs.len() as int) =~= sv0);
        }
        let mut m: usize = 0;
        while m < ir.dynamics.len()
            invariant
                0 <= m <= ir.dynamics@.len(),
                crate::context::strs_view(stmts@).len() >= ir@.exprs.len(),
                ({
                    let (effs, c2) = spec_effects(ir@.dynamics, m as int, ctx@, *opts,
                        crate::context::strs_view(stmts@).skip(ir@.exprs.len() as int));
                    (effs, c2) == spec_effects(ir@.dynamics, 0, effs0, *opts, Seq::empty())
                }),
                crate::context::strs_view(stmts@).take(ir@.exprs.len() as int) == sv0,
            decreases ir.dynamics@.len() - m,
        {
            let d = &ir.dynamics[m];
            let stmt = effect_for(d, ctx, opts);
            let ghost pre = stmts@;
            stmts.push(stmt);
            proof {
                assert(ir@.dynamics[m as int] == ir.dynamics@[m as int]@);
                assert(crate::context::strs_view(stmts@)
                    =~= crate::context::strs_view(pre).push(stmts@.last()@));
                assert(crate::context::strs_view(stmts@).skip(ir@.exprs.len() as int)
                    =~= crate::context::strs_view(pre).skip(ir@.exprs.len() as int).push(
                        stmts@.last()@));
                assert(crate::context::strs_view(stmts@).take(ir@.exprs.len() as int) =~= sv0);
            }
            m = m + 1;
        }
        proof {
            let (effs, cf) = spec_effects(ir@.dynamics, 0, effs0, *opts, Seq::empty());
            assert(crate::context::strs_view(stmts@).skip(ir@.exprs.len() as int) == effs);
            assert(crate::context::strs_view(stmts@)
                =~= crate::context::strs_view(stmts@).take(ir@.exprs.len() as int)
                    + crate::context::strs_view(stmts@).skip(ir@.exprs.len() as int));
            assert(crate::context::strs_view(stmts@) =~= ir@.exprs + effs);
        }
        let mut body = String::new();
        let ghost body0 = body@;
        let ghost allst = crate::context::strs_view(stmts@);
        let mut q: usize = 0;
        while q < stmts.len()
            invariant
                0 <= q <= stmts@.len(),
                allst == crate::context::strs_view(stmts@),
                spec_stmts_text(allst, q as int, body@) == spec_stmts_text(allst, 0, body0),
            decreases stmts@.len() - q,
        {
            let st = &stmts[q];
            let ghost pre = body@;
            body.append(st.as_str());
            body.append("; ");
            proof {
                assert(allst[q as int] == stmts@[q as int]@);
                assert(body@ =~= pre + allst[q as int] + "; "@);
            }
            q = q + 1;
        }
        let mut code = new_string("(() => { ");
        code.append(head.as_str());
        code.append(body.as_str());
        code.append("return ");
        code.append(root.as_str());
        code.append("; })()");
        proof {
            assert(body0 =~= Seq::<char>::empty());
            assert(head@ =~= "var "@ + root@ + " = "@ + tid@ + "()"@
                + spec_decls_text(ir@.decls, 0, Seq::empty()) + "; "@) by {
                crate::transform::lemma_decls_text_acc(ir@.decls, 0, head0, Seq::empty());
                assert(head0 =~= "var "@ + root@ + " = "@ + tid@ + "()"@);
            }
            assert(code@ =~= "(() => { "@ + head@ + body@ + "return "@ + root@ + "; })()"@);
        }
        code
    } else if ir.exprs.len() == 1 {
        let e0 = &ir.exprs[0];
        let r = e0.code.clone();
        proof {
            assert(ir@.exprs[0] == ir.exprs@[0].code@);
        }
        r
    } else if ir.exprs.len() == 0 {
        new_string("null")
    } else {
        let codes = expr_codes(&ir.exprs);
        let mut c = new_string("[");
        crate::ir::append_join(&mut c, &codes, ", ");
        c.append("]");
        proof {
            assert(c@ =~= "["@ + crate::ir::spec_join(ir@.exprs, ", "@) + "]"@);
        }
        c
    }
}

/// Accumulated declaration text distributes over a prefix of the accumulator.
pub proof fn lemma_decls_text_acc(decls: Seq<SpecDecl>, i: int, a: Seq<char>, b: Seq<char>)
    requires
        a.len() >= 0,
    ensures
        spec_decls_text(decls, i, a + b) == a + spec_decls_text(decls, i, b),
    decreases decls.len() - i,
{
    if i < 0 || i >= decls.len() {
    } else {
        assert((a + b) + ", "@ + decls[i].id + " = "@ + decls[i].init
            =~= a + (b + ", "@ + decls[i].id + " = "@ + decls[i].init));
        lemma_decls_text_acc(decls, i + 1, a, b + ", "@ + decls[i].id + " = "@ + decls[i].init);
    }
}

/// Accumulated template declarations distribute over a prefix.
pub proof fn lemma_template_decls_acc(tpls: Seq<Seq<char>>, i: int, a: Seq<char>, b: Seq<char>)
    ensures
        spec_template_decls(tpls, i, a + b) == a + spec_template_decls(tpls, i, b),
    decreases tpls.len() - i,
{
    if i < 0 || i >= tpls.len() {
    } else {
        let b2 = b + "const "@ + spec_template_id(i) + " = _template(`"@ + tpls[i] + "`);\n"@;
        assert((a + b) + "const "@ + spec_template_id(i) + " = _template(`"@ + tpls[i]
            + "`);\n"@ =~= a + b2);
        lemma_template_decls_acc(tpls, i + 1, a, b2);
    }
}

/// The output expression of one JSX node at an expression position.
pub fn node_code(n: &JsxNode, ctx: &mut BlockContext, opts: &TransformOptions) -> (r: String)
    ensures
        ({
            let (c, c2) = spec_node_code(*n, old(ctx)@, *opts);
            r@ == c && final(ctx)@ == c2
        }),
    decreases *n, 0int, 4int,
{
    match n {
        JsxNode::Element(e) => {
            if is_component(e.tag.as_str()) {
                let cir = crate::component::transform_component(e, e.tag.as_str(), ctx, opts);
                if cir.exprs.len() > 0 {
                    let e0 = &cir.exprs[0];
                    let r = e0.code.clone();
                    proof {
                        assert(cir@.exprs[0] == cir.exprs@[0].code@);
                    }
                    r
                } else {
                    new_string("null")
                }
            } else {
                let info = TransformInfo {
                    top_level: true,
                    last_element: true,
                    skip_id: false,
                    component_child: false,
                    fragment_child: false,
                };
                let cir = crate::element::transform_element(e, e.tag.as_str(), &info, ctx, opts);
                materialize(&cir, ctx, opts)
            }
        }
        JsxNode::Fragment(v) => {
            let mut codes: Vec<String> = Vec::new();
            proof {
                assert(crate::context::strs_view(codes@) =~= Seq::<Seq<char>>::empty());
            }
            crate::component::children_codes_from(v, 0, ctx, opts, &mut codes);
            let mut c = new_string("[");
            crate::ir::append_join(&mut c, &codes, ", ");
            c.append("]");
            proof {
                assert(c@ =~= "["@ + crate::ir::spec_join(
                    crate::context::strs_view(codes@), ", "@) + "]"@);
            }
            c
        }
        JsxNode::Text(t) => {
            let tv = trim_whitespace(t.as_str());
            let mut c = new_string("\"");
            c.append(tv.as_str());
            c.append("\"");
            proof {
                assert(c@ =~= "\""@ + spec_trim(t@) + "\""@);
            }
            c
        }
        JsxNode::Expr(e) => e.code.clone(),
        JsxNode::SpreadChild(e) => e.code.clone(),
    }
}

// ---------------------------------------------------------------------------
// validation, executable level
// ---------------------------------------------------------------------------

/// Whether a node is an acceptable child of `Switch`.
fn switch_child_ok(n: &JsxNode) -> (r: bool)
    ensures
        r == spec_switch_child_ok(*n),
{
    match n {
        JsxNode::Element(e) => str_eq(e.tag.as_str(), "Match"),
        JsxNode::Text(t) => {
            let tv = trim_whitespace(t.as_str());
            StrSliceExecFns::unicode_len(tv.as_str()) == 0
        }
        _ => false,
    }
}

/// Finds the first structural error of the tree, in depth-first order.
#[verifier::loop_isolation(false)]
pub fn validate(n: &JsxNode) -> (r: Option<TransformError>)
    ensures
        match r {
            Some(e) => spec_validate(*n) == Some(e@),
            None => spec_validate(*n) is None,
        },
    decreases *n, 0int, 1int,
{
    match n {
        JsxNode::Element(e) => {
            if !is_component(e.tag.as_str()) && crate::classify::is_void(e.tag.as_str())
                && e.children.len() > 0 {
                return Some(TransformError::VoidElementWithChildren { tag: e.tag.clone() });
            }
            if str_eq(e.tag.as_str(), "Switch") {
                let mut k: usize = 0;
                let mut bad = false;
                while k < e.children.len()
                    invariant
                        0 <= k <= e.children@.len(),
                        bad == exists|m: int|
                            0 <= m < k && !spec_switch_child_ok(#[trigger] e.children@[m]),
                    decreases e.children@.len() - k, 0int,
                {
                    let ok = switch_child_ok(&e.children[k]);
                    if !ok {
                        bad = true;
                    }
                    k = k + 1;
                }
                if bad {
                    return Some(TransformError::NonMatchChildOfSwitch);
                }
            }
            validate_list(&e.children, 0)
        }
        JsxNode::Fragment(v) => validate_list(v, 0),
        _ => None,
    }
}

/// Finds the first structural error among the nodes from index `i` on.
pub fn validate_list(s: &Vec<JsxNode>, i: usize) -> (r: Option<TransformError>)
    ensures
        match r {
            Some(e) => spec_validate_list(s@, i as int) == Some(e@),
            None => spec_validate_list(s@, i as int) is None,
        },
    decreases *s, s@.len() - i, 2int,
{
    if i >= s.len() {
        return None;
    }
    let r = validate(&s[i]);
    match r {
        Some(e) => Some(e),
        None => validate_list(s, i + 1),
    }
}

// ---------------------------------------------------------------------------
// the driver
// ---------------------------------------------------------------------------

/// The structural errors of the whole program, in source order.
pub open spec fn spec_program_errors(items: Seq<ProgramItem>, i: int) -> Seq<SpecErr>
    decreases items.len() - i,
{
    if i < 0 || i >= items.len() {
        Seq::empty()
    } else {
        let here: Seq<SpecErr> = match items[i] {
            ProgramItem::Jsx(n) => match spec_validate(n) {
                Some(e) => seq![e],
                None => Seq::empty(),
            },
            ProgramItem::Code(_) => Seq::empty(),
        };
        here + spec_program_errors(items, i + 1)
    }
}

/// The views of a list of errors.
pub open spec fn errs_view(s: Seq<TransformError>) -> Seq<SpecErr> {
    Seq::new(s.len(), |i: int| s[i]@)
}

/// The main transformer: owns the options and the block context of one
/// compilation unit.
pub struct SolidTransform {
    pub options: TransformOptions,
    pub context: BlockContext,
}

impl SolidTransform {
    /// A transformer with a fresh context.
    pub fn new(options: TransformOptions) -> (r: SolidTransform)
        ensures
            r.options == options,
            r.context@.helpers == Seq::<Seq<char>>::empty(),
            r.context@.delegates == Seq::<Seq<char>>::empty(),
            r.context@.templates == Seq::<Seq<char>>::empty(),
            r.context@.warnings == Seq::<Seq<char>>::empty(),
            r.context@.counter == 0,
    {
        SolidTransform { options, context: BlockContext::new() }
    }

    /// Lowers a JSX text child on its own: the whitespace-normalized, escaped
    /// text as a pure text fragment, or nothing when the text vanishes under
    /// the whitespace rule.
    pub fn transform_text(&self, text: &String) -> (r: Option<Ir>)
        ensures
            ({
                let tv = spec_trim(text@);
                match r {
                    Some(ir) => tv.len() > 0 && ir@ == (crate::ir::SpecIr {
                        template: crate::classify::spec_escape(tv, false),
                        template_close: crate::classify::spec_escape(tv, false),
                        text: true,
                        ..crate::ir::empty_ir()
                    }),
                    None => tv.len() == 0,
                }
            }),
    {
        let tv = trim_whitespace(text.as_str());
        if StrSliceExecFns::unicode_len(tv.as_str()) == 0 {
            return None;
        }
        let esc = crate::classify::escape_html(tv.as_str(), false);
        let mut ir = Ir::new();
        ir.push_template(esc.as_str());
        ir.text = true;
        proof {
            assert(ir@.template =~= crate::classify::spec_escape(spec_trim(text@), false));
            assert(ir@.template_close =~= crate::classify::spec_escape(spec_trim(text@), false));
        }
        Some(ir)
    }

    /// Transforms a whole program: validates every JSX item, and either
    /// returns all structural errors, or the output program with the helper
    /// import, the template declarations and the delegation registration
    /// prepended to the transformed body.
    #[verifier::loop_isolation(false)]
    pub fn transform(&mut self, program: &Program) -> (r: Result<String, Vec<TransformError>>)
        ensures
            ({
                let errs = spec_program_errors(program.items@, 0);
                match r {
                    Ok(code) => errs.len() == 0 && ({
                        let (c, c2) = spec_transform_program(
                            *program, old(self).options, old(self).context@);
                        code@ == c && final(self).context@ == c2
                            && final(self).options == old(self).options
                    }),
                    Err(es) => errs.len() > 0 && errs_view(es@) == errs,
                }
            }),
    {
        let mut errors: Vec<TransformError> = Vec::new();
        proof {
            assert(errs_view(errors@) =~= Seq::<SpecErr>::empty());
        }
        let mut i: usize = 0;
        while i < program.items.len()
            invariant
                0 <= i <= program.items@.len(),
                spec_program_errors(program.items@, 0)
                    == errs_view(errors@) + spec_program_errors(program.items@, i as int),
            decreases program.items@.len() - i,
        {
            let item = &program.items[i];
            match item {
                ProgramItem::Jsx(n) => {
                    let v = validate(n);
                    match v {
                        Some(e) => {
                            let ghost pre = errors@;
                            errors.push(e);
                            proof {
                                assert(errs_view(errors@)
                                    =~= errs_view(pre).push(errors@.last()@));
                                assert(errs_view(pre).push(errors@.last()@)
                                    =~= errs_view(pre) + seq![errors@.last()@]);
                                assert(spec_program_errors(program.items@, i as int)
                                    =~= seq![errors@.last()@]
                                        + spec_program_errors(program.items@, i as int + 1));
                                assert(errs_view(errors@)
                                    + spec_program_errors(program.items@, i as int + 1)
                                    =~= errs_view(pre)
                                        + spec_program_errors(program.items@, i as int));
                            }
                        }
                        None => {
                            proof {
                                assert(spec_program_errors(program.items@, i as int)
                                    =~= spec_program_errors(program.items@, i as int + 1));
                            }
                        }
                    }
                }
                ProgramItem::Code(_) => {
                    proof {
                        assert(spec_program_errors(program.items@, i as int)
                            =~= spec_program_errors(program.items@, i as int + 1));
                    }
                }
            }
            i = i + 1;
        }
        proof {
            assert(spec_program_errors(program.items@, program.items@.len() as int)
                =~= Seq::<SpecErr>::empty());
            assert(errs_view(errors@) + Seq::<SpecErr>::empty() =~= errs_view(errors@));
        }
        if errors.len() > 0 {
            return Err(errors);
        }
        let mut body = String::new();
        let ghost body0 = body@;
        let ghost ctx0 = self.context@;
        let mut j: usize = 0;
        while j < program.items.len()
            invariant
                0 <= j <= program.items@.len(),
                spec_items(program.items@, j as int, self.context@, self.options, body@)
                    == spec_items(program.items@, 0, ctx0, self.options, body0),
                self.options == old(self).options,
            decreases program.items@.len() - j,
        {
            let item = &program.items[j];
            match item {
                ProgramItem::Code(s) => {
                    let ghost pre = body@;
                    body.append(s.as_str());
                    body.append("\n");
                    proof {
                        assert(body@ =~= pre + s@ + "\n"@);
                    }
                }
                ProgramItem::Jsx(n) => {
                    let c = node_code(n, &mut self.context, &self.options);
                    let ghost pre = body@;
                    body.append(c.as_str());
                    body.append(";\n");
                    proof {
                        assert(body@ =~= pre + c@ + ";\n"@);
                    }
                }
            }
            j = j + 1;
        }
        if self.context.delegates.len() > 0 {
            self.context.register_helper("delegateEvents");
        }
        let mut out = String::new();
        // the import statement
        if self.context.helpers.len() > 0 {
            let mut parts: Vec<String> = Vec::new();
            proof {
                assert(crate::context::strs_view(parts@) =~= Seq::<Seq<char>>::empty());
                assert(spec_import_parts(self.context@.helpers).take(0int)
                    =~= Seq::<Seq<char>>::empty());
            }
            let mut h: usize = 0;
            while h < self.context.helpers.len()
                invariant
                    0 <= h <= self.context.helpers@.len(),
                    crate::context::strs_view(parts@)
                        == spec_import_parts(self.context@.helpers).take(h as int),
                decreases self.context.helpers@.len() - h,
            {
                let name = &self.context.helpers[h];
                let mut p = name.clone();
                p.append(" as _");
                p.append(name.as_str());
                proof {
                    assert(self.context@.helpers[h as int] == self.context.helpers@[h as int]@);
                    assert(p@ =~= self.context@.helpers[h as int] + " as _"@
                        + self.context@.helpers[h as int]);
                }
                let ghost pre = parts@;
                parts.push(p);
                proof {
                    assert(crate::context::strs_view(parts@)
                        =~= crate::context::strs_view(pre).push(parts@.last()@));
                    assert(crate::context::strs_view(parts@)
                        =~= spec_import_parts(self.context@.helpers).take((h + 1) as int));
                }
                h = h + 1;
            }
            proof {
                assert(spec_import_parts(self.context@.helpers).take(
                    self.context.helpers@.len() as int)
                    =~= spec_import_parts(self.context@.helpers));
            }
            out.append("import { ");
            crate::ir::append_join(&mut out, &parts, ", ");
            out.append(" } from \"");
            out.append(self.options.module_name.as_str());
            out.append("\";\n");
            proof {
                assert(out@ =~= spec_import_text(self.context@.helpers,
                    self.options.module_name@));
            }
        } else {
            proof {
                assert(out@ =~= spec_import_text(self.context@.helpers,
                    self.options.module_name@));
            }
        }
        // the template declarations
        let ghost tpre = out@;
        let mut t: usize = 0;
        while t < self.context.templates.len()
            invariant
                0 <= t <= self.context.templates@.len(),
                spec_template_decls(self.context@.templates, t as int, out@)
                    == spec_template_decls(self.context@.templates, 0, tpre),
            decreases self.context.templates@.len() - t,
        {
            let tpl = &self.context.templates[t];
            let tid = crate::context::dec_str(t as u64);
            let ghost pre = out@;
            out.append("const ");
            out.append("_tmpl$");
            out.append(tid.as_str());
            out.append(" = _template(`");
            out.append(tpl.as_str());
            out.append("`);\n");
            proof {
                assert(self.context@.templates[t as int] == self.context.templates@[t as int]@);
                assert(spec_template_id(t as int) =~= "_tmpl$"@ + crate::context::spec_dec(
                    t as int));
                assert(out@ =~= pre + "const "@ + spec_template_id(t as int) + " = _template(`"@
                    + self.context@.templates[t as int] + "`);\n"@);
            }
            t = t + 1;
        }
        // the delegation registration
        if self.context.delegates.len() > 0 {
            let mut dparts: Vec<String> = Vec::new();
            proof {
                assert(crate::context::strs_view(dparts@) =~= Seq::<Seq<char>>::empty());
                assert(spec_delegate_parts(self.context@.delegates).take(0int)
                    =~= Seq::<Seq<char>>::empty());
            }
            let mut g: usize = 0;
            while g < self.context.delegates.len()
                invariant
                    0 <= g <= self.context.delegates@.len(),
                    crate::context::strs_view(dparts@)
                        == spec_delegate_parts(self.context@.delegates).take(g as int),
                decreases self.context.delegates@.len() - g,
            {
                let ev = &self.context.delegates[g];
                let mut p = new_string("\"");
                p.append(ev.as_str());
                p.append("\"");
                proof {
                    assert(self.context@.delegates[g as int]
                        == self.context.delegates@[g as int]@);
                    assert(p@ =~= "\""@ + self.context@.delegates[g as int] + "\""@);
                }
                let ghost pre = dparts@;
                dparts.push(p);
                proof {
                    assert(crate::context::strs_view(dparts@)
                        =~= crate::context::strs_view(pre).push(dparts@.last()@));
                    assert(crate::context::strs_view(dparts@)
                        =~= spec_delegate_parts(self.context@.delegates).take((g + 1) as int));
                }
                g = g + 1;
            }
            proof {
                assert(spec_delegate_parts(self.context@.delegates).take(
                    self.context.delegates@.len() as int)
                    =~= spec_delegate_parts(self.context@.delegates));
            }
            let ghost dpre = out@;
            out.append("_delegateEvents([");
            crate::ir::append_join(&mut out, &dparts, ", ");
            out.append("]);\n");
            proof {
                assert(out@ =~= dpre + spec_delegation_text(self.context@.delegates));
            }
        }
        let ghost dend = out@;
        out.append(body.as_str());
        proof {
            let imports = spec_import_text(self.context@.helpers, self.options.module_name@);
            let tdecls = spec_template_decls(self.context@.templates, 0, Seq::empty());
            let dele = spec_delegation_text(self.context@.delegates);
            lemma_template_decls_acc(self.context@.templates, 0, tpre, Seq::empty());
            assert(tpre + Seq::<char>::empty() =~= tpre);
            if self.context.delegates.len() > 0 {
                assert(dend =~= imports + tdecls + dele);
            } else {
                assert(dele =~= Seq::<char>::empty());
                assert(dend =~= imports + tdecls);
                assert(dend =~= imports + tdecls + dele);
            }
            assert(out@ =~= imports + tdecls + dele + body@);
        }
        Ok(out)
    }
}

} // verus!
