//! The intermediate representation produced by lowering a JSX node: a static
//! template fragment plus declarations, statement expressions and dynamic
//! bindings, with its mathematical view.

use vstd::prelude::*;
use vstd::string::StringExecFns;
use crate::context::{CtxView, spec_register};

verus! {

// ---------------------------------------------------------------------------
// exec types
// ---------------------------------------------------------------------------

/// A local binding introduced by the lowering: an identifier and the walk
/// path expression that locates its node from the template root.
pub struct Declaration {
    pub id: String,
    pub init: String,
}

/// A statement expression to execute after the template clone.
pub struct Expr {
    pub code: String,
}

/// A reactive binding: the owner node, the attribute key and the value
/// expression, with the classification the serializer needs.
pub struct DynamicBinding {
    pub elem: String,
    pub key: String,
    pub value: String,
    pub is_svg: bool,
    pub is_ce: bool,
    pub tag_name: String,
}

/// The result of lowering one JSX node.
pub struct TransformResult {
    /// Fresh identifier naming the root node of this fragment, if allocated.
    pub id: Option<String>,
    /// The HTML contributed by this subtree, without this root's closing tag.
    pub template: String,
    /// The same HTML with closing tags appended.
    pub template_with_closing_tags: String,
    pub tag_name: Option<String>,
    pub is_svg: bool,
    pub has_custom_element: bool,
    pub is_void: bool,
    /// Walk-path bindings, in pre-order.
    pub declarations: Vec<Declaration>,
    /// Statements to run after the clone, in order.
    pub exprs: Vec<Expr>,
    /// Reactive bindings, in order.
    pub dynamics: Vec<DynamicBinding>,
    /// True iff the fragment is exactly a text node.
    pub text: bool,
}

// ---------------------------------------------------------------------------
// ghost views
// ---------------------------------------------------------------------------

pub ghost struct SpecDecl {
    pub id: Seq<char>,
    pub init: Seq<char>,
}

pub ghost struct SpecDyn {
    pub elem: Seq<char>,
    pub key: Seq<char>,
    pub value: Seq<char>,
    pub is_svg: bool,
    pub is_ce: bool,
    pub tag_name: Seq<char>,
}

pub ghost struct SpecIr {
    pub id: Option<Seq<char>>,
    pub template: Seq<char>,
    pub template_close: Seq<char>,
    pub tag_name: Option<Seq<char>>,
    pub is_svg: bool,
    pub has_custom_element: bool,
    pub is_void: bool,
    pub decls: Seq<SpecDecl>,
    pub exprs: Seq<Seq<char>>,
    pub dynamics: Seq<SpecDyn>,
    pub text: bool,
}

impl View for Declaration {
    type V = SpecDecl;

    open spec fn view(&self) -> SpecDecl {
        SpecDecl { id: self.id@, init: self.init@ }
    }
}

impl View for DynamicBinding {
    type V = SpecDyn;

    open spec fn view(&self) -> SpecDyn {
        SpecDyn {
            elem: self.elem@,
            key: self.key@,
            value: self.value@,
            is_svg: self.is_svg,
            is_ce: self.is_ce,
            tag_name: self.tag_name@,
        }
    }
}

pub open spec fn decls_view(s: Seq<Declaration>) -> Seq<SpecDecl> {
    Seq::new(s.len(), |i: int| s[i]@)
}

pub open spec fn exprs_view(s: Seq<Expr>) -> Seq<Seq<char>> {
    Seq::new(s.len(), |i: int| s[i].code@)
}

pub open spec fn dyns_view(s: Seq<DynamicBinding>) -> Seq<SpecDyn> {
    Seq::new(s.len(), |i: int| s[i]@)
}

pub open spec fn opt_view(s: Option<String>) -> Option<Seq<char>> {
    match s {
        Some(x) => Some(x@),
        None => None,
    }
}

impl View for TransformResult {
    type V = SpecIr;

    open spec fn view(&self) -> SpecIr {
        SpecIr {
            id: opt_view(self.id),
            template: self.template@,
            template_close: self.template_with_closing_tags@,
            tag_name: opt_view(self.tag_name),
            is_svg: self.is_svg,
            has_custom_element: self.has_custom_element,
            is_void: self.is_void,
            decls: decls_view(self.declarations@),
            exprs: exprs_view(self.exprs@),
            dynamics: dyns_view(self.dynamics@),
            text: self.text,
        }
    }
}

/// The empty IR, the starting point of every lowering.
pub open spec fn empty_ir() -> SpecIr {
    SpecIr {
        id: None,
        template: Seq::empty(),
        template_close: Seq::empty(),
        tag_name: None,
        is_svg: false,
        has_custom_element: false,
        is_void: false,
        decls: Seq::empty(),
        exprs: Seq::empty(),
        dynamics: Seq::empty(),
        text: false,
    }
}

impl TransformResult {
    /// A fresh, empty result.
    pub fn new() -> (r: TransformResult)
        ensures
            r@ == empty_ir(),
    {
        let r = TransformResult {
            id: None,
            template: String::new(),
            template_with_closing_tags: String::new(),
            tag_name: None,
            is_svg: false,
            has_custom_element: false,
            is_void: false,
            declarations: Vec::new(),
            exprs: Vec::new(),
            dynamics: Vec::new(),
            text: false,
        };
        proof {
            assert(decls_view(r.declarations@) =~= Seq::<SpecDecl>::empty());
            assert(exprs_view(r.exprs@) =~= Seq::<Seq<char>>::empty());
            assert(dyns_view(r.dynamics@) =~= Seq::<SpecDyn>::empty());
        }
        r
    }

    /// Appends a statement expression.
    pub fn push_expr(&mut self, code: String)
        ensures
            final(self)@ == (SpecIr { exprs: old(self)@.exprs.push(code@), ..old(self)@ }),
    {
        let ghost pre = self.exprs@;
        self.exprs.push(Expr { code });
        proof {
            assert(exprs_view(self.exprs@) =~= exprs_view(pre).push(self.exprs@.last().code@));
        }
    }

    /// Appends a walk-path declaration.
    pub fn push_decl(&mut self, id: String, init: String)
        ensures
            final(self)@ == (SpecIr {
                decls: old(self)@.decls.push(SpecDecl { id: id@, init: init@ }),
                ..old(self)@
            }),
    {
        let ghost pre = self.declarations@;
        self.declarations.push(Declaration { id, init });
        proof {
            assert(decls_view(self.declarations@)
                =~= decls_view(pre).push(self.declarations@.last()@));
        }
    }

    /// Appends a dynamic binding.
    pub fn push_dynamic(&mut self, d: DynamicBinding)
        ensures
            final(self)@ == (SpecIr {
                dynamics: old(self)@.dynamics.push(d@),
                ..old(self)@
            }),
    {
        let ghost pre = self.dynamics@;
        self.dynamics.push(d);
        proof {
            assert(dyns_view(self.dynamics@) =~= dyns_view(pre).push(self.dynamics@.last()@));
        }
    }

    /// Appends text to both template fields.
    pub fn push_template(&mut self, piece: &str)
        ensures
            final(self)@ == (SpecIr {
                template: old(self)@.template + piece@,
                template_close: old(self)@.template_close + piece@,
                ..old(self)@
            }),
    {
        self.template.append(piece);
        self.template_with_closing_tags.append(piece);
    }

    /// Appends text to the closing-tag template only.
    pub fn push_template_close(&mut self, piece: &str)
        ensures
            final(self)@ == (SpecIr {
                template_close: old(self)@.template_close + piece@,
                ..old(self)@
            }),
    {
        self.template_with_closing_tags.append(piece);
    }
}

// ---------------------------------------------------------------------------
// shared spec helpers for the lowering
// ---------------------------------------------------------------------------

/// Helper registration on the context view.
pub open spec fn reg_helper(c: CtxView, name: Seq<char>) -> CtxView {
    CtxView { helpers: spec_register(c.helpers, name), ..c }
}

/// Delegate registration on the context view.
pub open spec fn reg_delegate(c: CtxView, ev: Seq<char>) -> CtxView {
    CtxView { delegates: spec_register(c.delegates, ev), ..c }
}

/// Warning emission on the context view.
pub open spec fn reg_warning(c: CtxView, w: Seq<char>) -> CtxView {
    CtxView { warnings: c.warnings.push(w), ..c }
}

/// The saturating step of the fresh-identifier counter.
pub open spec fn bump(n: int) -> int {
    if n < u64::MAX as int { n + 1 } else { n }
}

/// Uid generation on the context view: the identifier and the new context.
pub open spec fn spec_uid(c: CtxView, prefix: Seq<char>) -> (Seq<char>, CtxView) {
    (prefix + crate::context::spec_dec(c.counter), CtxView { counter: bump(c.counter), ..c })
}

/// `parts` joined by `sep`, starting from `acc`, from index `i` on; a
/// separator precedes every part but the first when `acc` is the start.
pub open spec fn spec_join_from(parts: Seq<Seq<char>>, i: int, sep: Seq<char>, acc: Seq<char>) -> Seq<char>
    decreases parts.len() - i,
{
    if i < 0 || i >= parts.len() {
        acc
    } else if i == 0 {
        spec_join_from(parts, 1, sep, acc + parts[0])
    } else {
        spec_join_from(parts, i + 1, sep, acc + sep + parts[i])
    }
}

/// `parts` joined by `sep`.
pub open spec fn spec_join(parts: Seq<Seq<char>>, sep: Seq<char>) -> Seq<char> {
    spec_join_from(parts, 0, sep, Seq::empty())
}

/// Joining distributes over a prefix of the accumulator.
pub proof fn lemma_join_acc(parts: Seq<Seq<char>>, i: int, sep: Seq<char>, a: Seq<char>, b: Seq<char>)
    ensures
        spec_join_from(parts, i, sep, a + b) == a + spec_join_from(parts, i, sep, b),
    decreases parts.len() - i,
{
    if i < 0 || i >= parts.len() {
    } else if i == 0 {
        assert((a + b) + parts[0] =~= a + (b + parts[0]));
        lemma_join_acc(parts, 1, sep, a, b + parts[0]);
    } else {
        assert((a + b) + sep + parts[i] =~= a + (b + sep + parts[i]));
        lemma_join_acc(parts, i + 1, sep, a, b + sep + parts[i]);
    }
}

/// Appends `parts` joined by `sep` to `out`.
pub fn append_join(out: &mut String, parts: &Vec<String>, sep: &str)
    ensures
        final(out)@ == old(out)@ + spec_join(crate::context::strs_view(parts@), sep@),
{
    let ghost pv = crate::context::strs_view(parts@);
    let mut i: usize = 0;
    let ghost start = out@;
    while i < parts.len()
        invariant
            0 <= i <= parts@.len(),
            pv == crate::context::strs_view(parts@),
            pv.len() == parts@.len(),
            spec_join_from(pv, i as int, sep@, out@) == spec_join_from(pv, 0, sep@, start),
        decreases parts@.len() - i,
    {
        proof {
            assert(pv[i as int] == parts@[i as int]@);
        }
        let ghost pre = out@;
        if i > 0 {
            out.append(sep);
        }
        let p = &parts[i];
        out.append(p.as_str());
        proof {
            if i == 0 {
                assert(out@ =~= pre + pv[0]);
            } else {
                assert(out@ =~= pre + sep@ + pv[i as int]);
            }
        }
        i = i + 1;
    }
    proof {
        assert(spec_join_from(pv, i as int, sep@, out@) == out@);
        lemma_join_acc(pv, 0, sep@, start, Seq::empty());
        assert(start + Seq::<char>::empty() =~= start);
        assert(out@ =~= start + spec_join(pv, sep@));
    }
}

} // verus!
