//! The JSX tree that the lowering engine consumes, as plain data.
//!
//! The host front end parses source text with its own tooling and hands the
//! lowering engine this tree; every field is a plain value, so the whole
//! lowering pipeline can be specified and verified over it.

use vstd::prelude::*;
use crate::classify::new_string;

verus! {

/// Shape of a JavaScript expression, as far as the lowering engine needs to
/// know it: enough to classify the expression as static or dynamic and to
/// render literals into template text.
pub enum ExprKind {
    /// A string literal; the field holds its value (unquoted, unescaped).
    StrLit(String),
    /// A numeric literal; the field holds its source text.
    NumLit(String),
    /// A boolean literal.
    BoolLit(bool),
    /// A bare identifier reference; `immutable` is true when the binding is
    /// known immutable at transform time (a module-scope constant).
    Ident { immutable: bool },
    /// A ternary or short-circuit expression (candidate for memo wrapping).
    Conditional,
    /// An arrow or function expression.
    Arrow,
    /// An arrow expression whose body is itself JSX, as in a list callback:
    /// the parameter text and the JSX body to lower in place.
    ArrowJsx { params: String, body: Box<JsxNode> },
    /// Anything else: calls, member accesses, objects, and so on.
    Other,
}

/// A JavaScript expression embedded in JSX: its source text plus the
/// classification data the lowering rules read.
pub struct JsExpr {
    /// The expression's source text, emitted verbatim into generated code.
    pub code: String,
    pub kind: ExprKind,
    /// True when the expression carries the opt-in static marker comment.
    pub once: bool,
}

/// The value side of a JSX attribute.
pub enum AttrValue {
    /// No value: a boolean attribute such as `disabled`.
    Absent,
    /// A string literal value; the field holds the raw (unescaped) text.
    StrLit(String),
    /// An expression container value.
    Expr(JsExpr),
}

/// One item in an element's attribute list, in source order.
pub enum AttrItem {
    /// A named attribute, possibly namespaced (the name then contains `:`).
    Attr { name: String, value: AttrValue },
    /// A spread attribute `{...expr}`.
    Spread(JsExpr),
}

/// A JSX element: tag, attributes and children in source order.
pub struct JsxElement {
    pub tag: String,
    pub attrs: Vec<AttrItem>,
    pub children: Vec<JsxNode>,
}

/// A node of the JSX tree.
pub enum JsxNode {
    Element(JsxElement),
    /// A fragment `<>...</>`; its children are spliced into the parent.
    Fragment(Vec<JsxNode>),
    /// A text child; the field holds the raw source text.
    Text(String),
    /// An expression container child `{expr}`.
    Expr(JsExpr),
    /// A spread child `{...expr}`.
    SpreadChild(JsExpr),
}

/// The backend the embedder asked for. The driver in this crate serializes
/// with the DOM rules (clone a template, bind effects); the record keeps the
/// requested mode so an embedder can dispatch on it.
pub enum GenerateMode {
    Dom,
    Ssr,
    Universal,
}

/// Options fixed for one compilation, fully resolved.
pub struct TransformOptions {
    /// Module the emitted import statement draws helpers from.
    pub module_name: String,
    pub generate: GenerateMode,
    pub hydratable: bool,
    /// When true, delegated events register globally instead of per node.
    pub delegate_events: bool,
    /// User-supplied additions to the built-in delegation set.
    pub delegated_events: Vec<String>,
    /// When true, conditional expressions in dynamic child positions are
    /// wrapped in the memo primitive.
    pub wrap_conditionals: bool,
    pub context_to_custom_elements: bool,
    /// Name of the reactive effect primitive to call.
    pub effect_wrapper: String,
    /// Name of the memoizing primitive to call.
    pub memo_wrapper: String,
}

impl TransformOptions {
    /// The default option set for the reactive library's own runtime.
    pub fn solid_defaults() -> (r: TransformOptions)
        ensures
            r.module_name@ == "solid-js/web"@,
            r.generate is Dom,
            !r.hydratable,
            r.delegate_events,
            r.delegated_events@.len() == 0,
            r.wrap_conditionals,
            r.context_to_custom_elements,
            r.effect_wrapper@ == "effect"@,
            r.memo_wrapper@ == "memo"@,
    {
        TransformOptions {
            module_name: new_string("solid-js/web"),
            generate: GenerateMode::Dom,
            hydratable: false,
            delegate_events: true,
            delegated_events: Vec::new(),
            wrap_conditionals: true,
            context_to_custom_elements: true,
            effect_wrapper: new_string("effect"),
            memo_wrapper: new_string("memo"),
        }
    }
}

/// One top-level item of the program handed to the driver: either host code
/// kept verbatim, or a JSX expression to lower.
pub enum ProgramItem {
    Code(String),
    Jsx(JsxNode),
}

/// The program the driver walks: items in source order.
pub struct Program {
    pub items: Vec<ProgramItem>,
}

} // verus!
