//! A compile-time JSX lowering engine for a fine-grained reactive UI library.
//!
//! The library consumes a JSX tree given as plain data, classifies each
//! element as a native host element, a user component or a built-in
//! control-flow component, and lowers it to an intermediate representation:
//! a static HTML template string plus dynamic bindings, effect expressions,
//! event registrations and helper imports. The driver serializes that IR
//! into the output program text, prepending the helper import, the template
//! declarations and the event delegation registration.

pub mod classify;
pub mod context;
pub mod component;
pub mod element;
pub mod ir;
pub mod laws;
pub mod model;
pub mod transform;

use vstd::prelude::*;
use crate::context::CtxView;
use crate::model::{GenerateMode, Program, TransformOptions};
use crate::transform::{
    SolidTransform, TransformError, errs_view, spec_program_errors, spec_transform_program,
};

verus! {

/// The result of a whole-program transform: the output code, and a source
/// map when one was produced (this transform produces none).
#[derive(Debug)]
pub struct TransformResult {
    pub code: String,
    pub map: Option<String>,
}

/// Transform options as a host embedder hands them over: every field
/// optional, defaults filled in by `resolve`.
pub struct JsTransformOptions {
    /// The module to import runtime helpers from; default `solid-js/web`.
    pub module_name: Option<String>,
    /// Generate mode: `dom`, `ssr` or `universal`; default `dom`.
    pub generate: Option<String>,
    /// Whether to enable hydration support; default false.
    pub hydratable: Option<bool>,
    /// Whether to delegate events; default true.
    pub delegate_events: Option<bool>,
    /// Whether to wrap conditionals in memos; default true.
    pub wrap_conditionals: Option<bool>,
    /// Whether to pass context to custom elements; default true.
    pub context_to_custom_elements: Option<bool>,
    /// Source filename; default `input.jsx`.
    pub filename: Option<String>,
    /// Whether to generate source maps; default false.
    pub source_map: Option<bool>,
}

/// The context every compilation starts from.
pub open spec fn spec_fresh_ctx() -> CtxView {
    CtxView {
        helpers: Seq::empty(),
        delegates: Seq::empty(),
        templates: Seq::empty(),
        warnings: Seq::empty(),
        counter: 0,
    }
}

/// What the default option record holds.
pub open spec fn is_solid_defaults(o: TransformOptions) -> bool {
    &&& o.module_name@ == "solid-js/web"@
    &&& o.generate is Dom
    &&& !o.hydratable
    &&& o.delegate_events
    &&& o.delegated_events@.len() == 0
    &&& o.wrap_conditionals
    &&& o.context_to_custom_elements
    &&& o.effect_wrapper@ == "effect"@
    &&& o.memo_wrapper@ == "memo"@
}

/// How a resolved option record relates to the host embedder's record.
pub open spec fn is_resolved(j: JsTransformOptions, o: TransformOptions) -> bool {
    &&& o.module_name@ == (match j.module_name {
        Some(m) => m@,
        None => "solid-js/web"@,
    })
    &&& (o.generate is Ssr <==> (j.generate matches Some(g) && g@ == "ssr"@))
    &&& (o.generate is Universal <==> (j.generate matches Some(g) && g@ == "universal"@))
    &&& o.hydratable == (j.hydratable matches Some(true))
    &&& o.delegate_events == !(j.delegate_events matches Some(false))
    &&& o.wrap_conditionals == !(j.wrap_conditionals matches Some(false))
    &&& o.context_to_custom_elements == !(j.context_to_custom_elements matches Some(false))
    &&& o.delegated_events@.len() == 0
    &&& o.effect_wrapper@ == "effect"@
    &&& o.memo_wrapper@ == "memo"@
}

impl JsTransformOptions {
    /// All fields unset: the defaults apply.
    pub fn empty() -> (r: JsTransformOptions)
        ensures
            r.module_name is None,
            r.generate is None,
            r.hydratable is None,
            r.delegate_events is None,
            r.wrap_conditionals is None,
            r.context_to_custom_elements is None,
            r.filename is None,
            r.source_map is None,
    {
        JsTransformOptions {
            module_name: None,
            generate: None,
            hydratable: None,
            delegate_events: None,
            wrap_conditionals: None,
            context_to_custom_elements: None,
            filename: None,
            source_map: None,
        }
    }

    /// Fills in the defaults, yielding the resolved option record.
    pub fn resolve(&self) -> (r: TransformOptions)
        ensures
            is_resolved(*self, r),
    {
        let mut r = TransformOptions::solid_defaults();
        match &self.module_name {
            Some(m) => {
                r.module_name = m.clone();
            }
            None => {}
        }
        match &self.generate {
            Some(g) => {
                proof {
                    reveal_strlit("ssr");
                    reveal_strlit("universal");
                    assert("ssr"@.len() == 3);
                    assert("universal"@.len() == 9);
                    assert("ssr"@ != "universal"@);
                }
                if crate::classify::str_eq(g.as_str(), "ssr") {
                    r.generate = GenerateMode::Ssr;
                } else if crate::classify::str_eq(g.as_str(), "universal") {
                    r.generate = GenerateMode::Universal;
                } else {
                    r.generate = GenerateMode::Dom;
                }
            }
            None => {}
        }
        match &self.hydratable {
            Some(h) => {
                r.hydratable = *h;
            }
            None => {}
        }
        match &self.delegate_events {
            Some(d) => {
                r.delegate_events = *d;
            }
            None => {}
        }
        match &self.wrap_conditionals {
            Some(w) => {
                r.wrap_conditionals = *w;
            }
            None => {}
        }
        match &self.context_to_custom_elements {
            Some(c) => {
                r.context_to_custom_elements = *c;
            }
            None => {}
        }
        r
    }
}

/// Whether `o` is the option record that `options` resolves to.
pub open spec fn matches_options(options: Option<JsTransformOptions>, o: TransformOptions) -> bool {
    match options {
        Some(j) => is_resolved(j, o),
        None => is_solid_defaults(o),
    }
}

pub open spec fn deref_options(options: Option<&JsTransformOptions>) -> Option<JsTransformOptions> {
    match options {
        Some(j) => Some(*j),
        None => None,
    }
}

/// Transforms a program: every JSX item is lowered, and the helper import,
/// the template declarations and the delegation registration are prepended.
/// The transform succeeds if and only if the tree has no structural error;
/// otherwise all structural errors come back and no code does.
pub fn transform(program: &Program, options: Option<&JsTransformOptions>) -> (r: Result<
    TransformResult,
    Vec<TransformError>,
>)
    ensures
        ({
            let errs = spec_program_errors(program.items@, 0);
            match r {
                Ok(out) => errs.len() == 0 && out.map is None && (exists|o: TransformOptions|
                    #[trigger] matches_options(deref_options(options), o)
                        && out.code@ == spec_transform_program(
                            *program, o, spec_fresh_ctx()).0),
                Err(es) => errs.len() > 0 && errs_view(es@) == errs,
            }
        }),
{
    let opts: TransformOptions = match options {
        Some(o) => o.resolve(),
        None => TransformOptions::solid_defaults(),
    };
    let ghost chosen = opts;
    let mut t = SolidTransform::new(opts);
    proof {
        assert(t.context@ == spec_fresh_ctx());
    }
    let out = t.transform(program);
    match out {
        Ok(code) => {
            proof {
                assert(code@ == spec_transform_program(*program, chosen, spec_fresh_ctx()).0);
                assert(matches_options(deref_options(options), chosen));
            }
            Ok(TransformResult { code, map: None })
        }
        Err(es) => Err(es),
    }
}

} // verus!
