//! Pure classification predicates and text functions of the lowering rules:
//! component and built-in detection, SVG and void element sets, attribute
//! aliasing, event-name extraction, HTML escaping and whitespace trimming.

use vstd::prelude::*;
use vstd::string::{StringExecFns, StrSliceExecFns};
use crate::model::{ExprKind, JsExpr};

verus! {

// ---------------------------------------------------------------------------
// small string helpers
// ---------------------------------------------------------------------------

/// Builds an owned string from a slice.
pub fn new_string(s: &str) -> (r: String)
    ensures
        r@ == s@,
{
    <String as StringExecFns>::from_str(s)
}

/// Equality of two string slices, specified over their character sequences.
pub fn str_eq(a: &str, b: &str) -> (r: bool)
    ensures
        r == (a@ == b@),
{
    let sa = new_string(a);
    let sb = new_string(b);
    sa == sb
}

pub open spec fn spec_has_char(s: Seq<char>, c: char) -> bool {
    exists|i: int| 0 <= i < s.len() && s[i] == c
}

/// Whether `s` contains the character `c`.
pub fn str_has_char(s: &str, c: char) -> (r: bool)
    ensures
        r == spec_has_char(s@, c),
{
    let n = StrSliceExecFns::unicode_len(s);
    let mut i: usize = 0;
    let mut found = false;
    while i < n
        invariant
            0 <= i <= n,
            n == s@.len(),
            found == exists|j: int| 0 <= j < i && s@[j] == c,
        decreases n - i,
    {
        if StrSliceExecFns::get_char(s, i) == c {
            found = true;
        }
        i = i + 1;
    }
    found
}

pub open spec fn spec_starts_with(s: Seq<char>, p: Seq<char>) -> bool {
    s.len() >= p.len() && s.subrange(0, p.len() as int) == p
}

/// Whether `s` starts with the prefix `p`.
pub fn str_starts_with(s: &str, p: &str) -> (r: bool)
    ensures
        r == spec_starts_with(s@, p@),
{
    let ns = StrSliceExecFns::unicode_len(s);
    let np = StrSliceExecFns::unicode_len(p);
    if ns < np {
        assert(!spec_starts_with(s@, p@));
        return false;
    }
    let mut i: usize = 0;
    while i < np
        invariant
            0 <= i <= np,
            ns == s@.len(),
            np == p@.len(),
            np <= ns,
            forall|j: int| 0 <= j < i ==> s@[j] == p@[j],
        decreases np - i,
    {
        if StrSliceExecFns::get_char(s, i)
            != StrSliceExecFns::get_char(p, i) {
            assert(s@.subrange(0, p@.len() as int) != p@) by {
                assert(s@.subrange(0, p@.len() as int)[i as int] == s@[i as int]);
            }
            return false;
        }
        i = i + 1;
    }
    assert(s@.subrange(0, p@.len() as int) =~= p@);
    true
}

/// The suffix of `s` from character position `from` on, as an owned string.
pub fn str_suffix(s: &str, from: usize) -> (r: String)
    requires
        from <= s@.len(),
    ensures
        r@ == s@.subrange(from as int, s@.len() as int),
{
    let n = StrSliceExecFns::unicode_len(s);
    let part = StrSliceExecFns::substring_char(s, from, n);
    new_string(part)
}

// ---------------------------------------------------------------------------
// tag classification
// ---------------------------------------------------------------------------

pub open spec fn spec_is_upper(c: char) -> bool {
    'A' <= c && c <= 'Z'
}

/// A tag names a user component iff its first character is uppercase or it
/// contains a dot (a member expression).
pub open spec fn spec_is_component(tag: Seq<char>) -> bool {
    tag.len() > 0 && (spec_is_upper(tag[0]) || spec_has_char(tag, '.'))
}

pub fn is_component(tag: &str) -> (r: bool)
    ensures
        r == spec_is_component(tag@),
{
    let n = StrSliceExecFns::unicode_len(tag);
    if n == 0 {
        return false;
    }
    let c = StrSliceExecFns::get_char(tag, 0);
    if 'A' <= c && c <= 'Z' {
        return true;
    }
    str_has_char(tag, '.')
}

/// The reserved control-flow component tags.
pub open spec fn spec_is_built_in(tag: Seq<char>) -> bool {
    ||| tag == "For"@
    ||| tag == "Show"@
    ||| tag == "Switch"@
    ||| tag == "Match"@
    ||| tag == "Index"@
    ||| tag == "Suspense"@
    ||| tag == "Portal"@
    ||| tag == "Dynamic"@
    ||| tag == "ErrorBoundary"@
}

pub fn is_built_in(tag: &str) -> (r: bool)
    ensures
        r == spec_is_built_in(tag@),
{
    str_eq(tag, "For") || str_eq(tag, "Show") || str_eq(tag, "Switch")
        || str_eq(tag, "Match") || str_eq(tag, "Index") || str_eq(tag, "Suspense")
        || str_eq(tag, "Portal") || str_eq(tag, "Dynamic") || str_eq(tag, "ErrorBoundary")
}

/// The HTML void elements, which may not have children.
pub open spec fn spec_is_void(tag: Seq<char>) -> bool {
    ||| tag == "area"@
    ||| tag == "base"@
    ||| tag == "br"@
    ||| tag == "col"@
    ||| tag == "embed"@
    ||| tag == "hr"@
    ||| tag == "img"@
    ||| tag == "input"@
    ||| tag == "link"@
    ||| tag == "meta"@
    ||| tag == "param"@
    ||| tag == "source"@
    ||| tag == "track"@
    ||| tag == "wbr"@
}

pub fn is_void(tag: &str) -> (r: bool)
    ensures
        r == spec_is_void(tag@),
{
    str_eq(tag, "area") || str_eq(tag, "base") || str_eq(tag, "br") || str_eq(tag, "col")
        || str_eq(tag, "embed") || str_eq(tag, "hr") || str_eq(tag, "img")
        || str_eq(tag, "input") || str_eq(tag, "link") || str_eq(tag, "meta")
        || str_eq(tag, "param") || str_eq(tag, "source") || str_eq(tag, "track")
        || str_eq(tag, "wbr")
}

/// The SVG tag names; for these, attribute aliasing is suppressed.
pub open spec fn spec_is_svg(tag: Seq<char>) -> bool {
    ||| tag == "svg"@ ||| tag == "animate"@ ||| tag == "animateMotion"@
    ||| tag == "animateTransform"@ ||| tag == "circle"@ ||| tag == "clipPath"@
    ||| tag == "defs"@ ||| tag == "desc"@ ||| tag == "ellipse"@
    ||| tag == "feBlend"@ ||| tag == "feColorMatrix"@ ||| tag == "feComponentTransfer"@
    ||| tag == "feComposite"@ ||| tag == "feConvolveMatrix"@ ||| tag == "feDiffuseLighting"@
    ||| tag == "feDisplacementMap"@ ||| tag == "feDistantLight"@ ||| tag == "feDropShadow"@
    ||| tag == "feFlood"@ ||| tag == "feFuncA"@ ||| tag == "feFuncB"@
    ||| tag == "feFuncG"@ ||| tag == "feFuncR"@ ||| tag == "feGaussianBlur"@
    ||| tag == "feImage"@ ||| tag == "feMerge"@ ||| tag == "feMergeNode"@
    ||| tag == "feMorphology"@ ||| tag == "feOffset"@ ||| tag == "fePointLight"@
    ||| tag == "feSpecularLighting"@ ||| tag == "feSpotLight"@ ||| tag == "feTile"@
    ||| tag == "feTurbulence"@ ||| tag == "filter"@ ||| tag == "foreignObject"@
    ||| tag == "g"@ ||| tag == "image"@ ||| tag == "line"@
    ||| tag == "linearGradient"@ ||| tag == "marker"@ ||| tag == "mask"@
    ||| tag == "metadata"@ ||| tag == "mpath"@ ||| tag == "path"@
    ||| tag == "pattern"@ ||| tag == "polygon"@ ||| tag == "polyline"@
    ||| tag == "radialGradient"@ ||| tag == "rect"@ ||| tag == "set"@
    ||| tag == "stop"@ ||| tag == "switch"@ ||| tag == "symbol"@
    ||| tag == "text"@ ||| tag == "textPath"@ ||| tag == "tspan"@
    ||| tag == "use"@ ||| tag == "view"@
}

pub fn is_svg_element(tag: &str) -> (r: bool)
    ensures
        r == spec_is_svg(tag@),
{
    str_eq(tag, "svg") || str_eq(tag, "animate") || str_eq(tag, "animateMotion")
        || str_eq(tag, "animateTransform") || str_eq(tag, "circle") || str_eq(tag, "clipPath")
        || str_eq(tag, "defs") || str_eq(tag, "desc") || str_eq(tag, "ellipse")
        || str_eq(tag, "feBlend") || str_eq(tag, "feColorMatrix")
        || str_eq(tag, "feComponentTransfer") || str_eq(tag, "feComposite")
        || str_eq(tag, "feConvolveMatrix") || str_eq(tag, "feDiffuseLighting")
        || str_eq(tag, "feDisplacementMap") || str_eq(tag, "feDistantLight")
        || str_eq(tag, "feDropShadow") || str_eq(tag, "feFlood") || str_eq(tag, "feFuncA")
        || str_eq(tag, "feFuncB") || str_eq(tag, "feFuncG") || str_eq(tag, "feFuncR")
        || str_eq(tag, "feGaussianBlur") || str_eq(tag, "feImage") || str_eq(tag, "feMerge")
        || str_eq(tag, "feMergeNode") || str_eq(tag, "feMorphology") || str_eq(tag, "feOffset")
        || str_eq(tag, "fePointLight") || str_eq(tag, "feSpecularLighting")
        || str_eq(tag, "feSpotLight") || str_eq(tag, "feTile") || str_eq(tag, "feTurbulence")
        || str_eq(tag, "filter") || str_eq(tag, "foreignObject") || str_eq(tag, "g")
        || str_eq(tag, "image") || str_eq(tag, "line") || str_eq(tag, "linearGradient")
        || str_eq(tag, "marker") || str_eq(tag, "mask") || str_eq(tag, "metadata")
        || str_eq(tag, "mpath") || str_eq(tag, "path") || str_eq(tag, "pattern")
        || str_eq(tag, "polygon") || str_eq(tag, "polyline") || str_eq(tag, "radialGradient")
        || str_eq(tag, "rect") || str_eq(tag, "set") || str_eq(tag, "stop")
        || str_eq(tag, "switch") || str_eq(tag, "symbol") || str_eq(tag, "text")
        || str_eq(tag, "textPath") || str_eq(tag, "tspan") || str_eq(tag, "use")
        || str_eq(tag, "view")
}

/// A custom element tag contains a hyphen.
pub open spec fn spec_is_custom_element(tag: Seq<char>) -> bool {
    spec_has_char(tag, '-')
}

pub fn is_custom_element(tag: &str) -> (r: bool)
    ensures
        r == spec_is_custom_element(tag@),
{
    str_has_char(tag, '-')
}

/// A namespaced attribute key contains a colon.
pub open spec fn spec_is_namespaced(key: Seq<char>) -> bool {
    spec_has_char(key, ':')
}

pub fn is_namespaced_attr(key: &str) -> (r: bool)
    ensures
        r == spec_is_namespaced(key@),
{
    str_has_char(key, ':')
}

// ---------------------------------------------------------------------------
// attribute aliasing
// ---------------------------------------------------------------------------

/// Source attribute names rewritten to their HTML names; keys not in the
/// table pass through unchanged.
pub open spec fn spec_alias(key: Seq<char>) -> Seq<char> {
    if key == "className"@ {
        "class"@
    } else if key == "htmlFor"@ {
        "for"@
    } else {
        key
    }
}

pub fn attribute_alias(key: &str) -> (r: String)
    ensures
        r@ == spec_alias(key@),
{
    if str_eq(key, "className") {
        new_string("class")
    } else if str_eq(key, "htmlFor") {
        new_string("for")
    } else {
        new_string(key)
    }
}


/// The keys set through a DOM property assignment rather than through
/// `setAttribute`: the global property table.
pub open spec fn spec_is_dom_property(key: Seq<char>) -> bool {
    ||| key == "value"@
    ||| key == "checked"@
    ||| key == "selected"@
    ||| key == "readOnly"@
    ||| key == "muted"@
    ||| key == "indeterminate"@
}

/// The keys set as properties only on their owning container elements: the
/// per-tag child property table.
pub open spec fn spec_is_child_property(key: Seq<char>) -> bool {
    ||| key == "innerHTML"@
    ||| key == "innerText"@
    ||| key == "textContent"@
}

/// The property-vs-attribute decision: whether `key` on `tag` is set via DOM
/// property assignment instead of `setAttribute`.
pub open spec fn spec_prefers_property(key: Seq<char>, tag: Seq<char>) -> bool {
    spec_is_dom_property(key) || spec_is_child_property(key)
}

/// Decides property assignment against `setAttribute` for a key on a tag.
pub fn prefers_property(key: &str, tag: &str) -> (r: bool)
    ensures
        r == spec_prefers_property(key@, tag@),
{
    str_eq(key, "value") || str_eq(key, "checked") || str_eq(key, "selected")
        || str_eq(key, "readOnly") || str_eq(key, "muted") || str_eq(key, "indeterminate")
        || str_eq(key, "innerHTML") || str_eq(key, "innerText") || str_eq(key, "textContent")
}

// ---------------------------------------------------------------------------
// event names
// ---------------------------------------------------------------------------

pub open spec fn spec_lower_char(c: char) -> char {
    if c == 'A' { 'a' } else if c == 'B' { 'b' } else if c == 'C' { 'c' }
    else if c == 'D' { 'd' } else if c == 'E' { 'e' } else if c == 'F' { 'f' }
    else if c == 'G' { 'g' } else if c == 'H' { 'h' } else if c == 'I' { 'i' }
    else if c == 'J' { 'j' } else if c == 'K' { 'k' } else if c == 'L' { 'l' }
    else if c == 'M' { 'm' } else if c == 'N' { 'n' } else if c == 'O' { 'o' }
    else if c == 'P' { 'p' } else if c == 'Q' { 'q' } else if c == 'R' { 'r' }
    else if c == 'S' { 's' } else if c == 'T' { 't' } else if c == 'U' { 'u' }
    else if c == 'V' { 'v' } else if c == 'W' { 'w' } else if c == 'X' { 'x' }
    else if c == 'Y' { 'y' } else if c == 'Z' { 'z' } else { c }
}

pub open spec fn spec_lower(s: Seq<char>) -> Seq<char> {
    s.map(|_i: int, c: char| spec_lower_char(c))
}

/// The event name of an `on...` attribute key: the key with a leading `on`
/// (case-insensitive) stripped, normalized to lowercase.
pub open spec fn spec_event_name(key: Seq<char>) -> Seq<char> {
    if key.len() >= 2 && (key[0] == 'o' || key[0] == 'O') && (key[1] == 'n' || key[1] == 'N') {
        spec_lower(key.subrange(2, key.len() as int))
    } else {
        spec_lower(key)
    }
}

/// Lowercases an ASCII uppercase letter, as a one-character string slice.
fn lower_ascii_str(c: char) -> (r: &'static str)
    requires
        'A' <= c && c <= 'Z',
    ensures
        r@ == seq![spec_lower_char(c)],
{
    proof {
        reveal_strlit("a"); reveal_strlit("b"); reveal_strlit("c"); reveal_strlit("d");
        reveal_strlit("e"); reveal_strlit("f"); reveal_strlit("g"); reveal_strlit("h");
        reveal_strlit("i"); reveal_strlit("j"); reveal_strlit("k"); reveal_strlit("l");
        reveal_strlit("m"); reveal_strlit("n"); reveal_strlit("o"); reveal_strlit("p");
        reveal_strlit("q"); reveal_strlit("r"); reveal_strlit("s"); reveal_strlit("t");
        reveal_strlit("u"); reveal_strlit("v"); reveal_strlit("w"); reveal_strlit("x");
        reveal_strlit("y"); reveal_strlit("z");
    }
    if c == 'A' { "a" } else if c == 'B' { "b" } else if c == 'C' { "c" }
    else if c == 'D' { "d" } else if c == 'E' { "e" } else if c == 'F' { "f" }
    else if c == 'G' { "g" } else if c == 'H' { "h" } else if c == 'I' { "i" }
    else if c == 'J' { "j" } else if c == 'K' { "k" } else if c == 'L' { "l" }
    else if c == 'M' { "m" } else if c == 'N' { "n" } else if c == 'O' { "o" }
    else if c == 'P' { "p" } else if c == 'Q' { "q" } else if c == 'R' { "r" }
    else if c == 'S' { "s" } else if c == 'T' { "t" } else if c == 'U' { "u" }
    else if c == 'V' { "v" } else if c == 'W' { "w" } else if c == 'X' { "x" }
    else if c == 'Y' { "y" } else { "z" }
}

/// Lowercases the ASCII letters of `s` from position `from` on.
fn lower_from(s: &str, from: usize) -> (r: String)
    requires
        from <= s@.len(),
    ensures
        r@ == spec_lower(s@.subrange(from as int, s@.len() as int)),
{
    let n = StrSliceExecFns::unicode_len(s);
    let mut out = String::new();
    let mut i: usize = from;
    while i < n
        invariant
            from <= i <= n,
            n == s@.len(),
            out@ == spec_lower(s@.subrange(from as int, i as int)),
        decreases n - i,
    {
        let c = StrSliceExecFns::get_char(s, i);
        if 'A' <= c && c <= 'Z' {
            let piece = lower_ascii_str(c);
            out.append(piece);
        } else {
            let piece = StrSliceExecFns::substring_char(s, i, i + 1);
            assert(piece@ =~= seq![s@[i as int]]);
            assert(seq![s@[i as int]] =~= seq![spec_lower_char(s@[i as int])]);
            out.append(piece);
        }
        proof {
            assert(out@ =~= spec_lower(s@.subrange(from as int, (i + 1) as int))) by {
                assert(s@.subrange(from as int, (i + 1) as int)
                    =~= s@.subrange(from as int, i as int).push(s@[i as int]));
                assert(spec_lower(s@.subrange(from as int, (i + 1) as int))
                    =~= spec_lower(s@.subrange(from as int, i as int)).push(
                        spec_lower_char(s@[i as int])));
            }
        }
        i = i + 1;
    }
    assert(s@.subrange(from as int, n as int) == s@.subrange(from as int, s@.len() as int));
    out
}

/// Extracts the event name from an `on...` attribute key.
pub fn to_event_name(key: &str) -> (r: String)
    ensures
        r@ == spec_event_name(key@),
{
    let n = StrSliceExecFns::unicode_len(key);
    if n >= 2 {
        let c0 = StrSliceExecFns::get_char(key, 0);
        let c1 = StrSliceExecFns::get_char(key, 1);
        if (c0 == 'o' || c0 == 'O') && (c1 == 'n' || c1 == 'N') {
            return lower_from(key, 2);
        }
    }
    lower_from(key, 0)
}

// ---------------------------------------------------------------------------
// HTML escaping
// ---------------------------------------------------------------------------

/// The escaped form of one character: `&`, `<` and `>` unconditionally, and
/// `"` in attribute position, become entities; all others pass through.
pub open spec fn spec_escape_char(c: char, is_attr: bool) -> Seq<char> {
    if c == '&' {
        "&amp;"@
    } else if c == '<' {
        "&lt;"@
    } else if c == '>' {
        "&gt;"@
    } else if is_attr && c == '"' {
        "&quot;"@
    } else {
        seq![c]
    }
}

/// Accumulating escape of `s` from position `i` on, appended to `acc`.
pub open spec fn spec_escape_from(s: Seq<char>, i: int, is_attr: bool, acc: Seq<char>) -> Seq<char>
    decreases s.len() - i,
{
    if i < 0 || i >= s.len() {
        acc
    } else {
        spec_escape_from(s, i + 1, is_attr, acc + spec_escape_char(s[i], is_attr))
    }
}

/// The HTML-escaped form of `s`.
pub open spec fn spec_escape(s: Seq<char>, is_attr: bool) -> Seq<char> {
    spec_escape_from(s, 0, is_attr, Seq::empty())
}

/// Escapes `s` for inclusion in template text; `is_attr` selects attribute
/// position, where double quotes are escaped as well.
pub fn escape_html(s: &str, is_attr: bool) -> (r: String)
    ensures
        r@ == spec_escape(s@, is_attr),
{
    let n = StrSliceExecFns::unicode_len(s);
    let mut out = String::new();
    let mut i: usize = 0;
    while i < n
        invariant
            0 <= i <= n,
            n == s@.len(),
            spec_escape(s@, is_attr) == spec_escape_from(s@, i as int, is_attr, out@),
        decreases n - i,
    {
        let c = StrSliceExecFns::get_char(s, i);
        if c == '&' {
            out.append("&amp;");
        } else if c == '<' {
            out.append("&lt;");
        } else if c == '>' {
            out.append("&gt;");
        } else if is_attr && c == '"' {
            out.append("&quot;");
        } else {
            let piece = StrSliceExecFns::substring_char(s, i, i + 1);
            assert(piece@ =~= seq![s@[i as int]]);
            out.append(piece);
        }
        i = i + 1;
    }
    out
}

/// After escaping, the text holds no `<` or `>` at all, and in attribute
/// position no `"` either: every occurrence was rewritten to an entity.
pub proof fn lemma_escape_from_clean(s: Seq<char>, i: int, is_attr: bool, acc: Seq<char>)
    requires
        forall|k: int| 0 <= k < acc.len() ==>
            acc[k] != '<' && acc[k] != '>' && (is_attr ==> acc[k] != '"'),
    ensures
        forall|k: int| 0 <= k < spec_escape_from(s, i, is_attr, acc).len() ==>
            spec_escape_from(s, i, is_attr, acc)[k] != '<'
            && spec_escape_from(s, i, is_attr, acc)[k] != '>'
            && (is_attr ==> spec_escape_from(s, i, is_attr, acc)[k] != '"'),
    decreases s.len() - i,
{
    if i < 0 || i >= s.len() {
    } else {
        let piece = spec_escape_char(s[i], is_attr);
        assert forall|k: int| 0 <= k < piece.len() implies
            piece[k] != '<' && piece[k] != '>' && (is_attr ==> piece[k] != '"') by {
            reveal_strlit("&amp;");
            reveal_strlit("&lt;");
            reveal_strlit("&gt;");
            reveal_strlit("&quot;");
        }
        let acc2 = acc + piece;
        assert forall|k: int| 0 <= k < acc2.len() implies
            acc2[k] != '<' && acc2[k] != '>' && (is_attr ==> acc2[k] != '"') by {
            if k < acc.len() {
                assert(acc2[k] == acc[k]);
            } else {
                assert(acc2[k] == piece[k - acc.len()]);
            }
        }
        lemma_escape_from_clean(s, i + 1, is_attr, acc2);
        assert(spec_escape_from(s, i, is_attr, acc)
            == spec_escape_from(s, i + 1, is_attr, acc2));
    }
}

/// Escape totality: the escaped form of any text contains no raw `<` or `>`,
/// and in attribute position no raw `"`.
pub proof fn lemma_escape_clean(s: Seq<char>, is_attr: bool)
    ensures
        forall|k: int| 0 <= k < spec_escape(s, is_attr).len() ==>
            spec_escape(s, is_attr)[k] != '<'
            && spec_escape(s, is_attr)[k] != '>'
            && (is_attr ==> spec_escape(s, is_attr)[k] != '"'),
{
    lemma_escape_from_clean(s, 0, is_attr, Seq::empty());
}


/// No raw ampersand: in a sequence with this property, every `&` starts an
/// escaped entity (it is followed by the first letter of one).
pub open spec fn spec_amp_escaped(s: Seq<char>) -> bool {
    forall|k: int| 0 <= k < s.len() && #[trigger] s[k] == '&' ==> k + 1 < s.len()
        && (s[k + 1] == 'a' || s[k + 1] == 'l' || s[k + 1] == 'g' || s[k + 1] == 'q')
}

proof fn lemma_escape_from_amp(s: Seq<char>, i: int, is_attr: bool, acc: Seq<char>)
    requires
        spec_amp_escaped(acc),
        acc.len() > 0 ==> acc.last() != '&',
    ensures
        spec_amp_escaped(spec_escape_from(s, i, is_attr, acc)),
    decreases s.len() - i,
{
    if i < 0 || i >= s.len() {
    } else {
        let piece = spec_escape_char(s[i], is_attr);
        let acc2 = acc + piece;
        reveal_strlit("&amp;");
        reveal_strlit("&lt;");
        reveal_strlit("&gt;");
        reveal_strlit("&quot;");
        assert(piece.len() > 0);
        assert(piece.last() != '&');
        assert(spec_amp_escaped(acc2)) by {
            assert forall|k: int| 0 <= k < acc2.len() && #[trigger] acc2[k] == '&' implies k + 1 < acc2.len()
                && (acc2[k + 1] == 'a' || acc2[k + 1] == 'l' || acc2[k + 1] == 'g'
                    || acc2[k + 1] == 'q') by {
                if k < acc.len() {
                    assert(acc2[k] == acc[k]);
                    if k + 1 < acc.len() {
                        assert(acc2[k + 1] == acc[k + 1]);
                    } else {
                        assert(k == acc.len() - 1);
                        assert(acc.last() != '&');
                    }
                } else {
                    assert(acc2[k] == piece[k - acc.len()]);
                    assert(k - acc.len() == 0);
                    assert(acc2[k + 1] == piece[1]);
                }
            }
        }
        assert(acc2.last() != '&');
        lemma_escape_from_amp(s, i + 1, is_attr, acc2);
        assert(spec_escape_from(s, i, is_attr, acc) == spec_escape_from(s, i + 1, is_attr, acc2));
    }
}

/// Escape totality for ampersands: in the escaped form of any text, every
/// `&` was written by the escaper itself as the start of an entity.
pub proof fn lemma_escape_amp(s: Seq<char>, is_attr: bool)
    ensures
        spec_amp_escaped(spec_escape(s, is_attr)),
{
    lemma_escape_from_amp(s, 0, is_attr, Seq::empty());
}

// ---------------------------------------------------------------------------
// whitespace trimming
// ---------------------------------------------------------------------------

pub open spec fn spec_is_ws(c: char) -> bool {
    c == ' ' || c == '\t' || c == '\n' || c == '\r'
}

pub open spec fn spec_all_ws(s: Seq<char>) -> bool {
    forall|i: int| 0 <= i < s.len() ==> spec_is_ws(s[i])
}

pub open spec fn spec_has_newline(s: Seq<char>) -> bool {
    spec_has_char(s, '\n') || spec_has_char(s, '\r')
}

/// Whitespace collapsing from position `i` on: each run of ASCII whitespace
/// becomes a single space.
pub open spec fn spec_collapse_from(s: Seq<char>, i: int, acc: Seq<char>, prev_ws: bool) -> Seq<char>
    decreases s.len() - i,
{
    if i < 0 || i >= s.len() {
        acc
    } else if spec_is_ws(s[i]) {
        if prev_ws {
            spec_collapse_from(s, i + 1, acc, true)
        } else {
            spec_collapse_from(s, i + 1, acc.push(' '), true)
        }
    } else {
        spec_collapse_from(s, i + 1, acc.push(s[i]), false)
    }
}

/// The JSX whitespace rule: text that is nothing but whitespace and spans a
/// line break disappears; otherwise whitespace runs collapse to one space.
pub open spec fn spec_trim(s: Seq<char>) -> Seq<char> {
    if spec_all_ws(s) && spec_has_newline(s) {
        Seq::empty()
    } else {
        spec_collapse_from(s, 0, Seq::empty(), false)
    }
}

/// Normalizes the whitespace of a JSX text child.
pub fn trim_whitespace(s: &str) -> (r: String)
    ensures
        r@ == spec_trim(s@),
{
    let n = StrSliceExecFns::unicode_len(s);
    let mut all_ws = true;
    let mut has_nl = false;
    let mut i: usize = 0;
    while i < n
        invariant
            0 <= i <= n,
            n == s@.len(),
            all_ws == spec_all_ws(s@.subrange(0, i as int)),
            has_nl == spec_has_newline(s@.subrange(0, i as int)),
        decreases n - i,
    {
        let c = StrSliceExecFns::get_char(s, i);
        if !(c == ' ' || c == '\t' || c == '\n' || c == '\r') {
            all_ws = false;
        }
        if c == '\n' || c == '\r' {
            has_nl = true;
        }
        proof {
            let pre = s@.subrange(0, i as int);
            let post = s@.subrange(0, (i + 1) as int);
            assert(post =~= pre.push(s@[i as int]));
            assert(spec_all_ws(post) == (spec_all_ws(pre) && spec_is_ws(s@[i as int]))) by {
                if spec_all_ws(pre) && spec_is_ws(s@[i as int]) {
                    assert forall|k: int| 0 <= k < post.len() implies spec_is_ws(post[k]) by {
                        if k < pre.len() {
                            assert(post[k] == pre[k]);
                        } else {
                            assert(post[k] == s@[i as int]);
                        }
                    }
                }
                if spec_all_ws(post) {
                    assert forall|k: int| 0 <= k < pre.len() implies spec_is_ws(pre[k]) by {
                        assert(pre[k] == post[k]);
                    }
                    assert(spec_is_ws(post[i as int]));
                }
            }
            assert(spec_has_newline(post) == (spec_has_newline(pre)
                || s@[i as int] == '\n' || s@[i as int] == '\r')) by {
                if spec_has_char(pre, '\n') {
                    let w = choose|w: int| 0 <= w < pre.len() && pre[w] == '\n';
                    assert(post[w] == '\n');
                }
                if spec_has_char(pre, '\r') {
                    let w = choose|w: int| 0 <= w < pre.len() && pre[w] == '\r';
                    assert(post[w] == '\r');
                }
                if s@[i as int] == '\n' || s@[i as int] == '\r' {
                    assert(post[i as int] == s@[i as int]);
                }
                if spec_has_char(post, '\n') {
                    let w = choose|w: int| 0 <= w < post.len() && post[w] == '\n';
                    if w < i { assert(pre[w] == '\n'); }
                }
                if spec_has_char(post, '\r') {
                    let w = choose|w: int| 0 <= w < post.len() && post[w] == '\r';
                    if w < i { assert(pre[w] == '\r'); }
                }
            }
        }
        i = i + 1;
    }
    proof {
        assert(s@.subrange(0, n as int) =~= s@);
    }
    if all_ws && has_nl {
        return String::new();
    }
    let mut out = String::new();
    let mut prev_ws = false;
    let mut j: usize = 0;
    while j < n
        invariant
            0 <= j <= n,
            n == s@.len(),
            !(spec_all_ws(s@) && spec_has_newline(s@)),
            spec_collapse_from(s@, 0, Seq::empty(), false)
                == spec_collapse_from(s@, j as int, out@, prev_ws),
        decreases n - j,
    {
        let c = StrSliceExecFns::get_char(s, j);
        let ghost pre = out@;
        if c == ' ' || c == '\t' || c == '\n' || c == '\r' {
            if !prev_ws {
                out.append(" ");
                proof {
                    reveal_strlit(" ");
                    assert(out@ =~= pre.push(' '));
                }
            }
            prev_ws = true;
        } else {
            let piece = StrSliceExecFns::substring_char(s, j, j + 1);
            assert(piece@ =~= seq![s@[j as int]]);
            out.append(piece);
            proof {
                assert(out@ =~= pre.push(s@[j as int]));
            }
            prev_ws = false;
        }
        j = j + 1;
    }
    out
}

// ---------------------------------------------------------------------------
// reactivity inference
// ---------------------------------------------------------------------------

/// An expression is static iff it is a literal, carries the static marker, or
/// is a pure identifier whose binding is known immutable.
pub open spec fn spec_is_static(e: JsExpr) -> bool {
    ||| e.kind is StrLit
    ||| e.kind is NumLit
    ||| e.kind is BoolLit
    ||| e.once
    ||| (e.kind matches ExprKind::Ident { immutable } && immutable)
}

pub open spec fn spec_is_dynamic(e: JsExpr) -> bool {
    !spec_is_static(e)
}

/// Reactivity inference: whether the expression's reads must be tracked.
pub fn is_dynamic(e: &JsExpr) -> (r: bool)
    ensures
        r == spec_is_dynamic(*e),
{
    if e.once {
        return false;
    }
    match &e.kind {
        ExprKind::StrLit(_) => false,
        ExprKind::NumLit(_) => false,
        ExprKind::BoolLit(_) => false,
        ExprKind::Ident { immutable } => !*immutable,
        ExprKind::Conditional => true,
        ExprKind::Arrow => true,
        ExprKind::ArrowJsx { .. } => true,
        ExprKind::Other => true,
    }
}

/// The compile-time rendering of a static expression: literal values render
/// as their text, anything else as its source text.
pub open spec fn spec_render_static(e: JsExpr) -> Seq<char> {
    match e.kind {
        ExprKind::StrLit(v) => v@,
        ExprKind::NumLit(t) => t@,
        ExprKind::BoolLit(b) => if b { "true"@ } else { "false"@ },
        _ => e.code@,
    }
}

pub fn render_static(e: &JsExpr) -> (r: String)
    ensures
        r@ == spec_render_static(*e),
{
    match &e.kind {
        ExprKind::StrLit(v) => v.clone(),
        ExprKind::NumLit(t) => t.clone(),
        ExprKind::BoolLit(b) => {
            if *b {
                new_string("true")
            } else {
                new_string("false")
            }
        }
        _ => e.code.clone(),
    }
}

/// The source text of a boolean, for emitted code.
pub open spec fn spec_bool_text(b: bool) -> Seq<char> {
    if b { "true"@ } else { "false"@ }
}

pub fn bool_text(b: bool) -> (r: &'static str)
    ensures
        r@ == spec_bool_text(b),
{
    if b { "true" } else { "false" }
}

} // verus!
