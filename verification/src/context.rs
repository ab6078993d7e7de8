//! The per-compilation block context: an append-only registry of requested
//! runtime helpers, delegated events, synthesized templates and warnings, and
//! the source of fresh identifiers.

use vstd::prelude::*;
use vstd::string::{StringExecFns, StrSliceExecFns};
use crate::classify::new_string;

verus! {

// ---------------------------------------------------------------------------
// decimal rendering of counters
// ---------------------------------------------------------------------------

pub open spec fn spec_digit(n: int) -> char {
    if n == 0 { '0' } else if n == 1 { '1' } else if n == 2 { '2' }
    else if n == 3 { '3' } else if n == 4 { '4' } else if n == 5 { '5' }
    else if n == 6 { '6' } else if n == 7 { '7' } else if n == 8 { '8' }
    else { '9' }
}

/// The decimal text of a nonnegative number.
pub open spec fn spec_dec(n: int) -> Seq<char>
    decreases n,
{
    if n < 0 {
        Seq::empty()
    } else if n < 10 {
        seq![spec_digit(n)]
    } else {
        spec_dec(n / 10).push(spec_digit(n % 10))
    }
}

fn digit_str(n: u64) -> (r: &'static str)
    requires
        n < 10,
    ensures
        r@ == seq![spec_digit(n as int)],
{
    proof {
        reveal_strlit("0"); reveal_strlit("1"); reveal_strlit("2"); reveal_strlit("3");
        reveal_strlit("4"); reveal_strlit("5"); reveal_strlit("6"); reveal_strlit("7");
        reveal_strlit("8"); reveal_strlit("9");
    }
    if n == 0 { "0" } else if n == 1 { "1" } else if n == 2 { "2" }
    else if n == 3 { "3" } else if n == 4 { "4" } else if n == 5 { "5" }
    else if n == 6 { "6" } else if n == 7 { "7" } else if n == 8 { "8" }
    else { "9" }
}

/// Renders a number in decimal.
pub fn dec_str(n: u64) -> (r: String)
    ensures
        r@ == spec_dec(n as int),
    decreases n,
{
    if n < 10 {
        new_string(digit_str(n))
    } else {
        let mut s = dec_str(n / 10);
        let d = digit_str(n % 10);
        s.append(d);
        proof {
            assert(s@ =~= spec_dec((n / 10) as int).push(spec_digit((n % 10) as int)));
        }
        s
    }
}

// ---------------------------------------------------------------------------
// the context and its mathematical view
// ---------------------------------------------------------------------------

/// The character sequences of a sequence of strings.
pub open spec fn strs_view(s: Seq<String>) -> Seq<Seq<char>> {
    Seq::new(s.len(), |i: int| s[i]@)
}

/// Idempotent registration: append unless already present.
pub open spec fn spec_register(s: Seq<Seq<char>>, x: Seq<char>) -> Seq<Seq<char>> {
    if s.contains(x) {
        s
    } else {
        s.push(x)
    }
}

/// The mathematical state of a block context.
pub ghost struct CtxView {
    pub helpers: Seq<Seq<char>>,
    pub delegates: Seq<Seq<char>>,
    pub templates: Seq<Seq<char>>,
    pub warnings: Seq<Seq<char>>,
    pub counter: int,
}

impl CtxView {
    /// Registration never removes or reorders entries, and the counter never
    /// shrinks: the context is an append-only registry.
    pub open spec fn extends(self, old: CtxView) -> bool {
        &&& old.helpers.is_prefix_of(self.helpers)
        &&& old.delegates.is_prefix_of(self.delegates)
        &&& old.templates.is_prefix_of(self.templates)
        &&& old.warnings.is_prefix_of(self.warnings)
        &&& old.counter <= self.counter
    }
}

/// One per compilation unit: the mutable registry the lowering functions
/// append to and the driver reads once at program exit.
pub struct BlockContext {
    /// Runtime helper names to import, in first-encounter order, no duplicates.
    pub helpers: Vec<String>,
    /// Event names to delegate, in first-encounter order, no duplicates.
    pub delegates: Vec<String>,
    /// Registered template strings, in registration order, no duplicates.
    pub templates: Vec<String>,
    /// Non-fatal diagnostics, in emission order.
    pub warnings: Vec<String>,
    /// Source of fresh identifiers.
    pub uid_counter: u64,
}

impl View for BlockContext {
    type V = CtxView;

    open spec fn view(&self) -> CtxView {
        CtxView {
            helpers: strs_view(self.helpers@),
            delegates: strs_view(self.delegates@),
            templates: strs_view(self.templates@),
            warnings: strs_view(self.warnings@),
            counter: self.uid_counter as int,
        }
    }
}

/// Finds the first index of `x` in `v`, specified over character sequences.
fn find_string(v: &Vec<String>, x: &String) -> (r: Option<usize>)
    ensures
        match r {
            Some(i) => i < v@.len() && v@[i as int]@ == x@
                && forall|j: int| 0 <= j < i ==> v@[j]@ != x@,
            None => forall|j: int| 0 <= j < v@.len() ==> v@[j]@ != x@,
        },
{
    let mut i: usize = 0;
    while i < v.len()
        invariant
            0 <= i <= v@.len(),
            forall|j: int| 0 <= j < i ==> v@[j]@ != x@,
        decreases v@.len() - i,
    {
        let vi = &v[i];
        if vi.eq(x) {
            return Some(i);
        }
        i = i + 1;
    }
    None
}

proof fn lemma_strs_push(pre: Seq<String>, post: Seq<String>, x: String)
    requires
        post == pre.push(x),
    ensures
        strs_view(post) == strs_view(pre).push(x@),
{
    assert(strs_view(post) =~= strs_view(pre).push(x@));
}

impl BlockContext {
    /// A fresh context: everything empty, the counter at zero.
    pub fn new() -> (r: BlockContext)
        ensures
            r@.helpers == Seq::<Seq<char>>::empty(),
            r@.delegates == Seq::<Seq<char>>::empty(),
            r@.templates == Seq::<Seq<char>>::empty(),
            r@.warnings == Seq::<Seq<char>>::empty(),
            r@.counter == 0,
    {
        let r = BlockContext {
            helpers: Vec::new(),
            delegates: Vec::new(),
            templates: Vec::new(),
            warnings: Vec::new(),
            uid_counter: 0,
        };
        proof {
            assert(strs_view(r.helpers@) =~= Seq::<Seq<char>>::empty());
            assert(strs_view(r.delegates@) =~= Seq::<Seq<char>>::empty());
            assert(strs_view(r.templates@) =~= Seq::<Seq<char>>::empty());
            assert(strs_view(r.warnings@) =~= Seq::<Seq<char>>::empty());
        }
        r
    }

    /// Idempotent insertion of a runtime helper name.
    pub fn register_helper(&mut self, name: &str)
        ensures
            final(self)@.helpers == spec_register(old(self)@.helpers, name@),
            final(self)@.delegates == old(self)@.delegates,
            final(self)@.templates == old(self)@.templates,
            final(self)@.warnings == old(self)@.warnings,
            final(self)@.counter == old(self)@.counter,
    {
        let n = new_string(name);
        let found = find_string(&self.helpers, &n);
        match found {
            Some(_) => {
                proof {
                    assert(strs_view(self.helpers@).contains(n@)) by {
                        let i = choose|i: int|
                            0 <= i < self.helpers@.len() && self.helpers@[i]@ == n@;
                        assert(strs_view(self.helpers@)[i] == n@);
                    }
                }
            }
            None => {
                proof {
                    assert(!strs_view(self.helpers@).contains(name@)) by {
                        if strs_view(self.helpers@).contains(name@) {
                            let i = choose|i: int|
                                0 <= i < strs_view(self.helpers@).len()
                                    && strs_view(self.helpers@)[i] == name@;
                            assert(self.helpers@[i]@ == name@);
                        }
                    }
                }
                let ghost pre = self.helpers@;
                self.helpers.push(n);
                proof {
                    lemma_strs_push(pre, self.helpers@, n);
                }
            }
        }
    }

    /// Idempotent insertion of a delegated event name.
    pub fn register_delegate(&mut self, event: &String)
        ensures
            final(self)@.delegates == spec_register(old(self)@.delegates, event@),
            final(self)@.helpers == old(self)@.helpers,
            final(self)@.templates == old(self)@.templates,
            final(self)@.warnings == old(self)@.warnings,
            final(self)@.counter == old(self)@.counter,
    {
        let found = find_string(&self.delegates, event);
        match found {
            Some(_) => {
                proof {
                    assert(strs_view(self.delegates@).contains(event@)) by {
                        let i = choose|i: int|
                            0 <= i < self.delegates@.len() && self.delegates@[i]@ == event@;
                        assert(strs_view(self.delegates@)[i] == event@);
                    }
                }
            }
            None => {
                proof {
                    assert(!strs_view(self.delegates@).contains(event@)) by {
                        if strs_view(self.delegates@).contains(event@) {
                            let i = choose|i: int|
                                0 <= i < strs_view(self.delegates@).len()
                                    && strs_view(self.delegates@)[i] == event@;
                            assert(self.delegates@[i]@ == event@);
                        }
                    }
                }
                let ghost pre = self.delegates@;
                self.delegates.push(event.clone());
                proof {
                    lemma_strs_push(pre, self.delegates@, self.delegates@.last());
                }
            }
        }
    }

    /// Appends a non-fatal diagnostic.
    pub fn register_warning(&mut self, text: String)
        ensures
            final(self)@.warnings == old(self)@.warnings.push(text@),
            final(self)@.helpers == old(self)@.helpers,
            final(self)@.delegates == old(self)@.delegates,
            final(self)@.templates == old(self)@.templates,
            final(self)@.counter == old(self)@.counter,
    {
        let ghost pre = self.warnings@;
        self.warnings.push(text);
        proof {
            lemma_strs_push(pre, self.warnings@, self.warnings@.last());
        }
    }
}

/// The identifier of the template at (zero-based) index `n`.
pub open spec fn spec_template_id(n: int) -> Seq<char> {
    "_tmpl$"@ + spec_dec(n)
}

/// The first index of `x` in `s`, or the length if absent.
pub open spec fn spec_index_of(s: Seq<Seq<char>>, x: Seq<char>) -> int
    decreases s.len(),
{
    if s.len() == 0 {
        0
    } else if s[0] == x {
        0
    } else {
        1 + spec_index_of(s.drop_first(), x)
    }
}

/// Registration index of a template: its first index if present, else the
/// length of the registry (where it will be appended).
pub open spec fn spec_template_index(tpls: Seq<Seq<char>>, html: Seq<char>) -> int {
    spec_index_of(tpls, html)
}

proof fn lemma_index_of(s: Seq<Seq<char>>, x: Seq<char>)
    ensures
        s.contains(x) ==> 0 <= spec_index_of(s, x) < s.len() && s[spec_index_of(s, x)] == x
            && forall|j: int| 0 <= j < spec_index_of(s, x) ==> s[j] != x,
        !s.contains(x) ==> spec_index_of(s, x) == s.len(),
    decreases s.len(),
{
    if s.len() == 0 {
    } else if s[0] == x {
        assert(s.contains(x));
    } else {
        let rest = s.drop_first();
        lemma_index_of(rest, x);
        assert(rest.contains(x) == s.contains(x)) by {
            if rest.contains(x) {
                let i = choose|i: int| 0 <= i < rest.len() && rest[i] == x;
                assert(s[i + 1] == x);
            }
            if s.contains(x) {
                let i = choose|i: int| 0 <= i < s.len() && s[i] == x;
                assert(i != 0);
                assert(rest[i - 1] == x);
            }
        }
        if s.contains(x) {
            let k = spec_index_of(rest, x);
            assert(spec_index_of(s, x) == 1 + k);
            assert(s[1 + k] == rest[k]);
            assert forall|j: int| 0 <= j < spec_index_of(s, x) implies s[j] != x by {
                if j > 0 {
                    assert(s[j] == rest[j - 1]);
                }
            }
        }
    }
}

impl BlockContext {
    /// Registers a template string and returns its stable identifier; equal
    /// strings return equal identifiers.
    pub fn register_template(&mut self, html: &String) -> (id: String)
        ensures
            final(self)@.templates == spec_register(old(self)@.templates, html@),
            id@ == spec_template_id(spec_template_index(old(self)@.templates, html@)),
            final(self)@.helpers == old(self)@.helpers,
            final(self)@.delegates == old(self)@.delegates,
            final(self)@.warnings == old(self)@.warnings,
            final(self)@.counter == old(self)@.counter,
    {
        proof {
            lemma_index_of(strs_view(self.templates@), html@);
        }
        let found = find_string(&self.templates, html);
        let idx: usize;
        match found {
            Some(i) => {
                proof {
                    let tv = strs_view(self.templates@);
                    assert(tv.contains(html@)) by {
                        assert(tv[i as int] == html@);
                    }
                    assert(spec_index_of(tv, html@) == i as int) by {
                        if spec_index_of(tv, html@) < i as int {
                            assert(tv[spec_index_of(tv, html@)] == html@);
                            assert(self.templates@[spec_index_of(tv, html@)]@ == html@);
                        }
                        if spec_index_of(tv, html@) > i as int {
                            assert(tv[i as int] != html@);
                        }
                    }
                }
                idx = i;
            }
            None => {
                proof {
                    let tv = strs_view(self.templates@);
                    assert(!tv.contains(html@)) by {
                        if tv.contains(html@) {
                            let i = choose|i: int| 0 <= i < tv.len() && tv[i] == html@;
                            assert(self.templates@[i]@ == html@);
                        }
                    }
                }
                idx = self.templates.len();
                let ghost pre = self.templates@;
                self.templates.push(html.clone());
                proof {
                    lemma_strs_push(pre, self.templates@, self.templates@.last());
                }
            }
        }
        let mut id = new_string("_tmpl$");
        let num = dec_str(idx as u64);
        id.append(num.as_str());
        id
    }

    /// Returns `<prefix><n>` where `n` is the next counter value; the counter
    /// saturates at its maximum.
    pub fn generate_uid(&mut self, prefix: &str) -> (id: String)
        ensures
            id@ == prefix@ + spec_dec(old(self)@.counter),
            final(self)@.counter == if old(self)@.counter < u64::MAX as int {
                old(self)@.counter + 1
            } else {
                old(self)@.counter
            },
            final(self)@.helpers == old(self)@.helpers,
            final(self)@.delegates == old(self)@.delegates,
            final(self)@.templates == old(self)@.templates,
            final(self)@.warnings == old(self)@.warnings,
    {
        let mut id = new_string(prefix);
        let num = dec_str(self.uid_counter);
        id.append(num.as_str());
        if self.uid_counter < u64::MAX {
            self.uid_counter = self.uid_counter + 1;
        }
        id
    }
}

} // verus!
