//! The ordered list of image locations shared by the producer and the slideshow.

use vstd::prelude::*;
use vstd::arithmetic::div_mod::{
    lemma_add_mod_noop_right, lemma_fundamental_div_mod, lemma_mod_bound,
    lemma_mod_multiples_vanish, lemma_small_mod,
};

verus! {

/// The position that a stored index designates in a registry of `len` entries.
/// Indices are reduced at read time, so a stale index is never out of range.
pub open spec fn wrap(index: int, len: int) -> int {
    index % len
}

/// The index reached from `start` after `steps` advances by one on a registry
/// of `len` entries.
pub open spec fn advanced(start: int, steps: nat, len: int) -> int
    decreases steps,
{
    if steps == 0 {
        start
    } else {
        wrap(advanced(start, (steps - 1) as nat, len) + 1, len)
    }
}

/// Some run of 1 to `len` advances from `start` ends at index `target`.
pub open spec fn reached_within(start: int, len: int, target: int) -> bool {
    exists|k: nat| 1 <= k <= len && #[trigger] advanced(start, k, len) == target
}

/// After at least one advance, the index is `start + steps` reduced modulo `len`.
pub proof fn lemma_advanced_closed_form(start: int, steps: nat, len: int)
    requires
        len > 0,
        steps >= 1,
    ensures
        advanced(start, steps, len) == wrap(start + steps, len),
    decreases steps,
{
    let prev = advanced(start, (steps - 1) as nat, len);
    assert(advanced(start, steps, len) == wrap(prev + 1, len));
    if steps > 1 {
        lemma_advanced_closed_form(start, (steps - 1) as nat, len);
        let y = start + steps - 1;
        assert(prev == y % len);
        lemma_add_mod_noop_right(1, y, len);
        assert(1 + y % len == prev + 1);
        assert(1 + y == start + steps);
    } else {
        assert(prev == start);
    }
}

/// Any index, reduced modulo the length read at that moment, designates an
/// entry, whatever the length was when the index was computed.
pub proof fn lemma_wrap_in_range(index: int, len: int)
    requires
        len > 0,
    ensures
        0 <= wrap(index, len) < len,
{
    lemma_mod_bound(index, len);
}

/// Cycling through a registry of `len` entries by advancing one step at a time
/// from any index visits every index exactly once in each run of `len` steps,
/// is back where it started after `len` steps from a valid index, and reads
/// an in-range index at every step, even when the length differs from one
/// step to the next.
pub proof fn lemma_advance_visits_each_once(start: nat, len: int)
    requires
        len > 0,
    ensures
        forall|k: nat| 1 <= k <= len ==> 0 <= #[trigger] advanced(start as int, k, len) < len,
        forall|k1: nat, k2: nat|
            1 <= k1 <= len && 1 <= k2 <= len && k1 != k2 ==> #[trigger] advanced(
                start as int,
                k1,
                len,
            ) != #[trigger] advanced(start as int, k2, len),
        forall|j: int| 0 <= j < len ==> #[trigger] reached_within(start as int, len, j),
        start < len ==> advanced(start as int, len as nat, len) == start,
        forall|i: int, m: int| i >= 0 && m > 0 ==> 0 <= #[trigger] wrap(i + 1, m) < m,
{
    let s = start as int;
    assert forall|k: nat| 1 <= k <= len implies 0 <= #[trigger] advanced(s, k, len) < len by {
        lemma_advanced_closed_form(s, k, len);
        lemma_mod_bound(s + k, len);
    }
    assert forall|k1: nat, k2: nat|
        1 <= k1 <= len && 1 <= k2 <= len && k1 != k2 implies #[trigger] advanced(s, k1, len)
        != #[trigger] advanced(s, k2, len) by {
        lemma_advanced_closed_form(s, k1, len);
        lemma_advanced_closed_form(s, k2, len);
        let (lo, hi) = if k1 < k2 { (k1, k2) } else { (k2, k1) };
        lemma_distinct_offsets(s + lo, (hi - lo) as int, len);
    }
    assert forall|j: int| 0 <= j < len implies #[trigger] reached_within(s, len, j) by {
        let r = s % len;
        let q = s / len;
        lemma_fundamental_div_mod(s, len);
        lemma_mod_bound(s, len);
        let k: nat = if j > r { (j - r) as nat } else { (j - r + len) as nat };
        lemma_advanced_closed_form(s, k, len);
        if j > r {
            assert(s + k == len * q + j);
            lemma_mod_multiples_vanish(q, j, len);
        } else {
            assert(s + k == len * (q + 1) + j) by (nonlinear_arith)
                requires
                    s == len * q + r,
                    k == j - r + len,
            ;
            lemma_mod_multiples_vanish(q + 1, j, len);
        }
        lemma_small_mod(j as nat, len as nat);
        assert(advanced(s, k, len) == j);
    }
    if start < len {
        lemma_advanced_closed_form(s, len as nat, len);
        lemma_mod_multiples_vanish(1, s, len);
        lemma_small_mod(start, len as nat);
    }
    assert forall|i: int, m: int| i >= 0 && m > 0 implies 0 <= #[trigger] wrap(i + 1, m) < m by {
        lemma_wrap_in_range(i + 1, m);
    }
}

/// Moving `gap` steps forward, with `0 < gap < len`, never lands on the same
/// index modulo `len`.
proof fn lemma_distinct_offsets(x: int, gap: int, len: int)
    requires
        len > 0,
        0 < gap < len,
    ensures
        wrap(x, len) != wrap(x + gap, len),
{
    let r = x % len;
    let q = x / len;
    lemma_fundamental_div_mod(x, len);
    lemma_mod_bound(x, len);
    assert(x + gap == len * q + (r + gap));
    lemma_mod_multiples_vanish(q, r + gap, len);
    if r + gap < len {
        lemma_small_mod((r + gap) as nat, len as nat);
    } else {
        lemma_mod_multiples_vanish(1, r + gap - len, len);
        lemma_small_mod((r + gap - len) as nat, len as nat);
    }
}

/// An index that a reader computed before an append still designates an
/// entry once it is reduced by the new length, and one that was in range
/// before designates the same path as before.
pub proof fn lemma_index_survives_append(paths: Seq<String>, extra: String, index: int)
    requires
        index >= 0,
    ensures
        0 <= wrap(index, paths.push(extra).len() as int) < paths.push(extra).len(),
        index < paths.len() ==> paths.push(extra)[wrap(index, paths.push(extra).len() as int)]
            == paths[index],
{
    let grown = paths.push(extra);
    lemma_wrap_in_range(index, grown.len() as int);
    if index < paths.len() {
        lemma_small_mod(index as nat, grown.len() as nat);
    }
}

/// The ordered sequence of image paths to cycle through.
pub struct PathRegistry {
    paths: Vec<String>,
}

impl View for PathRegistry {
    type V = Seq<String>;

    closed spec fn view(&self) -> Seq<String> {
        self.paths@
    }
}

impl PathRegistry {
    /// An empty registry.
    pub fn new() -> (r: Self)
        ensures
            r@ == Seq::<String>::empty(),
    {
        PathRegistry { paths: Vec::new() }
    }

    /// A registry holding `paths` in order.
    pub fn from_paths(paths: Vec<String>) -> (r: Self)
        ensures
            r@ == paths@,
    {
        PathRegistry { paths }
    }

    /// Number of stored paths.
    pub fn len(&self) -> (r: usize)
        ensures
            r == self@.len(),
    {
        self.paths.len()
    }

    pub fn is_empty(&self) -> (r: bool)
        ensures
            r == (self@.len() == 0),
    {
        self.paths.len() == 0
    }

    /// Adds `path` at the end.
    pub fn append(&mut self, path: String)
        ensures
            final(self)@ == old(self)@.push(path),
    {
        self.paths.push(path);
    }

    /// Adds `paths` at the end, in order.
    pub fn extend(&mut self, paths: Vec<String>)
        ensures
            final(self)@ == old(self)@ + paths@,
    {
        let mut i: usize = 0;
        while i < paths.len()
            invariant
                i <= paths@.len(),
                self@ == old(self)@ + paths@.subrange(0, i as int),
            decreases paths@.len() - i,
        {
            self.paths.push(paths[i].clone());
            proof {
                assert(paths@.subrange(0, i + 1) =~= paths@.subrange(0, i as int).push(paths@[i as int]));
            }
            i = i + 1;
        }
        proof {
            assert(paths@.subrange(0, paths@.len() as int) =~= paths@);
        }
    }

    /// Removes the first path; an empty registry is left as it is and `false`
    /// is returned.
    pub fn remove_first(&mut self) -> (removed: bool)
        ensures
            removed == (old(self)@.len() > 0),
            removed ==> final(self)@ == old(self)@.subrange(1, old(self)@.len() as int),
            !removed ==> final(self)@ == old(self)@,
    {
        if self.paths.len() == 0 {
            false
        } else {
            self.paths.remove(0);
            proof {
                assert(self.paths@ =~= old(self)@.subrange(1, old(self)@.len() as int));
            }
            true
        }
    }

    /// The path at `index` taken modulo the current length, or `None` when the
    /// registry is empty.
    pub fn get(&self, index: usize) -> (r: Option<&String>)
        ensures
            self@.len() == 0 ==> r.is_none(),
            self@.len() > 0 ==> r == Some(&self@[wrap(index as int, self@.len() as int)]),
    {
        let len = self.paths.len();
        if len == 0 {
            None
        } else {
            Some(&self.paths[index % len])
        }
    }
}

} // verus!
