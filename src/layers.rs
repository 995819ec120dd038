use vstd::prelude::*;

use crate::value::Value;

verus! {

/// Every shadow link points to an earlier entry, so chains are acyclic.
pub open spec fn links_backward<T>(s: Seq<Value<T>>) -> bool {
    forall|i: int|
        0 <= i < s.len() && (#[trigger] s[i]).shadow() is Some ==> (s[i].shadow()->0 as int) < i
}

/// The indices of the values that the entry at `i` overrides, from the
/// most recent to the oldest.
pub open spec fn prior_chain<T>(s: Seq<Value<T>>, i: int) -> Seq<usize>
    decreases i,
{
    if 0 <= i < s.len() {
        match s[i].shadow() {
            Some(j) => if (j as int) < i {
                seq![j] + prior_chain(s, j as int)
            } else {
                Seq::empty()
            },
            None => Seq::empty(),
        }
    } else {
        Seq::empty()
    }
}

/// The entries after `v` is stored as an override of the entry at `target`.
pub open spec fn overridden<T>(s: Seq<Value<T>>, target: usize, v: Value<T>) -> Seq<Value<T>> {
    s.push(v.with_shadow(Some(target)))
}

/// An arena of configuration values. Each entry may shadow an earlier
/// entry, named by its index; entries are never removed or changed.
pub struct Layers<T> {
    entries: Vec<Value<T>>,
}

impl<T> View for Layers<T> {
    type V = Seq<Value<T>>;

    closed spec fn view(&self) -> Seq<Value<T>> {
        self.entries@
    }
}

impl<T> Layers<T> {
    #[verifier::type_invariant]
    spec fn inv(&self) -> bool {
        links_backward(self.entries@)
    }

    pub fn new() -> (r: Layers<T>)
        ensures
            r@ == Seq::<Value<T>>::empty(),
            links_backward(r@),
    {
        Layers { entries: Vec::new() }
    }

    pub fn len(&self) -> (r: usize)
        ensures
            r == self@.len(),
    {
        self.entries.len()
    }

    /// The entry at index `i`.
    pub fn value(&self, i: usize) -> (r: &Value<T>)
        requires
            i < self@.len(),
        ensures
            *r == self@[i as int],
    {
        &self.entries[i]
    }

    /// Stores `v` as a root, a value that overrides nothing, and returns
    /// its index.
    pub fn add(&mut self, v: Value<T>) -> (r: usize)
        ensures
            final(self)@ == old(self)@.push(v.with_shadow(None)),
            r == old(self)@.len(),
            final(self)@[r as int].payload() == v.payload(),
            final(self)@[r as int].kind() == v.kind(),
            final(self)@[r as int].shadow() is None,
            prior_chain(final(self)@, r as int) == Seq::<usize>::empty(),
            links_backward(final(self)@),
    {
        proof {
            use_type_invariant(&*self);
            v.lemma_with_shadow(None);
        }
        let r = self.entries.len();
        let root = v.into_shadowing(None);
        let mut entries = Vec::new();
        std::mem::swap(&mut entries, &mut self.entries);
        entries.push(root);
        proof {
            let s = entries@;
            assert forall|i: int| 0 <= i < s.len() && (#[trigger] s[i]).shadow() is Some implies (
            s[i].shadow()->0 as int) < i by {
                if i < r {
                    assert(s[i] == old(self).entries@[i]);
                }
            }
        }
        self.entries = entries;
        r
    }

    /// Stores `v` as an override of the entry at `target` and returns the new
    /// entry's index, or returns `None`, leaving the arena unchanged, when
    /// there is no entry at `target`.
    pub fn push_override(&mut self, target: usize, v: Value<T>) -> (r: Option<usize>)
        ensures
            (target as int) < old(self)@.len() ==> {
                &&& r == Some(old(self)@.len() as usize)
                &&& final(self)@ == overridden(old(self)@, target, v)
                &&& final(self)@[r->0 as int].payload() == v.payload()
                &&& final(self)@[r->0 as int].kind() == v.kind()
                &&& final(self)@[r->0 as int].shadow() == Some(target)
                &&& prior_chain(final(self)@, r->0 as int) == seq![target] + prior_chain(
                    old(self)@,
                    target as int,
                )
            },
            (target as int) >= old(self)@.len() ==> r is None && final(self)@ == old(self)@,
            links_backward(final(self)@),
    {
        proof {
            use_type_invariant(&*self);
        }
        let n = self.entries.len();
        if target < n {
            proof {
                lemma_override_chain(self.entries@, target, v);
                v.lemma_with_shadow(Some(target));
            }
            let entry = v.into_shadowing(Some(target));
            let mut entries = Vec::new();
            std::mem::swap(&mut entries, &mut self.entries);
            entries.push(entry);
            self.entries = entries;
            Some(n)
        } else {
            None
        }
    }

    /// The indices of the values that the entry at `i` overrides, from the
    /// most recent to the oldest; empty for a root.
    pub fn chain(&self, i: usize) -> (r: Vec<usize>)
        requires
            i < self@.len(),
        ensures
            r@ == prior_chain(self@, i as int),
    {
        proof {
            use_type_invariant(self);
        }
        let mut out: Vec<usize> = Vec::new();
        let mut cur: usize = i;
        loop
            invariant
                links_backward(self.entries@),
                cur < self.entries@.len(),
                out@ + prior_chain(self.entries@, cur as int) == prior_chain(self.entries@, i as int),
            ensures
                out@ == prior_chain(self.entries@, i as int),
            decreases cur,
        {
            match self.entries[cur].shadowed() {
                Some(j) => {
                    assert(prior_chain(self.entries@, cur as int) == seq![j] + prior_chain(
                        self.entries@,
                        j as int,
                    ));
                    assert(out@.push(j) + prior_chain(self.entries@, j as int) == out@ + (seq![j]
                        + prior_chain(self.entries@, j as int)));
                    out.push(j);
                    cur = j;
                },
                None => {
                    assert(prior_chain(self.entries@, cur as int) == Seq::<usize>::empty());
                    assert(out@ + Seq::<usize>::empty() == out@);
                    break ;
                },
            }
        }
        out
    }
}

/// Appending an entry leaves the chains of the earlier entries as they were.
pub proof fn lemma_chain_of_prefix<T>(s: Seq<Value<T>>, x: Value<T>, i: int)
    requires
        0 <= i < s.len(),
    ensures
        prior_chain(s.push(x), i) == prior_chain(s, i),
    decreases i,
{
    let t = s.push(x);
    assert(t[i] == s[i]);
    match s[i].shadow() {
        Some(j) => {
            if (j as int) < i {
                lemma_chain_of_prefix(s, x, j as int);
            }
        },
        None => {},
    }
}

/// Overriding the entry at `target` gives a new entry whose shadow is `target`,
/// whose chain visits `target` first and then `target`'s own chain, and which is
/// one step longer than `target`'s chain.
pub proof fn lemma_override_chain<T>(s: Seq<Value<T>>, target: usize, v: Value<T>)
    requires
        links_backward(s),
        (target as int) < s.len(),
    ensures
        links_backward(overridden(s, target, v)),
        overridden(s, target, v)[s.len() as int].shadow() == Some(target),
        prior_chain(overridden(s, target, v), s.len() as int) == seq![target] + prior_chain(
            s,
            target as int,
        ),
        prior_chain(overridden(s, target, v), s.len() as int).len() == prior_chain(
            s,
            target as int,
        ).len() + 1,
{
    let t = overridden(s, target, v);
    v.lemma_with_shadow(Some(target));
    assert forall|i: int| 0 <= i < t.len() && (#[trigger] t[i]).shadow() is Some implies (
    t[i].shadow()->0 as int) < i by {
        if i < s.len() {
            assert(t[i] == s[i]);
        }
    }
    lemma_chain_of_prefix(s, v.with_shadow(Some(target)), target as int);
}

/// Walking the chain of the entry at `i`: it starts at `i`'s shadow, each
/// step moves to the shadow of the previous entry, the indices strictly
/// decrease, and the walk ends at an entry with no shadow.
pub proof fn lemma_chain_walk<T>(s: Seq<Value<T>>, i: int)
    requires
        links_backward(s),
        0 <= i < s.len(),
    ensures
        prior_chain(s, i).len() == 0 <==> s[i].shadow() is None,
        prior_chain(s, i).len() > 0 ==> s[i].shadow() == Some(prior_chain(s, i)[0]),
        forall|k: int|
            0 <= k < prior_chain(s, i).len() ==> (#[trigger] prior_chain(s, i)[k] as int) < i,
        forall|k: int|
            0 <= k < prior_chain(s, i).len() - 1 ==> s[#[trigger] prior_chain(s, i)[k] as int].shadow()
                == Some(prior_chain(s, i)[k + 1]),
        forall|k: int|
            0 < k < prior_chain(s, i).len() ==> (#[trigger] prior_chain(s, i)[k]) < prior_chain(
                s,
                i,
            )[k - 1],
        prior_chain(s, i).len() > 0 ==> s[prior_chain(s, i).last() as int].shadow() is None,
        prior_chain(s, i).len() <= i,
    decreases i,
{
    assert(s[i].shadow() is Some ==> (s[i].shadow()->0 as int) < i);
    match s[i].shadow() {
        Some(j) => {
            let c = prior_chain(s, j as int);
            lemma_chain_walk(s, j as int);
            let d = prior_chain(s, i);
            assert(d == seq![j] + c);
            assert forall|k: int| 0 <= k < d.len() - 1 implies s[#[trigger] d[k] as int].shadow()
                == Some(d[k + 1]) by {
                if k == 0 {
                    assert(d[0] == j);
                    assert(d[1] == c[0]);
                } else {
                    assert(d[k] == c[k - 1]);
                    assert(d[k + 1] == c[k]);
                }
            }
            assert forall|k: int| 0 < k < d.len() implies (#[trigger] d[k]) < d[k - 1] by {
                if k == 1 {
                    assert(d[1] == c[0]);
                } else {
                    assert(d[k] == c[k - 1]);
                    assert(d[k - 1] == c[k - 2]);
                }
            }
            assert forall|k: int| 0 <= k < d.len() implies (#[trigger] d[k] as int) < i by {
                if k > 0 {
                    assert(d[k] == c[k - 1]);
                }
            }
            if c.len() > 0 {
                assert(d.last() == c.last());
            }
        },
        None => {},
    }
}

} // verus!
