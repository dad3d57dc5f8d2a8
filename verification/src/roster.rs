//! A set of names, kept as a list without duplicates.

use vstd::prelude::*;

verus! {

/// Whether some element of `names` reads `u`.
pub open spec fn spec_has_name(names: Seq<String>, u: Seq<char>) -> bool {
    exists|i: int| 0 <= i < names.len() && #[trigger] names[i]@ == u
}

/// A set of names: player seats in use, connected players, live match
/// ids.
pub struct Roster {
    pub names: Vec<String>,
}

impl Roster {
    /// Names are pairwise distinct.
    pub open spec fn wf(self) -> bool {
        forall|i: int, j: int|
            0 <= i < j < self.names@.len() ==> #[trigger] self.names@[i]@ != #[trigger] self.names@[j]@
    }

    pub open spec fn spec_contains(self, u: Seq<char>) -> bool {
        spec_has_name(self.names@, u)
    }

    pub open spec fn spec_len(self) -> int {
        self.names@.len() as int
    }

    pub fn new() -> (r: Roster)
        ensures
            r.wf(),
            r.spec_len() == 0,
    {
        Roster { names: Vec::new() }
    }

    pub fn len(&self) -> (n: usize)
        ensures
            n == self.spec_len(),
    {
        self.names.len()
    }

    pub fn contains(&self, u: &String) -> (r: bool)
        ensures
            r == self.spec_contains(u@),
    {
        let mut i: usize = 0;
        while i < self.names.len()
            invariant
                i <= self.names@.len(),
                forall|k: int| 0 <= k < i ==> #[trigger] self.names@[k]@ != u@,
            decreases self.names@.len() - i,
        {
            if self.names[i] == *u {
                return true;
            }
            i += 1;
        }
        false
    }

    /// Add a name unless it is already present; reports whether it was
    /// added.
    pub fn insert(&mut self, u: String) -> (added: bool)
        requires
            old(self).wf(),
        ensures
            final(self).wf(),
            added == !old(self).spec_contains(u@),
            final(self).spec_contains(u@),
            added ==> final(self).spec_len() == old(self).spec_len() + 1,
            !added ==> *final(self) == *old(self),
            forall|q: Seq<char>|
                q != u@ ==> #[trigger] final(self).spec_contains(q) == old(self).spec_contains(q),
    {
        let ghost pre = self.names@;
        if self.contains(&u) {
            proof {
                let w = choose|k: int| 0 <= k < pre.len() && #[trigger] pre[k]@ == u@;
                assert(spec_has_name(pre, u@));
            }
            return false;
        }
        self.names.push(u);
        proof {
            assert(self.names@[pre.len() as int]@ == u@);
            assert forall|q: Seq<char>|
                q != u@ implies #[trigger] spec_has_name(self.names@, q) == spec_has_name(
                pre,
                q,
            ) by {
                if spec_has_name(pre, q) {
                    let w = choose|k: int| 0 <= k < pre.len() && #[trigger] pre[k]@ == q;
                    assert(self.names@[w]@ == q);
                }
                if spec_has_name(self.names@, q) {
                    let w = choose|k: int|
                        0 <= k < self.names@.len() && #[trigger] self.names@[k]@ == q;
                    assert(w < pre.len());
                    assert(pre[w]@ == q);
                }
            }
        }
        true
    }

    /// Drop a name if it is present; reports whether it was there.
    pub fn remove(&mut self, u: &String) -> (removed: bool)
        requires
            old(self).wf(),
        ensures
            final(self).wf(),
            removed == old(self).spec_contains(u@),
            !final(self).spec_contains(u@),
            removed ==> final(self).spec_len() == old(self).spec_len() - 1,
            !removed ==> *final(self) == *old(self),
            forall|q: Seq<char>|
                q != u@ ==> #[trigger] final(self).spec_contains(q) == old(self).spec_contains(q),
    {
        let ghost prestate = *self;
        let ghost pre = self.names@;
        let mut i: usize = 0;
        while i < self.names.len()
            invariant
                *self == prestate,
                i <= pre.len(),
                forall|k: int| 0 <= k < i ==> #[trigger] pre[k]@ != u@,
            decreases pre.len() - i,
        {
            if self.names[i] == *u {
                self.names.remove(i);
                proof {
                    assert forall|a: int, b: int|
                        0 <= a < b < self.names@.len() implies #[trigger] self.names@[a]@
                        != #[trigger] self.names@[b]@ by {
                        let a0 = if a < i as int {
                            a
                        } else {
                            a + 1
                        };
                        let b0 = if b < i as int {
                            b
                        } else {
                            b + 1
                        };
                        assert(pre[a0]@ != pre[b0]@);
                    }
                    assert forall|k: int|
                        0 <= k < self.names@.len() implies #[trigger] self.names@[k]@ != u@ by {
                        let k0 = if k < i as int {
                            k
                        } else {
                            k + 1
                        };
                        assert(pre[k0]@ == self.names@[k]@);
                        if k0 != i as int {
                            assert(pre[k0]@ != pre[i as int]@);
                        }
                    }
                    assert forall|q: Seq<char>|
                        q != u@ implies #[trigger] spec_has_name(self.names@, q) == spec_has_name(
                        pre,
                        q,
                    ) by {
                        if spec_has_name(pre, q) {
                            let w = choose|k: int| 0 <= k < pre.len() && #[trigger] pre[k]@ == q;
                            if w < i as int {
                                assert(self.names@[w]@ == q);
                            } else {
                                assert(w != i as int);
                                assert(self.names@[w - 1]@ == q);
                            }
                        }
                        if spec_has_name(self.names@, q) {
                            let w = choose|k: int|
                                0 <= k < self.names@.len() && #[trigger] self.names@[k]@ == q;
                            if w < i as int {
                                assert(pre[w]@ == q);
                            } else {
                                assert(pre[w + 1]@ == q);
                            }
                        }
                    }
                }
                return true;
            }
            i += 1;
        }
        false
    }

    /// An element-for-element copy of the names.
    pub fn all(&self) -> (r: Vec<String>)
        ensures
            r@ == self.names@,
    {
        crate::game::clone_strings(&self.names)
    }
}

} // verus!
