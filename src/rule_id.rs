use vstd::prelude::*;

verus! {

/// How many rules may run at the same time.
pub const MAX_RULES: usize = 128;

/// Whether `id` lies in the identifier space [0, 127].
pub open spec fn is_rule_id(id: i8) -> bool {
    0 <= id < MAX_RULES
}

/// The pool of free rule identifiers.
pub struct RuleIdPool {
    ids: Vec<i8>,
}

impl RuleIdPool {
    /// The identifiers that are free.
    pub closed spec fn free(&self) -> Set<i8> {
        self.ids@.to_set()
    }

    /// How many identifiers are free.
    pub closed spec fn count(&self) -> nat {
        self.ids@.len()
    }

    /// Every free identifier lies in [0, 127] and is held once.
    pub closed spec fn wf(&self) -> bool {
        &&& self.ids@.no_duplicates()
        &&& forall|i: int| 0 <= i < self.ids@.len() ==> is_rule_id(#[trigger] self.ids@[i])
    }

    /// The pool is empty exactly when no identifier is free, and it holds
    /// only identifiers of the identifier space.
    pub proof fn lemma_free(&self)
        requires
            self.wf(),
        ensures
            self.count() == 0 <==> self.free() == Set::<i8>::empty(),
            forall|id: i8| #[trigger] self.free().contains(id) ==> is_rule_id(id),
            self.count() <= MAX_RULES,
    {
        if self.count() == 0 {
            assert(self.free() =~= Set::<i8>::empty());
        } else {
            assert(self.free().contains(self.ids@[0]));
        }
        self.ids@.unique_seq_to_set();
        let all = Set::<i8>::new(|id: i8| is_rule_id(id));
        let s = Seq::<i8>::new(MAX_RULES as nat, |i: int| i as i8);
        assert forall|i: int, j: int| 0 <= i < s.len() && 0 <= j < s.len() && i != j
            implies s[i] != s[j] by {}
        s.unique_seq_to_set();
        assert forall|id: i8| all.contains(id) implies s.to_set().contains(id) by {
            assert(s[id as int] == id);
        }
        assert(s.to_set() =~= all);
        assert(self.free().subset_of(all));
        vstd::set_lib::lemma_len_subset(self.free(), all);
    }

    /// A pool that holds all 128 identifiers.
    pub fn new() -> (r: RuleIdPool)
        ensures
            r.wf(),
            r.count() == MAX_RULES,
            r.free() == Set::<i8>::new(|id: i8| is_rule_id(id)),
    {
        let mut ids: Vec<i8> = Vec::with_capacity(MAX_RULES);
        let mut n: i8 = 0;
        while n < 127
            invariant
                0 <= n <= 127,
                ids@.len() == n,
                forall|i: int| 0 <= i < n ==> ids@[i] == i,
            decreases 127 - n,
        {
            ids.push(n);
            n = n + 1;
        }
        ids.push(127);
        let r = RuleIdPool { ids };
        assert(r.ids@.no_duplicates());
        assert(r.free() =~= Set::<i8>::new(|id: i8| is_rule_id(id))) by {
            assert forall|id: i8| is_rule_id(id) implies r.ids@.contains(id) by {
                assert(r.ids@[id as int] == id);
            }
        }
        r
    }

    /// Takes a free identifier out of the pool, or `None` when none is free.
    pub fn get_new_rule_id(&mut self) -> (r: Option<i8>)
        requires
            old(self).wf(),
        ensures
            final(self).wf(),
            match r {
                None => old(self).count() == 0 && final(self).count() == 0
                    && final(self).free() == old(self).free(),
                Some(id) => {
                    &&& old(self).free().contains(id)
                    &&& is_rule_id(id)
                    &&& final(self).free() == old(self).free().remove(id)
                    &&& final(self).count() + 1 == old(self).count()
                },
            },
    {
        let r = self.ids.pop();
        proof {
            if let Some(id) = r {
                let o = old(self).ids@;
                assert(o == self.ids@.push(id));
                assert(o[o.len() - 1] == id);
                assert(self.free() =~= old(self).free().remove(id)) by {
                    assert forall|x: i8| old(self).free().contains(x) && x != id
                        implies self.free().contains(x) by {
                        let k = choose|k: int| 0 <= k < o.len() && o[k] == x;
                        assert(self.ids@[k] == x);
                    }
                    assert forall|x: i8| self.free().contains(x) implies x != id by {
                        let k = choose|k: int| 0 <= k < self.ids@.len() && self.ids@[k] == x;
                        assert(o[k] == x);
                    }
                }
            }
        }
        r
    }

    /// Puts an identifier that is not free back into the pool.
    pub fn release_rule_id(&mut self, id: i8)
        requires
            old(self).wf(),
            is_rule_id(id),
            !old(self).free().contains(id),
        ensures
            final(self).wf(),
            final(self).free() == old(self).free().insert(id),
            final(self).count() == old(self).count() + 1,
    {
        self.ids.push(id);
        proof {
            let o = old(self).ids@;
            assert(self.ids@ == o.push(id));
            assert(self.ids@[o.len() as int] == id);
            assert(self.free() =~= old(self).free().insert(id)) by {
                assert forall|x: i8| old(self).free().contains(x) implies self.free().contains(x) by {
                    let k = choose|k: int| 0 <= k < o.len() && o[k] == x;
                    assert(self.ids@[k] == x);
                }
                assert forall|x: i8| self.free().contains(x) && x != id
                    implies old(self).free().contains(x) by {
                    let k = choose|k: int| 0 <= k < self.ids@.len() && self.ids@[k] == x;
                    assert(o[k] == x);
                }
            }
            assert forall|i: int, j: int| 0 <= i < self.ids@.len() && 0 <= j < self.ids@.len() && i != j
                implies self.ids@[i] != self.ids@[j] by {
                if i == o.len() {
                    assert(!o.contains(id));
                } else if j == o.len() {
                    assert(o[i] == self.ids@[i]);
                    assert(!o.contains(id));
                }
            }
        }
    }
}

} // verus!
