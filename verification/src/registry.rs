use vstd::prelude::*;
use crate::tenant::TenantId;

verus! {

/// What `record` does to the sequence of known tenants: a tenant that is
/// already known changes nothing, a new one goes to the end.
pub open spec fn recorded(known: Seq<TenantId>, id: TenantId) -> Seq<TenantId> {
    if known.contains(id) {
        known
    } else {
        known.push(id)
    }
}

/// The tenants known so far, in the order in which they were first seen.
///
/// The registry starts empty and only grows. It never holds a tenant twice.
pub struct TenantRegistry {
    ids: Vec<TenantId>,
}

impl View for TenantRegistry {
    type V = Seq<TenantId>;

    closed spec fn view(&self) -> Seq<TenantId> {
        self.ids@
    }
}

impl TenantRegistry {
    /// No tenant is held twice. This holds of a new registry and `record`
    /// keeps it.
    pub open spec fn wf(&self) -> bool {
        self@.no_duplicates()
    }

    /// An empty registry.
    pub fn new() -> (r: TenantRegistry)
        ensures
            r.wf(),
            r@ == Seq::<TenantId>::empty(),
    {
        TenantRegistry { ids: Vec::new() }
    }

    /// Whether `id` is known.
    pub fn contains(&self, id: TenantId) -> (r: bool)
        ensures
            r == self@.contains(id),
    {
        let mut i: usize = 0;
        while i < self.ids.len()
            invariant
                i <= self.ids.len(),
                forall|j: int| 0 <= j < i ==> self.ids@[j] != id,
            decreases self.ids.len() - i,
        {
            if self.ids[i] == id {
                return true;
            }
            i += 1;
        }
        false
    }

    /// Makes `id` known. Returns whether it was new.
    pub fn record(&mut self, id: TenantId) -> (added: bool)
        ensures
            added == !old(self)@.contains(id),
            final(self)@ == recorded(old(self)@, id),
            old(self).wf() ==> final(self).wf(),
    {
        if self.contains(id) {
            false
        } else {
            self.ids.push(id);
            true
        }
    }

    /// Number of known tenants.
    pub fn len(&self) -> (n: usize)
        ensures
            n == self@.len(),
    {
        self.ids.len()
    }

    /// A copy of the known tenants, in order, as they are at this moment.
    /// Later calls of `record` do not reach the copy.
    pub fn snapshot(&self) -> (r: Vec<TenantId>)
        ensures
            r@ == self@,
    {
        let mut out: Vec<TenantId> = Vec::new();
        let mut i: usize = 0;
        while i < self.ids.len()
            invariant
                i <= self.ids.len(),
                out@ == self.ids@.take(i as int),
            decreases self.ids.len() - i,
        {
            out.push(self.ids[i]);
            proof {
                assert(self.ids@.take(i as int).push(self.ids@[i as int]) =~= self.ids@.take(i + 1));
            }
            i += 1;
        }
        proof {
            assert(self.ids@.take(self.ids@.len() as int) =~= self.ids@);
        }
        out
    }
}

/// The known tenants after `record` has been called for each of `ids`, one
/// call after the other.
pub open spec fn recorded_all(known: Seq<TenantId>, ids: Seq<TenantId>) -> Seq<TenantId>
    decreases ids.len(),
{
    if ids.len() == 0 {
        known
    } else {
        recorded(recorded_all(known, ids.drop_last()), ids.last())
    }
}

/// Recording only appends: what was known stays where it was, no tenant is
/// ever held twice, and in the end exactly those tenants are held that were
/// known before or were given.
pub proof fn lemma_recording_only_appends(known: Seq<TenantId>, ids: Seq<TenantId>)
    requires
        known.no_duplicates(),
    ensures
        recorded_all(known, ids).no_duplicates(),
        known.is_prefix_of(recorded_all(known, ids)),
        forall|id: TenantId|
            recorded_all(known, ids).contains(id) <==> known.contains(id) || ids.contains(id),
    decreases ids.len(),
{
    let all = recorded_all(known, ids);
    if ids.len() > 0 {
        let earlier = ids.drop_last();
        let before = recorded_all(known, earlier);
        lemma_recording_only_appends(known, earlier);
        assert forall|id: TenantId| all.contains(id) <==> known.contains(id) || ids.contains(
            id,
        ) by {
            if all.contains(id) {
                let i = choose|i: int| 0 <= i < all.len() && all[i] == id;
                if i < before.len() {
                    assert(before[i] == id);
                    if earlier.contains(id) {
                        let j = choose|j: int| 0 <= j < earlier.len() && earlier[j] == id;
                        assert(ids[j] == id);
                    }
                } else {
                    assert(ids[ids.len() - 1] == id);
                }
            }
            if ids.contains(id) && !earlier.contains(id) {
                let j = choose|j: int| 0 <= j < ids.len() && ids[j] == id;
                if j < earlier.len() {
                    assert(earlier[j] == id);
                }
                assert(id == ids.last());
            }
            if before.contains(id) {
                let i = choose|i: int| 0 <= i < before.len() && before[i] == id;
                assert(all[i] == id);
            } else if id == ids.last() {
                assert(all[before.len() as int] == id);
            }
        }
    }
}

/// Tenants that are all different are all kept, and in the order in which
/// they came.
pub proof fn lemma_distinct_ids_are_all_kept(ids: Seq<TenantId>)
    requires
        ids.no_duplicates(),
    ensures
        recorded_all(Seq::empty(), ids) == ids,
    decreases ids.len(),
{
    if ids.len() == 0 {
        assert(recorded_all(Seq::empty(), ids) =~= ids);
    } else {
        let earlier = ids.drop_last();
        lemma_distinct_ids_are_all_kept(earlier);
        assert(!earlier.contains(ids.last())) by {
            if earlier.contains(ids.last()) {
                let j = choose|j: int| 0 <= j < earlier.len() && earlier[j] == ids.last();
                assert(ids[j] == ids[ids.len() - 1]);
            }
        }
        assert(earlier.push(ids.last()) =~= ids);
    }
}

/// The order in which writers reach the registry decides only the order of
/// the tenants in it: the same calls of `record`, made in any two orders,
/// leave the same tenants, each of them once.
pub proof fn lemma_arrival_order_is_immaterial(first: Seq<TenantId>, second: Seq<TenantId>)
    requires
        first.to_multiset() == second.to_multiset(),
    ensures
        recorded_all(Seq::empty(), first).to_multiset() == recorded_all(
            Seq::empty(),
            second,
        ).to_multiset(),
        recorded_all(Seq::empty(), first).len() == recorded_all(Seq::empty(), second).len(),
        recorded_all(Seq::empty(), first).no_duplicates(),
        recorded_all(Seq::empty(), second).no_duplicates(),
{
    let none = Seq::<TenantId>::empty();
    let a = recorded_all(none, first);
    let b = recorded_all(none, second);
    lemma_recording_only_appends(none, first);
    lemma_recording_only_appends(none, second);
    a.lemma_multiset_has_no_duplicates();
    b.lemma_multiset_has_no_duplicates();
    first.to_multiset_ensures();
    second.to_multiset_ensures();
    a.to_multiset_ensures();
    b.to_multiset_ensures();
    assert forall|id: TenantId| a.to_multiset().count(id) == b.to_multiset().count(id) by {
        assert(!none.contains(id));
        assert(first.contains(id) <==> first.to_multiset().count(id) > 0);
        assert(second.contains(id) <==> second.to_multiset().count(id) > 0);
        assert(a.contains(id) <==> a.to_multiset().count(id) > 0);
        assert(b.contains(id) <==> b.to_multiset().count(id) > 0);
        if a.contains(id) {
            assert(a.to_multiset().contains(id));
            assert(b.to_multiset().contains(id));
        }
    }
    assert(a.to_multiset() =~= b.to_multiset());
}

} // verus!
