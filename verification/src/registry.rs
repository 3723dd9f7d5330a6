//! The set of tracked call-target identities: built once from the host's
//! symbol resolutions before any call site is scanned, read-only afterwards.

use vstd::prelude::*;
use vstd::string::StringExecFns;

verus! {

/// The configured data-access API names whose call sites are scanned: the
/// query-building entry points of the SQL execution crate. The host's
/// symbol resolver turns each, against each discovered copy of that crate,
/// into zero or more call-target identities.
pub fn sqlx_query_names() -> (r: Vec<String>)
    ensures
        r@.len() == 7,
        r@[0]@ == "query"@,
        r@[1]@ == "query_as"@,
        r@[2]@ == "query_as_with"@,
        r@[3]@ == "query_scalar"@,
        r@[4]@ == "query_scalar_with"@,
        r@[5]@ == "query_with"@,
        r@[6]@ == "raw_sql"@,
{
    let mut r: Vec<String> = Vec::new();
    r.push(String::from_str("query"));
    r.push(String::from_str("query_as"));
    r.push(String::from_str("query_as_with"));
    r.push(String::from_str("query_scalar"));
    r.push(String::from_str("query_scalar_with"));
    r.push(String::from_str("query_with"));
    r.push(String::from_str("raw_sql"));
    r
}

/// A set of stable call-target identities. Duplicates collapse and order is
/// irrelevant: membership is all that is ever asked of it.
pub struct TrackedSet {
    ids: Vec<u64>,
}

impl TrackedSet {
    /// The identities the set holds.
    pub closed spec fn ids_set(self) -> Set<u64> {
        self.ids@.to_set()
    }

    /// An empty set.
    pub fn new() -> (r: TrackedSet)
        ensures
            r.ids_set() == Set::<u64>::empty(),
    {
        let r = TrackedSet { ids: Vec::new() };
        proof {
            assert(r.ids_set() =~= Set::<u64>::empty());
        }
        r
    }

    /// Whether `id` is tracked.
    pub fn contains(&self, id: u64) -> (r: bool)
        ensures
            r == self.ids_set().contains(id),
    {
        let mut i: usize = 0;
        while i < self.ids.len()
            invariant
                i <= self.ids.len(),
                forall|j: int| 0 <= j < i ==> self.ids@[j] != id,
            decreases self.ids.len() - i,
        {
            if self.ids[i] == id {
                proof {
                    assert(self.ids@.contains(id));
                }
                return true;
            }
            i += 1;
        }
        proof {
            assert(!self.ids@.contains(id));
        }
        false
    }

    /// Adds one identity; inserting an already-tracked identity changes
    /// nothing.
    pub fn insert(&mut self, id: u64)
        ensures
            final(self).ids_set() == old(self).ids_set().insert(id),
    {
        if !self.contains(id) {
            self.ids.push(id);
            proof {
                old(self).ids@.lemma_push_to_set_commute(id);
            }
        }
        proof {
            assert(self.ids_set() =~= old(self).ids_set().insert(id));
        }
    }

    /// Builds the tracked set from the resolutions the host's symbol table
    /// returned, one (possibly empty) group of identities per configured API
    /// path. A path that resolved to nothing contributes no identities; a
    /// name resolving to several targets contributes them all.
    pub fn build(resolutions: &Vec<Vec<u64>>) -> (r: TrackedSet)
        ensures
            forall|id: u64|
                r.ids_set().contains(id) <==> (exists|i: int|
                    0 <= i < resolutions@.len() && resolutions@[i]@.contains(id)),
    {
        let mut r = TrackedSet::new();
        let mut i: usize = 0;
        while i < resolutions.len()
            invariant
                i <= resolutions.len(),
                forall|id: u64|
                    r.ids_set().contains(id) <==> (exists|i0: int|
                        0 <= i0 < i && resolutions@[i0]@.contains(id)),
            decreases resolutions.len() - i,
        {
            let group = &resolutions[i];
            let mut j: usize = 0;
            while j < group.len()
                invariant
                    j <= group.len(),
                    group == &resolutions@[i as int],
                    i < resolutions.len(),
                    forall|id: u64|
                        r.ids_set().contains(id) <==> ((exists|i0: int|
                            0 <= i0 < i && resolutions@[i0]@.contains(id))
                            || group@.take(j as int).contains(id)),
                decreases group.len() - j,
            {
                proof {
                    assert(group@.take(j + 1)[j as int] == group@[j as int]);
                    assert(forall|id: u64|
                        group@.take(j as int).contains(id)
                            ==> #[trigger] group@.take(j + 1).contains(id)) by {
                        assert(forall|k: int|
                            0 <= k < j ==> group@.take(j + 1)[k] == #[trigger] group@.take(
                                j as int,
                            )[k]);
                    }
                    assert(forall|id: u64|
                        #[trigger] group@.take(j + 1).contains(id) && id != group@[j as int]
                            ==> group@.take(j as int).contains(id));
                }
                r.insert(group[j]);
                j += 1;
            }
            i += 1;
            proof {
                assert(group@.take(group@.len() as int) =~= group@);
            }
        }
        r
    }
}

} // verus!
