//! The identity store: the latest known display name for each subject id,
//! with last-write-wins upsert and a batched lookup that resolves unknown
//! subjects to a fixed placeholder instead of failing.

use vstd::prelude::*;
use std::collections::HashMap;

verus! {

broadcast use vstd::std_specs::hash::group_hash_axioms;

/// The placeholder name reported for a subject no name was ever associated
/// with. Absence is a normal outcome, never an error.
pub open spec fn unknown_user() -> Seq<char> {
    "unknown-user"@
}

/// The placeholder as an owned string.
pub fn unknown_user_string() -> (s: String)
    ensures
        s@ == unknown_user(),
{
    "unknown-user".to_owned()
}

/// At most one display name per subject id; later `associate_usermame`
/// calls replace earlier ones.
pub struct IdentityStore {
    names: HashMap<u64, String>,
}

impl IdentityStore {
    /// The association as a mathematical map from subject id to name text.
    pub closed spec fn name_map(&self) -> Map<u64, Seq<char>> {
        self.names@.map_values(|s: String| s@)
    }

    /// The name the store resolves `id` to: the associated name if one is
    /// known, the fixed placeholder otherwise.
    pub open spec fn resolved(&self, id: u64) -> Seq<char> {
        if self.name_map().contains_key(id) {
            self.name_map()[id]
        } else {
            unknown_user()
        }
    }

    /// An empty store: no subject has a known name.
    pub fn new() -> (s: IdentityStore)
        ensures
            s.name_map() == Map::<u64, Seq<char>>::empty(),
    {
        let names: HashMap<u64, String> = HashMap::new();
        proof {
            assert(names@.map_values(|s: String| s@) =~= Map::<u64, Seq<char>>::empty());
        }
        IdentityStore { names }
    }

    /// Upsert: after the call `id` resolves to `name`, and no other subject
    /// is touched. The last call for a given id wins.
    pub fn associate_usermame(&mut self, id: u64, name: String)
        ensures
            final(self).name_map() == old(self).name_map().insert(id, name@),
    {
        self.names.insert(id, name);
        proof {
            assert(self.name_map() =~= old(self).name_map().insert(id, name@));
        }
    }

    /// Batched lookup: one entry for each requested id (duplicates collapse),
    /// a known id resolving to its latest associated name and an unknown one
    /// to the placeholder. Never fails for individual missing entries.
    pub fn get_usernames(&self, ids: &Vec<u64>) -> (r: HashMap<u64, String>)
        ensures
            forall|id: u64| #[trigger] r@.contains_key(id) <==> ids@.contains(id),
            forall|id: u64| ids@.contains(id) ==> #[trigger] r@[id]@ == self.resolved(id),
    {
        let mut r: HashMap<u64, String> = HashMap::new();
        let n = ids.len();
        let mut i: usize = 0;
        while i < n
            invariant
                n == ids@.len(),
                0 <= i <= n,
                forall|id: u64| #[trigger] r@.contains_key(id) <==> ids@.subrange(
                    0,
                    i as int,
                ).contains(id),
                forall|id: u64| ids@.subrange(0, i as int).contains(id) ==> #[trigger] r@[id]@
                    == self.resolved(id),
            decreases n - i,
        {
            let id = ids[i];
            match self.names.get(&id) {
                Some(name) => {
                    proof {
                        assert(self.name_map().contains_key(id));
                        assert(self.name_map()[id] == name@);
                    }
                    r.insert(id, name.clone());
                },
                None => {
                    proof {
                        assert(!self.name_map().contains_key(id));
                    }
                    r.insert(id, unknown_user_string());
                },
            }
            proof {
                let pre = ids@.subrange(0, i as int);
                let post = ids@.subrange(0, (i + 1) as int);
                assert(post =~= pre.push(id));
                assert forall|x: u64| #[trigger] post.contains(x) implies pre.contains(x) || x
                    == id by {
                    let j = choose|j: int| 0 <= j < post.len() && post[j] == x;
                    if j < pre.len() {
                        assert(pre[j] == x);
                    }
                }
                assert forall|x: u64| pre.contains(x) implies #[trigger] post.contains(x) by {
                    let j = choose|j: int| 0 <= j < pre.len() && pre[j] == x;
                    assert(post[j] == x);
                }
                assert(post.contains(id)) by {
                    assert(post[i as int] == id);
                }
            }
            i += 1;
        }
        proof {
            assert(ids@.subrange(0, n as int) =~= ids@);
        }
        r
    }
}

/// Last-write-wins law: associating `a` and then `b` with the same subject
/// leaves the subject resolving to `b`, exactly as a lookup after the two
/// `associate_usermame` calls reports.
pub proof fn lemma_last_write_wins(m: Map<u64, Seq<char>>, id: u64, a: Seq<char>, b: Seq<char>)
    ensures
        m.insert(id, a).insert(id, b)[id] == b,
        m.insert(id, a).insert(id, b).contains_key(id),
{
}

} // verus!
