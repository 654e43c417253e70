//! Whitelist store: the set of addresses authorized to bypass the
//! lockup, and the admin gate on changing it.

use vstd::prelude::*;

use crate::error::VaultError;

verus! {

/// Whether the address `who` occurs among `names`.
pub open spec fn spec_contains_name(names: Seq<String>, who: Seq<char>) -> bool {
    exists|i: int| 0 <= i < names.len() && #[trigger] names[i]@ == who
}

/// Pushing a name adds exactly that name: nothing else appears or
/// disappears.
pub proof fn lemma_contains_name_push(names: Seq<String>, x: String, who: Seq<char>)
    ensures
        spec_contains_name(names.push(x), who) <==> (spec_contains_name(names, who) || x@ == who),
{
    if spec_contains_name(names.push(x), who) {
        let i = choose|i: int| 0 <= i < names.push(x).len() && names.push(x)[i]@ == who;
        if i < names.len() {
            assert(names[i]@ == who);
        } else {
            assert(x@ == who);
        }
    }
    if spec_contains_name(names, who) {
        let i = choose|i: int| 0 <= i < names.len() && names[i]@ == who;
        assert(names.push(x)[i]@ == who);
    }
    if x@ == who {
        assert(names.push(x)[names.len() as int]@ == who);
    }
}

/// Whether `who` occurs in the vector `names`.
fn name_in_vec(names: &Vec<String>, who: &String) -> (r: bool)
    ensures
        r == spec_contains_name(names@, who@),
{
    let n = names.len();
    let mut i: usize = 0;
    while i < n
        invariant
            i <= n,
            n == names@.len(),
            forall|k: int| 0 <= k < i ==> #[trigger] names@[k]@ != who@,
        decreases n - i,
    {
        if names[i] == *who {
            assert(names@[i as int]@ == who@);
            return true;
        }
        i = i + 1;
    }
    false
}

/// The set of addresses permitted to bypass the lock, owned by the vault
/// and mutable only through the admin.
pub struct WhitelistStore {
    /// The vault admin, the only identity allowed to change the whitelist.
    pub admin: String,
    /// The whitelisted addresses.
    pub members: Vec<String>,
}

impl WhitelistStore {
    /// An empty whitelist under the given admin.
    pub fn new(admin: String) -> (r: WhitelistStore)
        ensures
            r.admin == admin,
            r.members@.len() == 0,
    {
        WhitelistStore { admin, members: Vec::new() }
    }

    /// Whether `who` may bypass the lock.
    pub fn is_whitelisted(&self, who: &String) -> (r: bool)
        ensures
            r == spec_contains_name(self.members@, who@),
    {
        name_in_vec(&self.members, who)
    }

    /// Applies an add-list and a remove-list as one atomic set update.
    ///
    /// Only the admin may call; everyone else gets `Unauthorized` and the
    /// whitelist is untouched. An address named in both lists ends up
    /// removed: remove takes precedence.
    pub fn update(&mut self, caller: &String, add: &Vec<String>, remove: &Vec<String>) -> (r:
        Result<(), VaultError>)
        ensures
            final(self).admin == old(self).admin,
            if old(self).admin@ != caller@ {
                &&& r == Err::<(), VaultError>(VaultError::Unauthorized)
                &&& *final(self) == *old(self)
            } else {
                &&& r == Ok::<(), VaultError>(())
                &&& forall|who: Seq<char>|
                    #![trigger spec_contains_name(final(self).members@, who)]
                    spec_contains_name(final(self).members@, who) <==> ((spec_contains_name(
                        old(self).members@,
                        who,
                    ) || spec_contains_name(add@, who)) && !spec_contains_name(remove@, who))
            },
    {
        if !(self.admin == *caller) {
            return Err(VaultError::Unauthorized);
        }
        // The union of the current members and the add-list.
        let mut merged: Vec<String> = Vec::new();
        let n = self.members.len();
        let mut i: usize = 0;
        while i < n
            invariant
                i <= n,
                n == self.members@.len(),
                merged@.len() == i,
                forall|k: int| 0 <= k < i ==> #[trigger] merged@[k] == self.members@[k],
            decreases n - i,
        {
            merged.push(self.members[i].clone());
            i = i + 1;
        }
        proof {
            assert(merged@ =~= self.members@);
        }
        let m = add.len();
        let mut j: usize = 0;
        while j < m
            invariant
                j <= m,
                m == add@.len(),
                forall|who: Seq<char>|
                    #![trigger spec_contains_name(merged@, who)]
                    spec_contains_name(merged@, who) <==> (spec_contains_name(
                        self.members@,
                        who,
                    ) || spec_contains_name(add@.take(j as int), who)),
            decreases m - j,
        {
            let ghost pre = merged@;
            if !name_in_vec(&merged, &add[j]) {
                merged.push(add[j].clone());
            }
            proof {
                assert(add@.take(j as int + 1) =~= add@.take(j as int).push(add@[j as int]));
                assert forall|who: Seq<char>|
                    spec_contains_name(merged@, who) <==> (spec_contains_name(self.members@, who)
                        || spec_contains_name(add@.take(j as int + 1), who)) by {
                    lemma_contains_name_push(add@.take(j as int), add@[j as int], who);
                    lemma_contains_name_push(pre, add@[j as int], who);
                    assert(spec_contains_name(pre, who) <==> (spec_contains_name(
                        self.members@,
                        who,
                    ) || spec_contains_name(add@.take(j as int), who)));
                }
            }
            j = j + 1;
        }
        proof {
            assert(add@.take(m as int) =~= add@);
        }
        // Strike the remove-list from the union.
        let mut kept: Vec<String> = Vec::new();
        let t = merged.len();
        let mut k: usize = 0;
        while k < t
            invariant
                k <= t,
                t == merged@.len(),
                forall|who: Seq<char>|
                    #![trigger spec_contains_name(kept@, who)]
                    spec_contains_name(kept@, who) <==> (spec_contains_name(
                        merged@.take(k as int),
                        who,
                    ) && !spec_contains_name(remove@, who)),
            decreases t - k,
        {
            let ghost pre = kept@;
            if !name_in_vec(remove, &merged[k]) {
                kept.push(merged[k].clone());
            }
            proof {
                assert(merged@.take(k as int + 1) =~= merged@.take(k as int).push(
                    merged@[k as int],
                ));
                assert forall|who: Seq<char>|
                    spec_contains_name(kept@, who) <==> (spec_contains_name(
                        merged@.take(k as int + 1),
                        who,
                    ) && !spec_contains_name(remove@, who)) by {
                    lemma_contains_name_push(merged@.take(k as int), merged@[k as int], who);
                    lemma_contains_name_push(pre, merged@[k as int], who);
                    assert(spec_contains_name(pre, who) <==> (spec_contains_name(
                        merged@.take(k as int),
                        who,
                    ) && !spec_contains_name(remove@, who)));
                }
            }
            k = k + 1;
        }
        proof {
            assert(merged@.take(t as int) =~= merged@);
        }
        self.members = kept;
        Ok(())
    }
}

} // verus!
