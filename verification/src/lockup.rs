//! Lockup lifecycle: unlocking positions that defer redemption behind a
//! release time, with the redemption amount pinned at creation.

use vstd::prelude::*;

use crate::error::VaultError;

verus! {

/// Info about a currently unlocking position.
///
/// A position is immutable once created: it is only ever consumed, either
/// whole (ordinary withdrawal) or partially (whitelisted force-withdraw,
/// which deducts from the pinned amount and leaves the rest in place).
#[derive(Debug, PartialEq, Eq)]
pub struct UnlockingPosition {
    /// The ID of the lockup; unique, never reused.
    pub id: u64,
    /// The address of the owner of the lockup.
    pub owner: String,
    /// The time at which the position completes unlocking.
    pub release_at: u64,
    /// The amount of base tokens being unlocked, fixed at creation time
    /// and never recomputed against a later exchange rate.
    pub base_token_amount: u128,
}

impl UnlockingPosition {
    /// An explicit field-by-field copy.
    pub fn duplicate(&self) -> (r: UnlockingPosition)
        ensures
            r == *self,
    {
        UnlockingPosition {
            id: self.id,
            owner: self.owner.clone(),
            release_at: self.release_at,
            base_token_amount: self.base_token_amount,
        }
    }
}

/// Additional ExecuteMsg variants for vaults that enable the Lockup
/// extension.
#[derive(Debug, PartialEq, Eq)]
pub enum LockupExecuteMsg {
    /// Unlock is called to initiate unlocking a locked position held by
    /// the vault. The caller must pass the vault tokens in the funds.
    /// The new position's lockup id is returned in the response, so that
    /// automated callers can capture it without a follow-up query.
    Unlock {
        /// The amount of vault tokens to unlock.
        amount: u128,
    },
    /// Withdraw an unlocking position that has finished unlocking.
    WithdrawUnlocked {
        /// An optional recipient of the withdrawn base tokens. If not
        /// set, the caller address is used instead.
        recipient: Option<String>,
        /// The ID of the expired lockup to withdraw from.
        lockup_id: u64,
    },
}

/// Additional QueryMsg variants for vaults that enable the Lockup
/// extension.
#[derive(Debug, PartialEq, Eq)]
pub enum LockupQueryMsg {
    /// Returns all the currently unclaimed lockup positions of `owner`.
    UnlockingPositions {
        /// The address of the owner of the lockups.
        owner: String,
        /// Return results only after this lockup id.
        start_after: Option<u64>,
        /// The maximum amount of results to return.
        limit: Option<u32>,
    },
    /// Returns the info of a specific lockup, by ID.
    UnlockingPosition {
        /// The ID of the lockup to query.
        lockup_id: u64,
    },
    /// Returns the duration of the vault's lockup.
    LockupDuration {},
}

/// Positions are kept in ascending id order.
pub open spec fn spec_sorted_by_id(ps: Seq<UnlockingPosition>) -> bool {
    forall|i: int, j: int|
        0 <= i < j < ps.len() ==> #[trigger] ps[i].id < #[trigger] ps[j].id
}

/// Whether some position in `ps` carries the id `id`.
pub open spec fn spec_has_id(ps: Seq<UnlockingPosition>, id: u64) -> bool {
    exists|i: int| 0 <= i < ps.len() && #[trigger] ps[i].id == id
}

/// The index of the position carrying `id`; meaningful when ids are
/// unique and `spec_has_id` holds.
pub open spec fn spec_index_of_id(ps: Seq<UnlockingPosition>, id: u64) -> int {
    choose|i: int| 0 <= i < ps.len() && #[trigger] ps[i].id == id
}

/// The position carrying `id`.
pub open spec fn spec_position_of_id(ps: Seq<UnlockingPosition>, id: u64) -> UnlockingPosition {
    ps[spec_index_of_id(ps, id)]
}

/// In an id-sorted sequence, an index holding `id` is the only one, so it
/// is the index that `spec_index_of_id` denotes.
pub proof fn lemma_index_of_id_unique(ps: Seq<UnlockingPosition>, i: int, id: u64)
    requires
        spec_sorted_by_id(ps),
        0 <= i < ps.len(),
        ps[i].id == id,
    ensures
        spec_has_id(ps, id),
        spec_index_of_id(ps, id) == i,
{
    assert(spec_has_id(ps, id));
    let j = spec_index_of_id(ps, id);
    if i < j {
        assert(ps[i].id < ps[j].id);
    } else if j < i {
        assert(ps[j].id < ps[i].id);
    }
}

/// Positions are listed per owner with keyset pagination: at most this
/// many results when the caller names no limit.
pub const DEFAULT_LIMIT: u32 = 10;

/// The hard cap on how many positions one listing call returns, whatever
/// limit the caller names.
pub const MAX_LIMIT: u32 = 30;

/// Whether a listing for `owner` starting after `start_after` selects `p`.
pub open spec fn spec_page_match(
    p: UnlockingPosition,
    owner: Seq<char>,
    start_after: Option<u64>,
) -> bool {
    &&& p.owner@ == owner
    &&& match start_after {
        Option::None => true,
        Option::Some(s) => p.id > s,
    }
}

/// The page a listing returns: the first `limit` positions of `ps` (in
/// order) owned by `owner` with an id strictly above `start_after`.
pub open spec fn spec_page(
    ps: Seq<UnlockingPosition>,
    owner: Seq<char>,
    start_after: Option<u64>,
    limit: nat,
) -> Seq<UnlockingPosition>
    decreases ps.len(),
{
    if ps.len() == 0 || limit == 0 {
        Seq::empty()
    } else if spec_page_match(ps[0], owner, start_after) {
        seq![ps[0]] + spec_page(ps.drop_first(), owner, start_after, (limit - 1) as nat)
    } else {
        spec_page(ps.drop_first(), owner, start_after, limit)
    }
}

/// The limit a listing call actually applies: what the caller asked for,
/// defaulting to `DEFAULT_LIMIT`, and never above `MAX_LIMIT`.
pub open spec fn spec_effective_limit(limit: Option<u32>) -> nat {
    let asked = match limit {
        Option::None => DEFAULT_LIMIT,
        Option::Some(l) => l,
    };
    if asked > MAX_LIMIT {
        MAX_LIMIT as nat
    } else {
        asked as nat
    }
}

/// Between two positions of a sequence whose neighbours' ids ascend,
/// the ids ascend too.
proof fn lemma_ids_ascend_over_span(ps: Seq<UnlockingPosition>, i: int, j: int)
    requires
        forall|k: int| 0 <= k && k + 1 < ps.len() ==> #[trigger] ps[k].id < ps[k + 1].id,
        0 <= i < j < ps.len(),
    ensures
        ps[i].id < ps[j].id,
    decreases j - i,
{
    if j > i + 1 {
        lemma_ids_ascend_over_span(ps, i, j - 1);
    }
}

/// A sequence whose neighbours' ids ascend is sorted by id throughout.
proof fn lemma_adjacent_sorted(ps: Seq<UnlockingPosition>)
    requires
        forall|k: int| 0 <= k && k + 1 < ps.len() ==> #[trigger] ps[k].id < ps[k + 1].id,
    ensures
        spec_sorted_by_id(ps),
{
    assert forall|i: int, j: int| 0 <= i < j < ps.len() implies #[trigger] ps[i].id
        < #[trigger] ps[j].id by {
        lemma_ids_ascend_over_span(ps, i, j);
    }
}

/// The registry of pending unlocking positions. It allocates ids from a
/// monotonic counter that never runs backwards, so ids are never reused,
/// even after a position is withdrawn and removed.
pub struct LockupRegistry {
    /// The id the next created position will receive.
    pub next_id: u64,
    /// All pending positions, in ascending id order.
    pub positions: Vec<UnlockingPosition>,
}

impl LockupRegistry {
    /// Well-formedness: positions are sorted by strictly increasing id,
    /// and every stored id is below the counter.
    pub open spec fn wf(self) -> bool {
        &&& spec_sorted_by_id(self.positions@)
        &&& forall|i: int|
            0 <= i < self.positions@.len() ==> #[trigger] self.positions@[i].id < self.next_id
    }

    /// An empty registry, counting ids from zero.
    pub fn new() -> (r: LockupRegistry)
        ensures
            r.wf(),
            r.next_id == 0,
            r.positions@.len() == 0,
    {
        LockupRegistry { next_id: 0, positions: Vec::new() }
    }

    /// Decides well-formedness for a registry rebuilt from outside the
    /// library (say, read back from a host's storage): ascending unique
    /// ids, all below the counter.
    pub fn check_wf(&self) -> (r: bool)
        ensures
            r == self.wf(),
    {
        let n = self.positions.len();
        let mut i: usize = 0;
        while i < n
            invariant
                i <= n,
                n == self.positions@.len(),
                forall|k: int| 0 <= k < i ==> #[trigger] self.positions@[k].id < self.next_id,
                forall|k: int|
                    0 <= k < i && k + 1 < n ==> #[trigger] self.positions@[k].id < self.positions@[
                        k + 1
                    ].id,
            decreases n - i,
        {
            if self.positions[i].id >= self.next_id {
                return false;
            }
            if i + 1 < n && self.positions[i].id >= self.positions[i + 1].id {
                return false;
            }
            i = i + 1;
        }
        proof {
            lemma_adjacent_sorted(self.positions@);
        }
        true
    }

    /// The index of the position carrying `lockup_id`, if any.
    fn find_index(&self, lockup_id: u64) -> (r: Option<usize>)
        ensures
            match r {
                Some(i) => 0 <= i < self.positions@.len() && self.positions@[i as int].id
                    == lockup_id,
                None => !spec_has_id(self.positions@, lockup_id),
            },
    {
        let n = self.positions.len();
        let mut i: usize = 0;
        while i < n
            invariant
                i <= n,
                n == self.positions@.len(),
                forall|k: int| 0 <= k < i ==> #[trigger] self.positions@[k].id != lockup_id,
            decreases n - i,
        {
            if self.positions[i].id == lockup_id {
                return Some(i);
            }
            i = i + 1;
        }
        None
    }

    /// Stores a new position for `owner` over `base_token_amount` reserve
    /// tokens, maturing at `release_at`, under the next id; the counter
    /// advances by exactly one, so sequential creations receive strictly
    /// increasing, never-repeating ids.
    pub fn create_position(
        &mut self,
        owner: String,
        base_token_amount: u128,
        release_at: u64,
    ) -> (r: u64)
        requires
            old(self).wf(),
            old(self).next_id < u64::MAX,
        ensures
            final(self).wf(),
            r == old(self).next_id,
            final(self).next_id == old(self).next_id + 1,
            final(self).positions@ == old(self).positions@.push(
                (UnlockingPosition { id: old(self).next_id, owner, release_at, base_token_amount }),
            ),
    {
        let id = self.next_id;
        self.positions.push(UnlockingPosition { id, owner, release_at, base_token_amount });
        self.next_id = id + 1;
        proof {
            let ps = final(self).positions@;
            assert forall|i: int, j: int| 0 <= i < j < ps.len() implies #[trigger] ps[i].id
                < #[trigger] ps[j].id by {
                if j < ps.len() - 1 {
                    assert(old(self).positions@[i].id < old(self).positions@[j].id);
                } else {
                    assert(old(self).positions@[i].id < old(self).next_id);
                }
            }
        }
        id
    }

    /// Ordinary maturity withdrawal: fails with `NotFound` for an unknown
    /// id (so a repeated withdrawal of the same id deterministically fails),
    /// `NotMatured` before the release time, and `Unauthorized` for anyone
    /// but the owner; on success the position is removed whole and returned,
    /// its pinned amount untouched.
    pub fn withdraw(&mut self, lockup_id: u64, caller: &String, now: u64) -> (r: Result<
        UnlockingPosition,
        VaultError,
    >)
        requires
            old(self).wf(),
        ensures
            final(self).wf(),
            final(self).next_id == old(self).next_id,
            ({
                let ps = old(self).positions@;
                if !spec_has_id(ps, lockup_id) {
                    &&& r == Err::<UnlockingPosition, VaultError>(VaultError::NotFound)
                    &&& *final(self) == *old(self)
                } else {
                    let i = spec_index_of_id(ps, lockup_id);
                    let p = ps[i];
                    if now < p.release_at {
                        &&& r == Err::<UnlockingPosition, VaultError>(VaultError::NotMatured)
                        &&& *final(self) == *old(self)
                    } else if p.owner@ != caller@ {
                        &&& r == Err::<UnlockingPosition, VaultError>(VaultError::Unauthorized)
                        &&& *final(self) == *old(self)
                    } else {
                        &&& r == Ok::<UnlockingPosition, VaultError>(p)
                        &&& final(self).positions@ == ps.remove(i)
                    }
                }
            }),
    {
        let idx = match self.find_index(lockup_id) {
            Some(i) => i,
            None => {
                return Err(VaultError::NotFound);
            },
        };
        proof {
            lemma_index_of_id_unique(self.positions@, idx as int, lockup_id);
        }
        if now < self.positions[idx].release_at {
            return Err(VaultError::NotMatured);
        }
        if !(self.positions[idx].owner == *caller) {
            return Err(VaultError::Unauthorized);
        }
        let p = self.positions.remove(idx);
        Ok(p)
    }

    /// Whitelisted force-withdraw from an unlocking position, bypassing the
    /// maturity and owner checks. Without an amount the whole pinned amount
    /// is paid out and the position removed; with an amount, that much is
    /// deducted (failing with `InsufficientPosition` beyond the remainder)
    /// and the position stays in place with the same id and release time.
    pub fn force_withdraw(&mut self, lockup_id: u64, amount: Option<u128>) -> (r: Result<
        u128,
        VaultError,
    >)
        requires
            old(self).wf(),
        ensures
            final(self).wf(),
            final(self).next_id == old(self).next_id,
            ({
                let ps = old(self).positions@;
                if !spec_has_id(ps, lockup_id) {
                    &&& r == Err::<u128, VaultError>(VaultError::NotFound)
                    &&& *final(self) == *old(self)
                } else {
                    let i = spec_index_of_id(ps, lockup_id);
                    let p = ps[i];
                    match amount {
                        Option::None => {
                            &&& r == Ok::<u128, VaultError>(p.base_token_amount)
                            &&& final(self).positions@ == ps.remove(i)
                        },
                        Option::Some(a) => {
                            if a > p.base_token_amount {
                                &&& r == Err::<u128, VaultError>(VaultError::InsufficientPosition)
                                &&& *final(self) == *old(self)
                            } else {
                                &&& r == Ok::<u128, VaultError>(a)
                                &&& final(self).positions@ == ps.update(
                                    i,
                                    (UnlockingPosition {
                                        id: p.id,
                                        owner: p.owner,
                                        release_at: p.release_at,
                                        base_token_amount: (p.base_token_amount - a) as u128,
                                    }),
                                )
                            }
                        },
                    }
                }
            }),
    {
        let idx = match self.find_index(lockup_id) {
            Some(i) => i,
            None => {
                return Err(VaultError::NotFound);
            },
        };
        proof {
            lemma_index_of_id_unique(self.positions@, idx as int, lockup_id);
        }
        match amount {
            None => {
                let p = self.positions.remove(idx);
                Ok(p.base_token_amount)
            },
            Some(a) => {
                if a > self.positions[idx].base_token_amount {
                    return Err(VaultError::InsufficientPosition);
                }
                let p = self.positions.remove(idx);
                let remainder = UnlockingPosition {
                    id: p.id,
                    owner: p.owner,
                    release_at: p.release_at,
                    base_token_amount: p.base_token_amount - a,
                };
                proof {
                    let ps = old(self).positions@;
                    assert(ps.remove(idx as int).insert(
                        idx as int,
                        (UnlockingPosition {
                            id: ps[idx as int].id,
                            owner: ps[idx as int].owner,
                            release_at: ps[idx as int].release_at,
                            base_token_amount: (ps[idx as int].base_token_amount - a) as u128,
                        }),
                    ) =~= ps.update(
                        idx as int,
                        (UnlockingPosition {
                            id: ps[idx as int].id,
                            owner: ps[idx as int].owner,
                            release_at: ps[idx as int].release_at,
                            base_token_amount: (ps[idx as int].base_token_amount - a) as u128,
                        }),
                    ));
                }
                self.positions.insert(idx, remainder);
                Ok(a)
            },
        }
    }

    /// All currently pending positions owned by `owner`, in ascending id
    /// order, starting strictly after `start_after` when given, with at
    /// most `limit` (default `DEFAULT_LIMIT`, never above `MAX_LIMIT`)
    /// results. The exclusive id bound gives keyset pagination: pages stay
    /// stable under concurrent insertion, and passing the last id seen as
    /// `start_after` resumes the listing.
    pub fn unlocking_positions(
        &self,
        owner: &String,
        start_after: Option<u64>,
        limit: Option<u32>,
    ) -> (r: Vec<UnlockingPosition>)
        ensures
            r@ == spec_page(self.positions@, owner@, start_after, spec_effective_limit(limit)),
    {
        let asked: u32 = match limit {
            None => DEFAULT_LIMIT,
            Some(l) => l,
        };
        let capped: u32 = if asked > MAX_LIMIT {
            MAX_LIMIT
        } else {
            asked
        };
        let lim: usize = capped as usize;
        let ghost glim: nat = spec_effective_limit(limit);

        let n = self.positions.len();
        let mut out: Vec<UnlockingPosition> = Vec::new();
        let mut i: usize = 0;
        proof {
            assert(self.positions@.skip(0) =~= self.positions@);
            assert(out@ + spec_page(self.positions@, owner@, start_after, glim) =~= spec_page(
                self.positions@,
                owner@,
                start_after,
                glim,
            ));
        }
        while i < n && out.len() < lim
            invariant
                i <= n,
                n == self.positions@.len(),
                out@.len() <= lim,
                lim == glim,
                out@ + spec_page(
                    self.positions@.skip(i as int),
                    owner@,
                    start_after,
                    (glim - out@.len()) as nat,
                ) == spec_page(self.positions@, owner@, start_after, glim),
            decreases n - i,
        {
            let ghost pre = self.positions@.skip(i as int);
            let ghost lrem = (glim - out@.len()) as nat;
            proof {
                assert(pre[0] == self.positions@[i as int]);
                assert(pre.drop_first() =~= self.positions@.skip(i as int + 1));
            }
            let p = &self.positions[i];
            let selected = (p.owner == *owner) && (match start_after {
                None => true,
                Some(s) => p.id > s,
            });
            if selected {
                out.push(p.duplicate());
                proof {
                    assert(spec_page(pre, owner@, start_after, lrem) == seq![pre[0]] + spec_page(
                        pre.drop_first(),
                        owner@,
                        start_after,
                        (lrem - 1) as nat,
                    ));
                    assert(out@ + spec_page(
                        self.positions@.skip(i as int + 1),
                        owner@,
                        start_after,
                        (glim - out@.len()) as nat,
                    ) =~= spec_page(self.positions@, owner@, start_after, glim));
                }
            } else {
                proof {
                    assert(spec_page(pre, owner@, start_after, lrem) == spec_page(
                        pre.drop_first(),
                        owner@,
                        start_after,
                        lrem,
                    ));
                }
            }
            i = i + 1;
        }
        proof {
            // Either the whole registry was walked or the page filled up;
            // both leave nothing more for the page to take.
            if i == n {
                assert(self.positions@.skip(n as int) =~= Seq::<UnlockingPosition>::empty());
            }
            assert(spec_page(
                self.positions@.skip(i as int),
                owner@,
                start_after,
                (glim - out@.len()) as nat,
            ) =~= Seq::<UnlockingPosition>::empty());
            assert(out@ + Seq::<UnlockingPosition>::empty() =~= out@);
        }
        out
    }

    /// The position carrying `lockup_id`, or `NotFound`.
    pub fn unlocking_position(&self, lockup_id: u64) -> (r: Result<UnlockingPosition, VaultError>)
        requires
            self.wf(),
        ensures
            if spec_has_id(self.positions@, lockup_id) {
                r == Ok::<UnlockingPosition, VaultError>(
                    spec_position_of_id(self.positions@, lockup_id),
                )
            } else {
                r == Err::<UnlockingPosition, VaultError>(VaultError::NotFound)
            },
    {
        match self.find_index(lockup_id) {
            Some(i) => {
                proof {
                    lemma_index_of_id_unique(self.positions@, i as int, lockup_id);
                }
                Ok(self.positions[i].duplicate())
            },
            None => Err(VaultError::NotFound),
        }
    }
}

} // verus!
