//! The ban store and the operations of the lifecycle engine and the
//! query service.
//!
//! The store is the single source of truth: an append-only collection of
//! ban records (records are amended and revoked in place, never deleted),
//! with identifiers assigned densely in creation order.  Each operation
//! takes the outcome of the external capability check and the current
//! time as plain values; the transport layer supplies both.

use crate::ban::{
    active_at, amended_ban, created_ban, not_found, policy_violation, revoke_outcome, Account, Ban,
    BanError, Category, ConflictReason, Entity, EntityRef, DOWNTIME_OFFSET_SECONDS,
};
use vstd::prelude::*;

verus! {

/// The records of `bans` that satisfy `keep`, in stored order.
pub open spec fn filtered(bans: Seq<Ban>, keep: spec_fn(Ban) -> bool) -> Seq<Ban>
    decreases bans.len(),
{
    if bans.len() == 0 {
        Seq::empty()
    } else {
        let rest = filtered(bans.drop_last(), keep);
        if keep(bans.last()) {
            rest.push(bans.last())
        } else {
            rest
        }
    }
}

/// The bans of `bans` that are active at `t`, in stored order.
pub open spec fn active_bans(bans: Seq<Ban>, t: i64) -> Seq<Ban> {
    filtered(bans, |b: Ban| active_at(b, t))
}

/// Every ban of `bans` ever recorded against the given entity, active or
/// not, in stored order.
pub open spec fn entity_bans(bans: Seq<Ban>, entity_id: i64, category: Category) -> Seq<Ban> {
    filtered(bans, |b: Ban| b.entity.id == entity_id && b.entity.category == category)
}

/// Some record of `bans` carries the identifier `ban_id`.
pub open spec fn has_ban(bans: Seq<Ban>, ban_id: i64) -> bool {
    exists|i: int| 0 <= i < bans.len() && bans[i].id == ban_id
}

/// Extending the scanned prefix by one record extends its filtered image
/// by that record exactly when the record satisfies the predicate.
proof fn lemma_filtered_take_step(bans: Seq<Ban>, keep: spec_fn(Ban) -> bool, k: int)
    requires
        0 <= k < bans.len(),
    ensures
        filtered(bans.take(k + 1), keep) == if keep(bans[k]) {
            filtered(bans.take(k), keep).push(bans[k])
        } else {
            filtered(bans.take(k), keep)
        },
{
    let s = bans.take(k + 1);
    assert(s.drop_last() =~= bans.take(k));
    assert(s.last() == bans[k]);
}

/// Every record of a filtered image satisfies the predicate and comes
/// from the scanned records: the image invents nothing.
pub proof fn lemma_filtered_sound(bans: Seq<Ban>, keep: spec_fn(Ban) -> bool)
    ensures
        forall|j: int|
            0 <= j < filtered(bans, keep).len() ==> keep(#[trigger] filtered(bans, keep)[j])
                && bans.contains(filtered(bans, keep)[j]),
    decreases bans.len(),
{
    if bans.len() > 0 {
        lemma_filtered_sound(bans.drop_last(), keep);
        assert forall|j: int| 0 <= j < filtered(bans, keep).len() implies keep(
            #[trigger] filtered(bans, keep)[j],
        ) && bans.contains(filtered(bans, keep)[j]) by {
            let rest = filtered(bans.drop_last(), keep);
            if j < rest.len() {
                let i = choose|i: int|
                    0 <= i < bans.drop_last().len() && bans.drop_last()[i] == rest[j];
                assert(bans[i] == rest[j]);
            } else {
                assert(bans[bans.len() - 1] == bans.last());
            }
        }
    }
}

/// Every scanned record that satisfies the predicate appears in the
/// filtered image: the image forgets nothing.
pub proof fn lemma_filtered_complete(bans: Seq<Ban>, keep: spec_fn(Ban) -> bool)
    ensures
        forall|i: int|
            0 <= i < bans.len() && keep(#[trigger] bans[i]) ==> filtered(bans, keep).contains(
                bans[i],
            ),
    decreases bans.len(),
{
    if bans.len() > 0 {
        lemma_filtered_complete(bans.drop_last(), keep);
        assert forall|i: int| 0 <= i < bans.len() && keep(#[trigger] bans[i]) implies filtered(
            bans,
            keep,
        ).contains(bans[i]) by {
            let rest = filtered(bans.drop_last(), keep);
            if i < bans.len() - 1 {
                assert(bans.drop_last()[i] == bans[i]);
                let j = choose|j: int| 0 <= j < rest.len() && rest[j] == bans[i];
                if keep(bans.last()) {
                    assert(filtered(bans, keep)[j] == bans[i]);
                } else {
                    assert(filtered(bans, keep)[j] == bans[i]);
                }
            } else {
                assert(bans[i] == bans.last());
                assert(filtered(bans, keep).last() == bans.last());
            }
        }
    }
}

/// A filtered image of records none of which satisfies the predicate is
/// empty.
pub proof fn lemma_filtered_empty(bans: Seq<Ban>, keep: spec_fn(Ban) -> bool)
    requires
        forall|i: int| 0 <= i < bans.len() ==> !keep(bans[i]),
    ensures
        filtered(bans, keep) == Seq::<Ban>::empty(),
    decreases bans.len(),
{
    if bans.len() > 0 {
        lemma_filtered_empty(bans.drop_last(), keep);
    }
}

/// The persistent collection of ban records.  Its view is the sequence of
/// stored records in creation order.
pub struct BanStore {
    bans: Vec<Ban>,
}

impl View for BanStore {
    type V = Seq<Ban>;

    closed spec fn view(&self) -> Seq<Ban> {
        self.bans@
    }
}

impl BanStore {
    /// Well-formedness: identifiers are assigned densely in creation
    /// order (record `i` carries identifier `i + 1`), so they are unique,
    /// and the store is small enough for the next identifier to fit.
    pub open spec fn wf(&self) -> bool {
        &&& forall|i: int| 0 <= i < self@.len() ==> #[trigger] self@[i].id == i + 1
        &&& self@.len() < i64::MAX
    }

    /// An empty store.
    pub fn new() -> (s: BanStore)
        ensures
            s@ == Seq::<Ban>::empty(),
            s.wf(),
    {
        BanStore { bans: Vec::new() }
    }

    /// The number of records ever stored.
    pub fn len(&self) -> (n: usize)
        ensures
            n == self@.len(),
    {
        self.bans.len()
    }

    /// The index of the record carrying `ban_id`, if any.
    fn find(&self, ban_id: i64) -> (r: Option<usize>)
        requires
            self.wf(),
        ensures
            match r {
                Some(i) => i < self@.len() && self@[i as int].id == ban_id,
                None => !has_ban(self@, ban_id),
            },
    {
        let n = self.bans.len();
        if 1 <= ban_id && ban_id <= n as i64 {
            Some((ban_id - 1) as usize)
        } else {
            None
        }
    }

    /// Create a ban against a resolved entity.  The caller supplies the
    /// resolver's display name for the entity and the admin registry's
    /// answer for it: a privileged role forbids the ban (no record is
    /// written); otherwise a fresh record is appended, issued by `actor`
    /// at `now`, never manually revoked, with the scheduled end shifted
    /// by the downtime offset.  On success the assigned identifier is
    /// returned.
    pub fn create(
        &mut self,
        entity: EntityRef,
        entity_name: String,
        privileged_role: Option<String>,
        reason: String,
        public_reason: Option<String>,
        scheduled_end: Option<i64>,
        now: i64,
        actor: Account,
    ) -> (r: Result<i64, BanError>)
        requires
            old(self).wf(),
            old(self)@.len() + 1 < i64::MAX,
            scheduled_end matches Some(d) ==> d + DOWNTIME_OFFSET_SECONDS <= i64::MAX,
        ensures
            final(self).wf(),
            privileged_role matches Some(role) ==> r == Err::<i64, BanError>(
                policy_violation(role),
            ) && final(self)@ == old(self)@,
            privileged_role is None ==> {
                let id = old(self)@.len() + 1;
                &&& r == Ok::<i64, BanError>(id as i64)
                &&& final(self)@ == old(self)@.push(
                    created_ban(
                        id as i64,
                        entity,
                        entity_name,
                        reason,
                        public_reason,
                        scheduled_end,
                        now,
                        actor,
                    ),
                )
            },
    {
        if let Some(role) = privileged_role {
            return Err(BanError::PolicyViolation { role });
        }
        let id: i64 = self.bans.len() as i64 + 1;
        let revoked_at: Option<i64> = match scheduled_end {
            None => None,
            Some(d) => Some(d + DOWNTIME_OFFSET_SECONDS),
        };
        let record = Ban {
            id,
            entity: Entity { id: entity.id, name: entity_name, category: entity.category },
            issued_at: now,
            issued_by: actor,
            reason,
            public_reason,
            revoked_at,
            revoked_by: None,
        };
        self.bans.push(record);
        Ok(id)
    }

    /// Every ban active at `now`, in stored order, each carrying its
    /// issuing account's display identity.
    pub fn list_active(&self, authorized: bool, now: i64) -> (r: Result<Vec<Ban>, BanError>)
        ensures
            !authorized ==> r == Err::<Vec<Ban>, BanError>(BanError::Unauthorized),
            authorized ==> (r matches Ok(v) && v@ == active_bans(self@, now)),
    {
        if !authorized {
            return Err(BanError::Unauthorized);
        }
        let mut out: Vec<Ban> = Vec::new();
        let n = self.bans.len();
        let mut k: usize = 0;
        while k < n
            invariant
                n == self@.len(),
                k <= n,
                out@ == active_bans(self@.take(k as int), now),
            decreases n - k,
        {
            let b = &self.bans[k];
            proof {
                lemma_filtered_take_step(self@, |x: Ban| active_at(x, now), k as int);
            }
            if b.is_active_at(now) {
                out.push(b.duplicate());
            }
            k = k + 1;
        }
        proof {
            assert(self@.take(n as int) =~= self@);
        }
        Ok(out)
    }

    /// Every ban ever recorded against the given entity, active or not,
    /// in stored order; an entity with no history yields the empty
    /// collection, never an error.
    pub fn history(&self, authorized: bool, entity_id: i64, category: Category) -> (r: Result<
        Vec<Ban>,
        BanError,
    >)
        ensures
            !authorized ==> r == Err::<Vec<Ban>, BanError>(BanError::Unauthorized),
            authorized ==> (r matches Ok(v) && v@ == entity_bans(self@, entity_id, category)),
    {
        if !authorized {
            return Err(BanError::Unauthorized);
        }
        let mut out: Vec<Ban> = Vec::new();
        let n = self.bans.len();
        let mut k: usize = 0;
        while k < n
            invariant
                n == self@.len(),
                k <= n,
                out@ == entity_bans(self@.take(k as int), entity_id, category),
            decreases n - k,
        {
            let b = &self.bans[k];
            proof {
                lemma_filtered_take_step(
                    self@,
                    |x: Ban| x.entity.id == entity_id && x.entity.category == category,
                    k as int,
                );
            }
            if b.entity.id == entity_id && b.entity.category == category {
                out.push(b.duplicate());
            }
            k = k + 1;
        }
        proof {
            assert(self@.take(n as int) =~= self@);
        }
        Ok(out)
    }

    /// Amend a ban: allowed only while the ban is still active, and
    /// modeled as a re-issuance — reason, public reason and scheduled end
    /// are overwritten and `issued_at` / `issued_by` are re-stamped to
    /// the amending call, whether or not the texts changed.  A ban that
    /// is missing or no longer active is refused, so settled history is
    /// never silently altered.
    pub fn amend(
        &mut self,
        authorized: bool,
        ban_id: i64,
        reason: String,
        public_reason: Option<String>,
        scheduled_end: Option<i64>,
        now: i64,
        actor: Account,
    ) -> (r: Result<(), BanError>)
        requires
            old(self).wf(),
            scheduled_end matches Some(d) ==> d + DOWNTIME_OFFSET_SECONDS <= i64::MAX,
        ensures
            final(self).wf(),
            !authorized ==> r == Err::<(), BanError>(BanError::Unauthorized) && final(self)@ == old(
                self,
            )@,
            authorized && !has_ban(old(self)@, ban_id) ==> r == Err::<(), BanError>(
                not_found(ban_id),
            ) && final(self)@ == old(self)@,
            authorized ==> forall|i: int|
                0 <= i < old(self)@.len() && (#[trigger] old(self)@[i]).id == ban_id ==> if active_at(
                    old(self)@[i],
                    now,
                ) {
                    r == Ok::<(), BanError>(()) && final(self)@ == old(self)@.update(
                        i,
                        amended_ban(old(self)@[i], reason, public_reason, scheduled_end, now, actor),
                    )
                } else {
                    r == Err::<(), BanError>(not_found(ban_id)) && final(self)@ == old(self)@
                },
    {
        if !authorized {
            return Err(BanError::Unauthorized);
        }
        let idx = match self.find(ban_id) {
            None => {
                return Err(BanError::NotFound { ban_id });
            },
            Some(i) => i,
        };
        let still_active = {
            let b = &self.bans[idx];
            b.is_active_at(now)
        };
        if !still_active {
            return Err(BanError::NotFound { ban_id });
        }
        let revoked_at: Option<i64> = match scheduled_end {
            None => None,
            Some(d) => Some(d + DOWNTIME_OFFSET_SECONDS),
        };
        let old_b = self.bans.remove(idx);
        let new_b = Ban {
            id: old_b.id,
            entity: old_b.entity,
            issued_at: now,
            issued_by: actor,
            reason,
            public_reason,
            revoked_at,
            revoked_by: old_b.revoked_by,
        };
        self.bans.insert(idx, new_b);
        proof {
            assert(self@ =~= old(self)@.update(idx as int, new_b));
        }
        Ok(())
    }

    /// Revoke a ban manually.  The decision on the fetched record is
    /// `revoke_outcome`: a still-active ban (permanent or not yet
    /// expired) is stamped with `now` and `actor` — the only path that
    /// produces a manual revocation; an already-ended ban yields the
    /// conflict distinguishing scheduled expiry from an earlier manual
    /// revocation, and the store is left untouched.
    pub fn revoke(&mut self, authorized: bool, ban_id: i64, now: i64, actor: Account) -> (r:
        Result<(), BanError>)
        requires
            old(self).wf(),
        ensures
            final(self).wf(),
            !authorized ==> r == Err::<(), BanError>(BanError::Unauthorized) && final(self)@ == old(
                self,
            )@,
            authorized && !has_ban(old(self)@, ban_id) ==> r == Err::<(), BanError>(
                not_found(ban_id),
            ) && final(self)@ == old(self)@,
            authorized ==> forall|i: int|
                0 <= i < old(self)@.len() && (#[trigger] old(self)@[i]).id == ban_id
                    ==> match revoke_outcome(old(self)@[i], now, actor) {
                    Ok(nb) => r == Ok::<(), BanError>(()) && final(self)@ == old(self)@.update(i, nb),
                    Err(e) => r == Err::<(), BanError>(e) && final(self)@ == old(self)@,
                },
    {
        if !authorized {
            return Err(BanError::Unauthorized);
        }
        let idx = match self.find(ban_id) {
            None => {
                return Err(BanError::NotFound { ban_id });
            },
            Some(i) => i,
        };
        let still_active = {
            let b = &self.bans[idx];
            b.is_active_at(now)
        };
        if !still_active {
            let b = &self.bans[idx];
            match &b.revoked_by {
                None => {
                    return Err(
                        BanError::Conflict { ban_id, reason: ConflictReason::AlreadyExpired },
                    );
                },
                Some(a) => {
                    return Err(
                        BanError::Conflict {
                            ban_id,
                            reason: ConflictReason::AlreadyRevoked { by: a.duplicate() },
                        },
                    );
                },
            }
        }
        let old_b = self.bans.remove(idx);
        let new_b = Ban {
            id: old_b.id,
            entity: old_b.entity,
            issued_at: old_b.issued_at,
            issued_by: old_b.issued_by,
            reason: old_b.reason,
            public_reason: old_b.public_reason,
            revoked_at: Some(now),
            revoked_by: Some(actor),
        };
        self.bans.insert(idx, new_b);
        proof {
            assert(self@ =~= old(self)@.update(idx as int, new_b));
        }
        Ok(())
    }
}

} // verus!
