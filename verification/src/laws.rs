//! The general laws of the ban lifecycle, stated over the spec functions
//! that the operations' contracts use.

use crate::ban::{
    active_at, amended_ban, conflict_already_expired, conflict_already_revoked, created_ban,
    expiry_of, revoke_outcome, revoked_ban, spec_status_at, Account, Ban, BanError, Category,
    EntityRef, DOWNTIME_OFFSET_SECONDS,
};
use crate::store::{
    active_bans, entity_bans, lemma_filtered_complete, lemma_filtered_empty, lemma_filtered_sound,
};
use vstd::prelude::*;

verus! {

/// A ban is active at `t` exactly when its recorded end is absent or
/// lies strictly after `t`, and the tagged classification agrees: it
/// reads `Active` in exactly those cases.
pub proof fn lemma_active_classification(b: Ban, t: i64)
    ensures
        active_at(b, t) == (b.revoked_at is None || (b.revoked_at matches Some(r) && r > t)),
        (spec_status_at(b, t) is Active) == active_at(b, t),
{
}

/// A creation that carries a scheduled end `d` stores `d` plus the
/// downtime offset as the recorded end, and no revoking account: a
/// freshly created ban has never been manually revoked.
pub proof fn lemma_creation_schedule(
    id: i64,
    entity: EntityRef,
    entity_name: String,
    reason: String,
    public_reason: Option<String>,
    d: i64,
    now: i64,
    actor: Account,
)
    requires
        d + DOWNTIME_OFFSET_SECONDS <= i64::MAX,
    ensures
        ({
            let b = created_ban(id, entity, entity_name, reason, public_reason, Some(d), now, actor);
            &&& b.revoked_at matches Some(e) && e == d + DOWNTIME_OFFSET_SECONDS
            &&& b.revoked_by is None
        }),
        created_ban(id, entity, entity_name, reason, public_reason, None, now, actor).revoked_at
            is None,
{
}

/// Amendment is a re-issuance: whatever the old record held — in
/// particular even if the new reason text equals the old one — the
/// amended record carries the amending call's time and account, while
/// identifier, entity and any earlier revoking account stay fixed.
pub proof fn lemma_amendment_restamps(
    b: Ban,
    reason: String,
    public_reason: Option<String>,
    scheduled_end: Option<i64>,
    now: i64,
    actor: Account,
)
    ensures
        ({
            let a = amended_ban(b, reason, public_reason, scheduled_end, now, actor);
            &&& a.issued_at == now
            &&& a.issued_by == actor
            &&& a.id == b.id
            &&& a.entity == b.entity
            &&& a.revoked_at == expiry_of(scheduled_end)
            &&& a.revoked_by == b.revoked_by
        }),
{
}

/// Revoking a currently-active ban stamps the revocation instant and the
/// acting account, and the record is inactive at every instant from the
/// revocation on — immediately, not merely eventually.
pub proof fn lemma_revocation_ends_ban(b: Ban, now: i64, actor: Account, t: i64)
    requires
        active_at(b, now),
        now <= t,
    ensures
        revoke_outcome(b, now, actor) == Ok::<Ban, BanError>(revoked_ban(b, now, actor)),
        revoked_ban(b, now, actor).revoked_at == Some(now),
        revoked_ban(b, now, actor).revoked_by == Some(actor),
        !active_at(revoked_ban(b, now, actor), t),
{
}

/// Revoking a ban that already ended without any revoking account on
/// record — it expired on schedule — is refused with the already-expired
/// conflict; the store operation then leaves every record untouched.
pub proof fn lemma_expired_ban_not_revocable(b: Ban, t: i64, actor: Account)
    requires
        !active_at(b, t),
        b.revoked_by is None,
    ensures
        revoke_outcome(b, t, actor) == Err::<Ban, BanError>(conflict_already_expired(b.id)),
{
}

/// Revoking a ban that account `a` already revoked manually, attempted
/// by anyone, is refused with the conflict naming `a`; the store
/// operation then leaves every record untouched.
pub proof fn lemma_revoked_ban_not_revocable_again(b: Ban, t: i64, a: Account, actor: Account)
    requires
        !active_at(b, t),
        b.revoked_by == Some(a),
    ensures
        revoke_outcome(b, t, actor) == Err::<Ban, BanError>(conflict_already_revoked(b.id, a)),
{
}

/// The double-revocation race, serialized by the store: of two
/// revocations of the same active ban, the first (at `t1`, by `winner`)
/// succeeds, and the second (at any `t2` not before `t1`, by whoever)
/// observes the conflict naming the winner — it cannot succeed as well.
pub proof fn lemma_revocation_race(b: Ban, t1: i64, winner: Account, t2: i64, loser: Account)
    requires
        active_at(b, t1),
        t1 <= t2,
    ensures
        ({
            let first = revoke_outcome(b, t1, winner);
            &&& first matches Ok(nb) && revoke_outcome(nb, t2, loser) == Err::<Ban, BanError>(
                conflict_already_revoked(b.id, winner),
            )
        }),
{
}

/// The active listing is exact: it holds stored records that are active
/// at the listing instant, and every stored record active at that
/// instant appears in it.
pub proof fn lemma_active_listing_exact(bans: Seq<Ban>, t: i64)
    ensures
        forall|j: int|
            0 <= j < active_bans(bans, t).len() ==> active_at(#[trigger] active_bans(bans, t)[j], t)
                && bans.contains(active_bans(bans, t)[j]),
        forall|i: int|
            0 <= i < bans.len() && active_at(#[trigger] bans[i], t) ==> active_bans(
                bans,
                t,
            ).contains(bans[i]),
{
    let keep = |b: Ban| active_at(b, t);
    lemma_filtered_sound(bans, keep);
    lemma_filtered_complete(bans, keep);
}

/// The history of an entity is exact: it holds stored records of that
/// entity, active or not, and every stored record of that entity appears
/// in it.
pub proof fn lemma_history_exact(bans: Seq<Ban>, entity_id: i64, category: Category)
    ensures
        forall|j: int|
            0 <= j < entity_bans(bans, entity_id, category).len() ==> (#[trigger] entity_bans(
                bans,
                entity_id,
                category,
            )[j]).entity.id == entity_id && entity_bans(bans, entity_id, category)[j].entity.category
                == category && bans.contains(entity_bans(bans, entity_id, category)[j]),
        forall|i: int|
            0 <= i < bans.len() && (#[trigger] bans[i]).entity.id == entity_id
                && bans[i].entity.category == category ==> entity_bans(
                bans,
                entity_id,
                category,
            ).contains(bans[i]),
{
    let keep = |b: Ban| b.entity.id == entity_id && b.entity.category == category;
    lemma_filtered_sound(bans, keep);
    lemma_filtered_complete(bans, keep);
}

/// An entity with no recorded ban has an empty history: the history
/// query's contract then yields the empty collection, not an error.
pub proof fn lemma_history_empty_without_bans(bans: Seq<Ban>, entity_id: i64, category: Category)
    requires
        forall|i: int|
            0 <= i < bans.len() ==> !((#[trigger] bans[i]).entity.id == entity_id
                && bans[i].entity.category == category),
    ensures
        entity_bans(bans, entity_id, category) == Seq::<Ban>::empty(),
{
    let keep = |x: Ban| x.entity.id == entity_id && x.entity.category == category;
    assert forall|i: int| 0 <= i < bans.len() implies !keep(bans[i]) by {}
    lemma_filtered_empty(bans, keep);
}

} // verus!
