//! The ban record, its classification, and the pure lifecycle rules.
//!
//! A ban's end is recorded in a single dual-purpose field: `revoked_at`
//! absent means "permanent, no scheduled end"; `revoked_at` present means
//! "this ban ceases to be active at or after this instant", whether that
//! instant was a pre-scheduled expiry or a manual revocation.  The
//! distinguishing signal is `revoked_by`: present only for a manual
//! revocation.  All call sites share the one classification function
//! `status_at` instead of re-deriving the rule ad hoc.

use vstd::prelude::*;

verus! {

/// Fixed grace offset, in seconds, added to a caller-supplied scheduled
/// end so that expiry lands on the system's daily maintenance window
/// (11 hours past the supplied day boundary).
pub const DOWNTIME_OFFSET_SECONDS: i64 = 60 * 60 * 11;

/// The fixed set of entity kinds a ban can target.
#[derive(Clone, Copy, PartialEq, Eq, Structural, Debug)]
pub enum Category {
    Character,
    Corporation,
}

/// A reference to an entity as supplied by a caller: category plus
/// numeric identifier, before the display name has been resolved.
#[derive(Clone, Copy, PartialEq, Eq, Structural, Debug)]
pub struct EntityRef {
    pub id: i64,
    pub category: Category,
}

/// A banned subject: numeric identifier (unique within its category),
/// resolved display name, and category.  Immutable once attached to a ban.
#[derive(Debug)]
pub struct Entity {
    pub id: i64,
    pub name: String,
    pub category: Category,
}

/// An acting moderator account: identifier plus display identity.
#[derive(Debug)]
pub struct Account {
    pub id: i64,
    pub name: String,
}

/// The central record.  `issued_at` / `issued_by` reflect the creation or
/// the most recent amendment; `revoked_at` / `revoked_by` carry the
/// dual-purpose end-of-life information described at module level.
#[derive(Debug)]
pub struct Ban {
    pub id: i64,
    pub entity: Entity,
    pub issued_at: i64,
    pub issued_by: Account,
    pub reason: String,
    pub public_reason: Option<String>,
    pub revoked_at: Option<i64>,
    pub revoked_by: Option<Account>,
}

/// Lifecycle classification of a ban record at a given instant.
#[derive(Debug)]
pub enum BanStatus {
    Active,
    ScheduledExpiry { at: i64 },
    ManuallyRevoked { at: i64, by: Account },
}

/// A ban is active at time `t` iff it has no recorded end, or its
/// recorded end lies strictly in the future.
pub open spec fn active_at(b: Ban, t: i64) -> bool {
    match b.revoked_at {
        None => true,
        Some(r) => r > t,
    }
}

/// The authoritative classification: active, ended by scheduled expiry
/// (no revoking account), or manually revoked (revoking account known).
pub open spec fn spec_status_at(b: Ban, t: i64) -> BanStatus {
    match b.revoked_at {
        None => BanStatus::Active,
        Some(r) => if r > t {
            BanStatus::Active
        } else {
            match b.revoked_by {
                None => BanStatus::ScheduledExpiry { at: r },
                Some(a) => BanStatus::ManuallyRevoked { at: r, by: a },
            }
        },
    }
}

/// Why a state transition on an otherwise-existing ban was refused.
#[derive(Debug)]
pub enum ConflictReason {
    /// The ban already ended by scheduled expiry; there is nothing left
    /// to revoke after the fact.
    AlreadyExpired,
    /// Another moderator already revoked the ban manually.
    AlreadyRevoked { by: Account },
}

/// The error taxonomy of the ban operations.  Every variant carries the
/// context a caller needs to render a human-readable message.
#[derive(Debug)]
pub enum BanError {
    /// The capability check failed; surfaced before any other validation.
    Unauthorized,
    /// The request shape is missing a required part (the entity).
    MalformedRequest,
    /// The request is well-formed but forbidden by a business rule:
    /// the target entity holds the named privileged role.
    PolicyViolation { role: String },
    /// No ban with the given identifier (for amendment: none that is
    /// still active).
    NotFound { ban_id: i64 },
    /// The lifecycle state of the ban does not permit the transition.
    Conflict { ban_id: i64, reason: ConflictReason },
    /// An external collaborator (the entity resolver) failed; never
    /// produced by the verified core itself.
    UpstreamDependency { detail: String },
}

pub open spec fn not_found(ban_id: i64) -> BanError {
    BanError::NotFound { ban_id }
}

pub open spec fn policy_violation(role: String) -> BanError {
    BanError::PolicyViolation { role }
}

pub open spec fn conflict_already_expired(ban_id: i64) -> BanError {
    BanError::Conflict { ban_id, reason: ConflictReason::AlreadyExpired }
}

pub open spec fn conflict_already_revoked(ban_id: i64, by: Account) -> BanError {
    BanError::Conflict { ban_id, reason: ConflictReason::AlreadyRevoked { by } }
}

/// The stored end instant derived from an optional caller-supplied
/// scheduled end: absent stays absent (a permanent ban); present is
/// shifted by the downtime offset.
pub open spec fn expiry_of(scheduled_end: Option<i64>) -> Option<i64> {
    match scheduled_end {
        None => None,
        Some(d) => Some((d + DOWNTIME_OFFSET_SECONDS) as i64),
    }
}

/// The record a successful creation stores: freshly issued by `actor` at
/// `now`, never manually revoked, with the offset scheduled end.
pub open spec fn created_ban(
    id: i64,
    entity: EntityRef,
    entity_name: String,
    reason: String,
    public_reason: Option<String>,
    scheduled_end: Option<i64>,
    now: i64,
    actor: Account,
) -> Ban {
    Ban {
        id,
        entity: Entity { id: entity.id, name: entity_name, category: entity.category },
        issued_at: now,
        issued_by: actor,
        reason,
        public_reason,
        revoked_at: expiry_of(scheduled_end),
        revoked_by: None,
    }
}

/// The record a successful amendment stores: amendment is a re-issuance,
/// so `issued_at` / `issued_by` are re-stamped to the amending call while
/// identifier and entity stay fixed.
pub open spec fn amended_ban(
    b: Ban,
    reason: String,
    public_reason: Option<String>,
    scheduled_end: Option<i64>,
    now: i64,
    actor: Account,
) -> Ban {
    Ban {
        issued_at: now,
        issued_by: actor,
        reason,
        public_reason,
        revoked_at: expiry_of(scheduled_end),
        ..b
    }
}

/// The record a successful manual revocation stores.
pub open spec fn revoked_ban(b: Ban, now: i64, actor: Account) -> Ban {
    Ban { revoked_at: Some(now), revoked_by: Some(actor), ..b }
}

/// The revocation decision on a single fetched record: a still-active ban
/// becomes manually revoked; an already-ended one yields the conflict that
/// tells the caller whether it expired on schedule or who revoked it.
pub open spec fn revoke_outcome(b: Ban, now: i64, actor: Account) -> Result<Ban, BanError> {
    if active_at(b, now) {
        Ok(revoked_ban(b, now, actor))
    } else {
        match b.revoked_by {
            None => Err(conflict_already_expired(b.id)),
            Some(a) => Err(conflict_already_revoked(b.id, a)),
        }
    }
}

/// Entry validation of a creation request: the capability check comes
/// first, so an unauthorized caller learns nothing else; then the entity
/// must be present and fully specified.
pub fn validate_create_request(authorized: bool, entity: Option<EntityRef>) -> (r: Result<
    EntityRef,
    BanError,
>)
    ensures
        !authorized ==> r == Err::<EntityRef, BanError>(BanError::Unauthorized),
        authorized && entity is None ==> r == Err::<EntityRef, BanError>(
            BanError::MalformedRequest,
        ),
        authorized ==> (entity matches Some(e) ==> r == Ok::<EntityRef, BanError>(e)),
{
    if !authorized {
        Err(BanError::Unauthorized)
    } else {
        match entity {
            None => Err(BanError::MalformedRequest),
            Some(e) => Ok(e),
        }
    }
}

impl Ban {
    /// Executable form of `active_at`.
    pub fn is_active_at(&self, t: i64) -> (r: bool)
        ensures
            r == active_at(*self, t),
    {
        match self.revoked_at {
            None => true,
            Some(r) => r > t,
        }
    }

    /// Executable form of `spec_status_at`.
    pub fn status_at(&self, t: i64) -> (s: BanStatus)
        ensures
            s == spec_status_at(*self, t),
    {
        match self.revoked_at {
            None => BanStatus::Active,
            Some(r) => if r > t {
                BanStatus::Active
            } else {
                match &self.revoked_by {
                    None => BanStatus::ScheduledExpiry { at: r },
                    Some(a) => BanStatus::ManuallyRevoked { at: r, by: a.duplicate() },
                }
            },
        }
    }

    /// A field-for-field copy, equal to the original.
    pub fn duplicate(&self) -> (r: Ban)
        ensures
            r == *self,
    {
        Ban {
            id: self.id,
            entity: self.entity.duplicate(),
            issued_at: self.issued_at,
            issued_by: self.issued_by.duplicate(),
            reason: self.reason.clone(),
            public_reason: duplicate_opt_string(&self.public_reason),
            revoked_at: self.revoked_at,
            revoked_by: match &self.revoked_by {
                None => None,
                Some(a) => Some(a.duplicate()),
            },
        }
    }
}

impl Entity {
    /// A field-for-field copy, equal to the original.
    pub fn duplicate(&self) -> (r: Entity)
        ensures
            r == *self,
    {
        Entity { id: self.id, name: self.name.clone(), category: self.category }
    }
}

impl Account {
    /// A field-for-field copy, equal to the original.
    pub fn duplicate(&self) -> (r: Account)
        ensures
            r == *self,
    {
        Account { id: self.id, name: self.name.clone() }
    }
}

fn duplicate_opt_string(o: &Option<String>) -> (r: Option<String>)
    ensures
        r == *o,
{
    match o {
        None => None,
        Some(s) => Some(s.clone()),
    }
}

} // verus!
