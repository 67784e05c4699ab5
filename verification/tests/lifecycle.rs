//! Tests of the ban lifecycle engine and the query service, run against
//! the real library from outside.

use ban_core::ban::{Account, Ban, BanError, BanStatus, Category, ConflictReason, EntityRef};
use ban_core::ban::{validate_create_request, DOWNTIME_OFFSET_SECONDS};
use ban_core::store::BanStore;

const DAY0: i64 = 1_700_000_000;

fn moderator(id: i64, name: &str) -> Account {
    Account { id, name: name.to_string() }
}

fn character(id: i64) -> EntityRef {
    EntityRef { id, category: Category::Character }
}

fn create_plain(
    store: &mut BanStore,
    entity: EntityRef,
    role: Option<String>,
    scheduled_end: Option<i64>,
    now: i64,
    actor: Account,
) -> Result<i64, BanError> {
    store.create(
        entity,
        "Resolved Name".to_string(),
        role,
        "cheating".to_string(),
        None,
        scheduled_end,
        now,
        actor,
    )
}

#[test]
fn downtime_offset_is_eleven_hours() {
    assert_eq!(DOWNTIME_OFFSET_SECONDS, 39_600);
}

#[test]
fn active_classification_matches_raw_fields() {
    let mut store = BanStore::new();
    create_plain(&mut store, character(1), None, Some(DAY0), 10, moderator(5, "A")).unwrap();
    let bans = store.history(true, 1, Category::Character).unwrap();
    let b: &Ban = &bans[0];
    let end = DAY0 + DOWNTIME_OFFSET_SECONDS;
    // active: end strictly in the future
    assert!(b.is_active_at(end - 1));
    // inactive from the recorded end on (not strictly after it)
    assert!(!b.is_active_at(end));
    assert!(!b.is_active_at(end + 1));
    // a permanent ban is active at any instant
    create_plain(&mut store, character(2), None, None, 10, moderator(5, "A")).unwrap();
    let bans = store.history(true, 2, Category::Character).unwrap();
    assert!(bans[0].is_active_at(i64::MAX));
}

#[test]
fn scheduled_end_gets_offset_and_no_revoker() {
    let mut store = BanStore::new();
    let id = create_plain(&mut store, character(9), None, Some(DAY0), 10, moderator(5, "A"))
        .expect("creation should succeed");
    let bans = store.history(true, 9, Category::Character).unwrap();
    assert_eq!(bans.len(), 1);
    assert_eq!(bans[0].id, id);
    assert_eq!(bans[0].revoked_at, Some(DAY0 + 39_600));
    assert!(bans[0].revoked_by.is_none());
    assert_eq!(bans[0].issued_at, 10);
    assert_eq!(bans[0].issued_by.id, 5);
    assert_eq!(bans[0].entity.name, "Resolved Name");
}

#[test]
fn permanent_ban_has_no_recorded_end() {
    let mut store = BanStore::new();
    create_plain(&mut store, character(9), None, None, 10, moderator(5, "A")).unwrap();
    let bans = store.history(true, 9, Category::Character).unwrap();
    assert_eq!(bans[0].revoked_at, None);
}

#[test]
fn banning_privileged_entity_is_refused_without_store_write() {
    let mut store = BanStore::new();
    let r = create_plain(
        &mut store,
        character(9),
        Some("Admin".to_string()),
        Some(DAY0),
        10,
        moderator(5, "A"),
    );
    match r {
        Err(BanError::PolicyViolation { role }) => assert_eq!(role, "Admin"),
        other => panic!("expected a policy violation, got {:?}", discriminant_name(&other)),
    }
    // no record was written
    assert!(store.history(true, 9, Category::Character).unwrap().is_empty());
    assert!(store.list_active(true, 0).unwrap().is_empty());
}

#[test]
fn amend_restamps_issuer_even_with_unchanged_reason() {
    let mut store = BanStore::new();
    let id = create_plain(&mut store, character(9), None, None, 10, moderator(5, "A")).unwrap();
    let r = store.amend(
        true,
        id,
        "cheating".to_string(), // same text as at creation
        Some("posted".to_string()),
        Some(DAY0),
        77,
        moderator(6, "B"),
    );
    assert!(r.is_ok());
    let bans = store.history(true, 9, Category::Character).unwrap();
    assert_eq!(bans[0].issued_at, 77);
    assert_eq!(bans[0].issued_by.id, 6);
    assert_eq!(bans[0].issued_by.name, "B");
    assert_eq!(bans[0].reason, "cheating");
    assert_eq!(bans[0].public_reason, Some("posted".to_string()));
    assert_eq!(bans[0].revoked_at, Some(DAY0 + 39_600));
    assert_eq!(bans[0].id, id);
    assert_eq!(bans[0].entity.id, 9);
}

#[test]
fn amend_of_missing_or_inactive_ban_is_refused() {
    let mut store = BanStore::new();
    // missing
    let r = store.amend(true, 4, "x".to_string(), None, None, 10, moderator(5, "A"));
    assert!(matches!(r, Err(BanError::NotFound { ban_id: 4 })));
    // inactive: scheduled end already passed
    let id = create_plain(&mut store, character(9), None, Some(0), 10, moderator(5, "A")).unwrap();
    let after_end: i64 = 39_600;
    let r = store.amend(true, id, "x".to_string(), None, None, after_end, moderator(5, "A"));
    assert!(matches!(r, Err(BanError::NotFound { ban_id }) if ban_id == id));
    // the record was not altered
    let bans = store.history(true, 9, Category::Character).unwrap();
    assert_eq!(bans[0].reason, "cheating");
    assert_eq!(bans[0].issued_at, 10);
}

#[test]
fn revoking_active_ban_stamps_actor_and_instant() {
    let mut store = BanStore::new();
    let id = create_plain(&mut store, character(9), None, None, 10, moderator(5, "A")).unwrap();
    let r = store.revoke(true, id, 50, moderator(6, "B"));
    assert!(r.is_ok());
    let bans = store.history(true, 9, Category::Character).unwrap();
    assert_eq!(bans[0].revoked_at, Some(50));
    assert_eq!(bans[0].revoked_by.as_ref().unwrap().id, 6);
    // immediately inactive for any t >= the revocation instant
    assert!(!bans[0].is_active_at(50));
    assert!(!bans[0].is_active_at(51));
    assert!(!bans[0].is_active_at(i64::MAX));
    match bans[0].status_at(50) {
        BanStatus::ManuallyRevoked { at, by } => {
            assert_eq!(at, 50);
            assert_eq!(by.id, 6);
            assert_eq!(by.name, "B");
        },
        _ => panic!("expected a manual revocation"),
    }
}

#[test]
fn revoking_expired_ban_conflicts_without_mutation() {
    let mut store = BanStore::new();
    let id = create_plain(&mut store, character(9), None, Some(0), 10, moderator(5, "A")).unwrap();
    // the scheduled end (0 + offset) is already in the past at t = offset + 1
    let r = store.revoke(true, id, 39_601, moderator(6, "B"));
    match r {
        Err(BanError::Conflict { ban_id, reason: ConflictReason::AlreadyExpired }) => {
            assert_eq!(ban_id, id)
        },
        _ => panic!("expected the already-expired conflict"),
    }
    let bans = store.history(true, 9, Category::Character).unwrap();
    assert_eq!(bans[0].revoked_at, Some(39_600));
    assert!(bans[0].revoked_by.is_none());
    match bans[0].status_at(39_601) {
        BanStatus::ScheduledExpiry { at } => assert_eq!(at, 39_600),
        _ => panic!("expected a scheduled expiry"),
    }
}

#[test]
fn second_revocation_conflicts_naming_first_revoker() {
    let mut store = BanStore::new();
    let id = create_plain(&mut store, character(9), None, None, 10, moderator(5, "A")).unwrap();
    store.revoke(true, id, 50, moderator(6, "Winner")).unwrap();
    let r = store.revoke(true, id, 50, moderator(7, "Loser"));
    match r {
        Err(BanError::Conflict { ban_id, reason: ConflictReason::AlreadyRevoked { by } }) => {
            assert_eq!(ban_id, id);
            assert_eq!(by.id, 6);
            assert_eq!(by.name, "Winner");
        },
        _ => panic!("expected the already-revoked conflict"),
    }
    // the record still carries the winner
    let bans = store.history(true, 9, Category::Character).unwrap();
    assert_eq!(bans[0].revoked_by.as_ref().unwrap().name, "Winner");
    assert_eq!(bans[0].revoked_at, Some(50));
}

#[test]
fn revoking_missing_ban_is_not_found() {
    let mut store = BanStore::new();
    let r = store.revoke(true, 12, 50, moderator(5, "A"));
    assert!(matches!(r, Err(BanError::NotFound { ban_id: 12 })));
}

#[test]
fn history_of_unknown_entity_is_empty_not_an_error() {
    let store = BanStore::new();
    let bans = store.history(true, 424_242, Category::Character).unwrap();
    assert!(bans.is_empty());
    // a populated store still answers with an empty collection for a
    // stranger, and category is part of the entity's identity
    let mut store = BanStore::new();
    create_plain(&mut store, character(9), None, None, 10, moderator(5, "A")).unwrap();
    assert!(store.history(true, 8, Category::Character).unwrap().is_empty());
    assert!(store.history(true, 9, Category::Corporation).unwrap().is_empty());
    assert_eq!(store.history(true, 9, Category::Character).unwrap().len(), 1);
}

#[test]
fn list_active_filters_by_instant_in_stored_order() {
    let mut store = BanStore::new();
    let a = moderator(5, "A");
    let id1 = create_plain(&mut store, character(1), None, None, 10, a.duplicate()).unwrap();
    create_plain(&mut store, character(2), None, Some(0), 10, a.duplicate()).unwrap();
    let id3 = create_plain(&mut store, character(3), None, Some(DAY0), 10, a).unwrap();
    // from the second ban's recorded end on, that ban has expired
    let t: i64 = 39_600;
    let active = store.list_active(true, t).unwrap();
    let ids: Vec<i64> = active.iter().map(|b| b.id).collect();
    assert_eq!(ids, vec![id1, id3]);
    assert_eq!(active[0].issued_by.name, "A");
}

#[test]
fn unauthorized_is_refused_before_anything_else() {
    let mut store = BanStore::new();
    assert!(matches!(store.list_active(false, 0), Err(BanError::Unauthorized)));
    assert!(matches!(store.history(false, 1, Category::Character), Err(BanError::Unauthorized)));
    // even for a ban that does not exist, the capability check answers first
    assert!(matches!(
        store.revoke(false, 999, 0, moderator(5, "A")),
        Err(BanError::Unauthorized)
    ));
    assert!(matches!(
        store.amend(false, 999, "x".to_string(), None, None, 0, moderator(5, "A")),
        Err(BanError::Unauthorized)
    ));
    assert!(matches!(validate_create_request(false, Some(character(1))), Err(BanError::Unauthorized)));
}

#[test]
fn create_request_without_entity_is_malformed() {
    assert!(matches!(validate_create_request(true, None), Err(BanError::MalformedRequest)));
    match validate_create_request(true, Some(character(4))) {
        Ok(e) => {
            assert_eq!(e.id, 4);
            assert_eq!(e.category, Category::Character);
        },
        Err(_) => panic!("a well-formed authorized request must pass"),
    }
}

#[test]
fn full_scenario_create_list_revoke_conflict() {
    let mut store = BanStore::new();
    // create(entity = {id: 500, category: Character}, reason "cheating",
    // scheduled_end = day0)
    let id = store
        .create(
            EntityRef { id: 500, category: Category::Character },
            "Some Pilot".to_string(),
            None,
            "cheating".to_string(),
            None,
            Some(DAY0),
            DAY0 - 3_600,
            moderator(5, "First"),
        )
        .unwrap();
    // the active list includes it with the offset end
    let active = store.list_active(true, DAY0).unwrap();
    assert_eq!(active.len(), 1);
    assert_eq!(active[0].entity.id, 500);
    assert_eq!(active[0].revoked_at, Some(DAY0 + 39_600));
    // revoke before day0 + offset succeeds, stamping the caller
    let t_revoke = DAY0 + 39_599;
    store.revoke(true, id, t_revoke, moderator(6, "Second")).unwrap();
    let bans = store.history(true, 500, Category::Character).unwrap();
    assert_eq!(bans[0].revoked_by.as_ref().unwrap().name, "Second");
    assert_eq!(bans[0].revoked_at, Some(t_revoke));
    // a subsequent revoke by another caller conflicts, naming the first
    match store.revoke(true, id, t_revoke + 1, moderator(7, "Third")) {
        Err(BanError::Conflict { reason: ConflictReason::AlreadyRevoked { by }, .. }) => {
            assert_eq!(by.name, "Second")
        },
        _ => panic!("expected the already-revoked conflict"),
    }
}

fn discriminant_name(r: &Result<i64, BanError>) -> &'static str {
    match r {
        Ok(_) => "Ok",
        Err(BanError::Unauthorized) => "Unauthorized",
        Err(BanError::MalformedRequest) => "MalformedRequest",
        Err(BanError::PolicyViolation { .. }) => "PolicyViolation",
        Err(BanError::NotFound { .. }) => "NotFound",
        Err(BanError::Conflict { .. }) => "Conflict",
        Err(BanError::UpstreamDependency { .. }) => "UpstreamDependency",
    }
}
