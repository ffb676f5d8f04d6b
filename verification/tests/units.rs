//! The smaller verified pieces: policy resolution, the identifier
//! generator, the datastore port, destination validation, record validity,
//! and provisioning rules.

use bdshorten::allocator::allocate_checked;
use bdshorten::ident::generate;
use bdshorten::provision::{invite_allowance, may_issue_invite};
use bdshorten::record::{record_valid, SlugRecord, SlugRequest};
use bdshorten::store::{InsertOutcome, MemStore, Occupant};
use bdshorten::tier::{resolve, tier_of_level, AuthTier};

#[test]
fn resolve_gives_each_tier_its_policy() {
    let admin = resolve(AuthTier::Admin);
    assert_eq!(admin.min_length, 4);
    assert!(admin.allow_user_choice);
    assert!(admin.force_evict_on_collision);
    assert!(!admin.evict_requires_ownership);

    let trusted = resolve(AuthTier::Trusted);
    assert_eq!(trusted.min_length, 6);
    assert!(trusted.allow_user_choice);
    assert!(!trusted.force_evict_on_collision);
    assert!(trusted.evict_requires_ownership);

    let basic = resolve(AuthTier::Basic);
    assert_eq!(basic.min_length, 8);
    assert!(!basic.allow_user_choice);
    assert!(!basic.force_evict_on_collision);
    assert!(!basic.evict_requires_ownership);

    let guest = resolve(AuthTier::Guest);
    assert_eq!(guest, basic);
}

#[test]
fn generate_produces_url_safe_identifiers_of_exact_length() {
    for len in [1usize, 4, 6, 8, 32, 42] {
        let s = generate(len);
        assert_eq!(s.chars().count(), len);
        assert!(s.chars().all(|c| c.is_ascii_alphanumeric() || c == '-' || c == '_'));
    }
    // Two identifiers drawn independently.
    assert_ne!(generate(32), generate(32));
}

#[test]
fn memstore_implements_the_datastore_port() {
    let mut store = MemStore::new();
    let slug = "abcdef".to_string();
    let dest = "https://example.com/".to_string();
    assert_eq!(store.find_occupant(&slug), None);
    assert_eq!(store.read_created(&slug), None);

    assert_eq!(store.insert(&slug, &dest, Some(9), 42), InsertOutcome::Inserted);
    assert_eq!(
        store.find_occupant(&slug),
        Some(Occupant { owner_id: 42, is_deleted: false })
    );
    assert_eq!(store.read_created(&slug), Some(0));

    // A live slug rejects a second insert.
    assert_eq!(store.insert(&slug, &dest, None, 43), InsertOutcome::UniqueViolation);
    assert_eq!(store.records().len(), 1);

    // Eviction tombstones, never removes.
    assert!(store.evict(&slug));
    assert_eq!(
        store.find_occupant(&slug),
        Some(Occupant { owner_id: 42, is_deleted: true })
    );
    assert_eq!(store.read_created(&slug), None);
    assert_eq!(store.records().len(), 1);
    assert!(store.records()[0].deleted);

    // The slug is free again for an insert, and the tombstone is retained.
    assert_eq!(store.insert(&slug, &dest, None, 43), InsertOutcome::Inserted);
    assert_eq!(store.records().len(), 2);
    assert_eq!(store.read_created(&slug), Some(1));

    // Evicting a slug with no record at all is a harmless no-op.
    assert!(store.evict(&"unused".to_string()));
    assert_eq!(store.records().len(), 2);
}

#[test]
fn allocate_checked_rejects_invalid_destinations_before_the_store() {
    let mut store = MemStore::new();
    let bad = SlugRequest {
        desired_slug: None,
        destination: "not a url".to_string(),
        expiry: None,
        requester_tier: AuthTier::Basic,
        requester_id: 1,
    };
    assert!(allocate_checked(&mut store, &bad).is_none());
    assert_eq!(store.records().len(), 0);

    let relative = SlugRequest { destination: "/just/a/path".to_string(), ..bad.clone() };
    assert!(allocate_checked(&mut store, &relative).is_none());

    let good = SlugRequest { destination: "https://example.com/a?b=c".to_string(), ..bad };
    let rec = allocate_checked(&mut store, &good)
        .expect("a valid absolute URL is accepted")
        .expect("an empty store has room");
    assert_eq!(rec.slug.chars().count(), 8);
    assert_eq!(store.records().len(), 1);
}

#[test]
fn record_validity_checks_tombstone_and_expiry() {
    let rec = SlugRecord {
        slug: "abcd".to_string(),
        destination: "https://example.com/".to_string(),
        created: 0,
        expiry: None,
        deleted: false,
        owner_id: 1,
    };
    assert!(record_valid(&rec, 100));

    let expiring = SlugRecord { expiry: Some(5), ..rec.clone() };
    assert!(record_valid(&expiring, 4));
    assert!(!record_valid(&expiring, 5));
    assert!(!record_valid(&expiring, 6));

    let tombstone = SlugRecord { deleted: true, ..rec };
    assert!(!record_valid(&tombstone, 100));
}

#[test]
fn tier_of_level_follows_the_stored_numbering() {
    assert_eq!(tier_of_level(3), AuthTier::Admin);
    assert_eq!(tier_of_level(2), AuthTier::Trusted);
    assert_eq!(tier_of_level(1), AuthTier::Basic);
    assert_eq!(tier_of_level(0), AuthTier::Guest);
    assert_eq!(tier_of_level(-7), AuthTier::Guest);
    assert_eq!(tier_of_level(9), AuthTier::Guest);
}

#[test]
fn provisioning_rules_match_the_tiers() {
    assert_eq!(invite_allowance(AuthTier::Basic), Some(0));
    assert_eq!(invite_allowance(AuthTier::Trusted), Some(2));
    assert_eq!(invite_allowance(AuthTier::Admin), None);

    assert!(may_issue_invite(AuthTier::Admin, None));
    assert!(may_issue_invite(AuthTier::Admin, Some(0)));
    assert!(may_issue_invite(AuthTier::Trusted, Some(2)));
    assert!(!may_issue_invite(AuthTier::Trusted, Some(0)));
    assert!(!may_issue_invite(AuthTier::Trusted, None));
    assert!(!may_issue_invite(AuthTier::Basic, Some(5)));
    assert!(!may_issue_invite(AuthTier::Guest, None));
}
