//! End-to-end allocation behaviour against the in-memory datastore.

use bdshorten::allocator::allocate;
use bdshorten::record::{AllocationError, SlugRequest};
use bdshorten::store::MemStore;
use bdshorten::tier::AuthTier;

fn request(
    desired: Option<&str>,
    tier: AuthTier,
    id: i64,
) -> SlugRequest {
    SlugRequest {
        desired_slug: desired.map(|s| s.to_string()),
        destination: "https://example.com/page".to_string(),
        expiry: None,
        requester_tier: tier,
        requester_id: id,
    }
}

fn is_url_safe(s: &str) -> bool {
    s.chars().all(|c| c.is_ascii_alphanumeric() || c == '-' || c == '_')
}

#[test]
fn successful_allocation_meets_tier_minimum_length() {
    let mut store = MemStore::new();
    let basic = allocate(&mut store, &request(None, AuthTier::Basic, 1)).unwrap();
    assert_eq!(basic.slug.chars().count(), 8);
    assert!(is_url_safe(&basic.slug));

    let trusted = allocate(&mut store, &request(None, AuthTier::Trusted, 2)).unwrap();
    assert_eq!(trusted.slug.chars().count(), 6);
    assert!(is_url_safe(&trusted.slug));

    let admin = allocate(&mut store, &request(None, AuthTier::Admin, 3)).unwrap();
    assert_eq!(admin.slug.chars().count(), 4);
    assert!(is_url_safe(&admin.slug));

    let guest = allocate(&mut store, &request(None, AuthTier::Guest, 4)).unwrap();
    assert_eq!(guest.slug.chars().count(), 8);
}

#[test]
fn admin_requested_slug_wins_collision() {
    let mut store = MemStore::new();
    // User A (id 1) holds slug "X".
    let taken = request(Some("X"), AuthTier::Admin, 1);
    let first = allocate(&mut store, &taken).unwrap();
    assert_eq!(first.slug, "X");
    assert_eq!(first.owner_id, 1);

    // An admin (id 2) requests the same slug: the prior record is
    // tombstoned and the new record for "X" belongs to the admin.
    let again = request(Some("X"), AuthTier::Admin, 2);
    let second = allocate(&mut store, &again).unwrap();
    assert_eq!(second.slug, "X");
    assert_eq!(second.owner_id, 2);

    let records = store.records();
    assert_eq!(records.len(), 2);
    assert!(records[0].deleted);
    assert_eq!(records[0].owner_id, 1);
    assert!(!records[1].deleted);
    assert_eq!(records[1].owner_id, 2);
    assert_eq!(records[1].slug, "X");
}

#[test]
fn trusted_evicts_own_record_but_conflicts_on_foreign() {
    let mut store = MemStore::new();
    let mine = request(Some("mylink"), AuthTier::Trusted, 5);
    let first = allocate(&mut store, &mine).unwrap();
    assert_eq!(first.slug, "mylink");

    // Same trusted user again: evicts and replaces their own record.
    let second = allocate(&mut store, &mine).unwrap();
    assert_eq!(second.slug, "mylink");
    assert_eq!(second.owner_id, 5);
    assert_eq!(store.records().len(), 2);
    assert!(store.records()[0].deleted);
    assert!(!store.records()[1].deleted);

    // A different trusted user: conflict, never a silently generated
    // alternative, and nothing inserted.
    let theirs = request(Some("mylink"), AuthTier::Trusted, 6);
    let refused = allocate(&mut store, &theirs);
    assert_eq!(refused.unwrap_err(), AllocationError::Conflict);
    assert_eq!(store.records().len(), 2);
}

#[test]
fn basic_tier_ignores_desired_slug() {
    let mut store = MemStore::new();
    let r = allocate(&mut store, &request(Some("hello"), AuthTier::Basic, 7)).unwrap();
    assert_eq!(r.slug.chars().count(), 8);
    assert_ne!(r.slug, "hello");
}

#[test]
fn identical_requests_get_independent_random_slugs() {
    // Stateless reset between the two calls: a fresh store each time.
    let mut store1 = MemStore::new();
    let first = allocate(&mut store1, &request(None, AuthTier::Basic, 1)).unwrap();
    let mut store2 = MemStore::new();
    let second = allocate(&mut store2, &request(None, AuthTier::Basic, 1)).unwrap();
    assert_eq!(first.slug.chars().count(), 8);
    assert_eq!(second.slug.chars().count(), 8);
    assert_ne!(first.slug, second.slug);
}

#[test]
fn trusted_short_choice_is_padded_and_kept() {
    let mut store = MemStore::new();
    let r = allocate(&mut store, &request(Some("ab"), AuthTier::Trusted, 9)).unwrap();
    assert_eq!(r.slug.chars().count(), 6);
    assert!(r.slug.starts_with("ab"));
    assert!(is_url_safe(&r.slug["ab".len()..]));
}

#[test]
fn trusted_exact_choice_is_kept_verbatim() {
    let mut store = MemStore::new();
    let r = allocate(&mut store, &request(Some("abcdef"), AuthTier::Trusted, 9)).unwrap();
    assert_eq!(r.slug, "abcdef");
}

#[test]
fn admin_choice_is_taken_as_given_even_below_minimum() {
    let mut store = MemStore::new();
    let r = allocate(&mut store, &request(Some("go"), AuthTier::Admin, 3)).unwrap();
    assert_eq!(r.slug, "go");
}

#[test]
fn allocation_reports_stored_creation_time_and_fields() {
    let mut store = MemStore::new();
    let mut req = request(None, AuthTier::Basic, 11);
    req.expiry = Some(12345);
    let r = allocate(&mut store, &req).unwrap();
    assert_eq!(r.created, 0);
    assert_eq!(r.expiry, Some(12345));
    assert_eq!(r.destination, "https://example.com/page");
    assert_eq!(r.owner_id, 11);
    assert!(!r.deleted);
    let next = allocate(&mut store, &req).unwrap();
    assert_eq!(next.created, 1);
}
