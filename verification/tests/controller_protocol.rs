use short::controller::{Controller, DeleteResult, ReadResult, UpdateResult};
use short::link::{LinkUpdate, NewLink, SlugPatch};
use short::store::Store;

fn controller() -> Controller {
    Controller::new(Store::new())
}

fn payload(slug: Option<&str>, uri: &str, description: &str) -> NewLink {
    NewLink {
        slug: slug.map(|s| s.to_string()),
        uri: uri.to_string(),
        description: description.to_string(),
    }
}

fn keep_all() -> LinkUpdate {
    LinkUpdate { slug: SlugPatch::Unset, uri: None, description: None }
}

#[test]
fn create_is_born_live_with_equal_timestamps() {
    let mut c = controller();
    let link = c.create(payload(Some("ex"), "https://example.com", "demo"), 7, 100).unwrap();
    assert_eq!(link.id(), 7);
    assert_eq!(link.created_at(), 100);
    assert_eq!(link.updated_at(), 100);
    assert!(!link.deleted());
    assert_eq!(link.slug().as_deref(), Some("ex"));
    assert_eq!(link.uri(), "https://example.com");
    assert_eq!(link.description(), "demo");
}

#[test]
fn create_rejects_identifier_collision() {
    let mut c = controller();
    assert!(c.create(payload(None, "https://a.test", ""), 1, 100).is_ok());
    assert!(c.create(payload(None, "https://b.test", ""), 1, 200).is_err());
    // the colliding insert changed nothing
    match c.read(1) {
        ReadResult::Found(l) => assert_eq!(l.uri(), "https://a.test"),
        _ => panic!("expected the original row"),
    }
}

#[test]
fn update_with_current_token_applies_and_bumps_version() {
    let mut c = controller();
    let link = c.create(payload(None, "https://a.test", ""), 1, 100).unwrap();
    let t0 = link.updated_at();
    let patch = LinkUpdate {
        slug: SlugPatch::Unset,
        uri: None,
        description: Some("fresh".to_string()),
    };
    match c.update(1, &patch, t0, 110) {
        UpdateResult::Applied(l) => {
            assert!(l.updated_at() > t0);
            assert_eq!(l.updated_at(), 110);
            assert_eq!(l.description(), "fresh");
        }
        _ => panic!("expected the update to apply"),
    }
}

#[test]
fn update_with_stale_token_conflicts() {
    let mut c = controller();
    let link = c.create(payload(None, "https://a.test", ""), 1, 100).unwrap();
    let t0 = link.updated_at();
    match c.update(1, &keep_all(), t0, 110) {
        UpdateResult::Applied(_) => {}
        _ => panic!("expected the first update to apply"),
    }
    match c.update(1, &keep_all(), t0, 120) {
        UpdateResult::Conflict => {}
        _ => panic!("expected the stale token to conflict"),
    }
}

#[test]
fn update_on_unknown_id_is_not_found() {
    let mut c = controller();
    match c.update(42, &keep_all(), 0, 100) {
        UpdateResult::NotFound => {}
        _ => panic!("expected not-found"),
    }
}

#[test]
fn remove_is_idempotent_with_fresh_tokens() {
    let mut c = controller();
    c.create(payload(None, "https://a.test", ""), 1, 100).unwrap();
    assert_eq!(c.remove(1, 100, 110), DeleteResult::Removed);
    // already tombstoned, fresh token: still success
    assert_eq!(c.remove(1, 110, 120), DeleteResult::Removed);
    // stale token: conflict, not gone
    assert_eq!(c.remove(1, 100, 130), DeleteResult::Conflict);
    // unknown id: not found
    assert_eq!(c.remove(2, 1000, 140), DeleteResult::NotFound);
}

#[test]
fn tombstoned_row_rejects_update_whatever_the_token() {
    let mut c = controller();
    c.create(payload(None, "https://a.test", ""), 1, 100).unwrap();
    assert_eq!(c.remove(1, 100, 110), DeleteResult::Removed);
    // even a perfectly current token is refused
    match c.update(1, &keep_all(), 110, 120) {
        UpdateResult::Gone => {}
        _ => panic!("expected gone"),
    }
    // and an arbitrary late token as well
    match c.update(1, &keep_all(), i64::MAX, 130) {
        UpdateResult::Gone => {}
        _ => panic!("expected gone"),
    }
}

#[test]
fn slug_patch_unset_keeps_the_stored_slug() {
    let mut c = controller();
    c.create(payload(Some("a"), "https://a.test", ""), 1, 100).unwrap();
    match c.update(1, &keep_all(), 100, 110) {
        UpdateResult::Applied(l) => assert_eq!(l.slug().as_deref(), Some("a")),
        _ => panic!("expected the update to apply"),
    }
}

#[test]
fn slug_patch_null_clears_the_stored_slug() {
    let mut c = controller();
    c.create(payload(Some("a"), "https://a.test", ""), 1, 100).unwrap();
    let patch = LinkUpdate { slug: SlugPatch::SetNull, uri: None, description: None };
    match c.update(1, &patch, 100, 110) {
        UpdateResult::Applied(l) => assert_eq!(l.slug().as_deref(), None),
        _ => panic!("expected the update to apply"),
    }
}

#[test]
fn slug_patch_value_replaces_the_stored_slug() {
    let mut c = controller();
    c.create(payload(Some("a"), "https://a.test", ""), 1, 100).unwrap();
    let patch = LinkUpdate {
        slug: SlugPatch::SetValue("b".to_string()),
        uri: None,
        description: None,
    };
    match c.update(1, &patch, 100, 110) {
        UpdateResult::Applied(l) => assert_eq!(l.slug().as_deref(), Some("b")),
        _ => panic!("expected the update to apply"),
    }
}

#[test]
fn update_replaces_uri_and_description_only_when_present() {
    let mut c = controller();
    c.create(payload(None, "https://a.test", "old"), 1, 100).unwrap();
    let patch = LinkUpdate {
        slug: SlugPatch::Unset,
        uri: Some("https://b.test".to_string()),
        description: None,
    };
    match c.update(1, &patch, 100, 110) {
        UpdateResult::Applied(l) => {
            assert_eq!(l.uri(), "https://b.test");
            assert_eq!(l.description(), "old");
            assert_eq!(l.created_at(), 100);
        }
        _ => panic!("expected the update to apply"),
    }
}

#[test]
fn listing_excludes_tombstones_but_read_still_answers_gone() {
    let mut c = controller();
    c.create(payload(None, "https://a.test", ""), 1, 100).unwrap();
    c.create(payload(None, "https://b.test", ""), 2, 100).unwrap();
    assert_eq!(c.remove(1, 100, 110), DeleteResult::Removed);
    let live = c.list_live();
    assert_eq!(live.len(), 1);
    assert_eq!(live[0].id(), 2);
    match c.read(1) {
        ReadResult::Gone => {}
        _ => panic!("expected gone"),
    }
    assert!(c.id_exists(1));
}

#[test]
fn read_distinguishes_found_gone_and_not_found() {
    let mut c = controller();
    c.create(payload(None, "https://a.test", ""), 1, 100).unwrap();
    match c.read(1) {
        ReadResult::Found(l) => assert_eq!(l.id(), 1),
        _ => panic!("expected found"),
    }
    match c.read(2) {
        ReadResult::NotFound => {}
        _ => panic!("expected not-found"),
    }
    assert_eq!(c.remove(1, 100, 110), DeleteResult::Removed);
    match c.read(1) {
        ReadResult::Gone => {}
        _ => panic!("expected gone"),
    }
}

#[test]
fn tombstoning_bumps_the_version_token() {
    // the load-bearing invariant: deletion is a mutation like any other,
    // so a token observed before the delete no longer updates anything
    let mut c = controller();
    c.create(payload(None, "https://a.test", ""), 1, 100).unwrap();
    c.create(payload(None, "https://b.test", ""), 2, 100).unwrap();
    assert_eq!(c.remove(1, 100, 150), DeleteResult::Removed);
    // a remove with a token between create and delete now conflicts
    assert_eq!(c.remove(1, 120, 160), DeleteResult::Conflict);
    // a remove with a token at or past the delete instant succeeds
    assert_eq!(c.remove(1, 150, 170), DeleteResult::Removed);
}
