use short::controller::Controller;
use short::endpoint::{
    all_links, delete_link, new_link, redirect, update_link, view_link, Response, ResponseBody,
    Status,
};
use short::link::{Link, LinkUpdate, NewLink, SlugPatch};
use short::store::Store;

fn controller() -> Controller {
    Controller::new(Store::new())
}

fn payload(slug: Option<&str>, uri: &str, description: &str) -> NewLink {
    NewLink {
        slug: slug.map(|s| s.to_string()),
        uri: uri.to_string(),
        description: description.to_string(),
    }
}

fn body_link(r: &Response) -> &Link {
    match &r.body {
        ResponseBody::One(l) => l,
        _ => panic!("expected a single resource body"),
    }
}

fn id_str(id: u128) -> String {
    uuid::Uuid::from_u128(id).to_string()
}

fn rfc2822(t: i64) -> String {
    chrono::DateTime::<chrono::Utc>::from_timestamp(t, 0).unwrap().to_rfc2822()
}

#[test]
fn end_to_end_scenario() {
    let mut c = controller();
    let id: u128 = 0x0011223344556677_8899aabbccddeeff;

    // create
    let created = new_link(&mut c, Some(payload(None, "https://example.com", "")), id, 1000)
        .unwrap();
    assert_eq!(created.status, Status::Created);
    assert_eq!(body_link(&created).uri(), "https://example.com");

    // read: found, with the version token in the header
    let viewed = view_link(&c, &id_str(id));
    assert_eq!(viewed.status, Status::Success);
    let token0 = viewed.last_modified.clone().unwrap();
    assert_eq!(token0, rfc2822(1000));

    // update with the exact observed token: applied, strictly later token
    let patch = LinkUpdate {
        slug: SlugPatch::Unset,
        uri: None,
        description: Some("x".to_string()),
    };
    let updated = update_link(&mut c, &id_str(id), Some(&token0), Some(patch), 2000);
    assert_eq!(updated.status, Status::Success);
    assert_eq!(body_link(&updated).description(), "x");
    let token1 = updated.last_modified.clone().unwrap();
    assert_eq!(token1, rfc2822(2000));
    let t0 = chrono::DateTime::parse_from_rfc2822(&token0).unwrap().timestamp();
    let t1 = chrono::DateTime::parse_from_rfc2822(&token1).unwrap().timestamp();
    assert!(t1 > t0);

    // the same update again with the original, now stale, token: conflict
    let patch = LinkUpdate {
        slug: SlugPatch::Unset,
        uri: None,
        description: Some("x".to_string()),
    };
    let stale = update_link(&mut c, &id_str(id), Some(&token0), Some(patch), 3000);
    assert_eq!(stale.status, Status::PreconditionFailed);

    // delete with the current token: no content
    let deleted = delete_link(&mut c, &id_str(id), Some(&token1), 3000);
    assert_eq!(deleted.status, Status::NoContent);

    // subsequent read: gone
    let after = view_link(&c, &id_str(id));
    assert_eq!(after.status, Status::Gone);

    // a further delete with a stale token conflicts; with a fresh token it
    // succeeds again — deletion is idempotent, never `Gone`
    let stale_delete = delete_link(&mut c, &id_str(id), Some(&token1), 4000);
    assert_eq!(stale_delete.status, Status::PreconditionFailed);
    let fresh = rfc2822(3000);
    let re_delete = delete_link(&mut c, &id_str(id), Some(&fresh), 4000);
    assert_eq!(re_delete.status, Status::NoContent);

    // a delete on an identifier that never existed: not found
    let missing = delete_link(&mut c, &id_str(id + 1), Some(&fresh), 5000);
    assert_eq!(missing.status, Status::NotFound);
}

#[test]
fn listing_reflects_tombstones() {
    let mut c = controller();
    new_link(&mut c, Some(payload(None, "https://a.test", "")), 1, 100).unwrap();
    new_link(&mut c, Some(payload(None, "https://b.test", "")), 2, 100).unwrap();
    let before = all_links(&c);
    assert_eq!(before.status, Status::Success);
    match &before.body {
        ResponseBody::Many(v) => assert_eq!(v.len(), 2),
        _ => panic!("expected a listing body"),
    }
    let token = rfc2822(100);
    assert_eq!(delete_link(&mut c, &id_str(1), Some(&token), 200).status, Status::NoContent);
    let after = all_links(&c);
    match &after.body {
        ResponseBody::Many(v) => {
            assert_eq!(v.len(), 1);
            assert_eq!(v[0].id(), 2);
        }
        _ => panic!("expected a listing body"),
    }
}

#[test]
fn malformed_identifier_is_a_client_error() {
    let mut c = controller();
    assert_eq!(view_link(&c, "not-a-uuid").status, Status::BadRequest);
    let token = rfc2822(100);
    assert_eq!(
        update_link(&mut c, "not-a-uuid", Some(&token), None, 100).status,
        Status::BadRequest
    );
    assert_eq!(delete_link(&mut c, "not-a-uuid", Some(&token), 100).status, Status::BadRequest);
}

#[test]
fn missing_version_token_is_precondition_required() {
    let mut c = controller();
    new_link(&mut c, Some(payload(None, "https://a.test", "")), 1, 100).unwrap();
    assert_eq!(
        update_link(&mut c, &id_str(1), None, None, 200).status,
        Status::PreconditionRequired
    );
    assert_eq!(delete_link(&mut c, &id_str(1), None, 200).status, Status::PreconditionRequired);
}

#[test]
fn malformed_version_token_is_a_client_error() {
    let mut c = controller();
    new_link(&mut c, Some(payload(None, "https://a.test", "")), 1, 100).unwrap();
    assert_eq!(
        update_link(&mut c, &id_str(1), Some("last tuesday"), None, 200).status,
        Status::BadRequest
    );
    assert_eq!(
        delete_link(&mut c, &id_str(1), Some("last tuesday"), 200).status,
        Status::BadRequest
    );
}

#[test]
fn malformed_body_is_a_client_error() {
    let mut c = controller();
    let missing = new_link(&mut c, None, 1, 100).unwrap();
    assert_eq!(missing.status, Status::BadRequest);
    new_link(&mut c, Some(payload(None, "https://a.test", "")), 1, 100).unwrap();
    let token = rfc2822(100);
    assert_eq!(
        update_link(&mut c, &id_str(1), Some(&token), None, 200).status,
        Status::BadRequest
    );
}

#[test]
fn tombstoned_resource_answers_gone_before_the_body_matters() {
    let mut c = controller();
    new_link(&mut c, Some(payload(None, "https://a.test", "")), 1, 100).unwrap();
    let token = rfc2822(100);
    assert_eq!(delete_link(&mut c, &id_str(1), Some(&token), 200).status, Status::NoContent);
    // even with a malformed body and a perfectly fresh token: gone
    let fresh = rfc2822(200);
    assert_eq!(update_link(&mut c, &id_str(1), Some(&fresh), None, 300).status, Status::Gone);
}

#[test]
fn unknown_identifier_is_not_found() {
    let mut c = controller();
    let token = rfc2822(100);
    assert_eq!(view_link(&c, &id_str(9)).status, Status::NotFound);
    assert_eq!(update_link(&mut c, &id_str(9), Some(&token), None, 100).status, Status::NotFound);
    assert_eq!(delete_link(&mut c, &id_str(9), Some(&token), 100).status, Status::NotFound);
}

#[test]
fn creating_under_a_taken_identifier_is_a_storage_fault() {
    let mut c = controller();
    assert!(new_link(&mut c, Some(payload(None, "https://a.test", "")), 1, 100).is_ok());
    assert!(new_link(&mut c, Some(payload(None, "https://b.test", "")), 1, 200).is_err());
}

#[test]
fn redirect_resolves_live_aliases() {
    let mut c = controller();
    new_link(&mut c, Some(payload(Some("ex"), "https://example.com", "")), 1, 100).unwrap();
    let r = redirect(&c, &"ex".to_string());
    assert_eq!(r.status, Status::RedirectFound);
    assert_eq!(r.location.as_deref(), Some("https://example.com"));
}

#[test]
fn redirect_reports_tombstoned_aliases_gone() {
    let mut c = controller();
    new_link(&mut c, Some(payload(Some("ex"), "https://example.com", "")), 1, 100).unwrap();
    let token = rfc2822(100);
    assert_eq!(delete_link(&mut c, &id_str(1), Some(&token), 200).status, Status::NoContent);
    assert_eq!(redirect(&c, &"ex".to_string()).status, Status::Gone);
}

#[test]
fn redirect_reports_unknown_aliases_not_found() {
    let c = controller();
    assert_eq!(redirect(&c, &"nowhere".to_string()).status, Status::NotFound);
}

#[test]
fn version_header_has_the_rfc2822_shape() {
    let mut c = controller();
    new_link(&mut c, Some(payload(None, "https://a.test", "")), 1, 1000).unwrap();
    let viewed = view_link(&c, &id_str(1));
    assert_eq!(viewed.last_modified.as_deref(), Some("Thu, 1 Jan 1970 00:16:40 +0000"));
}

#[test]
fn version_header_round_trips_through_its_textual_form() {
    // the header produced on read is accepted verbatim as a precondition
    let mut c = controller();
    new_link(&mut c, Some(payload(None, "https://a.test", "")), 1, 4102444799).unwrap();
    let viewed = view_link(&c, &id_str(1));
    let token = viewed.last_modified.unwrap();
    let patch = LinkUpdate { slug: SlugPatch::Unset, uri: None, description: None };
    let updated = update_link(&mut c, &id_str(1), Some(&token), Some(patch), 4102444800);
    assert_eq!(updated.status, Status::Success);
}
