use rust_auth::accounts::{AccountError, GQLUser, Mutation, Query};
use rust_auth::models::User;
use rust_auth::posts::{
    gql_post_of, validate_object_id, CMSMutation, CmsError, CmsQuery, Post, PostInput,
    PostUpdateInput,
};
use rust_auth::schema::{MutationRoot, QueryRoot};

fn user(id: Option<&str>, email: &str, full_name: Option<&str>) -> User {
    User {
        id: id.map(|s| s.to_string()),
        email: email.to_string(),
        password: "$2b$04$abcdefghijklmnopqrstuvwxyz0123456789".to_string(),
        full_name: full_name.map(|s| s.to_string()),
        phone_number: None,
    }
}

fn post(id: Option<&str>, title: &str, author: &str) -> Post {
    Post {
        id: id.map(|s| s.to_string()),
        title: title.to_string(),
        thumbnail: "thumb.png".to_string(),
        author: author.to_string(),
        desc: "a description".to_string(),
        created_at: Some(0),
        updated_at: None,
    }
}

const OID: &str = "507f1f77bcf86cd799439011";

#[test]
fn gql_user_drops_the_password_and_keeps_the_rest() {
    let g = GQLUser::from(user(Some(OID), "a@b.com", Some("Ada")));
    assert_eq!(g.id, OID);
    assert_eq!(g.email, "a@b.com");
    assert_eq!(g.full_name.as_deref(), Some("Ada"));
    assert_eq!(g.phone_number, None);
    let anonymous = GQLUser::from(user(None, "b@c.com", None));
    assert_eq!(anonymous.id, "");
}

#[test]
fn users_query_converts_every_record_in_order() {
    let q = Query;
    let got = q.users(vec![user(Some(OID), "a@b.com", None), user(None, "b@c.com", Some("Bea"))]);
    assert_eq!(got.len(), 2);
    assert_eq!(got[0].email, "a@b.com");
    assert_eq!(got[1].email, "b@c.com");
    assert_eq!(got[1].full_name.as_deref(), Some("Bea"));
}

#[test]
fn user_query_maps_the_found_record() {
    let q = Query;
    assert!(q.user(None).is_none());
    let got = q.user(Some(user(Some(OID), "a@b.com", None))).unwrap();
    assert_eq!(got.email, "a@b.com");
}

#[test]
fn update_user_reports_no_changes_only_when_nothing_differs() {
    let m = Mutation;
    let u = user(Some(OID), "a@b.com", Some("Ada"));
    let same = m.update_user(Some(&u), &Some("Ada".to_string()), &None);
    let resp = same.unwrap().expect("identical fields are refused");
    assert!(!resp.success);
    assert_eq!(resp.message, "No changes detected. Please update with new information.");
    assert!(m.update_user(Some(&u), &Some("Ada Lovelace".to_string()), &None).unwrap().is_none());
    assert!(m.update_user(Some(&u), &Some("Ada".to_string()), &Some("555".to_string())).unwrap().is_none());
    assert!(matches!(m.update_user(None, &None, &None), Err(AccountError::UserNotFound)));
}

#[test]
fn update_user_result_follows_the_modified_count() {
    let m = Mutation;
    let failed = m.update_user_result(0);
    assert!(!failed.success);
    assert_eq!(failed.message, "Failed to update user. Please try again.");
    let done = m.update_user_result(1);
    assert!(done.success);
    assert_eq!(done.message, "User updated successfully");
}

#[test]
fn reset_password_verifies_old_and_hashes_new() {
    let m = Mutation;
    let mut u = user(Some(OID), "a@b.com", None);
    u.password = bcrypt::hash("old-pw", 4).unwrap();
    let new_hash =
        m.reset_password(Some(&u), "old-pw", "new-pw").unwrap().expect("old password matches");
    assert_ne!(new_hash, "new-pw");
    assert!(bcrypt::verify("new-pw", &new_hash).unwrap());
    assert_eq!(m.reset_password(Some(&u), "wrong", "new-pw"), Ok(None));
    assert_eq!(m.reset_password(None, "old-pw", "new-pw"), Err(AccountError::UserNotFound));
    assert_eq!(AccountError::UserNotFound.message(), "User not found!");
    u.password = "not a bcrypt hash".to_string();
    assert_eq!(m.reset_password(Some(&u), "old-pw", "new-pw"), Err(AccountError::HashingFailed));
    assert!(!m.reset_password_rejected().success);
    assert_eq!(m.reset_password_rejected().message, "Incorrect old password!");
    assert!(m.reset_password_done().success);
    assert_eq!(m.reset_password_done().message, "Password reset successfully!");
}

#[test]
fn delete_account_follows_the_deleted_count() {
    let m = Mutation;
    let missing = m.delete_account(0);
    assert!(!missing.success);
    assert_eq!(missing.message, "User not found!");
    let done = m.delete_account(1);
    assert!(done.success);
    assert_eq!(done.message, "Account deleted successfully!");
}

#[test]
fn object_id_validation() {
    assert!(validate_object_id(OID));
    assert!(validate_object_id("507F1F77BCF86CD799439011"));
    assert!(!validate_object_id("507f1f77bcf86cd79943901"));
    assert!(!validate_object_id("507f1f77bcf86cd7994390111"));
    assert!(!validate_object_id("507f1f77bcf86cd79943901g"));
    assert!(!validate_object_id(""));
}

#[test]
fn create_post_validates_author_then_builds_the_document() {
    let cms = CMSMutation;
    let input = || PostInput {
        title: "T".to_string(),
        thumbnail: "t.png".to_string(),
        author_id: OID.to_string(),
        desc: "D".to_string(),
    };
    let mut bad = input();
    bad.author_id = "nonsense".to_string();
    let refused = cms.create_post(bad, true, 1_000).unwrap_err();
    assert_eq!(refused, CmsError::InvalidAuthorId);
    assert_eq!(refused.message(), "Invalid author ID");
    let missing = cms.create_post(input(), false, 1_000).unwrap_err();
    assert_eq!(missing, CmsError::AuthorNotFound);
    assert_eq!(missing.message(), "Author not found");
    let p = cms.create_post(input(), true, 1_000).unwrap();
    assert_eq!(p.id, None);
    assert_eq!(p.title, "T");
    assert_eq!(p.author, OID);
    assert_eq!(p.created_at, Some(1_000));
    assert_eq!(p.updated_at, None);
    assert!(cms.create_post_result().success);
    assert_eq!(cms.create_post_result().message, "Post created successfully");
}

#[test]
fn update_post_replaces_submitted_fields_and_stamps_the_time() {
    let cms = CMSMutation;
    let stored = post(Some(OID), "Old title", OID);
    let input = PostUpdateInput {
        title: Some("New title".to_string()),
        thumbnail: None,
        author_id: None,
        desc: Some("New desc".to_string()),
    };
    let p = cms.update_post(OID, stored, input, 2_000).unwrap();
    assert_eq!(p.title, "New title");
    assert_eq!(p.desc, "New desc");
    assert_eq!(p.thumbnail, "thumb.png");
    assert_eq!(p.author, OID);
    assert_eq!(p.created_at, Some(0));
    assert_eq!(p.updated_at, Some(2_000));
}

#[test]
fn update_post_refuses_malformed_identifiers() {
    let cms = CMSMutation;
    let no_changes =
        || PostUpdateInput { title: None, thumbnail: None, author_id: None, desc: None };
    let bad_id = cms.update_post("nope", post(Some(OID), "T", OID), no_changes(), 0).unwrap_err();
    assert_eq!(bad_id, CmsError::InvalidPostId);
    assert_eq!(bad_id.message(), "Invalid post ID");
    let mut bad_author = no_changes();
    bad_author.author_id = Some("nope".to_string());
    let refused = cms.update_post(OID, post(Some(OID), "T", OID), bad_author, 0).unwrap_err();
    assert_eq!(refused, CmsError::InvalidAuthorId);
}

#[test]
fn update_post_result_follows_the_modified_count() {
    let cms = CMSMutation;
    let done = cms.update_post_result(1).unwrap();
    assert!(done.success);
    assert_eq!(done.message, "Post updated successfully");
    let failed = cms.update_post_result(0).unwrap_err();
    assert_eq!(failed, CmsError::UpdateFailed);
    assert_eq!(failed.message(), "Failed to update post");
}

#[test]
fn remove_post_validates_and_reports() {
    let cms = CMSMutation;
    assert_eq!(cms.remove_post("nope", 1), Err(CmsError::InvalidPostId));
    assert_eq!(cms.remove_post(OID, 1), Ok(true));
    assert_eq!(cms.remove_post(OID, 0), Ok(false));
}

#[test]
fn post_listing_renders_timestamps_and_embeds_the_author() {
    let q = CmsQuery;
    let mut p = post(Some(OID), "T", OID);
    p.updated_at = Some(86_400_000);
    let got = q.posts(vec![(p, user(Some(OID), "a@b.com", Some("Ada")))]);
    assert_eq!(got.len(), 1);
    let g = &got[0];
    assert_eq!(g.id, OID);
    assert_eq!(g.title, "T");
    assert_eq!(g.created_at, "1970-01-01T00:00:00+00:00");
    assert_eq!(g.updated_at.as_deref(), Some("1970-01-02T00:00:00+00:00"));
    assert_eq!(g.author.id, OID);
    assert_eq!(g.author.email, "a@b.com");
    assert_eq!(g.author.full_name, "Ada");
}

#[test]
fn post_author_without_name_is_exposed_with_an_empty_one() {
    let g = gql_post_of(post(None, "T", OID), user(None, "a@b.com", None));
    assert_eq!(g.id, "");
    assert_eq!(g.author.full_name, "");
    assert_eq!(g.updated_at, None);
}

#[test]
fn roots_gather_both_surfaces() {
    let q = QueryRoot { users: Query, cms: CmsQuery };
    assert!(q.users.user(None).is_none());
    assert!(q.cms.posts(vec![]).is_empty());
    let m = MutationRoot { users: Mutation, cms: CMSMutation };
    assert!(m.users.update_user_result(1).success);
    assert_eq!(m.cms.remove_post("nope", 0), Err(CmsError::InvalidPostId));
}
