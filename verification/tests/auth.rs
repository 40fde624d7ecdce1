use rama::context::extensions::Extensions;
use rama::net::user::auth::{Authority, AuthoritySync};
use rama::net::user::credentials::{Basic, UserId};
use rama::utils::username::{UsernameLabels, UsernameOpaqueLabelParser};

#[test]
fn basic_authorization() {
    let auth = Basic::new("Aladdin", "open sesame");
    let auths = vec![Basic::new("foo", "bar"), auth.clone()];
    let ext = Authority::<_, ()>::authorized(&auths, auth).unwrap();
    let user: &UserId = ext.user_id().unwrap();
    assert_eq!(user.as_str(), Some("Aladdin"));
}

#[test]
fn basic_authorization_with_labels_found() {
    let auths = vec![Basic::new("foo", "bar"), Basic::new("john", "secret")];

    let ext = Authority::<_, UsernameOpaqueLabelParser>::authorized(
        &auths,
        Basic::new("john-green-red", "secret"),
    )
    .unwrap();

    let c: &UserId = ext.user_id().unwrap();
    assert_eq!(c.as_str(), Some("john"));

    let labels: &UsernameLabels = ext.username_labels().unwrap();
    assert_eq!(&labels.0, &vec!["green".to_owned(), "red".to_owned()]);
}

#[test]
fn basic_authorization_with_labels_not_found() {
    let auth = Basic::new("john", "secret");
    let auths = vec![Basic::new("foo", "bar"), auth.clone()];

    let ext = Authority::<_, UsernameOpaqueLabelParser>::authorized(&auths, auth).unwrap();

    let c: &UserId = ext.user_id().unwrap();
    assert_eq!(c.as_str(), Some("john"));

    assert!(ext.username_labels().is_none());
}

#[test]
fn basic_authorization_refuses_strangers() {
    let auths = vec![Basic::new("foo", "bar"), Basic::new("john", "secret")];

    assert!(Authority::<_, UsernameOpaqueLabelParser>::authorized(
        &auths,
        Basic::new("mallory", "secret")
    )
    .is_none());
    assert!(Authority::<_, UsernameOpaqueLabelParser>::authorized(
        &auths,
        Basic::new("john-green", "wrong")
    )
    .is_none());
    assert!(Authority::<_, ()>::authorized(&auths, Basic::new("john", "wrong")).is_none());
    assert!(Authority::<_, ()>::authorized(&auths, Basic::new("john-green", "secret")).is_none());
    let nobody: Vec<Basic> = Vec::new();
    assert!(Authority::<_, ()>::authorized(&nobody, Basic::new("john", "secret")).is_none());
}

#[test]
fn a_refusal_leaves_no_fact_behind() {
    let judge = Basic::new("john", "secret");
    let mut ext = Extensions::new();

    assert!(!AuthoritySync::<_, UsernameOpaqueLabelParser>::authorized(
        &judge,
        &mut ext,
        &Basic::new("jane-green", "secret")
    ));
    assert!(ext.is_empty());
    assert!(!AuthoritySync::<_, ()>::authorized(&judge, &mut ext, &Basic::new("john", "x")));
    assert!(ext.is_empty());

    assert!(AuthoritySync::<_, UsernameOpaqueLabelParser>::authorized(
        &judge,
        &mut ext,
        &Basic::new("john-green", "secret")
    ));
    assert_eq!(ext.user_id().unwrap().as_str(), Some("john"));
    assert_eq!(ext.username_labels().unwrap().0, vec!["green".to_owned()]);
}

#[test]
fn an_unreadable_username_is_compared_as_a_whole() {
    let judge = Basic::new("-odd", "secret");
    let ext = Authority::<_, UsernameOpaqueLabelParser>::authorized(&judge, Basic::new("-odd", "secret"))
        .unwrap();
    assert_eq!(ext.user_id().unwrap().as_str(), Some("-odd"));
    assert!(ext.username_labels().is_none());
    assert!(
        Authority::<_, UsernameOpaqueLabelParser>::authorized(&judge, Basic::new("-even", "secret"))
            .is_none()
    );
}

#[test]
fn the_first_judge_to_accept_decides() {
    let judges = [Basic::new("a", "1"), Basic::new("john", "secret"), Basic::new("john", "secret")];
    let mut ext = Extensions::new();
    assert!(AuthoritySync::<_, ()>::authorized(&judges, &mut ext, &Basic::new("john", "secret")));
    assert_eq!(ext.user_id().unwrap().as_str(), Some("john"));
    assert_eq!(ext.len(), 1);

    let ext = Authority::<_, ()>::authorized(&judges, Basic::new("a", "1")).unwrap();
    assert_eq!(ext.user_id().unwrap().as_str(), Some("a"));
    assert!(Authority::<_, ()>::authorized(&judges, Basic::new("a", "2")).is_none());
}

#[test]
fn a_username_whose_name_part_differs_is_compared_as_a_whole() {
    let judge = Basic::new("john-green", "secret");
    let mut ext = Extensions::new();
    assert!(AuthoritySync::<_, UsernameOpaqueLabelParser>::authorized(
        &judge,
        &mut ext,
        &Basic::new("john-green", "secret")
    ));
    assert_eq!(ext.user_id().unwrap().as_str(), Some("john-green"));
    assert!(ext.username_labels().is_none());
    assert_eq!(ext.len(), 1);

    let mut ext = Extensions::new();
    assert!(!AuthoritySync::<_, UsernameOpaqueLabelParser>::authorized(
        &judge,
        &mut ext,
        &Basic::new("john-green-red", "secret")
    ));
    assert!(ext.is_empty());

    assert!(Authority::<_, UsernameOpaqueLabelParser>::authorized(
        &judge,
        Basic::new("john-blue", "secret")
    )
    .is_none());
    assert!(Authority::<_, UsernameOpaqueLabelParser>::authorized(
        &judge,
        Basic::new("john-green", "other")
    )
    .is_none());
}
