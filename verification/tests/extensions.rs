use std::sync::Arc;

use rama::context::context::Context;
use rama::context::extensions::{Extensions, Fact, FactKind};
use rama::context::guard::Guard;
use rama::net::user::credentials::UserId;
use rama::utils::username::UsernameLabels;

fn user(name: &str) -> Fact {
    Fact::UserId(UserId::Username(name.to_owned()))
}

#[test]
fn a_new_bag_is_empty() {
    let ext = Extensions::new();
    assert!(ext.is_empty());
    assert_eq!(ext.len(), 0);
    assert!(ext.get(FactKind::UserId).is_none());
    assert!(ext.user_id().is_none());
    assert!(!ext.contains(FactKind::Custom(7)));
    assert!(Extensions::default().is_empty());
}

#[test]
fn insert_overwrites_and_returns_the_prior_fact() {
    let mut ext = Extensions::new();
    assert_eq!(ext.insert(user("john")), None);
    assert_eq!(ext.insert(Fact::Custom(1, "one".to_owned())), None);
    assert_eq!(ext.insert(Fact::Custom(2, "two".to_owned())), None);
    assert_eq!(ext.len(), 3);

    assert_eq!(ext.insert(user("jane")), Some(user("john")));
    assert_eq!(ext.insert(Fact::Custom(1, "uno".to_owned())), Some(Fact::Custom(1, "one".to_owned())));
    assert_eq!(ext.len(), 3);

    assert_eq!(ext.get(FactKind::UserId), Some(&user("jane")));
    assert_eq!(ext.get(FactKind::Custom(1)), Some(&Fact::Custom(1, "uno".to_owned())));
    assert_eq!(ext.get(FactKind::Custom(2)), Some(&Fact::Custom(2, "two".to_owned())));
    assert_eq!(ext.get(FactKind::Custom(3)), None);
    assert!(ext.contains(FactKind::UserId));
}

#[test]
fn extend_merges_and_the_newcomer_wins() {
    let mut ext = Extensions::new();
    ext.insert(user("john"));
    ext.insert(Fact::Custom(1, "one".to_owned()));

    let mut other = Extensions::new();
    other.insert(user("jane"));
    other.insert(Fact::UsernameLabels(UsernameLabels(vec!["green".to_owned()])));

    ext.extend(other);
    assert_eq!(ext.len(), 3);
    assert_eq!(ext.user_id().unwrap().as_str(), Some("jane"));
    assert_eq!(ext.get(FactKind::Custom(1)), Some(&Fact::Custom(1, "one".to_owned())));
    assert_eq!(ext.username_labels().unwrap().0, vec!["green".to_owned()]);

    ext.extend(Extensions::new());
    assert_eq!(ext.len(), 3);

    let mut kinds = Extensions::new();
    for number in 0..20u32 {
        kinds.insert(Fact::Custom(number % 7, "x".to_owned()));
    }
    assert_eq!(kinds.len(), 7);
}

#[test]
fn a_clone_of_the_bag_is_its_own() {
    let mut ext = Extensions::new();
    ext.insert(user("john"));
    let mut copy = ext.clone();
    assert_eq!(copy.get(FactKind::UserId), Some(&user("john")));

    copy.insert(user("jane"));
    copy.insert(Fact::Custom(9, "nine".to_owned()));
    assert_eq!(ext.user_id().unwrap().as_str(), Some("john"));
    assert_eq!(ext.len(), 1);
    assert_eq!(copy.len(), 2);
}

#[test]
fn a_new_context_has_no_fact_and_no_guard() {
    let ctx = Context::new(Arc::new(42u32));
    assert_eq!(*ctx.state(), 42);
    assert!(ctx.guard().is_none());
    assert!(ctx.extensions().is_empty());
    assert!(ctx.get(FactKind::UserId).is_none());

    let ctx = Context::default();
    assert!(ctx.guard().is_none());
    assert!(!ctx.contains(FactKind::Forwarded));
}

#[test]
fn clones_of_a_context_do_not_see_each_others_facts() {
    let mut root = Context::new(Arc::new("state"));
    root.insert(user("john"));

    let mut first = root.clone();
    let mut second = root.clone();
    assert_eq!(first.insert(user("first")), Some(user("john")));
    second.insert(Fact::Custom(1, "second".to_owned()));

    assert_eq!(root.get(FactKind::UserId), Some(&user("john")));
    assert!(!root.contains(FactKind::Custom(1)));
    assert_eq!(first.get(FactKind::UserId), Some(&user("first")));
    assert!(!first.contains(FactKind::Custom(1)));
    assert_eq!(second.get(FactKind::UserId), Some(&user("john")));
    assert_eq!(*first.state(), "state");

    root.extend(second.into_extensions());
    assert!(root.contains(FactKind::Custom(1)));
    assert_eq!(root.get(FactKind::UserId), Some(&user("john")));
}

#[test]
fn clones_of_a_context_share_state_and_guard() {
    let state = Arc::new(7u8);
    let guard = Guard::new();
    let ctx = Context::with_guard(state.clone(), guard.clone());
    let copy = ctx.clone();

    assert!(std::ptr::eq(ctx.state(), copy.state()));
    assert!(std::ptr::eq(ctx.state(), &*state));
    assert!(!ctx.guard().unwrap().is_cancelled());
    assert!(!copy.guard().unwrap().is_cancelled());

    guard.cancel();
    assert!(ctx.guard().unwrap().is_cancelled());
    assert!(copy.guard().unwrap().is_cancelled());
    assert!(copy.clone().guard().unwrap().is_cancelled());

    guard.cancel();
    assert!(ctx.guard().unwrap().is_cancelled());
    assert!(!Guard::new().is_cancelled());
}
