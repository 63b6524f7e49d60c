use cincobola_backend::policy::{authorize_owned, require};
use cincobola_backend::schema::User;
use cincobola_backend::{authorize, Action, Decision, ErrorKind, OwnerDescriptor};

fn user(email: &str, admin: bool) -> User {
    User {
        email: String::from(email),
        name: String::from("Somebody"),
        admin,
        password: String::new(),
    }
}

fn owner(email: &str) -> OwnerDescriptor {
    OwnerDescriptor { email: String::from(email) }
}

#[test]
fn policy_allows_owner_and_admin_only() {
    for action in [Action::Read, Action::Write, Action::Delete] {
        assert_eq!(authorize(&user("a@x.com", false), &owner("a@x.com"), action), Decision::Allow);
        assert_eq!(authorize(&user("a@x.com", true), &owner("a@x.com"), action), Decision::Allow);
        assert_eq!(authorize(&user("a@x.com", true), &owner("b@x.com"), action), Decision::Allow);
        assert_eq!(authorize(&user("a@x.com", false), &owner("b@x.com"), action), Decision::Deny);
    }
}

#[test]
fn policy_compares_emails_exactly() {
    let a = user("a@x.com", false);
    assert_eq!(authorize(&a, &owner("A@x.com"), Action::Read), Decision::Deny);
    assert_eq!(authorize(&a, &owner("a@x.com "), Action::Read), Decision::Deny);
    assert_eq!(authorize(&a, &owner(""), Action::Read), Decision::Deny);
    assert_eq!(authorize(&user("", false), &owner(""), Action::Read), Decision::Allow);
}

#[test]
fn policy_on_a_resource_without_owner() {
    assert_eq!(authorize_owned(&user("a@x.com", false), &None, Action::Read), Decision::Deny);
    assert_eq!(authorize_owned(&user("a@x.com", true), &None, Action::Read), Decision::Allow);
    assert_eq!(
        authorize_owned(&user("a@x.com", false), &Some(owner("a@x.com")), Action::Write),
        Decision::Allow
    );
    assert_eq!(
        authorize_owned(&user("a@x.com", false), &Some(owner("b@x.com")), Action::Write),
        Decision::Deny
    );
}

#[test]
fn denial_becomes_forbidden() {
    assert!(require(Decision::Allow, "no").is_ok());
    let e = require(Decision::Deny, "no").unwrap_err();
    assert_eq!(e.kind(), ErrorKind::Forbidden);
    assert_eq!(e.code(), 403);
    assert_eq!(e.description().unwrap(), "no");
}
