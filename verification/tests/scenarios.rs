use cincobola_backend::routes::sessions::{
    authenticate, delete_session, delete_sessions, login, logout, sessions, LoginRequest,
};
use cincobola_backend::routes::shops;
use cincobola_backend::routes::users::{create, RegisterRequest};
use cincobola_backend::schema::{Shop, User};
use cincobola_backend::{resolve_identity, Database, ErrorKind};

fn register(db: &mut Database, email: &str, password: &str, name: &str) -> User {
    let body = RegisterRequest {
        email: String::from(email),
        password: String::from(password),
        name: String::from(name),
    };
    create(db, body).unwrap()
}

fn credentials(email: &str, password: &str) -> LoginRequest {
    LoginRequest { email: String::from(email), password: String::from(password) }
}

#[test]
fn end_to_end_login() {
    let mut db = Database::new();
    register(&mut db, "a@x.com", "pw123", "Alice");

    let token = login(&mut db, credentials("a@x.com", "pw123")).unwrap();
    let t = token.as_str();

    let alice = resolve_identity(&mut db, Some(t)).unwrap();
    assert_eq!(alice.email, "a@x.com");
    assert_eq!(alice.name, "Alice");
    assert!(!alice.admin);

    logout(&mut db, Some(t)).unwrap();

    let e = resolve_identity(&mut db, Some(t)).unwrap_err();
    assert_eq!(e.kind(), ErrorKind::InvalidSession);
    assert_eq!(e.code(), 401);
}

#[test]
fn multi_session() {
    let mut db = Database::new();
    register(&mut db, "a@x.com", "pw123", "Alice");

    let t1 = login(&mut db, credentials("a@x.com", "pw123")).unwrap();
    let t2 = login(&mut db, credentials("a@x.com", "pw123")).unwrap();
    assert_ne!(t1, t2);

    let listed = sessions(&mut db, Some(t1.as_str())).unwrap();
    assert_eq!(listed.len(), 2);
    let id_of_t1 = listed[0].id;
    assert_ne!(id_of_t1, listed[1].id);

    delete_session(&mut db, id_of_t1, Some(t2.as_str())).unwrap();

    let left = sessions(&mut db, Some(t2.as_str())).unwrap();
    assert_eq!(left.len(), 1);
    assert_eq!(left[0].id, listed[1].id);
    assert_eq!(resolve_identity(&mut db, Some(t2.as_str())).unwrap().email, "a@x.com");
    assert_eq!(
        resolve_identity(&mut db, Some(t1.as_str())).unwrap_err().kind(),
        ErrorKind::InvalidSession
    );
}

#[test]
fn ownership_transfer_is_checked_again() {
    let mut db = Database::new();
    let a = register(&mut db, "a@x.com", "pw123", "Alice");
    register(&mut db, "b@x.com", "pw456", "Bob");
    let shop = Shop {
        slug: String::from("s"),
        name: String::from("Shop"),
        color: String::from("ff0000"),
        logo: String::from("logo.png"),
        owner: String::from("a@x.com"),
    };
    let body = shops::UpdateRequest {
        slug: None,
        name: None,
        color: None,
        logo: None,
        owner: Some(String::from("b@x.com")),
    };
    let e = shops::update(&a, shop, body).unwrap_err();
    assert_eq!(e.kind(), ErrorKind::Forbidden);
    assert_eq!(e.code(), 403);
    assert_eq!(
        e.description().unwrap(),
        "Você não tem permissão para trocar o dono de uma loja"
    );
}

#[test]
fn missing_token_is_missing_credential() {
    let mut db = Database::new();
    register(&mut db, "a@x.com", "pw123", "Alice");
    let e = resolve_identity(&mut db, None).unwrap_err();
    assert_eq!(e.kind(), ErrorKind::MissingCredential);
    assert_eq!(e.code(), 401);
    assert_eq!(sessions(&mut db, None).unwrap_err().kind(), ErrorKind::MissingCredential);
    assert_eq!(logout(&mut db, None).unwrap_err().kind(), ErrorKind::MissingCredential);
    assert_eq!(delete_sessions(&mut db, None).unwrap_err().kind(), ErrorKind::MissingCredential);
    assert_eq!(delete_session(&mut db, 1, None).unwrap_err().kind(), ErrorKind::MissingCredential);
}

#[test]
fn malformed_and_unknown_tokens_fail_alike() {
    let mut db = Database::new();
    register(&mut db, "a@x.com", "pw123", "Alice");
    let token = login(&mut db, credentials("a@x.com", "pw123")).unwrap();
    let truncated = &token.as_str()[..100];
    let unknown = "z".repeat(128);
    for bogus in ["", "not a token", truncated, unknown.as_str()] {
        let e = resolve_identity(&mut db, Some(bogus)).unwrap_err();
        assert_eq!(e.kind(), ErrorKind::InvalidSession);
        assert_eq!(e.code(), 401);
        assert_eq!(e.description().unwrap(), "Sessão inválida");
    }
}

#[test]
fn wrong_password_and_unknown_email_fail_alike() {
    let mut db = Database::new();
    register(&mut db, "a@x.com", "pw123", "Alice");
    let wrong = login(&mut db, credentials("a@x.com", "pw124")).unwrap_err();
    let unknown = login(&mut db, credentials("nobody@x.com", "pw123")).unwrap_err();
    assert_eq!(wrong.kind(), ErrorKind::WrongPassword);
    assert_eq!(wrong.code(), 401);
    assert_eq!(wrong.description().unwrap(), "Senha incorreta");
    assert_eq!(wrong, unknown);
    let alice = User::from_email(&db, "a@x.com").unwrap();
    assert!(alice.list_sessions(&db).unwrap().is_empty());
}

#[test]
fn logout_everywhere() {
    let mut db = Database::new();
    register(&mut db, "a@x.com", "pw123", "Alice");
    register(&mut db, "b@x.com", "pw456", "Bob");
    let t1 = login(&mut db, credentials("a@x.com", "pw123")).unwrap();
    let t2 = login(&mut db, credentials("a@x.com", "pw123")).unwrap();
    let t3 = login(&mut db, credentials("b@x.com", "pw456")).unwrap();
    delete_sessions(&mut db, Some(t1.as_str())).unwrap();
    assert!(resolve_identity(&mut db, Some(t1.as_str())).is_err());
    assert!(resolve_identity(&mut db, Some(t2.as_str())).is_err());
    assert_eq!(resolve_identity(&mut db, Some(t3.as_str())).unwrap().email, "b@x.com");
}

#[test]
fn logout_of_one_device_spares_the_other() {
    let mut db = Database::new();
    register(&mut db, "a@x.com", "pw123", "Alice");
    let t1 = login(&mut db, credentials("a@x.com", "pw123")).unwrap();
    let t2 = login(&mut db, credentials("a@x.com", "pw123")).unwrap();
    logout(&mut db, Some(t1.as_str())).unwrap();
    assert!(resolve_identity(&mut db, Some(t1.as_str())).is_err());
    assert!(resolve_identity(&mut db, Some(t2.as_str())).is_ok());
    assert_eq!(
        logout(&mut db, Some(t1.as_str())).unwrap_err().kind(),
        ErrorKind::InvalidSession
    );
}

#[test]
fn nobody_revokes_anothers_session() {
    let mut db = Database::new();
    register(&mut db, "a@x.com", "pw123", "Alice");
    register(&mut db, "b@x.com", "pw456", "Bob");
    let ta = login(&mut db, credentials("a@x.com", "pw123")).unwrap();
    let tb = login(&mut db, credentials("b@x.com", "pw456")).unwrap();
    let id_of_a = sessions(&mut db, Some(ta.as_str())).unwrap()[0].id;
    delete_session(&mut db, id_of_a, Some(tb.as_str())).unwrap();
    assert!(resolve_identity(&mut db, Some(ta.as_str())).is_ok());
}

#[test]
fn sessions_show_when_they_were_used() {
    let mut db = Database::new();
    db.advance(100);
    register(&mut db, "a@x.com", "pw123", "Alice");
    let t1 = login(&mut db, credentials("a@x.com", "pw123")).unwrap();
    db.advance(200);
    let t2 = login(&mut db, credentials("a@x.com", "pw123")).unwrap();
    db.advance(300);
    let listed = sessions(&mut db, Some(t2.as_str())).unwrap();
    assert_eq!(listed[0].created, 100);
    assert_eq!(listed[0].used, None);
    assert_eq!(listed[1].created, 200);
    assert_eq!(listed[1].used, Some(300));
    db.advance(250);
    let listed = sessions(&mut db, Some(t1.as_str())).unwrap();
    assert_eq!(listed[0].used, Some(300));
}

#[test]
fn authenticate_needs_the_user_and_the_password() {
    let alice = User::fresh("a@x.com", "pw123", "Alice").unwrap();
    assert_eq!(authenticate(Some(alice.clone()), "pw123").unwrap(), alice);
    let wrong = authenticate(Some(alice), "pw12").unwrap_err();
    let unknown = authenticate(None, "pw123").unwrap_err();
    assert_eq!(wrong.kind(), ErrorKind::WrongPassword);
    assert_eq!(wrong, unknown);
}

#[test]
fn deleted_account_loses_its_sessions() {
    let mut db = Database::new();
    let alice = register(&mut db, "a@x.com", "pw123", "Alice");
    let token = login(&mut db, credentials("a@x.com", "pw123")).unwrap();
    alice.delete(&mut db).unwrap();
    assert_eq!(
        resolve_identity(&mut db, Some(token.as_str())).unwrap_err().kind(),
        ErrorKind::InvalidSession
    );
    assert_eq!(
        login(&mut db, credentials("a@x.com", "pw123")).unwrap_err().kind(),
        ErrorKind::WrongPassword
    );
}
