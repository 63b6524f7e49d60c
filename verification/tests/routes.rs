use cincobola_backend::routes::sessions::{login, LoginRequest};
use cincobola_backend::routes::{products, purchases, shops, users};
use cincobola_backend::schema::{Product, Purchase, Shop, User};
use cincobola_backend::{Database, ErrorKind, OwnerDescriptor};
use rust_decimal::Decimal;

fn user(email: &str, admin: bool) -> User {
    User {
        email: String::from(email),
        name: String::from("Somebody"),
        admin,
        password: String::new(),
    }
}

fn shop(slug: &str, owner: &str) -> Shop {
    Shop {
        slug: String::from(slug),
        name: String::from("A shop"),
        color: String::from("00ff00"),
        logo: String::from("logo.png"),
        owner: String::from(owner),
    }
}

fn product(slug: &str, shop_slug: &str) -> Product {
    Product {
        slug: String::from(slug),
        shop_slug: String::from(shop_slug),
        name: String::from("A product"),
        price: Decimal::new(1999, 2),
        available: 10,
        sold: 3,
        details: String::from("details"),
        picture: String::from("picture.png"),
    }
}

fn no_shop_change() -> shops::UpdateRequest {
    shops::UpdateRequest { slug: None, name: None, color: None, logo: None, owner: None }
}

fn no_product_change() -> products::UpdateRequest {
    products::UpdateRequest {
        slug: None,
        shop_slug: None,
        name: None,
        price: None,
        available: None,
        sold: None,
        details: None,
        picture: None,
    }
}

fn no_user_change() -> users::UpdateRequest {
    users::UpdateRequest { email: None, password: None, name: None, admin: None }
}

/// A store with Alice, Bob and the administrator Root, each logged in.
fn store() -> (Database, String, String, String) {
    let mut db = Database::new();
    let mut tokens = Vec::new();
    for (email, name) in [("a@x.com", "Alice"), ("b@x.com", "Bob"), ("root@x.com", "Root")] {
        let body = users::RegisterRequest {
            email: String::from(email),
            password: String::from("pw123"),
            name: String::from(name),
        };
        let registered = users::create(&mut db, body).unwrap();
        if email == "root@x.com" {
            registered.modify(&mut db, None, None, None, Some(true)).unwrap();
        }
        let body = LoginRequest { email: String::from(email), password: String::from("pw123") };
        tokens.push(login(&mut db, body).unwrap().into_string());
    }
    let root = tokens.pop().unwrap();
    let bob = tokens.pop().unwrap();
    let alice = tokens.pop().unwrap();
    (db, alice, bob, root)
}

#[test]
fn shop_create_stores_the_colour_without_hash() {
    let body = shops::CreateRequest {
        slug: String::from("s"),
        name: String::from("Shop"),
        color: String::from("#ff00aa"),
        logo: String::from("logo.png"),
        owner: String::from("a@x.com"),
    };
    let made = shops::create(&user("a@x.com", false), body).unwrap();
    assert_eq!(
        made,
        Shop {
            slug: String::from("s"),
            name: String::from("Shop"),
            color: String::from("ff00aa"),
            logo: String::from("logo.png"),
            owner: String::from("a@x.com"),
        }
    );
    assert_eq!(made.owner_descriptor(), OwnerDescriptor { email: String::from("a@x.com") });
}

fn shop_with_color(color: &str, owner: &str) -> shops::CreateRequest {
    shops::CreateRequest {
        slug: String::from("s"),
        name: String::from("Shop"),
        color: String::from(color),
        logo: String::from("logo.png"),
        owner: String::from(owner),
    }
}

#[test]
fn shop_create_limits_the_colour() {
    let a = user("a@x.com", false);
    assert_eq!(shops::COLOR_LIMIT, 6);
    assert!(shops::create(&a, shop_with_color("123456", "a@x.com")).is_ok());
    assert!(shops::create(&a, shop_with_color("#12#34#56#", "a@x.com")).is_ok());
    assert!(shops::create(&a, shop_with_color("", "a@x.com")).is_ok());
    let e = shops::create(&a, shop_with_color("1234567", "a@x.com")).unwrap_err();
    assert_eq!(e.kind(), ErrorKind::InvalidInput);
    assert_eq!(e.code(), 400);
    assert_eq!(
        e.description().unwrap(),
        "A cor da loja deve ser hexadecimal e ter, no máximo, 6 caracteres"
    );
    // Four characters, but eight bytes.
    let e = shops::create(&a, shop_with_color("çççç", "a@x.com")).unwrap_err();
    assert_eq!(e.kind(), ErrorKind::InvalidInput);
    // The colour is looked at before the owner.
    let e = shops::create(&a, shop_with_color("1234567", "b@x.com")).unwrap_err();
    assert_eq!(e.kind(), ErrorKind::InvalidInput);
}

#[test]
fn shop_create_for_another_needs_an_admin() {
    let e = shops::create(&user("a@x.com", false), shop_with_color("fff", "b@x.com")).unwrap_err();
    assert_eq!(e.kind(), ErrorKind::Forbidden);
    assert_eq!(
        e.description().unwrap(),
        "Você não tem permissão para criar uma loja em nome de outra pessoa"
    );
    let made = shops::create(&user("a@x.com", true), shop_with_color("fff", "b@x.com")).unwrap();
    assert_eq!(made.owner, "b@x.com");
}

#[test]
fn shop_update_changes_what_is_given() {
    let a = user("a@x.com", false);
    let same = shops::update(&a, shop("s", "a@x.com"), no_shop_change()).unwrap();
    assert_eq!(same, shop("s", "a@x.com"));
    let body = shops::UpdateRequest {
        slug: Some(String::from("t")),
        name: Some(String::from("New")),
        color: Some(String::from("#abc#")),
        logo: Some(String::from("new.png")),
        owner: None,
    };
    let updated = shops::update(&a, shop("s", "a@x.com"), body).unwrap();
    assert_eq!(
        updated,
        Shop {
            slug: String::from("t"),
            name: String::from("New"),
            color: String::from("abc"),
            logo: String::from("new.png"),
            owner: String::from("a@x.com"),
        }
    );
}

#[test]
fn shop_update_by_a_stranger_is_forbidden() {
    let e = shops::update(&user("b@x.com", false), shop("s", "a@x.com"), no_shop_change())
        .unwrap_err();
    assert_eq!(e.kind(), ErrorKind::Forbidden);
    assert_eq!(e.description().unwrap(), "Você não tem permissão para modificar essa loja");
}

#[test]
fn shop_cannot_be_taken_nor_given_away() {
    let to = |owner: &str| shops::UpdateRequest {
        owner: Some(String::from(owner)),
        ..no_shop_change()
    };
    // A stranger who names themselves the owner fails at the first check.
    let e = shops::update(&user("b@x.com", false), shop("s", "a@x.com"), to("b@x.com"))
        .unwrap_err();
    assert_eq!(e.description().unwrap(), "Você não tem permissão para modificar essa loja");
    // The owner who gives the shop away fails at the second.
    let e = shops::update(&user("a@x.com", false), shop("s", "a@x.com"), to("b@x.com"))
        .unwrap_err();
    assert_eq!(e.kind(), ErrorKind::Forbidden);
    assert_eq!(
        e.description().unwrap(),
        "Você não tem permissão para trocar o dono de uma loja"
    );
    // Naming oneself again is no transfer.
    assert!(shops::update(&user("a@x.com", false), shop("s", "a@x.com"), to("a@x.com")).is_ok());
    // An administrator may hand a shop on.
    let moved = shops::update(&user("root@x.com", true), shop("s", "a@x.com"), to("b@x.com"))
        .unwrap();
    assert_eq!(moved.owner, "b@x.com");
}

#[test]
fn shop_delete_and_list() {
    let a = user("a@x.com", false);
    let b = user("b@x.com", false);
    let root = user("root@x.com", true);
    assert!(shops::delete(&a, &shop("s", "a@x.com")).is_ok());
    assert!(shops::delete(&root, &shop("s", "a@x.com")).is_ok());
    let e = shops::delete(&b, &shop("s", "a@x.com")).unwrap_err();
    assert_eq!(e.kind(), ErrorKind::Forbidden);
    assert_eq!(e.description().unwrap(), "Você não tem permissão para remover essa loja");
    assert!(shops::list_by_owner(&a, &a).is_ok());
    assert!(shops::list_by_owner(&root, &a).is_ok());
    let e = shops::list_by_owner(&b, &a).unwrap_err();
    assert_eq!(e.kind(), ErrorKind::Forbidden);
    assert_eq!(
        e.description().unwrap(),
        "Você não tem permissão para listar as lojas desse usuário"
    );
}

#[test]
fn shop_owner_among_takes_the_first_of_the_slug() {
    let shops = vec![shop("s", "a@x.com"), shop("t", "b@x.com"), shop("s", "c@x.com")];
    assert_eq!(Shop::owner_among(&shops, "s").unwrap().email, "a@x.com");
    assert_eq!(Shop::owner_among(&shops, "t").unwrap().email, "b@x.com");
    assert!(Shop::owner_among(&shops, "u").is_none());
    assert!(Shop::owner_among(&Vec::new(), "s").is_none());
}

#[test]
fn product_create_needs_the_shop() {
    let shops_of_a = vec![shop("s", "a@x.com")];
    let body = |shop_slug: &str| products::CreateRequest {
        slug: String::from("p"),
        shop_slug: String::from(shop_slug),
        name: String::from("A product"),
        price: Decimal::new(1999, 2),
        available: 10,
        sold: 3,
        details: String::from("details"),
        picture: String::from("picture.png"),
    };
    let made = products::create(&user("a@x.com", false), &shops_of_a, body("s")).unwrap();
    assert_eq!(made, product("p", "s"));
    let e = products::create(&user("a@x.com", false), &shops_of_a, body("t")).unwrap_err();
    assert_eq!(e.kind(), ErrorKind::Forbidden);
    assert_eq!(
        e.description().unwrap(),
        "Você não tem permissão para adicionar produtos à essa loja"
    );
    assert!(products::create(&user("b@x.com", false), &shops_of_a, body("s")).is_err());
    assert!(products::create(&user("root@x.com", true), &Vec::new(), body("t")).is_ok());
}

#[test]
fn product_update_changes_what_is_given() {
    let a = user("a@x.com", false);
    let shops_of_a = vec![shop("s", "a@x.com"), shop("t", "a@x.com")];
    let same = products::update(&a, &shops_of_a, product("p", "s"), no_product_change()).unwrap();
    assert_eq!(same, product("p", "s"));
    let body = products::UpdateRequest {
        slug: Some(String::from("q")),
        shop_slug: Some(String::from("t")),
        name: Some(String::from("New")),
        price: Some(Decimal::new(5, 1)),
        available: Some(0),
        sold: Some(13),
        details: Some(String::from("new details")),
        picture: Some(String::from("new.png")),
    };
    let updated = products::update(&a, &shops_of_a, product("p", "s"), body).unwrap();
    assert_eq!(
        updated,
        Product {
            slug: String::from("q"),
            shop_slug: String::from("t"),
            name: String::from("New"),
            price: Decimal::new(5, 1),
            available: 0,
            sold: 13,
            details: String::from("new details"),
            picture: String::from("new.png"),
        }
    );
}

#[test]
fn product_cannot_be_moved_to_anothers_shop() {
    let shops = vec![shop("s", "a@x.com"), shop("t", "b@x.com")];
    let to = |shop_slug: &str| products::UpdateRequest {
        shop_slug: Some(String::from(shop_slug)),
        ..no_product_change()
    };
    let e = products::update(&user("a@x.com", false), &shops, product("p", "s"), to("t"))
        .unwrap_err();
    assert_eq!(e.kind(), ErrorKind::Forbidden);
    assert_eq!(
        e.description().unwrap(),
        "Você não tem permissão para mover o produto à uma loja que não é sua"
    );
    let e = products::update(&user("a@x.com", false), &shops, product("p", "s"), to("nowhere"))
        .unwrap_err();
    assert_eq!(e.kind(), ErrorKind::Forbidden);
    let e = products::update(&user("b@x.com", false), &shops, product("p", "s"), to("t"))
        .unwrap_err();
    assert_eq!(e.description().unwrap(), "Você não tem permissão para modificar esse produto");
    let moved = products::update(&user("root@x.com", true), &shops, product("p", "s"), to("t"))
        .unwrap();
    assert_eq!(moved.shop_slug, "t");
}

#[test]
fn product_delete_needs_the_shop() {
    let shops = vec![shop("s", "a@x.com")];
    assert!(products::delete(&user("a@x.com", false), &shops, &product("p", "s")).is_ok());
    assert!(products::delete(&user("root@x.com", true), &shops, &product("p", "s")).is_ok());
    let e = products::delete(&user("b@x.com", false), &shops, &product("p", "s")).unwrap_err();
    assert_eq!(e.kind(), ErrorKind::Forbidden);
    assert_eq!(e.description().unwrap(), "Você não tem permissão para remover esse produto");
}

#[test]
fn product_modify_changes_what_is_given() {
    let price = Decimal::new(7, 0);
    let modified = product("p", "s").modify(
        Some("q"),
        None,
        Some("New"),
        Some(&price),
        None,
        Some(4),
        None,
        Some("new.png"),
    );
    assert_eq!(
        modified,
        Product {
            slug: String::from("q"),
            shop_slug: String::from("s"),
            name: String::from("New"),
            price: Decimal::new(7, 0),
            available: 10,
            sold: 4,
            details: String::from("details"),
            picture: String::from("new.png"),
        }
    );
    let same = product("p", "s").modify(None, None, None, None, None, None, None, None);
    assert_eq!(same, product("p", "s"));
    let other =
        product("p", "s").modify(None, Some("t"), None, None, Some(1), None, Some("d"), None);
    assert_eq!(other.shop_slug, "t");
    assert_eq!(other.available, 1);
    assert_eq!(other.details, "d");
}

#[test]
fn purchase_lists_are_for_their_owners() {
    let a = user("a@x.com", false);
    let b = user("b@x.com", false);
    let root = user("root@x.com", true);
    let shops = vec![shop("s", "a@x.com")];

    assert!(purchases::list_by_purchaser(&a, &a).is_ok());
    assert!(purchases::list_by_purchaser(&root, &a).is_ok());
    let e = purchases::list_by_purchaser(&b, &a).unwrap_err();
    assert_eq!(e.kind(), ErrorKind::Forbidden);
    assert_eq!(
        e.description().unwrap(),
        "Você não tem permissão para listar as compras desse usuário"
    );

    assert!(purchases::list_by_product(&a, &shops, &product("p", "s")).is_ok());
    assert!(purchases::list_by_product(&root, &shops, &product("p", "s")).is_ok());
    let e = purchases::list_by_product(&b, &shops, &product("p", "s")).unwrap_err();
    assert_eq!(e.kind(), ErrorKind::Forbidden);
    assert_eq!(
        e.description().unwrap(),
        "Você não tem permissão para listar compras desse produto"
    );

    assert!(purchases::list_by_shop(&a, &shop("s", "a@x.com")).is_ok());
    assert!(purchases::list_by_shop(&root, &shop("s", "a@x.com")).is_ok());
    let e = purchases::list_by_shop(&b, &shop("s", "a@x.com")).unwrap_err();
    assert_eq!(e.kind(), ErrorKind::Forbidden);
    assert_eq!(
        e.description().unwrap(),
        "Você não tem permissão para listar compras dessa loja"
    );

    assert!(purchases::list(&root).is_ok());
    let e = purchases::list(&a).unwrap_err();
    assert_eq!(e.kind(), ErrorKind::Forbidden);
    assert_eq!(e.description().unwrap(), "Você não tem permissão para listar todas as compras");
}

#[test]
fn purchase_is_made_at_the_products_price() {
    let body = purchases::BuyRequest { amount: 2, product: String::from("p") };
    let bought = purchases::create_at(&user("a@x.com", false), &product("p", "s"), &body, 1_234);
    assert_eq!(
        bought,
        Purchase {
            amount: 2,
            paid: Decimal::new(1999, 2),
            time: 1_234,
            product: Some(String::from("p")),
            purchaser: Some(String::from("a@x.com")),
        }
    );
    assert_eq!(bought.owner_descriptor().unwrap().email, "a@x.com");
    let orphan = Purchase { purchaser: None, ..bought.clone() };
    assert!(orphan.owner_descriptor().is_none());

    let now = purchases::create(&user("a@x.com", false), &product("p", "s"), &body);
    assert!(now.time > 1_577_836_800_000_000);
    assert_eq!(Purchase { time: 1_234, ..now }, bought);
}

#[test]
fn users_list_is_for_admins() {
    let (mut db, alice, _, root) = store();
    let listed = users::list(&mut db, Some(&root)).unwrap();
    let emails: Vec<&str> = listed.iter().map(|u| u.email.as_str()).collect();
    assert_eq!(emails, vec!["a@x.com", "b@x.com", "root@x.com"]);
    let e = users::list(&mut db, Some(&alice)).unwrap_err();
    assert_eq!(e.kind(), ErrorKind::Forbidden);
    assert_eq!(e.description().unwrap(), "Você não tem permissão para listar os usuários");
    assert_eq!(users::list(&mut db, None).unwrap_err().kind(), ErrorKind::MissingCredential);
    assert_eq!(users::list(&mut db, Some("x")).unwrap_err().kind(), ErrorKind::InvalidSession);
}

#[test]
fn users_read_is_for_self_and_admins() {
    let (mut db, alice, bob, root) = store();
    assert_eq!(users::read(&mut db, Some(&alice), "a@x.com").unwrap().name, "Alice");
    assert_eq!(users::read(&mut db, Some(&root), "a@x.com").unwrap().name, "Alice");
    let e = users::read(&mut db, Some(&bob), "a@x.com").unwrap_err();
    assert_eq!(e.kind(), ErrorKind::Forbidden);
    assert_eq!(e.description().unwrap(), "Você não tem permissão para ver esse usuário");
    let e = users::read(&mut db, Some(&bob), "nobody@x.com").unwrap_err();
    assert_eq!(e.kind(), ErrorKind::NotFound);
    assert_eq!(
        users::read(&mut db, None, "a@x.com").unwrap_err().kind(),
        ErrorKind::MissingCredential
    );
}

#[test]
fn users_update_changes_what_is_given() {
    let (mut db, alice, bob, root) = store();
    let body = users::UpdateRequest { name: Some(String::from("Alice B.")), ..no_user_change() };
    let updated = users::update(&mut db, Some(&alice), body, "a@x.com").unwrap();
    assert_eq!(updated.name, "Alice B.");
    assert_eq!(updated.email, "a@x.com");
    assert!(updated.verify_password("pw123"));

    let body = users::UpdateRequest { name: Some(String::from("Eve")), ..no_user_change() };
    let e = users::update(&mut db, Some(&bob), body, "a@x.com").unwrap_err();
    assert_eq!(e.kind(), ErrorKind::Forbidden);
    assert_eq!(e.description().unwrap(), "Você não tem permissão para modificar esse usuário");
    assert_eq!(User::from_email(&db, "a@x.com").unwrap().name, "Alice B.");

    let body = users::UpdateRequest { password: Some(String::from("fresh")), ..no_user_change() };
    let updated = users::update(&mut db, Some(&root), body, "a@x.com").unwrap();
    assert!(updated.verify_password("fresh"));
    assert!(!updated.verify_password("pw123"));

    let e = users::update(&mut db, Some(&root), no_user_change(), "nobody@x.com").unwrap_err();
    assert_eq!(e.kind(), ErrorKind::NotFound);
}

#[test]
fn users_update_of_email_keeps_the_session() {
    let (mut db, alice, _, _) = store();
    let body =
        users::UpdateRequest { email: Some(String::from("alice@x.com")), ..no_user_change() };
    users::update(&mut db, Some(&alice), body, "a@x.com").unwrap();
    assert_eq!(users::read(&mut db, Some(&alice), "alice@x.com").unwrap().email, "alice@x.com");
    let body = users::UpdateRequest { email: Some(String::from("b@x.com")), ..no_user_change() };
    let e = users::update(&mut db, Some(&alice), body, "alice@x.com").unwrap_err();
    assert_eq!(e.kind(), ErrorKind::DuplicateIdentity);
}

#[test]
fn only_an_admin_makes_an_admin() {
    let (mut db, alice, _, root) = store();
    let promote = || users::UpdateRequest { admin: Some(true), ..no_user_change() };
    let demote = || users::UpdateRequest { admin: Some(false), ..no_user_change() };
    let updated = users::update(&mut db, Some(&alice), promote(), "a@x.com").unwrap();
    assert!(!updated.admin);
    assert!(users::list(&mut db, Some(&alice)).is_err());
    let updated = users::update(&mut db, Some(&root), promote(), "a@x.com").unwrap();
    assert!(updated.admin);
    assert!(users::list(&mut db, Some(&alice)).is_ok());
    let updated = users::update(&mut db, Some(&alice), demote(), "a@x.com").unwrap();
    assert!(!updated.admin);
    assert!(users::list(&mut db, Some(&alice)).is_err());
}

#[test]
fn users_delete_is_for_self_and_admins() {
    let (mut db, alice, bob, root) = store();
    let e = users::delete(&mut db, Some(&bob), "a@x.com").unwrap_err();
    assert_eq!(e.kind(), ErrorKind::Forbidden);
    assert_eq!(e.description().unwrap(), "Você não tem permissão para remover esse usuário");
    users::delete(&mut db, Some(&alice), "a@x.com").unwrap();
    assert_eq!(
        users::read(&mut db, Some(&alice), "a@x.com").unwrap_err().kind(),
        ErrorKind::InvalidSession
    );
    users::delete(&mut db, Some(&root), "b@x.com").unwrap();
    assert_eq!(users::list(&mut db, Some(&bob)).unwrap_err().kind(), ErrorKind::InvalidSession);
    assert_eq!(users::list(&mut db, Some(&root)).unwrap().len(), 1);
    let e = users::delete(&mut db, Some(&root), "b@x.com").unwrap_err();
    assert_eq!(e.kind(), ErrorKind::NotFound);
}

#[test]
fn users_create_registers_without_rights() {
    let mut db = Database::new();
    let body = users::RegisterRequest {
        email: String::from("a@x.com"),
        password: String::from("pw123"),
        name: String::from("Alice"),
    };
    let alice = users::create(&mut db, body).unwrap();
    assert!(!alice.admin);
    assert!(alice.verify_password("pw123"));
    let body = users::RegisterRequest {
        email: String::from("a@x.com"),
        password: String::from("x"),
        name: String::from("Again"),
    };
    assert_eq!(users::create(&mut db, body).unwrap_err().kind(), ErrorKind::DuplicateIdentity);
}

#[test]
fn locations_are_under_the_site() {
    assert_eq!(shops::location(&shop("s", "a@x.com")), "https://cincobola.misterio.me/shops/s");
    assert_eq!(
        products::location(&product("p", "s")),
        "https://cincobola.misterio.me/products/p"
    );
    assert_eq!(
        users::location(&user("a@x.com", false)),
        "https://cincobola.misterio.me/users/a@x.com"
    );
    assert_eq!(shops::location(&shop("", "a@x.com")), "https://cincobola.misterio.me/shops/");
}

#[test]
fn owner_descriptors_name_the_owner() {
    let shops = vec![shop("s", "a@x.com"), shop("t", "b@x.com")];
    assert_eq!(product("p", "t").owner_descriptor(&shops).unwrap().email, "b@x.com");
    assert!(product("p", "u").owner_descriptor(&shops).is_none());
    assert_eq!(user("a@x.com", true).owner_descriptor().email, "a@x.com");
}

#[test]
fn user_decisions_follow_the_policy() {
    let a = user("a@x.com", false);
    let b = user("b@x.com", false);
    let root = user("root@x.com", true);
    assert!(users::may_list(&root).is_ok());
    assert_eq!(users::may_list(&a).unwrap_err().kind(), ErrorKind::Forbidden);
    assert!(users::may_read(&a, &a).is_ok());
    assert!(users::may_read(&root, &a).is_ok());
    assert_eq!(users::may_read(&b, &a).unwrap_err().kind(), ErrorKind::Forbidden);
    assert!(users::may_delete(&a, &a).is_ok());
    assert!(users::may_delete(&root, &a).is_ok());
    assert_eq!(users::may_delete(&b, &a).unwrap_err().kind(), ErrorKind::Forbidden);
}

#[test]
fn user_edit_applies_the_admin_rule() {
    let root = user("root@x.com", true);
    let a = user("a@x.com", false);
    let promote = users::UpdateRequest { admin: Some(true), ..no_user_change() };
    assert!(!users::edit(&a, a.clone(), &promote).unwrap().admin);
    assert!(users::edit(&root, a.clone(), &promote).unwrap().admin);
    assert_eq!(users::edit(&a, root.clone(), &promote).unwrap_err().kind(), ErrorKind::Forbidden);
    let demote = users::UpdateRequest { admin: Some(false), ..no_user_change() };
    assert!(!users::edit(&root, root.clone(), &demote).unwrap().admin);
    let keep = users::edit(&root, root.clone(), &no_user_change()).unwrap();
    assert_eq!(keep, root);
    let all = users::UpdateRequest {
        email: Some(String::from("c@x.com")),
        password: Some(String::from("new")),
        name: Some(String::from("Carol")),
        admin: None,
    };
    let edited = users::edit(&a, a.clone(), &all).unwrap();
    assert_eq!(edited.email, "c@x.com");
    assert_eq!(edited.name, "Carol");
    assert!(!edited.admin);
    assert!(edited.verify_password("new"));
}

#[test]
fn fresh_user_has_no_rights() {
    let fresh = User::fresh("a@x.com", "pw123", "Alice").unwrap();
    assert_eq!(fresh.email, "a@x.com");
    assert_eq!(fresh.name, "Alice");
    assert!(!fresh.admin);
    assert!(fresh.verify_password("pw123"));
    let changed = fresh.clone().changed(None, None, Some("Al"), Some(true)).unwrap();
    assert_eq!(changed.name, "Al");
    assert!(changed.admin);
    assert_eq!(changed.password, fresh.password);
    assert_eq!(changed.email, "a@x.com");
}
