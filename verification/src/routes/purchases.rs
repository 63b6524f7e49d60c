//! The endpoints on purchases. A purchase belongs to its purchaser; the
//! purchases of a product and of a shop are shown to the shop's owner.

use vstd::prelude::*;
use crate::error::{ErrorKind, failure, Result};
use crate::policy::{Action, authorize, authorize_owned, permits, require};
use crate::routes::products::may_manage;
use crate::schema::product::Product;
use crate::schema::purchase::{Purchase, PurchaseView};
use crate::schema::shop::Shop;
use crate::schema::user::User;

verus! {

/// What a requester is told who may not list what that user bought.
pub const MAY_NOT_LIST_OF_USER: &'static str =
    "Você não tem permissão para listar as compras desse usuário";

/// What a requester is told who may not list the purchases of that product.
pub const MAY_NOT_LIST_OF_PRODUCT: &'static str =
    "Você não tem permissão para listar compras desse produto";

/// What a requester is told who may not list the purchases made at that shop.
pub const MAY_NOT_LIST_OF_SHOP: &'static str =
    "Você não tem permissão para listar compras dessa loja";

/// What a requester is told who may not list all purchases.
pub const MAY_NOT_LIST_ALL: &'static str = "Você não tem permissão para listar todas as compras";

/// What a request to buy holds.
#[derive(Debug)]
pub struct BuyRequest {
    pub amount: i32,
    pub product: String,
}

/// Decides whether `requester` may list what `target` bought.
pub fn list_by_purchaser(requester: &User, target: &User) -> (r: Result<()>)
    ensures
        match r {
            Ok(_) => permits(requester@, target@.email),
            Err(e) => !permits(requester@, target@.email) && e@ == failure(
                ErrorKind::Forbidden,
                MAY_NOT_LIST_OF_USER@,
            ),
        },
{
    require(authorize(requester, &target.owner_descriptor(), Action::Read), MAY_NOT_LIST_OF_USER)
}

/// Decides whether `requester` may list the purchases of `product`, where
/// `shops` says who owns which shop.
pub fn list_by_product(requester: &User, shops: &Vec<Shop>, product: &Product) -> (r: Result<()>)
    ensures
        match r {
            Ok(_) => may_manage(requester, shops, product@.shop_slug),
            Err(e) => !may_manage(requester, shops, product@.shop_slug) && e@ == failure(
                ErrorKind::Forbidden,
                MAY_NOT_LIST_OF_PRODUCT@,
            ),
        },
{
    let owner = product.owner_descriptor(shops);
    require(authorize_owned(requester, &owner, Action::Read), MAY_NOT_LIST_OF_PRODUCT)
}

/// Decides whether `requester` may list the purchases made at `shop`.
pub fn list_by_shop(requester: &User, shop: &Shop) -> (r: Result<()>)
    ensures
        match r {
            Ok(_) => permits(requester@, shop@.owner),
            Err(e) => !permits(requester@, shop@.owner) && e@ == failure(
                ErrorKind::Forbidden,
                MAY_NOT_LIST_OF_SHOP@,
            ),
        },
{
    require(authorize(requester, &shop.owner_descriptor(), Action::Read), MAY_NOT_LIST_OF_SHOP)
}

/// Decides whether `requester` may list all purchases: the whole list has
/// no owner, so that only an administrator may.
pub fn list(requester: &User) -> (r: Result<()>)
    ensures
        match r {
            Ok(_) => requester@.admin,
            Err(e) => !requester@.admin && e@ == failure(ErrorKind::Forbidden, MAY_NOT_LIST_ALL@),
        },
{
    require(authorize_owned(requester, &None, Action::Read), MAY_NOT_LIST_ALL)
}

/// The purchase that `requester` makes at the time `time` by asking for
/// `amount` items of `product`.
pub open spec fn bought(
    requester: &User,
    product: &Product,
    amount: i32,
    time: i64,
) -> PurchaseView {
    PurchaseView {
        amount,
        paid: product@.price,
        time,
        product: Some(product@.slug),
        purchaser: Some(requester@.email),
    }
}

/// Records that `requester` buys, at the time `time`, what `body` asks for
/// of `product`: at the product's price, and in the requester's name.
pub fn create_at(requester: &User, product: &Product, body: &BuyRequest, time: i64) -> (r: Purchase)
    ensures
        r@ == bought(requester, product, body.amount, time),
{
    Purchase {
        amount: body.amount,
        paid: product.price,
        time,
        product: Some(product.slug.clone()),
        purchaser: Some(requester.email.clone()),
    }
}

/// Records that `requester` buys, now, what `body` asks for of `product`.
pub fn create(requester: &User, product: &Product, body: &BuyRequest) -> (r: Purchase)
    ensures
        exists|time: i64| r@ == #[trigger] bought(requester, product, body.amount, time),
{
    create_at(requester, product, body, crate::clock::now())
}

} // verus!
