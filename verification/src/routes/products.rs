//! The endpoints on products. A product belongs to the owner of its shop.

use vstd::prelude::*;
use rust_decimal::Decimal;
use crate::error::{ErrorKind, failure, Result};
use crate::policy::{Action, authorize_owned, permits_owned, require};
use crate::schema::product::{Product, ProductView};
use crate::schema::shop::{owner_of, Shop};
use crate::schema::user::User;
use crate::text::{edited, joined, value_or};

verus! {

/// What a requester is told who may not add products to that shop.
pub const MAY_NOT_ADD: &'static str =
    "Você não tem permissão para adicionar produtos à essa loja";

/// What a requester is told who may not edit that product.
pub const MAY_NOT_MODIFY: &'static str = "Você não tem permissão para modificar esse produto";

/// What a requester is told who may not move the product to that shop.
pub const MAY_NOT_MOVE: &'static str =
    "Você não tem permissão para mover o produto à uma loja que não é sua";

/// What a requester is told who may not remove that product.
pub const MAY_NOT_REMOVE: &'static str = "Você não tem permissão para remover esse produto";

/// What a request to add a product holds.
#[derive(Debug)]
pub struct CreateRequest {
    pub slug: String,
    pub shop_slug: String,
    pub name: String,
    pub price: Decimal,
    pub available: i32,
    pub sold: i32,
    pub details: String,
    pub picture: String,
}

impl View for CreateRequest {
    type V = ProductView;

    /// The product that the request describes.
    open spec fn view(&self) -> ProductView {
        ProductView {
            slug: self.slug@,
            shop_slug: self.shop_slug@,
            name: self.name@,
            price: self.price,
            available: self.available,
            sold: self.sold,
            details: self.details@,
            picture: self.picture@,
        }
    }
}

/// What a request to edit a product holds: a new value for each field that
/// is to change.
#[derive(Debug)]
pub struct UpdateRequest {
    pub slug: Option<String>,
    pub shop_slug: Option<String>,
    pub name: Option<String>,
    pub price: Option<Decimal>,
    pub available: Option<i32>,
    pub sold: Option<i32>,
    pub details: Option<String>,
    pub picture: Option<String>,
}

impl UpdateRequest {
    /// The product that this edit makes of `product`.
    pub open spec fn applied_to(self, product: ProductView) -> ProductView {
        ProductView {
            slug: edited(self.slug, product.slug),
            shop_slug: edited(self.shop_slug, product.shop_slug),
            name: edited(self.name, product.name),
            price: value_or(self.price, product.price),
            available: value_or(self.available, product.available),
            sold: value_or(self.sold, product.sold),
            details: edited(self.details, product.details),
            picture: edited(self.picture, product.picture),
        }
    }
}

/// Whether `requester` may change the products of the shop `shop_slug`,
/// where `shops` says who owns which shop.
pub open spec fn may_manage(requester: &User, shops: &Vec<Shop>, shop_slug: Seq<char>) -> bool {
    permits_owned(requester@, owner_of(shops@, shop_slug))
}

/// Edits `product` as `body` asks, on behalf of `requester`. The policy is
/// consulted twice: on the shop that sells the product now, and on the shop
/// that sells it after the edit, so that nobody moves a product into a shop
/// that is not theirs.
pub fn update(requester: &User, shops: &Vec<Shop>, product: Product, body: UpdateRequest) -> (r:
    Result<Product>)
    ensures
        match r {
            Ok(updated) => {
                &&& may_manage(requester, shops, product@.shop_slug)
                &&& updated@ == body.applied_to(product@)
                &&& may_manage(requester, shops, updated@.shop_slug)
            },
            Err(e) => if !may_manage(requester, shops, product@.shop_slug) {
                e@ == failure(ErrorKind::Forbidden, MAY_NOT_MODIFY@)
            } else {
                &&& !may_manage(requester, shops, body.applied_to(product@).shop_slug)
                &&& e@ == failure(ErrorKind::Forbidden, MAY_NOT_MOVE@)
            },
        },
{
    let mut product = product;
    let owner = product.owner_descriptor(shops);
    require(authorize_owned(requester, &owner, Action::Write), MAY_NOT_MODIFY)?;

    if let Some(x) = body.slug {
        product.slug = x;
    }
    if let Some(x) = body.shop_slug {
        product.shop_slug = x;
    }
    if let Some(x) = body.name {
        product.name = x;
    }
    if let Some(x) = body.price {
        product.price = x;
    }
    if let Some(x) = body.available {
        product.available = x;
    }
    if let Some(x) = body.sold {
        product.sold = x;
    }
    if let Some(x) = body.details {
        product.details = x;
    }
    if let Some(x) = body.picture {
        product.picture = x;
    }

    let owner = product.owner_descriptor(shops);
    require(authorize_owned(requester, &owner, Action::Write), MAY_NOT_MOVE)?;
    Ok(product)
}

/// Makes the product that `body` describes, on behalf of `requester`, who
/// must be allowed to change the products of the shop it names.
pub fn create(requester: &User, shops: &Vec<Shop>, body: CreateRequest) -> (r: Result<Product>)
    ensures
        match r {
            Ok(product) => may_manage(requester, shops, body@.shop_slug) && product@ == body@,
            Err(e) => !may_manage(requester, shops, body@.shop_slug) && e@ == failure(
                ErrorKind::Forbidden,
                MAY_NOT_ADD@,
            ),
        },
{
    let product = Product {
        slug: body.slug,
        shop_slug: body.shop_slug,
        name: body.name,
        price: body.price,
        available: body.available,
        sold: body.sold,
        details: body.details,
        picture: body.picture,
    };
    let owner = product.owner_descriptor(shops);
    require(authorize_owned(requester, &owner, Action::Write), MAY_NOT_ADD)?;
    Ok(product)
}

/// Decides whether `requester` may remove `product`.
pub fn delete(requester: &User, shops: &Vec<Shop>, product: &Product) -> (r: Result<()>)
    ensures
        match r {
            Ok(_) => may_manage(requester, shops, product@.shop_slug),
            Err(e) => !may_manage(requester, shops, product@.shop_slug) && e@ == failure(
                ErrorKind::Forbidden,
                MAY_NOT_REMOVE@,
            ),
        },
{
    let owner = product.owner_descriptor(shops);
    require(authorize_owned(requester, &owner, Action::Delete), MAY_NOT_REMOVE)
}

/// Where the products are found.
pub const LOCATION: &'static str = "https://cincobola.misterio.me/products/";

/// Where `product` is found: under [`LOCATION`], by its slug.
pub fn location(product: &Product) -> (r: String)
    ensures
        r@ == LOCATION@ + product@.slug,
{
    joined(LOCATION, product.slug.as_str())
}

} // verus!
