//! The endpoints on shops. A shop belongs to its owner.

use vstd::prelude::*;
use vstd::utf8::encode_utf8;
use crate::error::{Error, ErrorKind, failure, Result};
use crate::policy::{Action, authorize, permits, require};
use crate::schema::shop::{Shop, ShopView};
use crate::schema::user::User;
use crate::text::{edited, joined, remove_char, without};

verus! {

/// What a client is told where the colour of a new shop is too long.
pub const COLOR_TOO_LONG: &'static str =
    "A cor da loja deve ser hexadecimal e ter, no máximo, 6 caracteres";

/// What a requester is told who may not list the shops of that user.
pub const MAY_NOT_LIST: &'static str =
    "Você não tem permissão para listar as lojas desse usuário";

/// What a requester is told who may not open a shop for that owner.
pub const MAY_NOT_CREATE: &'static str =
    "Você não tem permissão para criar uma loja em nome de outra pessoa";

/// What a requester is told who may not edit that shop.
pub const MAY_NOT_MODIFY: &'static str = "Você não tem permissão para modificar essa loja";

/// What a requester is told who may not hand the shop to that owner.
pub const MAY_NOT_TRANSFER: &'static str =
    "Você não tem permissão para trocar o dono de uma loja";

/// What a requester is told who may not remove that shop.
pub const MAY_NOT_REMOVE: &'static str = "Você não tem permissão para remover essa loja";

/// The longest colour that a new shop may have, in bytes.
pub const COLOR_LIMIT: usize = 6;

/// What a request to open a shop holds.
#[derive(Debug)]
pub struct CreateRequest {
    pub slug: String,
    pub name: String,
    pub color: String,
    pub logo: String,
    pub owner: String,
}

/// What a request to edit a shop holds: a new value for each field that is
/// to change.
#[derive(Debug)]
pub struct UpdateRequest {
    pub slug: Option<String>,
    pub name: Option<String>,
    pub color: Option<String>,
    pub logo: Option<String>,
    pub owner: Option<String>,
}

/// A colour as it is stored: without the `#` signs that it was written with.
pub open spec fn stored_color(color: Seq<char>) -> Seq<char> {
    without(color, '#')
}

/// The colour that a shop has after an edit.
pub open spec fn edited_color(new: Option<String>, old: Seq<char>) -> Seq<char> {
    match new {
        Some(s) => stored_color(s@),
        None => old,
    }
}

impl CreateRequest {
    /// The shop that the request describes.
    pub open spec fn shop(self) -> ShopView {
        ShopView {
            slug: self.slug@,
            name: self.name@,
            color: stored_color(self.color@),
            logo: self.logo@,
            owner: self.owner@,
        }
    }

    /// Whether the colour, as it would be stored, is longer than a shop's
    /// colour may be.
    pub open spec fn color_too_long(self) -> bool {
        encode_utf8(stored_color(self.color@)).len() > COLOR_LIMIT
    }
}

impl UpdateRequest {
    /// The shop that this edit makes of `shop`.
    pub open spec fn applied_to(self, shop: ShopView) -> ShopView {
        ShopView {
            slug: edited(self.slug, shop.slug),
            name: edited(self.name, shop.name),
            color: edited_color(self.color, shop.color),
            logo: edited(self.logo, shop.logo),
            owner: edited(self.owner, shop.owner),
        }
    }
}

/// Decides whether `requester` may list the shops that `target` owns.
pub fn list_by_owner(requester: &User, target: &User) -> (r: Result<()>)
    ensures
        match r {
            Ok(_) => permits(requester@, target@.email),
            Err(e) => !permits(requester@, target@.email) && e@ == failure(
                ErrorKind::Forbidden,
                MAY_NOT_LIST@,
            ),
        },
{
    require(authorize(requester, &target.owner_descriptor(), Action::Read), MAY_NOT_LIST)
}

/// Makes the shop that `body` describes, on behalf of `requester`. The
/// colour is stored without `#`; one longer than [`COLOR_LIMIT`] is refused
/// before the policy is asked whether `requester` may open a shop for the
/// owner named.
pub fn create(requester: &User, body: CreateRequest) -> (r: Result<Shop>)
    ensures
        match r {
            Ok(shop) => {
                &&& !body.color_too_long()
                &&& permits(requester@, body.owner@)
                &&& shop@ == body.shop()
            },
            Err(e) => if body.color_too_long() {
                e@ == failure(ErrorKind::InvalidInput, COLOR_TOO_LONG@)
            } else {
                !permits(requester@, body.owner@) && e@ == failure(
                    ErrorKind::Forbidden,
                    MAY_NOT_CREATE@,
                )
            },
        },
{
    let shop = Shop {
        slug: body.slug,
        name: body.name,
        color: remove_char(body.color.as_str(), '#'),
        logo: body.logo,
        owner: body.owner,
    };
    if shop.color.as_str().as_bytes().len() > COLOR_LIMIT {
        return Err(Error::new(ErrorKind::InvalidInput, COLOR_TOO_LONG));
    }
    require(authorize(requester, &shop.owner_descriptor(), Action::Write), MAY_NOT_CREATE)?;
    Ok(shop)
}

/// Edits `shop` as `body` asks, on behalf of `requester`. The policy is
/// consulted on the owner before the edit and again on the owner after it:
/// a shop changes hands only where `requester` may act for both.
pub fn update(requester: &User, shop: Shop, body: UpdateRequest) -> (r: Result<Shop>)
    ensures
        match r {
            Ok(updated) => {
                &&& permits(requester@, shop@.owner)
                &&& updated@ == body.applied_to(shop@)
                &&& permits(requester@, updated@.owner)
            },
            Err(e) => if !permits(requester@, shop@.owner) {
                e@ == failure(ErrorKind::Forbidden, MAY_NOT_MODIFY@)
            } else {
                &&& !permits(requester@, body.applied_to(shop@).owner)
                &&& e@ == failure(ErrorKind::Forbidden, MAY_NOT_TRANSFER@)
            },
        },
{
    let mut shop = shop;
    require(authorize(requester, &shop.owner_descriptor(), Action::Write), MAY_NOT_MODIFY)?;

    if let Some(x) = body.slug {
        shop.slug = x;
    }
    if let Some(x) = body.name {
        shop.name = x;
    }
    if let Some(x) = body.color {
        shop.color = remove_char(x.as_str(), '#');
    }
    if let Some(x) = body.logo {
        shop.logo = x;
    }
    if let Some(x) = body.owner {
        shop.owner = x;
    }

    require(authorize(requester, &shop.owner_descriptor(), Action::Write), MAY_NOT_TRANSFER)?;
    Ok(shop)
}

/// Decides whether `requester` may remove `shop`.
pub fn delete(requester: &User, shop: &Shop) -> (r: Result<()>)
    ensures
        match r {
            Ok(_) => permits(requester@, shop@.owner),
            Err(e) => !permits(requester@, shop@.owner) && e@ == failure(
                ErrorKind::Forbidden,
                MAY_NOT_REMOVE@,
            ),
        },
{
    require(authorize(requester, &shop.owner_descriptor(), Action::Delete), MAY_NOT_REMOVE)
}

/// Where the shops are found.
pub const LOCATION: &'static str = "https://cincobola.misterio.me/shops/";

/// Where `shop` is found: under [`LOCATION`], by its slug.
pub fn location(shop: &Shop) -> (r: String)
    ensures
        r@ == LOCATION@ + shop@.slug,
{
    joined(LOCATION, shop.slug.as_str())
}

} // verus!
