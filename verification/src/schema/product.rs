//! Products, each sold by one shop.

use vstd::prelude::*;
use rust_decimal::Decimal;
use crate::policy::{owner_view, OwnerDescriptor};
use crate::schema::shop::{owner_of, Shop};
use crate::text::{owned, text_or, value_or};

verus! {

/// `rust_decimal::Decimal`, a price: carried through, never looked into.
#[verifier::external_type_specification]
#[verifier::external_body]
pub struct ExDecimal(Decimal);

/// The mathematical content of a [`Product`].
pub struct ProductView {
    pub slug: Seq<char>,
    pub shop_slug: Seq<char>,
    pub name: Seq<char>,
    pub price: Decimal,
    pub available: i32,
    pub sold: i32,
    pub details: Seq<char>,
    pub picture: Seq<char>,
}

/// A product. `slug` identifies it; `shop_slug` names the shop that sells it,
/// whose owner is the product's owner.
#[derive(Debug, PartialEq, Eq)]
pub struct Product {
    pub slug: String,
    pub shop_slug: String,
    pub name: String,
    pub price: Decimal,
    pub available: i32,
    pub sold: i32,
    pub details: String,
    pub picture: String,
}

impl View for Product {
    type V = ProductView;

    open spec fn view(&self) -> ProductView {
        ProductView {
            slug: self.slug@,
            shop_slug: self.shop_slug@,
            name: self.name@,
            price: self.price,
            available: self.available,
            sold: self.sold,
            details: self.details@,
            picture: self.picture@,
        }
    }
}

impl Clone for Product {
    fn clone(&self) -> (r: Self)
        ensures
            r@ == self@,
    {
        Product {
            slug: self.slug.clone(),
            shop_slug: self.shop_slug.clone(),
            name: self.name.clone(),
            price: self.price,
            available: self.available,
            sold: self.sold,
            details: self.details.clone(),
            picture: self.picture.clone(),
        }
    }
}

/// The price after an edit.
pub open spec fn price_or(new: Option<&Decimal>, old: Decimal) -> Decimal {
    match new {
        Some(p) => *p,
        None => old,
    }
}

impl Product {
    /// Who owns this product, going by `shops`: the owner of the shop that
    /// sells it, and nobody where the list does not hold that shop.
    pub fn owner_descriptor(&self, shops: &Vec<Shop>) -> (d: Option<OwnerDescriptor>)
        ensures
            owner_view(d) == owner_of(shops@, self@.shop_slug),
    {
        Shop::owner_among(shops, self.shop_slug.as_str())
    }

    /// This product with each given field replaced and the others kept.
    pub fn modify(
        self,
        new_slug: Option<&str>,
        new_shop_slug: Option<&str>,
        new_name: Option<&str>,
        new_price: Option<&Decimal>,
        new_available: Option<i32>,
        new_sold: Option<i32>,
        new_details: Option<&str>,
        new_picture: Option<&str>,
    ) -> (r: Product)
        ensures
            r@ == (ProductView {
                slug: text_or(new_slug, self@.slug),
                shop_slug: text_or(new_shop_slug, self@.shop_slug),
                name: text_or(new_name, self@.name),
                price: price_or(new_price, self@.price),
                available: value_or(new_available, self@.available),
                sold: value_or(new_sold, self@.sold),
                details: text_or(new_details, self@.details),
                picture: text_or(new_picture, self@.picture),
            }),
    {
        let mut product = self;
        if let Some(x) = new_slug {
            product.slug = owned(x);
        }
        if let Some(x) = new_shop_slug {
            product.shop_slug = owned(x);
        }
        if let Some(x) = new_name {
            product.name = owned(x);
        }
        if let Some(x) = new_price {
            product.price = *x;
        }
        if let Some(x) = new_available {
            product.available = x;
        }
        if let Some(x) = new_sold {
            product.sold = x;
        }
        if let Some(x) = new_details {
            product.details = owned(x);
        }
        if let Some(x) = new_picture {
            product.picture = owned(x);
        }
        product
    }
}

} // verus!
