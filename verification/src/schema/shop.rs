//! Shops, and who owns them.

use vstd::prelude::*;
use crate::policy::{owner_view, OwnerDescriptor};
use crate::text::same;

verus! {

/// The mathematical content of a [`Shop`].
pub struct ShopView {
    pub slug: Seq<char>,
    pub name: Seq<char>,
    pub color: Seq<char>,
    pub logo: Seq<char>,
    pub owner: Seq<char>,
}

/// A shop. `slug` identifies it; `owner` is the email of the user who owns it.
#[derive(Debug, PartialEq, Eq)]
pub struct Shop {
    pub slug: String,
    pub name: String,
    pub color: String,
    pub logo: String,
    pub owner: String,
}

impl View for Shop {
    type V = ShopView;

    open spec fn view(&self) -> ShopView {
        ShopView {
            slug: self.slug@,
            name: self.name@,
            color: self.color@,
            logo: self.logo@,
            owner: self.owner@,
        }
    }
}

impl Clone for Shop {
    fn clone(&self) -> (r: Self)
        ensures
            r@ == self@,
    {
        Shop {
            slug: self.slug.clone(),
            name: self.name.clone(),
            color: self.color.clone(),
            logo: self.logo.clone(),
            owner: self.owner.clone(),
        }
    }
}

/// The owner of the first of `shops` whose slug is `slug`, if there is one.
pub open spec fn owner_of(shops: Seq<Shop>, slug: Seq<char>) -> Option<Seq<char>>
    decreases shops.len(),
{
    if shops.len() == 0 {
        None
    } else if shops.first()@.slug == slug {
        Some(shops.first()@.owner)
    } else {
        owner_of(shops.drop_first(), slug)
    }
}

impl Shop {
    /// Who owns this shop.
    pub fn owner_descriptor(&self) -> (d: OwnerDescriptor)
        ensures
            d@ == self@.owner,
    {
        OwnerDescriptor { email: self.owner.clone() }
    }

    /// Who owns the shop `slug`, going by `shops`: the owner of the first
    /// shop of that slug, and nobody where the list holds none.
    pub fn owner_among(shops: &Vec<Shop>, slug: &str) -> (d: Option<OwnerDescriptor>)
        ensures
            owner_view(d) == owner_of(shops@, slug@),
    {
        let mut i: usize = 0;
        assert(shops@.skip(0) =~= shops@);
        while i < shops.len()
            invariant
                i <= shops.len(),
                owner_of(shops@, slug@) == owner_of(shops@.skip(i as int), slug@),
            decreases shops.len() - i,
        {
            assert(shops@.skip(i as int).first() == shops@[i as int]);
            assert(shops@.skip(i as int).drop_first() == shops@.skip(i + 1));
            if same(shops[i].slug.as_str(), slug) {
                return Some(shops[i].owner_descriptor());
            }
            i += 1;
        }
        None
    }
}

} // verus!
