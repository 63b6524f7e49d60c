//! Purchases: what a user bought, recorded and not charged.

use vstd::prelude::*;
use rust_decimal::Decimal;
use crate::error::text_view;
use crate::policy::{owner_view, OwnerDescriptor};

verus! {

/// The mathematical content of a [`Purchase`].
pub struct PurchaseView {
    pub amount: i32,
    pub paid: Decimal,
    pub time: i64,
    pub product: Option<Seq<char>>,
    pub purchaser: Option<Seq<char>>,
}

/// A purchase: `amount` items of `product`, each at the price `paid`,
/// bought by `purchaser` at `time`, in microseconds since the Unix epoch.
/// The product and the purchaser are `None` once they are gone; the
/// purchaser never changes otherwise.
#[derive(Debug, PartialEq, Eq)]
pub struct Purchase {
    pub amount: i32,
    pub paid: Decimal,
    pub time: i64,
    pub product: Option<String>,
    pub purchaser: Option<String>,
}

impl View for Purchase {
    type V = PurchaseView;

    open spec fn view(&self) -> PurchaseView {
        PurchaseView {
            amount: self.amount,
            paid: self.paid,
            time: self.time,
            product: text_view(self.product),
            purchaser: text_view(self.purchaser),
        }
    }
}

impl Clone for Purchase {
    fn clone(&self) -> (r: Self)
        ensures
            r@ == self@,
    {
        Purchase {
            amount: self.amount,
            paid: self.paid,
            time: self.time,
            product: self.product.clone(),
            purchaser: self.purchaser.clone(),
        }
    }
}

impl Purchase {
    /// Who owns this purchase: the purchaser, while there is one.
    pub fn owner_descriptor(&self) -> (d: Option<OwnerDescriptor>)
        ensures
            owner_view(d) == self@.purchaser,
    {
        match &self.purchaser {
            Some(email) => Some(OwnerDescriptor { email: email.clone() }),
            None => None,
        }
    }
}

} // verus!
