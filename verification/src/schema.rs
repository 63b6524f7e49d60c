//! The records of the marketplace.

pub mod product;
pub mod purchase;
pub mod shop;
pub mod user;

pub use product::Product;
pub use purchase::Purchase;
pub use shop::Shop;
pub use user::{User, UserSession};
