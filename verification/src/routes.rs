//! What each endpoint decides, once its inputs have been read.

pub mod products;
pub mod purchases;
pub mod sessions;
pub mod shops;
pub mod users;
