//! Nightly inventory aging for a shop's stock.
//!
//! Each item carries a sell-in counter (days remaining, which may go
//! negative) and a quality score (conventionally bounded to 0..=50).
//! Once per simulated day, [`GildedRose::update_quality`] ages every item
//! in place according to the rules of its category, which is chosen from
//! the item's name alone.

pub mod aging;
pub mod item;
pub mod shop;

pub use aging::Category;
pub use item::Item;
pub use shop::GildedRose;
