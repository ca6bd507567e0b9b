//! The shop: an ordered collection of items and the once-per-day update
//! over all of them.

use vstd::prelude::*;

use crate::aging::Category;
use crate::item::{aged_one_day, update_item, Item};

verus! {

/// The daily update engine: it owns the stock for the duration of the
/// simulation and ages every item in place once per call.
pub struct GildedRose {
    pub items: Vec<Item>,
}

impl GildedRose {
    pub fn new(items: Vec<Item>) -> (rose: GildedRose)
        ensures
            rose.items@ == items@,
    {
        GildedRose { items }
    }

    /// Advance the whole stock by one simulated day: each item is updated
    /// independently, in place, in its position. Items do not interact, so
    /// the order of the collection is kept and no item is added or lost.
    ///
    /// The precondition only keeps the sell-in decrement of an aging item
    /// within machine bounds; every stock that can arise from a bounded
    /// number of simulated days satisfies it.
    pub fn update_quality(&mut self)
        requires
            forall|i: int|
                0 <= i < old(self).items@.len() && old(self).items@[i].category()
                    != Category::Legendary ==> old(self).items@[i].sell_in > i32::MIN,
        ensures
            final(self).items@.len() == old(self).items@.len(),
            forall|i: int|
                0 <= i < old(self).items@.len() ==> aged_one_day(
                    old(self).items@[i],
                    #[trigger] final(self).items@[i],
                ),
    {
        let ghost stock = self.items@;
        let mut i: usize = 0;
        while i < self.items.len()
            invariant
                i <= stock.len(),
                self.items@.len() == stock.len(),
                forall|j: int| i <= j < stock.len() ==> self.items@[j] == stock[j],
                forall|j: int| 0 <= j < i ==> aged_one_day(stock[j], #[trigger] self.items@[j]),
                forall|j: int|
                    0 <= j < stock.len() && stock[j].category() != Category::Legendary
                        ==> stock[j].sell_in > i32::MIN,
            decreases stock.len() - i,
        {
            assert(self.items@[i as int] == stock[i as int]);
            update_item(&mut self.items[i]);
            i = i + 1;
        }
    }
}

} // verus!
