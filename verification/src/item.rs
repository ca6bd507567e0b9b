//! The item record and its one-day update.

use vstd::prelude::*;

use crate::aging::{
    lowered_quality, next_quality, next_sell_in, raised_quality, spec_category, state_after_days,
    Category,
};

verus! {

/// A stocked item: a name (fixed for life, and the sole key for the
/// category), a sell-in counter and a quality score. Construction performs
/// no validation; quality is clamped only by the updates that change it.
pub struct Item {
    pub name: String,
    pub sell_in: i32,
    pub quality: i32,
}

/// How one day's update relates an item's new state to its old one: the
/// name is kept, and both counters follow the aging rules of the old
/// name's category.
pub open spec fn aged_one_day(before: Item, after: Item) -> bool {
    &&& after.name@ == before.name@
    &&& after.sell_in == next_sell_in(before.category(), before.sell_in as int)
    &&& after.quality == next_quality(
        before.category(),
        before.sell_in as int,
        before.quality as int,
    )
}

impl Item {
    /// The category that the item's name selects.
    pub open spec fn category(&self) -> Category {
        spec_category(self.name@)
    }

    pub fn new(name: &str, sell_in: i32, quality: i32) -> (item: Item)
        ensures
            item.name@ == name@,
            item.sell_in == sell_in,
            item.quality == quality,
    {
        Item { name: name.to_owned(), sell_in, quality }
    }
}

/// One day's update takes an item's counters to exactly one step of the
/// aging rules and keeps its category, so repeated updates land on
/// `state_after_days` with the number of days simulated.
pub proof fn lemma_one_day_is_one_step(before: Item, after: Item)
    requires
        aged_one_day(before, after),
    ensures
        after.category() == before.category(),
        after.sell_in == state_after_days(
            before.category(),
            before.sell_in as int,
            before.quality as int,
            1,
        ).0,
        after.quality == state_after_days(
            before.category(),
            before.sell_in as int,
            before.quality as int,
            1,
        ).1,
{
    assert(state_after_days(before.category(), before.sell_in as int, before.quality as int, 0)
        == (before.sell_in as int, before.quality as int));
}

/// Whether two string slices hold the same characters.
fn str_eq(a: &str, b: &str) -> (r: bool)
    ensures
        r == (a@ == b@),
{
    let a_owned: String = a.to_owned();
    let b_owned: String = b.to_owned();
    a_owned == b_owned
}

/// The category dispatcher: a pure function of the name, with every
/// unrecognised name falling back to `Generic`.
pub fn category_of(name: &str) -> (cat: Category)
    ensures
        cat == spec_category(name@),
{
    if str_eq(name, "Aged Brie") {
        Category::Ripening
    } else if str_eq(name, "Backstage passes to a TAFKAL80ETC concert") {
        Category::EventTicket
    } else if str_eq(name, "Sulfuras, Hand of Ragnaros") {
        Category::Legendary
    } else {
        Category::Generic
    }
}

fn decrease_sell_in(item: &mut Item)
    requires
        old(item).sell_in > i32::MIN,
    ensures
        final(item).name@ == old(item).name@,
        final(item).quality == old(item).quality,
        final(item).sell_in == old(item).sell_in - 1,
{
    item.sell_in = item.sell_in - 1;
}

fn decrease_quality(item: &mut Item)
    ensures
        final(item).name@ == old(item).name@,
        final(item).sell_in == old(item).sell_in,
        final(item).quality == lowered_quality(old(item).quality as int),
{
    if item.quality > 0 {
        item.quality = item.quality - 1;
    } else {
        item.quality = 0;
    }
}

fn increase_quality(item: &mut Item)
    ensures
        final(item).name@ == old(item).name@,
        final(item).sell_in == old(item).sell_in,
        final(item).quality == raised_quality(old(item).quality as int),
{
    if item.quality < 50 {
        item.quality = item.quality + 1;
    } else {
        item.quality = 50;
    }
}

/// One simulated day for a single item: the sell-in decrement comes first,
/// and the quality adjustment looks at the decremented value.
pub fn update_item(item: &mut Item)
    requires
        old(item).category() != Category::Legendary ==> old(item).sell_in > i32::MIN,
    ensures
        aged_one_day(*old(item), *final(item)),
{
    let cat = category_of(item.name.as_str());
    match cat {
        Category::Legendary => {},
        Category::Generic => {
            decrease_sell_in(item);
            decrease_quality(item);
            if item.sell_in < 0 {
                decrease_quality(item);
            }
        },
        Category::Ripening => {
            decrease_sell_in(item);
            increase_quality(item);
            if item.sell_in < 0 {
                increase_quality(item);
            }
        },
        Category::EventTicket => {
            decrease_sell_in(item);
            increase_quality(item);
            if item.sell_in < 10 {
                increase_quality(item);
            }
            if item.sell_in < 5 {
                increase_quality(item);
            }
            if item.sell_in < 0 {
                item.quality = 0;
            }
        },
    }
}

} // verus!
