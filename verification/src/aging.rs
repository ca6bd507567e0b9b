//! The aging rules: how one simulated day changes an item's sell-in and
//! quality, stated over mathematical integers, together with the facts
//! that hold of any number of simulated days.

use vstd::prelude::*;

verus! {

/// The behavioural class of an item, selected by its exact name.
///
/// Unrecognised names — including "Conjured Mana Cake" — deliberately fall
/// back to `Generic`; that quirk is part of the reference behaviour.
#[derive(Clone, Copy, Debug, PartialEq, Eq, Structural)]
pub enum Category {
    Generic,
    Ripening,
    EventTicket,
    Legendary,
}

/// The name-to-category mapping; any name not listed here is `Generic`.
pub open spec fn spec_category(name: Seq<char>) -> Category {
    if name == "Aged Brie"@ {
        Category::Ripening
    } else if name == "Backstage passes to a TAFKAL80ETC concert"@ {
        Category::EventTicket
    } else if name == "Sulfuras, Hand of Ragnaros"@ {
        Category::Legendary
    } else {
        Category::Generic
    }
}

/// Quality one step down, floored at 0.
pub open spec fn lowered_quality(q: int) -> int {
    if q > 0 {
        q - 1
    } else {
        0
    }
}

/// Quality one step up, capped at 50.
pub open spec fn raised_quality(q: int) -> int {
    if q < 50 {
        q + 1
    } else {
        50
    }
}

/// Sell-in after one day: down by exactly one, except for legendary items,
/// which never age.
pub open spec fn next_sell_in(cat: Category, sell_in: int) -> int {
    match cat {
        Category::Legendary => sell_in,
        _ => sell_in - 1,
    }
}

/// Quality after one day. `sell_in` is the value before the day's
/// decrement; the expiry checks below look at the value after it.
///
/// - `Generic`: down one, and down one more once expired.
/// - `Ripening`: up one, and up one more once expired.
/// - `EventTicket`: up one, twice within ten days of the event, three
///   times within five; worthless (exactly 0) once the event has passed.
/// - `Legendary`: untouched.
///
/// Every step clamps to 0..=50 as it is taken, so a quality that starts
/// outside those bounds is pulled back only as far as the steps reach.
pub open spec fn next_quality(cat: Category, sell_in: int, quality: int) -> int {
    let remaining = sell_in - 1;
    match cat {
        Category::Generic => {
            let q = lowered_quality(quality);
            if remaining < 0 {
                lowered_quality(q)
            } else {
                q
            }
        },
        Category::Ripening => {
            let q = raised_quality(quality);
            if remaining < 0 {
                raised_quality(q)
            } else {
                q
            }
        },
        Category::EventTicket => {
            let q1 = raised_quality(quality);
            let q2 = if remaining < 10 {
                raised_quality(q1)
            } else {
                q1
            };
            let q3 = if remaining < 5 {
                raised_quality(q2)
            } else {
                q2
            };
            if remaining < 0 {
                0
            } else {
                q3
            }
        },
        Category::Legendary => quality,
    }
}

/// The (sell-in, quality) state after `days` repetitions of the one-day
/// update, starting from the given state.
pub open spec fn state_after_days(cat: Category, sell_in: int, quality: int, days: nat) -> (
    int,
    int,
)
    decreases days,
{
    if days == 0 {
        (sell_in, quality)
    } else {
        let prev = state_after_days(cat, sell_in, quality, (days - 1) as nat);
        (next_sell_in(cat, prev.0), next_quality(cat, prev.0, prev.1))
    }
}

/// A non-legendary item whose quality lies within 0..=50 keeps a quality
/// within 0..=50, however many days are simulated.
pub proof fn lemma_quality_stays_in_bounds(cat: Category, sell_in: int, quality: int, days: nat)
    requires
        cat != Category::Legendary,
        0 <= quality <= 50,
    ensures
        0 <= state_after_days(cat, sell_in, quality, days).1 <= 50,
    decreases days,
{
    if days > 0 {
        lemma_quality_stays_in_bounds(cat, sell_in, quality, (days - 1) as nat);
    }
}

/// Legendary items are immutable under the update: any number of days
/// leaves sell-in and quality exactly as they were.
pub proof fn lemma_legendary_unchanged(sell_in: int, quality: int, days: nat)
    ensures
        state_after_days(Category::Legendary, sell_in, quality, days).0 == sell_in,
        state_after_days(Category::Legendary, sell_in, quality, days).1 == quality,
    decreases days,
{
    if days > 0 {
        lemma_legendary_unchanged(sell_in, quality, (days - 1) as nat);
    }
}

/// A non-legendary item's sell-in goes down by exactly one per day, so
/// after `days` days it has dropped by exactly `days`.
pub proof fn lemma_sell_in_counts_days(cat: Category, sell_in: int, quality: int, days: nat)
    requires
        cat != Category::Legendary,
    ensures
        state_after_days(cat, sell_in, quality, days).0 == sell_in - days,
    decreases days,
{
    if days > 0 {
        lemma_sell_in_counts_days(cat, sell_in, quality, (days - 1) as nat);
    }
}

} // verus!
