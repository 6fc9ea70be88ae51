use vstd::prelude::*;

use crate::current::{push_tenths, tenths_text};
use crate::text::{decimal, push_char, push_decimal, push_str, zero_padded};
use crate::time::Timestamp;
use crate::daily::RainAmount;
use crate::hourly::{HourlyForecastData, HourlyForecastRainAmount};

verus! {

/// The positions of the hours of `data` that have not ended at `now`, in order.
pub open spec fn pending_hours(data: Seq<HourlyForecastData>, now: int) -> Seq<usize>
    decreases data.len(),
{
    if data.len() == 0 {
        Seq::empty()
    } else {
        let rest = pending_hours(data.drop_last(), now);
        if data.last().next_forecast_period > now {
            rest.push((data.len() - 1) as usize)
        } else {
            rest
        }
    }
}

/// The first `n` of `s`, or all of `s` when it is shorter.
pub open spec fn first_n<T>(s: Seq<T>, n: nat) -> Seq<T> {
    if s.len() <= n {
        s
    } else {
        s.subrange(0, n as int)
    }
}

/// The hours to list: the first `hours` of those that have not ended at `now`.
pub fn upcoming_hours(data: &Vec<HourlyForecastData>, now: Timestamp, hours: usize) -> (r: Vec<usize>)
    ensures
        r@ == first_n(pending_hours(data@, now as int), hours as nat),
{
    let mut r: Vec<usize> = Vec::new();
    let mut i: usize = 0;
    assert(data@.subrange(0, 0) =~= Seq::<HourlyForecastData>::empty());
    while i < data.len()
        invariant
            i <= data@.len(),
            r@ == first_n(pending_hours(data@.subrange(0, i as int), now as int), hours as nat),
        decreases data@.len() - i,
    {
        let ghost before = pending_hours(data@.subrange(0, i as int), now as int);
        assert(data@.subrange(0, i + 1).drop_last() =~= data@.subrange(0, i as int));
        if data[i].next_forecast_period > now {
            if r.len() < hours {
                r.push(i);
                assert(r@ =~= first_n(before.push(i), hours as nat));
            } else {
                assert(first_n(before.push(i), hours as nat) =~= first_n(before, hours as nat));
            }
        }
        i = i + 1;
    }
    assert(data@.subrange(0, data@.len() as int) =~= data@);
    r
}

/// Whether rain is possible in any of the listed hours.
pub fn any_rain(data: &Vec<HourlyForecastData>, hours: &Vec<usize>) -> (r: bool)
    ensures
        r == exists|k: int|
            0 <= k < hours@.len() && hours@[k] < data@.len() && data@[#[trigger] hours@[k] as int].rain.chance > 0,
{
    let mut k: usize = 0;
    while k < hours.len()
        invariant
            k <= hours@.len(),
            forall|j: int|
                0 <= j < k ==> !(hours@[j] < data@.len() && data@[#[trigger] hours@[j] as int].rain.chance
                    > 0),
        decreases hours@.len() - k,
    {
        let h = hours[k];
        if h < data.len() && data[h].rain.chance > 0 {
            return true;
        }
        k = k + 1;
    }
    false
}

/// A range of rain such as `1-5mm`, or `0mm` when there is no upper bound.
pub open spec fn range_text(low: u16, high: Option<u16>, units: Seq<char>) -> Seq<char> {
    match high {
        Some(h) => decimal(low as nat) + seq!['-'] + decimal(h as nat) + units,
        None => seq!['0', 'm', 'm'],
    }
}

/// The rain expected in an hour.
pub fn hourly_rain_text(amount: &HourlyForecastRainAmount) -> (r: String)
    ensures
        r@ == range_text(amount.min, amount.max, amount.units@),
{
    push_range(amount.min, amount.max, amount.units.as_str())
}

/// The rain expected on a day: a range from the lower bound to the maximum when both are
/// known.
pub fn daily_rain_text(amount: &RainAmount) -> (r: String)
    ensures
        r@ == match amount.lower_range {
            Some(low) => range_text(low, amount.max, amount.units@),
            None => seq!['0', 'm', 'm'],
        },
{
    match amount.lower_range {
        Some(low) => push_range(low, amount.max, amount.units.as_str()),
        None => {
            let mut s = String::new();
            push_char(&mut s, '0');
            push_char(&mut s, 'm');
            push_char(&mut s, 'm');
            assert(s@ =~= seq!['0', 'm', 'm']);
            s
        },
    }
}

fn push_range(low: u16, high: Option<u16>, units: &str) -> (r: String)
    ensures
        r@ == range_text(low, high, units@),
{
    let mut s = String::new();
    match high {
        Some(h) => {
            push_decimal(&mut s, low as u64, 0);
            push_char(&mut s, '-');
            push_decimal(&mut s, h as u64, 0);
            push_str(&mut s, units);
            assert(zero_padded(decimal(low as nat), 0) == decimal(low as nat));
            assert(zero_padded(decimal(h as nat), 0) == decimal(h as nat));
        },
        None => {
            push_char(&mut s, '0');
            push_char(&mut s, 'm');
            push_char(&mut s, 'm');
        },
    }
    assert(s@ =~= range_text(low, high, units@));
    s
}

/// A chance of rain such as `40%`.
pub fn percent_text(chance: u8) -> (r: String)
    ensures
        r@ == decimal(chance as nat).push('%'),
{
    let mut s = String::new();
    push_decimal(&mut s, chance as u64, 0);
    push_char(&mut s, '%');
    assert(zero_padded(decimal(chance as nat), 0) == decimal(chance as nat));
    assert(s@ =~= decimal(chance as nat).push('%'));
    s
}

/// A temperature given in tenths of a degree, as it is shown.
pub fn temperature_text(t: i32) -> (r: String)
    ensures
        r@ == tenths_text(t as int),
{
    let mut s = String::new();
    push_tenths(&mut s, t);
    assert(s@ =~= tenths_text(t as int));
    s
}

} // verus!
