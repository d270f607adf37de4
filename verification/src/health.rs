//! A coarse health rating and a market-value estimate, derived from the log.
//!
//! Only readings of the distance travelled with the malfunction indicator
//! lamp on count. Their mean selects the rating by these bands, each bound
//! inclusive:
//!
//! | mean reading            | rating    |
//! |-------------------------|-----------|
//! | 0 ..= 40 000            | Bad       |
//! | 40 001 ..= 2 999 999    | Excellent |
//! | 3 000 000 ..= 3 999 999 | Good      |
//! | 4 000 000 ..= 5 000 000 | Bad       |
//! | 5 000 001 and above     | Fair      |
//!
//! The bands do not overlap and leave no gap, so every log has one rating.

use vstd::prelude::*;
use crate::decimal::decimal_value;
use crate::record::{CarCommand, LogView};

verus! {

/// The rating of a vehicle.
#[derive(Clone, Copy, Debug, PartialEq, Eq, Structural)]
pub enum CarHealth {
    Good,
    Bad,
    Fair,
    Excellent,
}

/// The entries of `log` that report the distance with the lamp on, in order.
pub open spec fn distance_entries(log: Seq<LogView>) -> Seq<LogView> {
    log.filter(|l: LogView| l.command == CarCommand::DistanceWithMil)
}

/// What an entry's reading counts for: the number its text denotes, and zero
/// where the text denotes none.
pub open spec fn reading(entry: LogView) -> nat {
    match decimal_value(entry.value) {
        Some(v) => v as nat,
        None => 0,
    }
}

/// The sum of the readings of `entries`.
pub open spec fn total_reading(entries: Seq<LogView>) -> nat
    decreases entries.len(),
{
    if entries.len() == 0 {
        0
    } else {
        total_reading(entries.drop_last()) + reading(entries.last())
    }
}

/// The mean of the distance readings of `log`, rounded down; zero for a log
/// without any.
pub open spec fn average_distance(log: Seq<LogView>) -> nat {
    let entries = distance_entries(log);
    if entries.len() == 0 {
        0
    } else {
        total_reading(entries) / entries.len()
    }
}

/// The rating that a mean reading selects.
pub open spec fn health_of_average(average: nat) -> CarHealth {
    if average <= 40_000 {
        CarHealth::Bad
    } else if average < 3_000_000 {
        CarHealth::Excellent
    } else if average < 4_000_000 {
        CarHealth::Good
    } else if average <= 5_000_000 {
        CarHealth::Bad
    } else {
        CarHealth::Fair
    }
}

/// The market value that goes with a rating.
pub open spec fn market_value_of(health: CarHealth) -> u64 {
    match health {
        CarHealth::Fair => 1000,
        CarHealth::Good => 2000,
        CarHealth::Excellent => 3000,
        CarHealth::Bad => 0,
    }
}

/// The rating of a vehicle with this log.
pub open spec fn health_of_log(log: Seq<LogView>) -> CarHealth {
    health_of_average(average_distance(log))
}

/// One more entry joins the distance entries exactly when it is one.
pub proof fn lemma_distance_entries_push(log: Seq<LogView>, entry: LogView)
    ensures
        distance_entries(log.push(entry)) == if entry.command == CarCommand::DistanceWithMil {
            distance_entries(log).push(entry)
        } else {
            distance_entries(log)
        },
{
    reveal(Seq::filter);
    assert(log.push(entry).drop_last() =~= log);
}

/// The mean of readings that each fit in 64 bits fits in 64 bits.
pub proof fn lemma_average_distance_bound(log: Seq<LogView>)
    ensures
        average_distance(log) <= u64::MAX,
{
    let entries = distance_entries(log);
    lemma_total_reading_bound(entries);
    if entries.len() > 0 {
        let n = entries.len() as int;
        let t = total_reading(entries) as int;
        assert(t / n <= u64::MAX) by (nonlinear_arith)
            requires
                n > 0,
                0 <= t <= n * u64::MAX,
        ;
    }
}

proof fn lemma_total_reading_bound(entries: Seq<LogView>)
    ensures
        total_reading(entries) <= entries.len() * u64::MAX,
    decreases entries.len(),
{
    if entries.len() > 0 {
        lemma_total_reading_bound(entries.drop_last());
    }
}

impl CarHealth {
    /// The rating that a mean distance reading selects.
    pub fn from_average(average: u64) -> (r: CarHealth)
        ensures
            r == health_of_average(average as nat),
    {
        if average <= 40_000 {
            CarHealth::Bad
        } else if average < 3_000_000 {
            CarHealth::Excellent
        } else if average < 4_000_000 {
            CarHealth::Good
        } else if average <= 5_000_000 {
            CarHealth::Bad
        } else {
            CarHealth::Fair
        }
    }

    /// The market value that goes with this rating.
    pub fn market_value(&self) -> (r: u64)
        ensures
            r == market_value_of(*self),
    {
        match self {
            CarHealth::Fair => 1000,
            CarHealth::Good => 2000,
            CarHealth::Excellent => 3000,
            CarHealth::Bad => 0,
        }
    }
}

} // verus!
