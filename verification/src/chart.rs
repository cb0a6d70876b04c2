//! Samples of the wallet's balance over time, and how they are thinned out
//! for display.

use vstd::prelude::*;

verus! {

/// How many points a chart has when no number is asked for.
pub const DEFAULT_CHART_COUNT: u32 = 100;

/// The least number of points that a chart is cut to.
pub const MIN_CHART_COUNT: u32 = 1000;

/// The distance between two points of a chart when none is asked for.
pub const DEFAULT_CHART_PRECISION: u64 = 3_600_000_000;

/// The balance of the wallet at one moment.
#[derive(Clone, Copy, Debug, PartialEq, Eq, Structural)]
pub struct ChartTick {
    pub timestamp: u64,
    pub cycles: u64,
}

/// The time from which on older samples are too close to a point at
/// `timestamp`: `precision` before it, counted around the end of the 64-bit
/// range where `precision` is the larger of the two.
pub open spec fn threshold_spec(timestamp: u64, precision: u64) -> u64 {
    if timestamp >= precision {
        (timestamp - precision) as u64
    } else {
        (timestamp + 0x1_0000_0000_0000_0000 - precision) as u64
    }
}

/// The number of points that a chart is cut to: the number asked for, 100 if
/// none is, and at least 1000.
pub open spec fn chart_count_spec(count: Option<u32>) -> u32 {
    let asked = match count {
        Some(c) => c,
        None => DEFAULT_CHART_COUNT,
    };
    if asked < MIN_CHART_COUNT {
        MIN_CHART_COUNT
    } else {
        asked
    }
}

/// The distance between two points: the one asked for, else the default.
pub open spec fn chart_precision_spec(precision: Option<u64>) -> u64 {
    match precision {
        Some(p) => p,
        None => DEFAULT_CHART_PRECISION,
    }
}

/// The points that the first `n` samples give, newest first, when the last
/// point taken leaves the threshold `last` and `take` more points are wanted:
/// a sample at or after the threshold is passed over, any other becomes a
/// point and moves the threshold to `precision` before itself.
pub open spec fn chart_points(ticks: Seq<ChartTick>, n: int, last: u64, take: int, precision: u64) -> Seq<
    (u64, u64),
>
    decreases n,
{
    if n <= 0 || take <= 0 {
        Seq::empty()
    } else if ticks[n - 1].timestamp >= last {
        chart_points(ticks, n - 1, last, take, precision)
    } else {
        seq![(ticks[n - 1].timestamp, ticks[n - 1].cycles)] + chart_points(
            ticks,
            n - 1,
            threshold_spec(ticks[n - 1].timestamp, precision),
            take - 1,
            precision,
        )
    }
}

/// The chart of the samples: points of time and balance, newest first, no
/// two closer than the precision, at most as many as the count allows.
pub open spec fn chart_spec(ticks: Seq<ChartTick>, count: Option<u32>, precision: Option<u64>) -> Seq<
    (u64, u64),
> {
    chart_points(
        ticks,
        ticks.len() as int,
        u64::MAX,
        chart_count_spec(count) as int,
        chart_precision_spec(precision),
    )
}

/// The chart of the samples: points of time and balance, newest first. A
/// sample becomes a point unless it is less than the precision older than the
/// point before it (or as old as the largest 64-bit time); the chart ends
/// after `count` points, 100 if no count is given, and never before 1000.
pub fn get_chart(ticks: &Vec<ChartTick>, count: Option<u32>, precision: Option<u64>) -> (r: Vec<
    (u64, u64),
>)
    ensures
        r@ == chart_spec(ticks@, count, precision),
{
    let asked: u32 = match count {
        Some(c) => c,
        None => DEFAULT_CHART_COUNT,
    };
    let take: usize = if asked < MIN_CHART_COUNT {
        MIN_CHART_COUNT as usize
    } else {
        asked as usize
    };
    let precision: u64 = match precision {
        Some(p) => p,
        None => DEFAULT_CHART_PRECISION,
    };
    let mut out: Vec<(u64, u64)> = Vec::new();
    let mut last_tick: u64 = u64::MAX;
    let mut n: usize = ticks.len();
    while n > 0 && out.len() < take
        invariant
            n <= ticks@.len(),
            out@.len() <= take,
            out@ + chart_points(ticks@, n as int, last_tick, take - out@.len(), precision)
                == chart_points(ticks@, ticks@.len() as int, u64::MAX, take as int, precision),
        decreases n,
    {
        let tick = ticks[n - 1];
        if tick.timestamp < last_tick {
            out.push((tick.timestamp, tick.cycles));
            last_tick = tick.timestamp.wrapping_sub(precision);
        }
        n -= 1;
    }
    out
}

} // verus!
