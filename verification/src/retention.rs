//! Bounded logs: how many records are kept, which identifier a new record
//! gets, and how a range of identifiers is turned into a range of what is kept.
//!
//! A log keeps its newest records in a queue and remembers in its floor how many
//! older ones it has dropped. The record at offset `i` of the queue has the
//! identifier `floor + i`; this module is the only place where identifiers and
//! offsets are converted into each other, for the global log and for the logs
//! of the single targets alike.

use vstd::prelude::*;
use std::collections::VecDeque;

verus! {

/// How many events the global log keeps.
pub const EVENT_CAPACITY: usize = 5000;

/// How many events the log of one target keeps.
pub const TARGET_CAPACITY: usize = 1000;

/// How many of the newest records a read returns when no start is given.
pub const DEFAULT_WINDOW: usize = 20;

/// The floor of a log: the identifier of its oldest kept record, 0 while
/// nothing was dropped.
pub open spec fn floor_of(culled: Option<usize>) -> int {
    match culled {
        Some(n) => n as int,
        None => 0,
    }
}

/// The identifier that the next record of a log gets: one more than that of
/// its newest record, however many older ones were dropped.
pub open spec fn next_id_spec(culled: Option<usize>, len: int) -> int {
    floor_of(culled) + len
}

/// How many records a log of `len` records has in excess of `capacity`.
pub open spec fn excess_spec(len: int, capacity: int) -> int {
    if len > capacity {
        len - capacity
    } else {
        0
    }
}

/// The floor after `dropped` more records were dropped.
pub open spec fn raised_floor_spec(culled: Option<usize>, dropped: int) -> Option<usize> {
    if dropped > 0 {
        Some((floor_of(culled) + dropped) as usize)
    } else {
        culled
    }
}

/// `x`, held between `lo` and `hi`.
pub open spec fn clamp(x: int, lo: int, hi: int) -> int {
    if x < lo {
        lo
    } else if x > hi {
        hi
    } else {
        x
    }
}

/// The offsets `(lo, hi)` of the kept records whose identifiers lie in
/// `[from, to)`: both ends are moved down by the floor and held within what is
/// kept, and a range that ends before it starts is empty.
pub open spec fn offsets_spec(culled: Option<usize>, len: int, from: int, to: int) -> (int, int) {
    let lo = clamp(from - floor_of(culled), 0, len);
    let hi = clamp(to - floor_of(culled), 0, len);
    (
        lo,
        if hi < lo {
            lo
        } else {
            hi
        },
    )
}

/// The identifiers `[from, to)` that a read asks for: without a start, the
/// last `DEFAULT_WINDOW` identifiers given out; without an end, up to the last
/// one given out.
pub open spec fn requested_spec(culled: Option<usize>, len: int, from: Option<u32>, to: Option<u32>) -> (
    int,
    int,
) {
    let total = next_id_spec(culled, len);
    (
        match from {
            Some(f) => f as int,
            None => if total <= DEFAULT_WINDOW {
                0
            } else {
                total - DEFAULT_WINDOW
            },
        },
        match to {
            Some(t) => t as int,
            None => total,
        },
    )
}

/// The offsets of the kept records that a read with optional ends returns.
pub open spec fn window_spec(culled: Option<usize>, len: int, from: Option<u32>, to: Option<u32>) -> (
    int,
    int,
) {
    let (f, t) = requested_spec(culled, len, from, to);
    offsets_spec(culled, len, f, t)
}

/// The records of a log and its floor after `record` is appended and the log
/// is cut back to `capacity` from the front.
pub open spec fn log_push<R>(records: Seq<R>, culled: Option<usize>, record: R, capacity: int) -> (
    Seq<R>,
    Option<usize>,
) {
    let all = records.push(record);
    let dropped = excess_spec(all.len() as int, capacity);
    (all.subrange(dropped, all.len() as int), raised_floor_spec(culled, dropped))
}

/// The identifier of the next record of a log.
pub fn next_id(culled: Option<usize>, len: usize) -> (id: u32)
    requires
        next_id_spec(culled, len as int) <= u32::MAX,
    ensures
        id == next_id_spec(culled, len as int),
{
    let base: usize = match culled {
        Some(n) => n,
        None => 0,
    };
    (base + len) as u32
}

/// Whether a log still has an identifier to give to its next record.
pub fn has_room(culled: Option<usize>, len: usize) -> (r: bool)
    ensures
        r == (next_id_spec(culled, len as int) <= u32::MAX),
{
    let base: usize = match culled {
        Some(n) => n,
        None => 0,
    };
    base <= 0xffff_ffff && len <= 0xffff_ffff - base
}

/// Drops from the front of `records` what exceeds `capacity`, and says how many
/// records were dropped.
pub fn cull<T>(records: &mut VecDeque<T>, capacity: usize) -> (dropped: usize)
    ensures
        dropped == excess_spec(old(records)@.len() as int, capacity as int),
        final(records)@ == old(records)@.subrange(dropped as int, old(records)@.len() as int),
{
    let total: usize = records.len();
    let mut dropped: usize = 0;
    while records.len() > capacity
        invariant
            total == old(records)@.len(),
            dropped + records@.len() == old(records)@.len(),
            records@ == old(records)@.subrange(dropped as int, old(records)@.len() as int),
            dropped == excess_spec(old(records)@.len() as int, capacity as int) - excess_spec(
                records@.len() as int,
                capacity as int,
            ),
        decreases records@.len(),
    {
        let _ = records.pop_front();
        dropped += 1;
    }
    dropped
}

/// The floor after `dropped` more records were dropped.
pub fn raised_floor(culled: Option<usize>, dropped: usize) -> (r: Option<usize>)
    requires
        floor_of(culled) + dropped <= usize::MAX,
    ensures
        r == raised_floor_spec(culled, dropped as int),
{
    if dropped > 0 {
        let base: usize = match culled {
            Some(n) => n,
            None => 0,
        };
        Some(base + dropped)
    } else {
        culled
    }
}

/// The offsets of the kept records whose identifiers lie in `[from, to)`.
pub fn offsets(culled: Option<usize>, len: usize, from: usize, to: usize) -> (r: (usize, usize))
    ensures
        (r.0 as int, r.1 as int) == offsets_spec(culled, len as int, from as int, to as int),
        r.0 <= r.1 <= len,
{
    let base: usize = match culled {
        Some(n) => n,
        None => 0,
    };
    let lo: usize = if from <= base {
        0
    } else if from - base > len {
        len
    } else {
        from - base
    };
    let hi: usize = if to <= base {
        0
    } else if to - base > len {
        len
    } else {
        to - base
    };
    if hi < lo {
        (lo, lo)
    } else {
        (lo, hi)
    }
}

/// The offsets of the kept records that a read with optional ends returns:
/// by default the last `DEFAULT_WINDOW` records.
pub fn window(culled: Option<usize>, len: usize, from: Option<u32>, to: Option<u32>) -> (r: (
    usize,
    usize,
))
    ensures
        (r.0 as int, r.1 as int) == window_spec(culled, len as int, from, to),
        r.0 <= r.1 <= len,
{
    let base: usize = match culled {
        Some(n) => n,
        None => 0,
    };
    let lo: usize = match from {
        Some(f) => {
            let f = f as usize;
            if f <= base {
                0
            } else if f - base > len {
                len
            } else {
                f - base
            }
        },
        None => if len <= DEFAULT_WINDOW {
            0
        } else {
            len - DEFAULT_WINDOW
        },
    };
    let hi: usize = match to {
        Some(t) => {
            let t = t as usize;
            if t <= base {
                0
            } else if t - base > len {
                len
            } else {
                t - base
            }
        },
        None => len,
    };
    if hi < lo {
        (lo, lo)
    } else {
        (lo, hi)
    }
}

/// A copy of the records at offsets `[lo, hi)`.
pub fn copy_range<T: Clone>(records: &VecDeque<T>, lo: usize, hi: usize) -> (out: Vec<T>)
    requires
        lo <= hi <= records@.len(),
    ensures
        out@.len() == hi - lo,
        forall|i: int| 0 <= i < out@.len() ==> cloned::<T>(records@[lo + i], #[trigger] out@[i]),
{
    let mut out: Vec<T> = Vec::new();
    let mut i: usize = lo;
    while i < hi
        invariant
            lo <= i <= hi <= records@.len(),
            out@.len() == i - lo,
            forall|k: int| 0 <= k < out@.len() ==> cloned::<T>(records@[lo + k], #[trigger] out@[k]),
        decreases hi - i,
    {
        out.push(records[i].clone());
        i += 1;
    }
    out
}

/// One push adds one record, gives out one identifier, keeps at most
/// `capacity` records, and leaves the kept records in their order: the log
/// after the push is the end of the log before it with the new record behind.
pub proof fn lemma_log_push<R>(records: Seq<R>, culled: Option<usize>, record: R, capacity: int)
    requires
        capacity >= 1,
        floor_of(culled) + records.len() + 1 <= usize::MAX,
    ensures
        ({
            let (after, floor) = log_push(records, culled, record, capacity);
            &&& next_id_spec(floor, after.len() as int) == next_id_spec(culled, records.len() as int)
                + 1
            &&& after.len() == if records.len() + 1 > capacity {
                capacity
            } else {
                records.len() as int + 1
            }
            &&& after.last() == record
            &&& forall|i: int|
                0 <= i < after.len() - 1 ==> #[trigger] after[i] == records[i + records.len() + 1
                    - after.len()]
        }),
{
}

} // verus!
