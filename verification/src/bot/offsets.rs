use vstd::prelude::*;

use crate::transcript::data::lemma_range_within_text;
use crate::transcript::{index_well_formed, FromTo, Timestamp};

verus! {

/// How many characters of context a hint shows on each side of where a match starts.
pub const HINT_RADIUS: usize = 50;

/// `x`, moved into the range from 0 to `len`.
pub open spec fn clipped(x: int, len: nat) -> int {
    if x < 0 {
        0
    } else if x > len {
        len as int
    } else {
        x
    }
}

/// The characters of `data` from `HINT_RADIUS` before position `at` to `HINT_RADIUS` after
/// it, as far as `data` reaches.
pub open spec fn hint_of(data: Seq<char>, at: int) -> Seq<char> {
    data.subrange(clipped(at - HINT_RADIUS, data.len()), clipped(at + HINT_RADIUS, data.len()))
}

/// The range covers position `at`: it starts at or before it and ends after it.
pub open spec fn covers_offset(timestamp: Timestamp, at: int) -> bool {
    timestamp.offsets.0 <= at < timestamp.offsets.1
}

/// The `k`-th range covers position `at`.
pub open spec fn cover_holds(timestamps: Seq<Timestamp>, k: int, at: int) -> bool {
    0 <= k < timestamps.len() && covers_offset(timestamps[k], at)
}

/// `time` is the time of a range that covers position `at`.
pub open spec fn is_time_at(timestamps: Seq<Timestamp>, at: int, time: FromTo) -> bool {
    exists|k: int| #[trigger] cover_holds(timestamps, k, at) && timestamps[k].time == time
}

/// The first range at or after `cursor` that ends after position `at`, or the number of
/// ranges where there is none.
pub open spec fn next_open(timestamps: Seq<Timestamp>, cursor: int, at: int) -> int
    decreases timestamps.len() - cursor,
{
    if cursor < 0 || cursor >= timestamps.len() {
        timestamps.len() as int
    } else if at < timestamps[cursor].offsets.1 {
        cursor
    } else {
        next_open(timestamps, cursor + 1, at)
    }
}

/// For each match, in order, the range that a scan finds for it which starts at `cursor`
/// and never goes back: the first range from where the scan stands that ends after the
/// match. `None` where that range does not cover some match, or where the ranges run out.
pub open spec fn located(timestamps: Seq<Timestamp>, cursor: int, matches: Seq<usize>) -> Option<
    Seq<int>,
>
    decreases matches.len(),
{
    if matches.len() == 0 {
        Some(Seq::empty())
    } else {
        let at = next_open(timestamps, cursor, matches[0] as int);
        if at < timestamps.len() && covers_offset(timestamps[at], matches[0] as int) {
            match located(timestamps, at, matches.drop_first()) {
                Some(rest) => Some(seq![at] + rest),
                None => None,
            }
        } else {
            None
        }
    }
}

/// The matches ascend by where they start.
pub open spec fn ascending(matches: Seq<usize>) -> bool {
    forall|i: int, j: int| 0 <= i <= j < matches.len() ==> matches[i] <= matches[j]
}

/// Where the scan for position `at` stops, it has passed only ranges that end at or before
/// `at`, and stands on a range that ends after it, if any is left.
pub proof fn lemma_next_open(timestamps: Seq<Timestamp>, cursor: int, at: int)
    requires
        0 <= cursor <= timestamps.len(),
    ensures
        cursor <= next_open(timestamps, cursor, at) <= timestamps.len(),
        forall|k: int|
            cursor <= k < next_open(timestamps, cursor, at) ==> (#[trigger] timestamps[k]).offsets.1
                <= at,
        next_open(timestamps, cursor, at) < timestamps.len() ==> at < timestamps[next_open(
            timestamps,
            cursor,
            at,
        )].offsets.1,
    decreases timestamps.len() - cursor,
{
    if cursor < timestamps.len() && at >= timestamps[cursor].offsets.1 {
        lemma_next_open(timestamps, cursor + 1, at);
    }
}

/// Whatever the index holds: where the scan gives an answer, it gives one range for each
/// match, that range covers the position where the match starts, and the scan never goes
/// back.
pub proof fn lemma_located_covers(timestamps: Seq<Timestamp>, cursor: int, matches: Seq<usize>)
    requires
        0 <= cursor <= timestamps.len(),
    ensures
        located(timestamps, cursor, matches) matches Some(ranges) ==> {
            &&& ranges.len() == matches.len()
            &&& forall|i: int|
                0 <= i < matches.len() ==> cursor <= #[trigger] ranges[i] && cover_holds(
                    timestamps,
                    ranges[i],
                    matches[i] as int,
                )
            &&& forall|i: int, j: int|
                0 <= i <= j < matches.len() ==> #[trigger] ranges[i] <= #[trigger] ranges[j]
        },
    decreases matches.len(),
{
    if matches.len() > 0 {
        let at = next_open(timestamps, cursor, matches[0] as int);
        lemma_next_open(timestamps, cursor, matches[0] as int);
        if at < timestamps.len() && covers_offset(timestamps[at], matches[0] as int) {
            lemma_located_covers(timestamps, at, matches.drop_first());
            if let Some(rest) = located(timestamps, at, matches.drop_first()) {
                let ranges = seq![at] + rest;
                assert forall|i: int| 0 <= i < matches.len() implies cursor <= #[trigger] ranges[i]
                    && cover_holds(timestamps, ranges[i], matches[i] as int) by {
                    if i > 0 {
                        assert(ranges[i] == rest[i - 1]);
                        assert(matches[i] == matches.drop_first()[i - 1]);
                    }
                }
                assert forall|i: int, j: int| 0 <= i <= j < matches.len() implies
                    #[trigger] ranges[i] <= #[trigger] ranges[j] by {
                    if i > 0 {
                        assert(ranges[i] == rest[i - 1]);
                    }
                    if j > 0 {
                        assert(ranges[j] == rest[j - 1]);
                    }
                }
            }
        }
    }
}

/// In a well-formed index at most one range covers a position.
pub proof fn lemma_cover_is_unique(timestamps: Seq<Timestamp>, len: nat, a: int, b: int, at: int)
    requires
        index_well_formed(timestamps, len),
        0 <= a < timestamps.len(),
        0 <= b < timestamps.len(),
        covers_offset(timestamps[a], at),
        covers_offset(timestamps[b], at),
    ensures
        a == b,
{
    if a < b {
        lemma_ends_before_later_start(timestamps, len, a, b);
    }
    if b < a {
        lemma_ends_before_later_start(timestamps, len, b, a);
    }
}

/// In a well-formed index the scan, standing on a range that starts at or before the
/// matches, gives an answer exactly if every match starts inside the text. The matches
/// must ascend.
proof fn lemma_located_from(timestamps: Seq<Timestamp>, len: nat, cursor: int, matches: Seq<usize>)
    requires
        index_well_formed(timestamps, len),
        ascending(matches),
        0 <= cursor <= timestamps.len(),
        timestamps.len() > 0 ==> cursor < timestamps.len(),
        cursor < timestamps.len() && matches.len() > 0 ==> timestamps[cursor].offsets.0
            <= matches[0],
    ensures
        located(timestamps, cursor, matches) is Some <==> forall|i: int|
            0 <= i < matches.len() ==> #[trigger] matches[i] < len,
    decreases matches.len(),
{
    if matches.len() > 0 {
        let first = matches[0] as int;
        let at = next_open(timestamps, cursor, first);
        lemma_next_open(timestamps, cursor, first);
        let rest = matches.drop_first();
        assert(ascending(rest)) by {
            assert forall|i: int, j: int| 0 <= i <= j < rest.len() implies rest[i] <= rest[j] by {
                assert(rest[i] == matches[i + 1]);
                assert(rest[j] == matches[j + 1]);
            }
        }
        if at < timestamps.len() {
            lemma_range_within_text(timestamps, len, at);
            assert(timestamps[at].offsets.0 <= first) by {
                if at > cursor {
                    assert(timestamps[at - 1].offsets.1 == timestamps[at].offsets.0);
                }
            }
            if rest.len() > 0 {
                assert(rest[0] == matches[1]);
            }
            lemma_located_from(timestamps, len, at, rest);
            assert((forall|i: int| 0 <= i < rest.len() ==> #[trigger] rest[i] < len) <==> (forall|
                i: int,
            | 0 <= i < matches.len() ==> #[trigger] matches[i] < len)) by {
                if forall|i: int| 0 <= i < rest.len() ==> #[trigger] rest[i] < len {
                    assert forall|i: int| 0 <= i < matches.len() implies #[trigger] matches[i]
                        < len by {
                        if i > 0 {
                            assert(matches[i] == rest[i - 1]);
                        }
                    }
                }
                if forall|i: int| 0 <= i < matches.len() ==> #[trigger] matches[i] < len {
                    assert forall|i: int| 0 <= i < rest.len() implies #[trigger] rest[i] < len by {
                        assert(rest[i] == matches[i + 1]);
                    }
                }
            }
        } else {
            assert(!(first < len)) by {
                if timestamps.len() > 0 {
                    assert(timestamps[timestamps.len() - 1].offsets.1 <= first);
                }
            }
        }
    }
}

/// In a well-formed index, with matches that ascend, the scan gives an answer exactly if
/// every match starts inside the text, and the range it gives for a match is the one range
/// that covers where the match starts.
pub proof fn lemma_located_in_well_formed(timestamps: Seq<Timestamp>, len: nat, matches: Seq<usize>)
    requires
        index_well_formed(timestamps, len),
        ascending(matches),
    ensures
        located(timestamps, 0, matches) is Some <==> forall|i: int|
            0 <= i < matches.len() ==> #[trigger] matches[i] < len,
        located(timestamps, 0, matches) matches Some(ranges) ==> forall|i: int, k: int|
            0 <= i < matches.len() && 0 <= k < timestamps.len() && covers_offset(
                #[trigger] timestamps[k],
                #[trigger] matches[i] as int,
            ) ==> ranges[i] == k,
{
    lemma_located_from(timestamps, len, 0, matches);
    lemma_located_covers(timestamps, 0, matches);
    if let Some(ranges) = located(timestamps, 0, matches) {
        assert forall|i: int, k: int|
            0 <= i < matches.len() && 0 <= k < timestamps.len() && covers_offset(
                #[trigger] timestamps[k],
                #[trigger] matches[i] as int,
            ) implies ranges[i] == k by {
            assert(cover_holds(timestamps, ranges[i], matches[i] as int));
            lemma_cover_is_unique(timestamps, len, ranges[i], k, matches[i] as int);
        }
    }
}

/// In a well-formed index a match that starts where a range ends is given a later range,
/// never the one that ends there, and every range between the two is empty.
pub proof fn lemma_boundary_goes_forward(
    timestamps: Seq<Timestamp>,
    len: nat,
    matches: Seq<usize>,
    i: int,
    k: int,
)
    requires
        index_well_formed(timestamps, len),
        located(timestamps, 0, matches) is Some,
        0 <= i < matches.len(),
        0 <= k < timestamps.len(),
        matches[i] == timestamps[k].offsets.1,
    ensures
        k < located(timestamps, 0, matches).unwrap()[i] < timestamps.len(),
        forall|j: int|
            k < j < located(timestamps, 0, matches).unwrap()[i] ==> (
            #[trigger] timestamps[j]).offsets.0 == timestamps[j].offsets.1,
{
    lemma_located_covers(timestamps, 0, matches);
    let ranges = located(timestamps, 0, matches).unwrap();
    let r = ranges[i];
    assert(cover_holds(timestamps, r, matches[i] as int));
    if r < k {
        lemma_ends_before_later_start(timestamps, len, r, k);
    }
    assert forall|j: int| k < j < r implies (#[trigger] timestamps[j]).offsets.0
        == timestamps[j].offsets.1 by {
        lemma_ends_before_later_start(timestamps, len, k, j);
        lemma_ends_before_later_start(timestamps, len, j, r);
    }
}

/// In a well-formed index a range ends at or before the start of every later range.
pub proof fn lemma_ends_before_later_start(timestamps: Seq<Timestamp>, len: nat, a: int, b: int)
    requires
        index_well_formed(timestamps, len),
        0 <= a < b < timestamps.len(),
    ensures
        timestamps[a].offsets.0 <= timestamps[a].offsets.1 <= timestamps[b].offsets.0,
{
    assert(timestamps[a].offsets.1 == timestamps[a + 1].offsets.0);
    assert(timestamps[a + 1].offsets.0 <= timestamps[b].offsets.0);
}

} // verus!
