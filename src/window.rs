use vstd::prelude::*;

verus! {

/// Number of seconds in one day.
pub const SECONDS_PER_DAY: i64 = 86400;

/// The longest span, in days, that the provider accepts for one request.
pub const MAX_SPAN_DAYS: u64 = 90;

/// A sub-range `[start, end]` of a request, both ends inclusive, in Unix seconds.
#[derive(Clone, Copy, Debug, PartialEq, Eq, Structural)]
pub struct DateWindow {
    pub start: i64,
    pub end: i64,
}

impl DateWindow {
    /// The window's two ends as mathematical integers.
    pub open spec fn bounds(self) -> (int, int) {
        (self.start as int, self.end as int)
    }
}

/// Why a range cannot be split into windows.
#[derive(Clone, Copy, Debug, PartialEq, Eq, Structural)]
pub enum RangeError {
    /// The range ends before it starts, or the maximum span is zero days.
    InvalidRange,
}

/// The length in seconds of `days` days.
pub open spec fn span_seconds(days: nat) -> int {
    (days * 86400) as int
}

/// Whole days between `start` and `end` (the partial last day is dropped).
pub open spec fn whole_days(start: int, end: int) -> int {
    (end - start) / 86400
}

/// The smaller of two integers.
pub open spec fn min_int(a: int, b: int) -> int {
    if a <= b { a } else { b }
}

/// The `i`-th window of a range that is longer than the maximum span `s` (in seconds).
pub open spec fn window_at(start: int, end: int, s: int, i: int) -> (int, int) {
    (start + i * s, min_int(start + (i + 1) * s, end))
}

/// `ws` is the split of `[start, end]` into windows of at most `max_days` days.
///
/// A range of no more than `max_days` whole days is one window. A longer one is cut
/// every `max_days` days from `start`; the windows share their boundaries and the
/// last one ends at `end`.
pub open spec fn is_split(start: int, end: int, max_days: nat, ws: Seq<DateWindow>) -> bool {
    if whole_days(start, end) <= max_days {
        ws.len() == 1 && ws[0].start == start && ws[0].end == end
    } else {
        let s = span_seconds(max_days);
        &&& ws.len() >= 1
        &&& forall|i: int|
            0 <= i < ws.len() ==> (#[trigger] ws[i]).bounds() == window_at(start, end, s, i)
        &&& forall|i: int| 0 <= i < ws.len() - 1 ==> (#[trigger] ws[i]).end < end
        &&& start + ws.len() * s >= end
    }
}

/// Windows of a split follow each other with no gap and no overlap: each one ends
/// where the next starts, they are in chronological order, together they cover
/// exactly `[start, end]`, and every window but the last spans exactly the maximum.
/// A range of no more than the maximum span is one window equal to the range.
pub proof fn lemma_split_covers_range(start: int, end: int, max_days: nat, ws: Seq<DateWindow>)
    requires
        start <= end,
        max_days > 0,
        is_split(start, end, max_days, ws),
    ensures
        ws.len() >= 1,
        ws[0].start == start,
        ws[ws.len() - 1].end == end,
        forall|i: int| 0 <= i < ws.len() ==> (#[trigger] ws[i]).start <= ws[i].end,
        forall|i: int| 0 <= i < ws.len() - 1 ==> (#[trigger] ws[i]).end == ws[i + 1].start,
        forall|i: int|
            0 <= i < ws.len() - 1 ==> (#[trigger] ws[i]).end - ws[i].start == span_seconds(
                max_days,
            ),
        whole_days(start, end) <= max_days ==> ws.len() == 1 && ws[0].start == start
            && ws[0].end == end,
{
    if whole_days(start, end) > max_days {
        let s = span_seconds(max_days);
        assert(ws[0].bounds() == window_at(start, end, s, 0));
        let n = ws.len() - 1;
        assert(ws[n].bounds() == window_at(start, end, s, n));
        assert forall|i: int| 0 <= i < ws.len() implies (#[trigger] ws[i]).start <= ws[i].end by {
            assert(ws[i].bounds() == window_at(start, end, s, i));
            assert(start + (i + 1) * s == start + i * s + s) by (nonlinear_arith);
            assert(s > 0);
            if i > 0 {
                assert(ws[i - 1].bounds() == window_at(start, end, s, i - 1));
                assert(start + ((i - 1) + 1) * s == start + i * s);
            }
        }
        assert forall|i: int| 0 <= i < ws.len() - 1 implies (#[trigger] ws[i]).end == ws[i
            + 1].start && ws[i].end - ws[i].start == s by {
            assert(ws[i].bounds() == window_at(start, end, s, i));
            assert(ws[i + 1].bounds() == window_at(start, end, s, i + 1));
            assert(start + (i + 1) * s == start + i * s + s) by (nonlinear_arith);
        }
    }
}

/// A range has one split only: splitting the same range with the same maximum span
/// again gives the same windows.
pub proof fn lemma_split_unique(
    start: int,
    end: int,
    max_days: nat,
    ws1: Seq<DateWindow>,
    ws2: Seq<DateWindow>,
)
    requires
        is_split(start, end, max_days, ws1),
        is_split(start, end, max_days, ws2),
    ensures
        ws1 == ws2,
{
    if whole_days(start, end) > max_days {
        let s = span_seconds(max_days);
        if ws1.len() < ws2.len() {
            let n = ws1.len() - 1;
            assert(ws2[n].bounds() == window_at(start, end, s, n));
            assert(ws2[n].end < end);
        } else if ws2.len() < ws1.len() {
            let n = ws2.len() - 1;
            assert(ws1[n].bounds() == window_at(start, end, s, n));
            assert(ws1[n].end < end);
        }
        assert forall|i: int| 0 <= i < ws1.len() implies ws1[i] == ws2[i] by {
            assert(ws1[i].bounds() == window_at(start, end, s, i));
            assert(ws2[i].bounds() == window_at(start, end, s, i));
        }
    }
    assert(ws1 =~= ws2);
}

/// The earlier of two instants.
pub fn min_dates(d1: i64, d2: i64) -> (r: i64)
    ensures
        r == min_int(d1 as int, d2 as int),
{
    if d1 <= d2 {
        d1
    } else {
        d2
    }
}

/// Splits `[start, end]` into consecutive windows of at most `max_span_days` days.
pub fn split_range(start: i64, end: i64, max_span_days: u64) -> (r: Result<Vec<DateWindow>, RangeError>)
    ensures
        r is Err <==> (start > end || max_span_days == 0),
        r matches Ok(ws) ==> is_split(start as int, end as int, max_span_days as nat, ws@),
{
    if start > end || max_span_days == 0 {
        return Err(RangeError::InvalidRange);
    }
    let mut out: Vec<DateWindow> = Vec::new();
    let days: i128 = ((end as i128) - (start as i128)) / 86400;
    if days <= max_span_days as i128 {
        out.push(DateWindow { start, end });
        return Ok(out);
    }
    let s: i128 = (max_span_days as i128) * 86400;
    let ghost sp: int = span_seconds(max_span_days as nat);
    assert(s == sp);
    assert(end - start > sp) by (nonlinear_arith)
        requires
            (end - start) / 86400 > max_span_days,
            sp == max_span_days * 86400,
            end - start >= 0,
    ;
    let mut cur: i64 = start;
    let ghost mut k: int = 0;
    while (end as i128) - (cur as i128) > s
        invariant
            s == sp,
            sp > 0,
            start <= cur < end,
            cur == start + k * sp,
            k >= 0,
            out@.len() == k,
            forall|i: int|
                0 <= i < k ==> (#[trigger] out@[i]).bounds() == window_at(
                    start as int,
                    end as int,
                    sp,
                    i,
                ),
            forall|i: int| 0 <= i < k ==> (#[trigger] out@[i]).end < end,
        decreases end - cur,
    {
        let next: i64 = (cur as i128 + s) as i64;
        proof {
            assert(start + (k + 1) * sp == start + k * sp + sp) by (nonlinear_arith);
        }
        out.push(DateWindow { start: cur, end: next });
        cur = next;
        proof {
            k = k + 1;
        }
    }
    proof {
        assert(start + (k + 1) * sp == start + k * sp + sp) by (nonlinear_arith);
    }
    out.push(DateWindow { start: cur, end });
    Ok(out)
}

} // verus!
