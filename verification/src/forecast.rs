//! Which forecast rows the detail panel shows.

use vstd::prelude::*;
use crate::text::{lex_less, str_less};

verus! {

/// The most hourly rows the detail panel lists.
pub const HOURLY_ROWS: usize = 48;

/// The positions among the first `n` hourly timestamps that are not before `now`,
/// in order.
pub open spec fn upcoming(times: Seq<Seq<char>>, now: Seq<char>, n: int) -> Seq<usize>
    decreases n,
{
    if n <= 0 {
        Seq::empty()
    } else if !lex_less(times[n - 1], now) {
        upcoming(times, now, n - 1).push((n - 1) as usize)
    } else {
        upcoming(times, now, n - 1)
    }
}

/// The rows of the hourly table: the first `HOURLY_ROWS` timestamps that are not
/// before `now`.
pub open spec fn hourly_selection(times: Seq<Seq<char>>, now: Seq<char>) -> Seq<usize> {
    let all = upcoming(times, now, times.len() as int);
    if all.len() <= HOURLY_ROWS {
        all
    } else {
        all.take(HOURLY_ROWS as int)
    }
}

/// The texts of a list of timestamps.
pub open spec fn texts(times: Seq<String>) -> Seq<Seq<char>> {
    times.map_values(|t: String| t@)
}

proof fn lemma_upcoming_facts(times: Seq<Seq<char>>, now: Seq<char>, n: int)
    requires
        0 <= n <= times.len(),
        times.len() <= usize::MAX,
    ensures
        upcoming(times, now, n).len() <= n,
        forall|k: int| 0 <= k < upcoming(times, now, n).len() ==>
            (#[trigger] upcoming(times, now, n)[k] as int) < n
            && !lex_less(times[upcoming(times, now, n)[k] as int], now),
        forall|k: int, l: int| 0 <= k < l < upcoming(times, now, n).len() ==>
            #[trigger] upcoming(times, now, n)[k] < #[trigger] upcoming(times, now, n)[l],
    decreases n,
{
    if n > 0 {
        lemma_upcoming_facts(times, now, n - 1);
    }
}

proof fn lemma_upcoming_prefix(times: Seq<Seq<char>>, now: Seq<char>, m: int, n: int)
    requires
        0 <= m <= n,
    ensures
        upcoming(times, now, m).len() <= upcoming(times, now, n).len(),
        upcoming(times, now, n).take(upcoming(times, now, m).len() as int)
            == upcoming(times, now, m),
    decreases n - m,
{
    if m < n {
        lemma_upcoming_prefix(times, now, m, n - 1);
        let a = upcoming(times, now, m);
        let b = upcoming(times, now, n - 1);
        if !lex_less(times[n - 1], now) {
            assert(b.push((n - 1) as usize).take(a.len() as int) =~= b.take(a.len() as int));
        }
    } else {
        assert(upcoming(times, now, n).take(upcoming(times, now, n).len() as int)
            =~= upcoming(times, now, n));
    }
}

/// The positions of the hourly rows to show: timestamps not before `now_hour`, the
/// first `HOURLY_ROWS` of them, in order.
pub fn hourly_rows(times: &Vec<String>, now_hour: &str) -> (rows: Vec<usize>)
    ensures
        rows@ == hourly_selection(texts(times@), now_hour@),
        rows@.len() <= HOURLY_ROWS,
        forall|k: int| 0 <= k < rows@.len() ==> (#[trigger] rows@[k] as int) < times@.len()
            && !lex_less(times@[rows@[k] as int]@, now_hour@),
        forall|k: int, l: int| 0 <= k < l < rows@.len() ==> #[trigger] rows@[k] < #[trigger] rows@[l],
{
    let ghost ts = texts(times@);
    let n: usize = times.len();
    let mut rows: Vec<usize> = Vec::new();
    let mut i: usize = 0;
    while i < n
        invariant
            n == times@.len(),
            ts == texts(times@),
            0 <= i <= n,
            rows@.len() <= HOURLY_ROWS,
            rows@ == upcoming(ts, now_hour@, i as int),
        ensures
            rows@ == upcoming(ts, now_hour@, i as int),
            rows@.len() <= HOURLY_ROWS,
            i == n || rows@.len() == HOURLY_ROWS,
        decreases n - i,
    {
        if rows.len() >= HOURLY_ROWS {
            break;
        }
        if !str_less(times[i].as_str(), now_hour) {
            rows.push(i);
        }
        i = i + 1;
    }
    proof {
        let all = upcoming(ts, now_hour@, n as int);
        lemma_upcoming_facts(ts, now_hour@, n as int);
        lemma_upcoming_prefix(ts, now_hour@, i as int, n as int);
        if i < n {
            assert(all.take(HOURLY_ROWS as int) =~= rows@);
        }
        assert forall|k: int| 0 <= k < rows@.len() implies (#[trigger] rows@[k] as int) < times@.len()
            && !lex_less(times@[rows@[k] as int]@, now_hour@) by {
            assert(rows@[k] == all[k]);
        }
        assert forall|k: int, l: int| 0 <= k < l < rows@.len() implies #[trigger] rows@[k]
            < #[trigger] rows@[l] by {
            assert(rows@[k] == all[k]);
            assert(rows@[l] == all[l]);
        }
    }
    rows
}

} // verus!
