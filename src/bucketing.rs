//! Picking the forecast entries the tooltip shows: every hour for a short
//! horizon, or one entry per fixed step of hours for a long one.
use vstd::prelude::*;

use crate::cli::TempFormat;
use crate::forecast::{
    entry_time, get_symbol_from_data, or_zero, symbol_of, time_of, value_or_zero, Entry, Snapshot,
};
use crate::layout::{display_in_columns, layout, views};
use crate::symbols::{get_weather_icon, icon_of};
use crate::text::{
    ascii_prefix, chars_of, decimal, digit, has_ascii_prefix, is_digit, push_char, push_int,
    push_str,
};
use crate::timestamp::{
    elapsed_hours, hours_between, instant_view, opt_instant_view, parse_utc, utc_instant, Instant,
};
use crate::units::{format_temp_short, shown_degrees};

verus! {

/// The two-digit hour of a timestamp (its characters 11 and 12), or "?"
/// where the timestamp is malformed: shorter than 13 characters, not ASCII
/// in those, or without digits there.
pub open spec fn hour_label(t: Seq<char>) -> Seq<char> {
    if ascii_prefix(t, 13) && is_digit(t[11]) && is_digit(t[12]) {
        t.subrange(11, 13)
    } else {
        "?"@
    }
}

/// "MM-DD HH" of a timestamp (its characters 5 to 9 and 11 to 12), or "?"
/// where it is shorter than 16 characters or not ASCII in those.
pub open spec fn date_hour_label(t: Seq<char>) -> Seq<char> {
    if ascii_prefix(t, 16) {
        t.subrange(5, 10) + seq![' '] + t.subrange(11, 13)
    } else {
        "?"@
    }
}

/// An entry's icon and rounded temperature, as in "⛅ 5°".
pub open spec fn icon_temp(e: Entry, format: TempFormat) -> Seq<char> {
    icon_of(symbol_of(e)) + " "@ + decimal(shown_degrees(value_or_zero(e.air_temperature), format))
        + "°"@
}

/// The cell of an entry in the hourly forecast, as in "14:00 ⛅ 5°".
pub open spec fn dense_label(e: Entry, format: TempFormat) -> Seq<char> {
    hour_label(time_of(e)) + ":00 "@ + icon_temp(e, format)
}

/// The cell of an entry in the extended forecast, as in "01-02 06 ⛅ 5°".
pub open spec fn sparse_label(e: Entry, format: TempFormat) -> Seq<char> {
    date_hour_label(time_of(e)) + " "@ + icon_temp(e, format)
}

/// How many entries the hourly forecast shows: those after the first, at
/// most `hours` of them.
pub open spec fn dense_count(n: int, hours: int) -> int {
    if n <= 0 {
        0
    } else if hours < n - 1 {
        hours
    } else {
        n - 1
    }
}

/// The cells of the hourly forecast: entries `1..=hours`, in order.
pub open spec fn dense_labels(es: Seq<Entry>, hours: int, format: TempFormat) -> Seq<Seq<char>> {
    Seq::new(dense_count(es.len() as int, hours) as nat, |k: int| dense_label(es[k + 1], format))
}

/// The entries picked from index `i` on, when the next pick must lie at
/// least `target` hours after `start` and `left` picks remain. Entries
/// without an instant are passed over.
pub open spec fn sparse_from(
    times: Seq<Option<(int, int)>>,
    start: (int, int),
    i: int,
    target: int,
    interval: int,
    left: int,
) -> Seq<int>
    decreases times.len() - i,
{
    if i < 0 || i >= times.len() || left <= 0 {
        Seq::empty()
    } else {
        match times[i] {
            Some(t) => if elapsed_hours(start, t) >= target {
                seq![i] + sparse_from(times, start, i + 1, target + interval, interval, left - 1)
            } else {
                sparse_from(times, start, i + 1, target, interval, left)
            },
            None => sparse_from(times, start, i + 1, target, interval, left),
        }
    }
}

/// The indices the extended forecast shows: measured from the first entry's
/// instant, the first entry at or after `interval` hours, then the first at
/// or after `2 * interval`, and so on, at most `max_entries` of them.
pub open spec fn sparse_indices(
    times: Seq<Option<(int, int)>>,
    max_entries: int,
    interval: int,
) -> Seq<int> {
    if times.len() == 0 {
        Seq::empty()
    } else {
        match times[0] {
            Some(s) => sparse_from(times, s, 1, interval, interval, max_entries),
            None => Seq::empty(),
        }
    }
}

/// The instants of the entries' timestamps.
pub open spec fn entry_instants(es: Seq<Entry>) -> Seq<Option<(int, int)>> {
    es.map_values(|e: Entry| utc_instant(time_of(e)))
}

/// The cells of the extended forecast.
pub open spec fn sparse_labels(
    es: Seq<Entry>,
    max_entries: int,
    interval: int,
    format: TempFormat,
) -> Seq<Seq<char>> {
    let picks = sparse_indices(entry_instants(es), max_entries, interval);
    picks.map_values(|i: int| sparse_label(es[i], format))
}

/// Indices as integers.
pub open spec fn index_view(r: Seq<usize>) -> Seq<int> {
    r.map_values(|i: usize| i as int)
}

/// The plain values of a list of optional instants.
pub open spec fn instants_view(v: Seq<Option<Instant>>) -> Seq<Option<(int, int)>> {
    v.map_values(|o: Option<Instant>| opt_instant_view(o))
}

/// The picks of the extended forecast, given the instant of each entry's
/// timestamp.
pub fn sample_extended(times: &Vec<Option<Instant>>, max_entries: usize, interval_hours: u32) -> (r:
    Vec<usize>)
    ensures
        index_view(r@) == sparse_indices(
            instants_view(times@),
            max_entries as int,
            interval_hours as int,
        ),
{
    let ghost tv = instants_view(times@);
    let ghost step = interval_hours as int;
    let ghost all = sparse_indices(tv, max_entries as int, step);
    let mut r: Vec<usize> = Vec::new();
    let n = times.len();
    if n == 0 {
        assert(index_view(r@) =~= all);
        return r;
    }
    let start = match times[0] {
        Some(s) => s,
        None => {
            assert(index_view(r@) =~= all);
            return r;
        },
    };
    let ghost s0 = instant_view(start);
    let mut i: usize = 1;
    let mut count: usize = 0;
    let mut target: i128 = interval_hours as i128;
    assert(index_view(r@) + sparse_from(tv, s0, 1, step, step, max_entries as int) =~= all);
    while i < n && count < max_entries
        invariant
            1 <= i <= n,
            n == times@.len(),
            tv == instants_view(times@),
            step == interval_hours as int,
            s0 == instant_view(start),
            times@[0] == Some(start),
            count <= max_entries,
            target as int == step * (count as int + 1),
            index_view(r@) + sparse_from(tv, s0, i as int, target as int, step, max_entries - count)
                == all,
        decreases n - i,
    {
        let ghost before = index_view(r@);
        let ghost rest = sparse_from(tv, s0, i as int, target as int, step, max_entries - count);
        if let Some(t) = times[i] {
            let h = hours_between(start, t);
            if h >= target {
                r.push(i);
                assert(index_view(r@) =~= before.push(i as int));
                assert(rest == seq![i as int] + sparse_from(
                    tv,
                    s0,
                    i + 1,
                    target + step,
                    step,
                    max_entries - count - 1,
                ));
                assert(step * (count as int + 2) == step * (count as int + 1) + step)
                    by (nonlinear_arith);
                assert(step * (count as int + 2) <= u32::MAX as int * (usize::MAX as int + 2))
                    by (nonlinear_arith)
                    requires
                        count < usize::MAX,
                        0 <= step <= u32::MAX,
                ;
                count = count + 1;
                target = target + interval_hours as i128;
            }
        }
        i = i + 1;
    }
    assert(index_view(r@) =~= all);
    r
}

/// Appends the chars `from..to` of `s`.
fn push_chars(out: &mut String, s: &Vec<char>, from: usize, to: usize)
    requires
        from <= to <= s.len(),
    ensures
        final(out)@ == old(out)@ + s@.subrange(from as int, to as int),
{
    let mut k: usize = from;
    while k < to
        invariant
            from <= k <= to,
            to <= s.len(),
            out@ == old(out)@ + s@.subrange(from as int, k as int),
        decreases to - k,
    {
        push_char(out, s[k]);
        assert(s@.subrange(from as int, k + 1) =~= s@.subrange(from as int, k as int).push(
            s@[k as int],
        ));
        k = k + 1;
    }
}

/// Appends an entry's icon and rounded temperature.
fn push_icon_temp(out: &mut String, e: &Entry, format: TempFormat)
    ensures
        final(out)@ == old(out)@ + icon_temp(*e, format),
{
    push_str(out, get_weather_icon(get_symbol_from_data(e)));
    push_str(out, " ");
    push_int(out, format_temp_short(or_zero(e.air_temperature), format));
    push_str(out, "°");
    assert(final(out)@ =~= old(out)@ + icon_temp(*e, format));
}

/// The hourly cell of an entry.
fn hourly_label(e: &Entry, format: TempFormat) -> (r: String)
    ensures
        r@ == dense_label(*e, format),
{
    let t = chars_of(entry_time(e));
    let mut r = String::new();
    if has_ascii_prefix(&t, 13) && digit(t[11]) && digit(t[12]) {
        push_chars(&mut r, &t, 11, 13);
    } else {
        push_str(&mut r, "?");
    }
    push_str(&mut r, ":00 ");
    push_icon_temp(&mut r, e, format);
    assert(r@ =~= dense_label(*e, format));
    r
}

/// The extended cell of an entry.
fn extended_label(e: &Entry, format: TempFormat) -> (r: String)
    ensures
        r@ == sparse_label(*e, format),
{
    let t = chars_of(entry_time(e));
    let mut r = String::new();
    if has_ascii_prefix(&t, 16) {
        push_chars(&mut r, &t, 5, 10);
        push_char(&mut r, ' ');
        push_chars(&mut r, &t, 11, 13);
    } else {
        push_str(&mut r, "?");
    }
    push_str(&mut r, " ");
    push_icon_temp(&mut r, e, format);
    assert(r@ =~= sparse_label(*e, format));
    r
}

/// The cells of the hourly forecast: the entries after the first, at most
/// `hours` of them, in order.
pub fn hourly_entries(data: &Snapshot, hours: usize, format: TempFormat) -> (r: Vec<String>)
    ensures
        views(r@) == dense_labels(data.entries@, hours as int, format),
{
    let es = &data.entries;
    let ghost want = dense_labels(es@, hours as int, format);
    let mut r: Vec<String> = Vec::new();
    let mut i: usize = 1;
    while i < es.len() && i <= hours
        invariant
            1 <= i,
            i - 1 <= dense_count(es@.len() as int, hours as int),
            r@.len() == i - 1,
            forall|k: int| 0 <= k < r@.len() ==> (#[trigger] r@[k])@ == want[k],
            want == dense_labels(es@, hours as int, format),
        decreases es.len() - i,
    {
        r.push(hourly_label(&es[i], format));
        i = i + 1;
    }
    assert(views(r@) =~= want);
    r
}

/// The cells of the extended forecast.
pub fn extended_entries(
    data: &Snapshot,
    max_entries: usize,
    interval_hours: u32,
    format: TempFormat,
) -> (r: Vec<String>)
    ensures
        views(r@) == sparse_labels(
            data.entries@,
            max_entries as int,
            interval_hours as int,
            format,
        ),
{
    let es = &data.entries;
    let mut times: Vec<Option<Instant>> = Vec::new();
    let mut i: usize = 0;
    while i < es.len()
        invariant
            i <= es@.len(),
            times@.len() == i,
            forall|k: int|
                0 <= k < i ==> opt_instant_view(#[trigger] times@[k]) == utc_instant(
                    time_of(es@[k]),
                ),
        decreases es.len() - i,
    {
        times.push(parse_utc(entry_time(&es[i])));
        i = i + 1;
    }
    assert(instants_view(times@) =~= entry_instants(es@));
    let picks = sample_extended(&times, max_entries, interval_hours);
    let ghost idx = sparse_indices(entry_instants(es@), max_entries as int, interval_hours as int);
    proof {
        lemma_sparse_shape(entry_instants(es@), max_entries as int, interval_hours as int);
    }
    let mut r: Vec<String> = Vec::new();
    let mut k: usize = 0;
    while k < picks.len()
        invariant
            k <= picks@.len(),
            index_view(picks@) == idx,
            forall|j: int| 0 <= j < idx.len() ==> 1 <= #[trigger] idx[j] < es@.len(),
            r@.len() == k,
            forall|j: int| 0 <= j < k ==> (#[trigger] r@[j])@ == sparse_label(es@[idx[j]], format),
        decreases picks.len() - k,
    {
        assert(idx[k as int] == picks@[k as int] as int);
        r.push(extended_label(&es[picks[k]], format));
        k = k + 1;
    }
    assert(views(r@) =~= sparse_labels(es@, max_entries as int, interval_hours as int, format));
    r
}

/// Appends the hourly forecast: `hours` entries after the first, in three
/// columns of fifteen characters.
pub fn build_hourly_forecast(
    tooltip: &mut String,
    data: &Snapshot,
    hours: usize,
    format: TempFormat,
)
    ensures
        final(tooltip)@ == old(tooltip)@ + layout(
            dense_labels(data.entries@, hours as int, format),
            3,
            15,
        ),
{
    let entries = hourly_entries(data, hours, format);
    display_in_columns(tooltip, &entries, 3, 15);
}

/// Appends the extended forecast in two columns of eighteen characters.
pub fn build_extended_forecast(
    tooltip: &mut String,
    data: &Snapshot,
    max_entries: usize,
    interval_hours: u32,
    format: TempFormat,
)
    ensures
        final(tooltip)@ == old(tooltip)@ + layout(
            sparse_labels(data.entries@, max_entries as int, interval_hours as int, format),
            2,
            18,
        ),
{
    let entries = extended_entries(data, max_entries, interval_hours, format);
    display_in_columns(tooltip, &entries, 2, 18);
}

/// What the sampler picks from index `i` on: at most `left` indices, rising,
/// each of an entry with an instant, the `k`-th at least `target + k *
/// interval` hours after `start`.
pub proof fn lemma_sparse_from(
    times: Seq<Option<(int, int)>>,
    start: (int, int),
    i: int,
    target: int,
    interval: int,
    left: int,
)
    requires
        i >= 0,
    ensures
        ({
            let r = sparse_from(times, start, i, target, interval, left);
            &&& r.len() <= if left > 0 { left } else { 0 }
            &&& forall|k: int| 0 <= k < r.len() ==> i <= #[trigger] r[k] < times.len()
            &&& forall|k: int| 0 <= k < r.len() ==> (#[trigger] times[r[k]]) is Some
            &&& forall|k: int|
                0 <= k < r.len() ==> elapsed_hours(start, (#[trigger] times[r[k]])->0) >= target + k
                    * interval
            &&& forall|k: int, l: int| 0 <= k < l < r.len() ==> r[k] < r[l]
        }),
    decreases times.len() - i,
{
    if i >= times.len() || left <= 0 {
    } else {
        match times[i] {
            Some(t) => if elapsed_hours(start, t) >= target {
                lemma_sparse_from(times, start, i + 1, target + interval, interval, left - 1);
                let rest = sparse_from(times, start, i + 1, target + interval, interval, left - 1);
                let r = seq![i] + rest;
                assert(sparse_from(times, start, i, target, interval, left) == r);
                assert(r[0] == i);
                assert(elapsed_hours(start, times[r[0]]->0) >= target + 0 * interval);
                assert forall|k: int| 1 <= k < r.len() implies elapsed_hours(
                    start,
                    (#[trigger] times[r[k]])->0,
                ) >= target + k * interval by {
                    assert(r[k] == rest[k - 1]);
                    assert(target + interval + (k - 1) * interval == target + k * interval)
                        by (nonlinear_arith);
                }
                assert forall|k: int| 0 <= k < r.len() implies i <= #[trigger] r[k] < times.len()
                    by {
                    if k > 0 {
                        assert(r[k] == rest[k - 1]);
                    }
                }
                assert forall|k: int, l: int| 0 <= k < l < r.len() implies r[k] < r[l] by {
                    assert(r[l] == rest[l - 1]);
                    if k > 0 {
                        assert(r[k] == rest[k - 1]);
                    }
                }
                assert forall|k: int| 0 <= k < r.len() implies (#[trigger] times[r[k]]) is Some by {
                    if k > 0 {
                        assert(r[k] == rest[k - 1]);
                    }
                }
                assert(r.len() <= left);
            } else {
                lemma_sparse_from(times, start, i + 1, target, interval, left);
            },
            None => {
                lemma_sparse_from(times, start, i + 1, target, interval, left);
            },
        }
    }
}

/// Each pick is the first entry with an instant at or past its target: an
/// entry with an instant that lies before the `k`-th pick (and after the one
/// before it) is less than `target + k * interval` hours after `start`.
#[verifier::spinoff_prover]
#[verifier::rlimit(60)]
pub proof fn lemma_sparse_first_past_target(
    times: Seq<Option<(int, int)>>,
    start: (int, int),
    i: int,
    target: int,
    interval: int,
    left: int,
)
    requires
        i >= 0,
    ensures
        ({
            let r = sparse_from(times, start, i, target, interval, left);
            forall|k: int, j: int|
                #![trigger r[k], times[j]]
                0 <= k < r.len() && i <= j < r[k] && (k == 0 || r[k - 1] < j) && times[j] is Some
                    ==> elapsed_hours(start, times[j]->0) < target + k * interval
        }),
    decreases times.len() - i,
{
    if i >= times.len() || left <= 0 {
    } else {
        match times[i] {
            Some(t) => if elapsed_hours(start, t) >= target {
                lemma_sparse_first_past_target(times, start, i + 1, target + interval, interval, left - 1);
                lemma_sparse_from(times, start, i + 1, target + interval, interval, left - 1);
                let rest = sparse_from(times, start, i + 1, target + interval, interval, left - 1);
                let r = seq![i] + rest;
                assert(sparse_from(times, start, i, target, interval, left) == r);
                assert forall|k: int, j: int|
                    #![trigger r[k], times[j]]
                    0 <= k < r.len() && i <= j < r[k] && (k == 0 || r[k - 1] < j)
                        && times[j] is Some implies elapsed_hours(start, times[j]->0) < target + k
                    * interval by {
                    assert(k >= 1);
                    assert(r[k] == rest[k - 1]);
                    if k >= 2 {
                        assert(r[k - 1] == rest[k - 2]);
                    }
                    assert(rest[k - 1] == r[k]);
                    assert(target + interval + (k - 1) * interval == target + k * interval)
                        by (nonlinear_arith);
                }
            } else {
                lemma_sparse_first_past_target(times, start, i + 1, target, interval, left);
                lemma_sparse_from(times, start, i + 1, target, interval, left);
                let r = sparse_from(times, start, i + 1, target, interval, left);
                assert(sparse_from(times, start, i, target, interval, left) == r);
                assert forall|k: int, j: int|
                    #![trigger r[k], times[j]]
                    0 <= k < r.len() && i <= j < r[k] && (k == 0 || r[k - 1] < j)
                        && times[j] is Some implies elapsed_hours(start, times[j]->0) < target + k
                    * interval by {
                    if j == i {
                        assert(k == 0);
                    }
                }
            },
            None => {
                lemma_sparse_first_past_target(times, start, i + 1, target, interval, left);
                let r = sparse_from(times, start, i + 1, target, interval, left);
                assert(sparse_from(times, start, i, target, interval, left) == r);
                assert forall|k: int, j: int|
                    #![trigger r[k], times[j]]
                    0 <= k < r.len() && i <= j < r[k] && (k == 0 || r[k - 1] < j)
                        && times[j] is Some implies elapsed_hours(start, times[j]->0) < target + k
                    * interval by {
                    if j == i {
                        assert(times[j] is None);
                    }
                }
            },
        }
    }
}

/// The extended forecast's picks: at most `max_entries`, in rising order,
/// never the first entry, each of an entry whose timestamp parses, and the
/// `k`-th (from zero) at least `(k + 1) * interval` hours after the first
/// entry: targets advance by `interval` from the previous target, whatever
/// time the previous pick had.
pub proof fn lemma_sparse_shape(times: Seq<Option<(int, int)>>, max_entries: int, interval: int)
    ensures
        ({
            let r = sparse_indices(times, max_entries, interval);
            &&& r.len() <= if max_entries > 0 { max_entries } else { 0 }
            &&& forall|k: int| 0 <= k < r.len() ==> 1 <= #[trigger] r[k] < times.len()
            &&& forall|k: int| 0 <= k < r.len() ==> (#[trigger] times[r[k]]) is Some
            &&& forall|k: int|
                0 <= k < r.len() ==> elapsed_hours(times[0]->0, (#[trigger] times[r[k]])->0) >= (k
                    + 1) * interval
            &&& forall|k: int, l: int| 0 <= k < l < r.len() ==> r[k] < r[l]
        }),
{
    if times.len() > 0 {
        if let Some(s) = times[0] {
            lemma_sparse_from(times, s, 1, interval, interval, max_entries);
            let r = sparse_indices(times, max_entries, interval);
            assert forall|k: int| 0 <= k < r.len() implies elapsed_hours(
                times[0]->0,
                (#[trigger] times[r[k]])->0,
            ) >= (k + 1) * interval by {
                assert(interval + k * interval == (k + 1) * interval) by (nonlinear_arith);
            }
        }
    }
}

/// The hourly forecast shows entries `1..=hours` in order, one cell each: with
/// more than `hours` entries exactly `hours` cells, the `k`-th (from zero)
/// labelled with the hour of entry `k + 1`, or with "?" where that entry's
/// timestamp is malformed.
pub proof fn lemma_dense_shape(es: Seq<Entry>, hours: int, format: TempFormat)
    requires
        hours >= 0,
    ensures
        ({
            let r = dense_labels(es, hours, format);
            &&& es.len() > hours ==> r.len() == hours
            &&& r.len() <= hours
            &&& forall|k: int|
                0 <= k < r.len() ==> #[trigger] r[k] == hour_label(time_of(es[k + 1])) + ":00 "@
                    + icon_temp(es[k + 1], format)
            &&& forall|k: int|
                0 <= k < r.len() && ascii_prefix(time_of(es[k + 1]), 13) && is_digit(
                    time_of(es[k + 1])[11],
                ) && is_digit(time_of(es[k + 1])[12]) ==> hour_label(
                    #[trigger] time_of(es[k + 1]),
                ) == time_of(es[k + 1]).subrange(11, 13)
            &&& forall|k: int|
                0 <= k < r.len() && !ascii_prefix(time_of(es[k + 1]), 13) ==> hour_label(
                    #[trigger] time_of(es[k + 1]),
                ) == "?"@
        }),
{
}

/// The extended forecast's `k`-th pick (from zero) is the first entry with
/// an instant at least `(k + 1) * interval` hours after the first entry: any
/// entry with an instant between the previous pick and it lies short of that.
#[verifier::spinoff_prover]
pub proof fn lemma_sparse_first_pick(times: Seq<Option<(int, int)>>, max_entries: int, interval: int)
    ensures
        ({
            let r = sparse_indices(times, max_entries, interval);
            forall|k: int, j: int|
                #![trigger r[k], times[j]]
                0 <= k < r.len() && 1 <= j < r[k] && (k == 0 || r[k - 1] < j) && times[j] is Some
                    ==> elapsed_hours(times[0]->0, times[j]->0) < (k + 1) * interval
        }),
{
    if times.len() > 0 {
        if let Some(s) = times[0] {
            lemma_sparse_first_past_target(times, s, 1, interval, interval, max_entries);
            let r = sparse_indices(times, max_entries, interval);
            assert forall|k: int, j: int|
                #![trigger r[k], times[j]]
                0 <= k < r.len() && 1 <= j < r[k] && (k == 0 || r[k - 1] < j) && times[j] is Some
                    implies elapsed_hours(times[0]->0, times[j]->0) < (k + 1) * interval by {
                assert(interval + k * interval == (k + 1) * interval) by (nonlinear_arith);
            }
        }
    }
}

} // verus!
