//! What holds of the schedule across inputs and calls.

use vstd::prelude::*;
use crate::date::{Date, Moment, key_of};
use crate::table::{CorruptTable, Records, csv_records, trimmed};
use crate::blocks::{
    Day, BlockStatus, TablesView, calendar_lookup, code_day, is_known_code, is_keyed, day_ordinal,
    periods_of, trim_blank_tail, status_of, block_of, first_special, specials_of,
};
use crate::alter::{AlterState, apply_row, position_text, unsigned_part, is_exempt, blank_marker};
use crate::stat::{Stat, stat_result, counts, ped_count, schedule_of, lemma_passed_bound, lemma_ped_remaining_bound};

verus! {

proof fn lemma_lookup_unlisted(rows: Records, key: Seq<char>)
    requires
        forall|i: int| 0 <= i < rows.len() ==> (#[trigger] rows[i]) is Some && !is_keyed(rows[i], key),
    ensures
        calendar_lookup(rows, key) == Ok::<Option<Day>, CorruptTable>(None),
    decreases rows.len(),
{
    if rows.len() > 0 {
        assert(rows[0] is Some && !is_keyed(rows[0], key));
        assert forall|i: int| 0 <= i < rows.drop_first().len() implies (#[trigger] rows.drop_first()[i]) is Some
            && !is_keyed(rows.drop_first()[i], key) by {
            assert(rows.drop_first()[i] == rows[i + 1]);
        }
        lemma_lookup_unlisted(rows.drop_first(), key);
    }
}

proof fn lemma_lookup_first_keyed(rows: Records, key: Seq<char>, k: int)
    requires
        0 <= k < rows.len(),
        forall|i: int| 0 <= i < k ==> (#[trigger] rows[i]) is Some && !is_keyed(rows[i], key),
        is_keyed(rows[k], key),
        rows[k].unwrap().len() >= 2,
    ensures
        calendar_lookup(rows, key) == Ok::<Option<Day>, CorruptTable>(Some(code_day(trimmed(rows[k].unwrap()[1])))),
    decreases k,
{
    if k > 0 {
        assert(rows[0] is Some && !is_keyed(rows[0], key));
        assert forall|i: int| 0 <= i < k - 1 implies (#[trigger] rows.drop_first()[i]) is Some
            && !is_keyed(rows.drop_first()[i], key) by {
            assert(rows.drop_first()[i] == rows[i + 1]);
        }
        lemma_lookup_first_keyed(rows.drop_first(), key, k - 1);
    }
}

/// A date that no row of a readable calendar lists has no category.
pub proof fn law_unlisted_date_has_no_day(date: Date, sched_data: Seq<char>)
    requires
        forall|i: int| 0 <= i < csv_records(sched_data).len() ==> (#[trigger] csv_records(sched_data)[i]) is Some,
        forall|i: int| 0 <= i < csv_records(sched_data).len() ==> !is_keyed(#[trigger] csv_records(sched_data)[i], key_of(date)),
    ensures
        calendar_lookup(csv_records(sched_data), key_of(date)) == Ok::<Option<Day>, CorruptTable>(None),
{
    lemma_lookup_unlisted(csv_records(sched_data), key_of(date));
}

/// A date whose first row carries a code outside the known ones is `Unknown`.
pub proof fn law_unknown_code_is_unknown(date: Date, sched_data: Seq<char>, k: int)
    requires
        0 <= k < csv_records(sched_data).len(),
        forall|i: int| 0 <= i < k ==> (#[trigger] csv_records(sched_data)[i]) is Some
            && !is_keyed(csv_records(sched_data)[i], key_of(date)),
        is_keyed(csv_records(sched_data)[k], key_of(date)),
        csv_records(sched_data)[k].unwrap().len() >= 2,
        !is_known_code(trimmed(csv_records(sched_data)[k].unwrap()[1])),
    ensures
        calendar_lookup(csv_records(sched_data), key_of(date)) == Ok::<Option<Day>, CorruptTable>(Some(Day::Unknown)),
{
    lemma_lookup_first_keyed(csv_records(sched_data), key_of(date), k);
}

/// A day without classes has no periods.
pub proof fn law_no_periods_without_classes(d: Day, sched_classes: Seq<char>)
    requires
        day_ordinal(d) is None,
    ensures
        periods_of(d, csv_records(sched_classes)) == Ok::<Option<Seq<Seq<char>>>, CorruptTable>(None),
{
}

proof fn lemma_trim_blank_tail(cells: Seq<Seq<char>>)
    ensures
        trim_blank_tail(cells).len() <= cells.len(),
        trim_blank_tail(cells) == cells.take(trim_blank_tail(cells).len() as int),
        forall|j: int| trim_blank_tail(cells).len() <= j < cells.len() ==> (#[trigger] cells[j]).len() == 0,
        trim_blank_tail(cells).len() > 0 ==> trim_blank_tail(cells).last().len() > 0,
        (exists|j: int| 0 <= j < cells.len() && (#[trigger] cells[j]).len() > 0) ==> trim_blank_tail(cells).len() > 0,
    decreases cells.len(),
{
    if cells.len() > 0 && cells.last().len() == 0 {
        let rest = cells.drop_last();
        lemma_trim_blank_tail(rest);
        let n = trim_blank_tail(rest).len() as int;
        assert(cells.take(n) =~= rest.take(n));
        assert forall|j: int| n <= j < cells.len() implies (#[trigger] cells[j]).len() == 0 by {
            if j < cells.len() - 1 {
                assert(cells[j] == rest[j]);
            }
        }
        if exists|j: int| 0 <= j < cells.len() && (#[trigger] cells[j]).len() > 0 {
            let j = choose|j: int| 0 <= j < cells.len() && (#[trigger] cells[j]).len() > 0;
            assert(rest[j] == cells[j]);
        }
    } else {
        assert(cells.take(cells.len() as int) =~= cells);
    }
}

/// A school day's periods are its template row with only the trailing empty
/// cells removed: a prefix of the row, kept cell for cell, ending in a
/// non-empty cell, and non-empty whenever the row has a non-empty cell.
pub proof fn law_periods_trim_only_the_tail(d: Day, sched_classes: Seq<char>)
    requires
        day_ordinal(d) is Some,
        day_ordinal(d).unwrap() < csv_records(sched_classes).len(),
        csv_records(sched_classes)[day_ordinal(d).unwrap()] is Some,
    ensures
        ({
            let row = csv_records(sched_classes)[day_ordinal(d).unwrap()].unwrap();
            periods_of(d, csv_records(sched_classes)) matches Ok(Some(p)) && p.len() <= row.len()
                && p == row.take(p.len() as int)
                && (forall|j: int| p.len() <= j < row.len() ==> (#[trigger] row[j]).len() == 0)
                && (p.len() > 0 ==> p.last().len() > 0)
                && ((exists|j: int| 0 <= j < row.len() && (#[trigger] row[j]).len() > 0) ==> p.len() > 0)
        }),
{
    let row = csv_records(sched_classes)[day_ordinal(d).unwrap()].unwrap();
    lemma_trim_blank_tail(row);
}

/// A substitution at an in-range position changes only that slot, which it
/// marks for emphasis; the number of periods is unchanged.
pub proof fn law_substitution_changes_one_slot(st: AlterState, f: Seq<Seq<char>>, p: nat)
    requires
        f.len() > 1,
        position_text(f[1]) == Some(p),
        1 <= p <= st.classes.len(),
    ensures
        apply_row(st, f).classes.len() == st.classes.len(),
        apply_row(st, f).classes[p - 1] == (if f.len() > 2 { f[2] } else { Seq::empty() }, true),
        forall|j: int| 0 <= j < st.classes.len() && j != p - 1 ==> #[trigger] apply_row(st, f).classes[j] == st.classes[j],
        apply_row(st, f).ctd == st.ctd,
        apply_row(st, f).ctdcolor == st.ctdcolor,
{
}

/// A production-week directive keeps Chant, Instro and Lunch as they are and
/// blanks every other period.
pub proof fn law_production_week_blanks_the_rest(st: AlterState, f: Seq<Seq<char>>)
    requires
        f.len() > 2,
        f[1] == "CTD"@,
        f[2] == "ProductionWeek"@,
    ensures
        apply_row(st, f).classes.len() == st.classes.len(),
        forall|j: int| 0 <= j < st.classes.len() && is_exempt(st.classes[j].0) ==> #[trigger] apply_row(st, f).classes[j] == st.classes[j],
        forall|j: int| 0 <= j < st.classes.len() && !is_exempt(st.classes[j].0) ==> #[trigger] apply_row(st, f).classes[j] == (blank_marker(), false),
{
    reveal_strlit("CTD");
    assert(!crate::alter::all_digits(unsigned_part(f[1])) || unsigned_part(f[1]).len() == 0) by {
        assert(unsigned_part(f[1]) == f[1]);
        assert(!crate::alter::is_digit(f[1][0]));
    }
    assert(position_text(f[1]) is None);
}

/// The rank of a status in the course of a day.
pub open spec fn status_rank(s: BlockStatus) -> int {
    match s {
        BlockStatus::NotStarted => 0,
        BlockStatus::Normal => 1,
        BlockStatus::IsOver => 2,
    }
}

/// Over one day, the status of today's block never goes back: a later hour
/// never gives an earlier status.
pub proof fn law_status_is_monotonic(day: Option<Day>, dt1: Moment, dt2: Moment, now: Moment)
    requires
        dt1.date == now.date,
        dt2.date == now.date,
        dt1.hour <= dt2.hour,
    ensures
        status_rank(status_of(day, dt1, now)) <= status_rank(status_of(day, dt2, now)),
{
}

/// On a school day that is today, the block has not started before 8:00, is
/// over from 16:00 on (13:00 on a half day), and is in progress between.
pub proof fn law_status_thresholds(d: Day, dt: Moment, now: Moment)
    requires
        dt.date == now.date,
        day_ordinal(d) is Some,
    ensures
        dt.hour < 8 ==> status_of(Some(d), dt, now) == BlockStatus::NotStarted,
        8 <= dt.hour < (if d == Day::Day9 { 13int } else { 16int }) ==> status_of(Some(d), dt, now) == BlockStatus::Normal,
        dt.hour >= (if d == Day::Day9 { 13int } else { 16int }) ==> status_of(Some(d), dt, now) == BlockStatus::IsOver,
{
}

/// A date whose first special is `CANCEL` shows no periods and the label
/// "CANCELLED", whatever its category and overrides.
pub proof fn law_cancel_clears_the_day(dt: Moment, now: Moment, title: Seq<char>, t: TablesView, pick: int)
    requires
        first_special(specials_of(t.special, key_of(dt.date))) == Some("CANCEL"@),
    ensures
        block_of(dt, now, title, t, pick) matches Ok(b) ==> b.classes is None && b.day_str == "CANCELLED"@,
{
}

/// The days remaining and the days passed make up all the counted days; the
/// ped days and holidays past and remaining make up all of them.
pub proof fn law_stat_counts_add_up(now: Date, sched_data: Seq<char>, r: Result<Stat, CorruptTable>)
    requires
        stat_result(r, now, sched_data),
    ensures
        r matches Ok(s) ==> schedule_of(csv_records(sched_data)) matches Ok(days)
            && s.days_rem + s.days_passed == s.days_total
            && s.days_total == days.len()
            && s.ped_past + s.ped_rem == ped_count(days),
{
    if let Ok(days) = schedule_of(csv_records(sched_data)) {
        lemma_passed_bound(days, now);
        lemma_ped_remaining_bound(days, now);
    }
}

/// The statistics are a function of the reference date and the calendar: two
/// computations on the same inputs agree.
pub proof fn law_stat_is_idempotent(now: Date, sched_data: Seq<char>, r1: Result<Stat, CorruptTable>, r2: Result<Stat, CorruptTable>)
    requires
        stat_result(r1, now, sched_data),
        stat_result(r2, now, sched_data),
    ensures
        r1 is Ok <==> r2 is Ok,
        r1 matches Ok(s1) ==> (r2 matches Ok(s2) && counts(s1) == counts(s2) && s1.days_rem_pct@ == s2.days_rem_pct@),
        r1 matches Err(e1) ==> r2 == Err::<Stat, CorruptTable>(e1),
{
}

} // verus!
