//! Counts over the whole calendar relative to a reference date.

use vstd::prelude::*;
use crate::date::{Date, parsed};
use crate::table::{CorruptTable, Records, csv_records, trimmed, read_records, trim, text_is};

verus! {

/// A counted day of the calendar: its date and whether it is a ped day or a
/// holiday.
#[derive(Clone, Copy, Debug, PartialEq, Eq, Structural)]
pub struct MiniDay {
    pub date: Date,
    pub is_ped_etc: bool,
}

/// Counts over the calendar relative to a reference date.
#[derive(Clone, Debug)]
pub struct Stat {
    /// Days of the calendar, weekends left out.
    pub days_total: usize,
    /// Days up to the reference date.
    pub days_passed: usize,
    /// Days after it.
    pub days_rem: usize,
    /// `days_rem` as a percentage of `days_total`, with three decimals.
    pub days_rem_pct: String,
    /// Ped days and holidays after the reference date.
    pub ped_rem: usize,
    /// Ped days and holidays up to it.
    pub ped_past: usize,
}

/// The counted days of the calendar in table order: every row but weekends.
/// A rejected record, a row without a code, or a counted row whose date does
/// not read makes the calendar corrupt.
pub open spec fn schedule_of(rows: Records) -> Result<Seq<MiniDay>, CorruptTable>
    decreases rows.len(),
{
    if rows.len() == 0 {
        Ok(Seq::empty())
    } else {
        match schedule_of(rows.drop_last()) {
            Err(e) => Err(e),
            Ok(s) => match rows.last() {
                None => Err(CorruptTable::Calendar),
                Some(f) => if f.len() == 0 {
                    Ok(s)
                } else if f.len() < 2 {
                    Err(CorruptTable::Calendar)
                } else if trimmed(f[1]) == "W"@ {
                    Ok(s)
                } else {
                    match parsed(f[0], "%d-%m-%Y"@) {
                        None => Err(CorruptTable::Calendar),
                        Some(d) => Ok(s.push(MiniDay { date: d, is_ped_etc: trimmed(f[1]) == "P"@ || trimmed(f[1]) == "C"@ })),
                    }
                },
            },
        }
    }
}

/// The days passed: the leading run of days not after `r`.
pub open spec fn passed_count(days: Seq<MiniDay>, r: Date) -> nat
    decreases days.len(),
{
    if days.len() == 0 {
        0
    } else {
        let p = passed_count(days.drop_last(), r);
        if p == days.len() - 1 && !days.last().date.spec_after(r) { p + 1 } else { p }
    }
}

/// The ped days and holidays among `days`.
pub open spec fn ped_count(days: Seq<MiniDay>) -> nat
    decreases days.len(),
{
    if days.len() == 0 {
        0
    } else {
        ped_count(days.drop_last()) + if days.last().is_ped_etc { 1nat } else { 0nat }
    }
}

/// The ped days and holidays that remain: those from the first day after `r`
/// on.
pub open spec fn ped_remaining(days: Seq<MiniDay>, r: Date) -> nat
    decreases days.len(),
{
    if days.len() == 0 {
        0
    } else {
        ped_remaining(days.drop_last(), r) + if passed_count(days, r) < days.len() && days.last().is_ped_etc {
            1nat
        } else {
            0nat
        }
    }
}

/// A percentage `part / whole * 100` in thousandths, rounded half up; zero
/// for an empty whole.
pub open spec fn pct_thousandths(part: nat, whole: nat) -> nat {
    if whole == 0 { 0 } else { (part * 100000 + whole / 2) / whole }
}

pub open spec fn digit_char(d: nat) -> char {
    if d == 0 { '0' } else if d == 1 { '1' } else if d == 2 { '2' } else if d == 3 { '3' }
    else if d == 4 { '4' } else if d == 5 { '5' } else if d == 6 { '6' } else if d == 7 { '7' }
    else if d == 8 { '8' } else { '9' }
}

/// `n` in decimal, without leading zeros.
pub open spec fn decimal_text(n: nat) -> Seq<char>
    decreases n,
{
    if n < 10 { seq![digit_char(n)] } else { decimal_text(n / 10).push(digit_char(n % 10)) }
}

/// `t` thousandths written with three decimals, as in `42.500`.
pub open spec fn thousandths_text(t: nat) -> Seq<char> {
    decimal_text(t / 1000) + seq!['.', digit_char((t / 100) % 10), digit_char((t / 10) % 10), digit_char(t % 10)]
}

/// The counts over `days` relative to `r`.
pub open spec fn stat_of(days: Seq<MiniDay>, r: Date) -> (nat, nat, nat, nat, nat) {
    let passed = passed_count(days, r);
    let rem = (days.len() - passed) as nat;
    let ped_rem = ped_remaining(days, r);
    (days.len(), passed, rem, ped_rem, (ped_count(days) - ped_rem) as nat)
}

/// A corrupt prefix makes the whole calendar corrupt.
proof fn lemma_schedule_err_extends(rows: Records, k: int)
    requires
        0 <= k <= rows.len(),
        schedule_of(rows.take(k)) == Err::<Seq<MiniDay>, CorruptTable>(CorruptTable::Calendar),
    ensures
        schedule_of(rows) == Err::<Seq<MiniDay>, CorruptTable>(CorruptTable::Calendar),
    decreases rows.len(),
{
    if rows.len() == k {
        assert(rows.take(k) =~= rows);
    } else {
        assert(rows.drop_last().take(k) =~= rows.take(k));
        lemma_schedule_err_extends(rows.drop_last(), k);
    }
}

pub proof fn lemma_passed_bound(days: Seq<MiniDay>, r: Date)
    ensures
        passed_count(days, r) <= days.len(),
    decreases days.len(),
{
    if days.len() > 0 {
        lemma_passed_bound(days.drop_last(), r);
    }
}

pub proof fn lemma_ped_remaining_bound(days: Seq<MiniDay>, r: Date)
    ensures
        ped_remaining(days, r) <= ped_count(days),
        ped_count(days) <= days.len(),
    decreases days.len(),
{
    if days.len() > 0 {
        lemma_ped_remaining_bound(days.drop_last(), r);
    }
}

/// The character of the decimal digit `d`.
fn digit_text(d: u64) -> (r: &'static str)
    requires
        d < 10,
    ensures
        r@ == seq![digit_char(d as nat)],
{
    proof {
        reveal_strlit("0");
        reveal_strlit("1");
        reveal_strlit("2");
        reveal_strlit("3");
        reveal_strlit("4");
        reveal_strlit("5");
        reveal_strlit("6");
        reveal_strlit("7");
        reveal_strlit("8");
        reveal_strlit("9");
    }
    let r = if d == 0 { "0" } else if d == 1 { "1" } else if d == 2 { "2" } else if d == 3 { "3" }
    else if d == 4 { "4" } else if d == 5 { "5" } else if d == 6 { "6" } else if d == 7 { "7" }
    else if d == 8 { "8" } else { "9" };
    assert(r@ =~= seq![digit_char(d as nat)]);
    r
}

/// `t` thousandths written with three decimals.
pub fn format_thousandths(t: u64) -> (r: String)
    requires
        t < 1000000,
    ensures
        r@ == thousandths_text(t as nat),
{
    let whole = t / 1000;
    let mut s = String::new();
    proof {
        reveal_strlit(".");
    }
    if whole >= 100 {
        s.append(digit_text(whole / 100));
        s.append(digit_text((whole / 10) % 10));
        s.append(digit_text(whole % 10));
        proof {
            let w = whole as nat;
            assert(decimal_text(w) == decimal_text(w / 10).push(digit_char(w % 10)));
            assert(decimal_text(w / 10) == decimal_text(w / 10 / 10).push(digit_char((w / 10) % 10)));
            assert(w / 10 / 10 == w / 100);
            assert(decimal_text(w / 100) == seq![digit_char(w / 100)]);
            assert(s@ =~= decimal_text(w));
        }
    } else if whole >= 10 {
        s.append(digit_text(whole / 10));
        s.append(digit_text(whole % 10));
        proof {
            let w = whole as nat;
            assert(decimal_text(w) == decimal_text(w / 10).push(digit_char(w % 10)));
            assert(decimal_text(w / 10) == seq![digit_char(w / 10)]);
            assert(s@ =~= decimal_text(w));
        }
    } else {
        s.append(digit_text(whole));
    }
    let ghost int_part = s@;
    assert(int_part =~= decimal_text(whole as nat));
    s.append(".");
    s.append(digit_text((t / 100) % 10));
    s.append(digit_text((t / 10) % 10));
    s.append(digit_text(t % 10));
    assert(s@ =~= thousandths_text(t as nat));
    s
}

/// `part` as a percentage of `whole`, with three decimals, rounded half up;
/// `0.000` when `whole` is zero.
pub fn percent_text(part: usize, whole: usize) -> (r: String)
    requires
        part <= whole,
    ensures
        r@ == thousandths_text(pct_thousandths(part as nat, whole as nat)),
{
    if whole == 0 {
        return format_thousandths(0);
    }
    let p = part as u128;
    let w = whole as u128;
    proof {
        assert(p * 100000 <= w * 100000) by (nonlinear_arith)
            requires p <= w;
        assert(w * 100000 + w / 2 < w * 100001) by (nonlinear_arith)
            requires w > 0;
    }
    let t = (p * 100000 + w / 2) / w;
    proof {
        let num: int = p * 100000 + w / 2;
        assert(num / (w as int) <= 100000) by (nonlinear_arith)
            requires p <= w, w > 0, num < w * 100001;
    }
    format_thousandths(t as u64)
}

/// The counted days of the calendar `rows` in table order.
pub fn schedule_in_records(rows: &Vec<Option<Vec<String>>>) -> (r: Result<Vec<MiniDay>, CorruptTable>)
    ensures
        match r {
            Ok(v) => schedule_of(rows.deep_view()) == Ok::<Seq<MiniDay>, CorruptTable>(v@),
            Err(e) => schedule_of(rows.deep_view()) == Err::<Seq<MiniDay>, CorruptTable>(e),
        },
{
    let ghost all = rows.deep_view();
    let mut days: Vec<MiniDay> = Vec::new();
    let mut i: usize = 0;
    assert(all.take(0) =~= Seq::<Option<Seq<Seq<char>>>>::empty());
    while i < rows.len()
        invariant
            i <= rows.len(),
            all == rows.deep_view(),
            schedule_of(all.take(i as int)) == Ok::<Seq<MiniDay>, CorruptTable>(days@),
        decreases rows.len() - i,
    {
        proof {
            assert(all.take(i + 1).drop_last() =~= all.take(i as int));
        }
        match &rows[i] {
            None => {
                proof {
                    lemma_schedule_err_extends(all, i + 1);
                }
                return Err(CorruptTable::Calendar);
            },
            Some(f) => {
                if f.len() > 0 {
                    if f.len() < 2 {
                        proof {
                            lemma_schedule_err_extends(all, i + 1);
                        }
                        return Err(CorruptTable::Calendar);
                    }
                    let code = trim(f[1].as_str());
                    if !text_is(&code, "W") {
                        match Date::from_key(f[0].as_str()) {
                            None => {
                                proof {
                                    lemma_schedule_err_extends(all, i + 1);
                                }
                                return Err(CorruptTable::Calendar);
                            },
                            Some(d) => {
                                let ped = text_is(&code, "P") || text_is(&code, "C");
                                days.push(MiniDay { date: d, is_ped_etc: ped });
                            },
                        }
                    }
                }
            },
        }
        i = i + 1;
    }
    assert(all.take(i as int) =~= all);
    Ok(days)
}

/// The counts over `days` relative to `now`.
pub fn stat_of_days(days: &Vec<MiniDay>, now: &Date) -> (r: Stat)
    ensures
        counts(r) == stat_of(days@, *now),
        r.days_rem_pct@ == thousandths_text(pct_thousandths(r.days_rem as nat, r.days_total as nat)),
{
    let ghost all = days@;
    let mut days_passed: usize = 0;
    let mut ped_count_now: usize = 0;
    let mut ped_rem: usize = 0;
    let mut future = false;
    let mut i: usize = 0;
    assert(all.take(0) =~= Seq::<MiniDay>::empty());
    while i < days.len()
        invariant
            i <= days.len(),
            all == days@,
            days_passed == passed_count(all.take(i as int), *now),
            ped_count_now == ped_count(all.take(i as int)),
            ped_rem == ped_remaining(all.take(i as int), *now),
            future == (days_passed < i),
            days_passed <= i,
            ped_count_now <= i,
            ped_rem <= i,
        decreases days.len() - i,
    {
        proof {
            assert(all.take(i + 1).drop_last() =~= all.take(i as int));
            assert(all.take(i + 1).last() == all[i as int]);
        }
        let day = days[i];
        if day.is_ped_etc {
            ped_count_now = ped_count_now + 1;
        }
        if !future {
            if day.date.is_after(now) {
                future = true;
                if day.is_ped_etc {
                    ped_rem = ped_rem + 1;
                }
            } else {
                days_passed = days_passed + 1;
            }
        } else if day.is_ped_etc {
            ped_rem = ped_rem + 1;
        }
        i = i + 1;
    }
    assert(all.take(i as int) =~= all);
    proof {
        lemma_passed_bound(all, *now);
        lemma_ped_remaining_bound(all, *now);
    }
    let days_total = days.len();
    let days_rem = days_total - days_passed;
    Stat {
        days_total,
        days_passed,
        days_rem,
        days_rem_pct: percent_text(days_rem, days_total),
        ped_rem,
        ped_past: ped_count_now - ped_rem,
    }
}

/// The counts of `s`, in the order of [`stat_of`].
pub open spec fn counts(s: Stat) -> (nat, nat, nat, nat, nat) {
    (s.days_total as nat, s.days_passed as nat, s.days_rem as nat, s.ped_rem as nat, s.ped_past as nat)
}

/// Whether `r` is what the calendar `sched_data` gives relative to `now`.
pub open spec fn stat_result(r: Result<Stat, CorruptTable>, now: Date, sched_data: Seq<char>) -> bool {
    match schedule_of(csv_records(sched_data)) {
        Ok(days) => r matches Ok(s) && counts(s) == stat_of(days, now)
            && s.days_rem_pct@ == thousandths_text(pct_thousandths(s.days_rem as nat, s.days_total as nat)),
        Err(e) => r == Err::<Stat, CorruptTable>(e),
    }
}

/// The counts over the calendar `sched_data` relative to `now`: weekends are
/// left out; the days up to the first one after `now` have passed, and the
/// ped days and holidays from that one on remain.
pub fn generate_stat(now: &Date, sched_data: &str) -> (r: Result<Stat, CorruptTable>)
    ensures
        stat_result(r, *now, sched_data@),
{
    let rows = read_records(sched_data);
    match schedule_in_records(&rows) {
        Err(e) => Err(e),
        Ok(days) => Ok(stat_of_days(&days, now)),
    }
}

} // verus!
