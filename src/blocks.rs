//! Rotation days, their periods and specials, and the display block of a date.

use vstd::prelude::*;
use crate::date::{Date, Moment, key_of, display_of};
use crate::alter::{LookupAlter, alter_of, render_all};
use crate::table::{CorruptTable, Records, csv_records, trimmed, read_records, trim, text_is};

verus! {

/// The category of a school day.
#[derive(Clone, Copy, Debug, PartialEq, Eq, Structural)]
pub enum Day {
    Day1,
    Day2,
    Day3,
    Day4,
    Day5,
    Day6,
    Day7,
    Day8,
    /// A half day.
    Day9,
    /// A pedagogical day: a business day without classes.
    Ped,
    Holiday,
    /// A holiday left out of the count of remaining days.
    HolidayDontCount,
    Weekend,
    /// A calendar code that is not one of the known ones.
    Unknown,
}

/// The category that a calendar code stands for.
pub open spec fn code_day(c: Seq<char>) -> Day {
    if c == "1"@ { Day::Day1 }
    else if c == "2"@ { Day::Day2 }
    else if c == "3"@ { Day::Day3 }
    else if c == "4"@ { Day::Day4 }
    else if c == "5"@ { Day::Day5 }
    else if c == "6"@ { Day::Day6 }
    else if c == "7"@ { Day::Day7 }
    else if c == "8"@ { Day::Day8 }
    else if c == "9"@ { Day::Day9 }
    else if c == "P"@ { Day::Ped }
    else if c == "C"@ { Day::Holiday }
    else if c == "D"@ { Day::HolidayDontCount }
    else if c == "W"@ { Day::Weekend }
    else { Day::Unknown }
}

pub open spec fn is_known_code(c: Seq<char>) -> bool {
    c == "1"@ || c == "2"@ || c == "3"@ || c == "4"@ || c == "5"@ || c == "6"@ || c == "7"@
        || c == "8"@ || c == "9"@ || c == "P"@ || c == "C"@ || c == "D"@ || c == "W"@
}

/// The row of the period templates that holds a rotation day, if it has one.
pub open spec fn day_ordinal(d: Day) -> Option<int> {
    match d {
        Day::Day1 => Some(0),
        Day::Day2 => Some(1),
        Day::Day3 => Some(2),
        Day::Day4 => Some(3),
        Day::Day5 => Some(4),
        Day::Day6 => Some(5),
        Day::Day7 => Some(6),
        Day::Day8 => Some(7),
        Day::Day9 => Some(8),
        _ => None,
    }
}

/// The category that the calendar gives the date keyed `key`: the code of the
/// first row with that key, or none where no row has it. A rejected record
/// before that row, or a row without a code, makes the calendar corrupt.
pub open spec fn calendar_lookup(rows: Records, key: Seq<char>) -> Result<Option<Day>, CorruptTable>
    decreases rows.len(),
{
    if rows.len() == 0 {
        Ok(None)
    } else {
        match rows[0] {
            None => Err(CorruptTable::Calendar),
            Some(f) => if f.len() > 0 && f[0] == key {
                if f.len() < 2 {
                    Err(CorruptTable::Calendar)
                } else {
                    Ok(Some(code_day(trimmed(f[1]))))
                }
            } else {
                calendar_lookup(rows.drop_first(), key)
            },
        }
    }
}

/// `cells` without its trailing empty cells.
pub open spec fn trim_blank_tail(cells: Seq<Seq<char>>) -> Seq<Seq<char>>
    decreases cells.len(),
{
    if cells.len() > 0 && cells.last().len() == 0 {
        trim_blank_tail(cells.drop_last())
    } else {
        cells
    }
}

/// The periods of `d`: none for a day without classes, else the row of its
/// ordinal in the templates, without trailing empty cells.
pub open spec fn periods_of(d: Day, rows: Records) -> Result<Option<Seq<Seq<char>>>, CorruptTable> {
    match day_ordinal(d) {
        None => Ok(None),
        Some(n) => if n < rows.len() && rows[n] is Some {
            Ok(Some(trim_blank_tail(rows[n].unwrap())))
        } else {
            Err(CorruptTable::Periods)
        },
    }
}

/// The labels of every row keyed `key` that has a label, in table order.
pub open spec fn specials_in(rows: Records, key: Seq<char>) -> Seq<Seq<char>>
    decreases rows.len(),
{
    if rows.len() == 0 {
        Seq::empty()
    } else {
        let rest = specials_in(rows.drop_last(), key);
        match rows.last() {
            Some(f) => if f.len() >= 2 && f[0] == key {
                rest.push(f[1])
            } else {
                rest
            },
            None => rest,
        }
    }
}

/// The specials of the date keyed `key`, where the table can be read and
/// lists any.
pub open spec fn specials_of(table: Option<Seq<char>>, key: Seq<char>) -> Option<Seq<Seq<char>>> {
    match table {
        None => None,
        Some(t) => {
            let s = specials_in(csv_records(t), key);
            if s.len() > 0 { Some(s) } else { None }
        },
    }
}

/// Whether a record is keyed `key`.
pub open spec fn is_keyed(row: Option<Seq<Seq<char>>>, key: Seq<char>) -> bool {
    match row {
        Some(f) => f.len() > 0 && f[0] == key,
        None => false,
    }
}

/// Whether some row of the table is keyed `key`.
pub open spec fn lists_key(rows: Records, key: Seq<char>) -> bool {
    exists|i: int| 0 <= i < rows.len() && is_keyed(#[trigger] rows[i], key)
}

pub open spec fn day_label(d: Option<Day>) -> Seq<char> {
    match d {
        Some(Day::Day1) => "Day 1"@,
        Some(Day::Day2) => "Day 2"@,
        Some(Day::Day3) => "Day 3"@,
        Some(Day::Day4) => "Day 4"@,
        Some(Day::Day5) => "Day 5"@,
        Some(Day::Day6) => "Day 6"@,
        Some(Day::Day7) => "Day 7"@,
        Some(Day::Day8) => "Day 8"@,
        Some(Day::Day9) => "Day 9 (half day!)"@,
        Some(Day::Ped) => "a Ped Day"@,
        Some(Day::Holiday) => "a Holiday of Some Sort, idk look it up in the calendar"@,
        Some(Day::HolidayDontCount) => "a Holiday of Some Sort, idk look it up in the calendar"@,
        Some(Day::Weekend) => "the weekend"@,
        Some(Day::Unknown) => "unknown ???"@,
        None => "no day (this is probably an error!!)"@,
    }
}

pub open spec fn day_color(d: Day) -> Seq<char> {
    match d {
        Day::Day1 => "#ad253e"@,
        Day::Day2 => "#6a4823"@,
        Day::Day3 => "#296a33"@,
        Day::Day4 => "#2f6a5f"@,
        Day::Day5 => "#29556a"@,
        Day::Day6 => "#3d386a"@,
        Day::Day7 => "#6a3a62"@,
        Day::Day8 => "#79141e"@,
        Day::Day9 => "#56617a"@,
        Day::Ped => "#549ac6"@,
        Day::Holiday => "#c68252"@,
        Day::HolidayDontCount => "#c68252"@,
        Day::Weekend => "#2b3032"@,
        Day::Unknown => "#FF0000"@,
    }
}

/// The category that a calendar code stands for.
fn day_of_code(c: &String) -> (r: Day)
    ensures
        r == code_day(c@),
{
    if text_is(c, "1") { Day::Day1 }
    else if text_is(c, "2") { Day::Day2 }
    else if text_is(c, "3") { Day::Day3 }
    else if text_is(c, "4") { Day::Day4 }
    else if text_is(c, "5") { Day::Day5 }
    else if text_is(c, "6") { Day::Day6 }
    else if text_is(c, "7") { Day::Day7 }
    else if text_is(c, "8") { Day::Day8 }
    else if text_is(c, "9") { Day::Day9 }
    else if text_is(c, "P") { Day::Ped }
    else if text_is(c, "C") { Day::Holiday }
    else if text_is(c, "D") { Day::HolidayDontCount }
    else if text_is(c, "W") { Day::Weekend }
    else { Day::Unknown }
}

/// The row of the period templates that holds `d`, if it has one.
fn ordinal_of(d: Day) -> (r: Option<usize>)
    ensures
        match day_ordinal(d) {
            Some(n) => r == Some(n as usize),
            None => r is None,
        },
{
    match d {
        Day::Day1 => Some(0),
        Day::Day2 => Some(1),
        Day::Day3 => Some(2),
        Day::Day4 => Some(3),
        Day::Day5 => Some(4),
        Day::Day6 => Some(5),
        Day::Day7 => Some(6),
        Day::Day8 => Some(7),
        Day::Day9 => Some(8),
        _ => None,
    }
}

/// A copy of the cells of `cells` before position `end`.
fn copy_prefix(cells: &Vec<String>, end: usize) -> (r: Vec<String>)
    requires
        end <= cells.len(),
    ensures
        r.deep_view() == cells.deep_view().take(end as int),
{
    let mut out: Vec<String> = Vec::new();
    let mut j: usize = 0;
    while j < end
        invariant
            j <= end <= cells.len(),
            out@.len() == j,
            out.deep_view() =~= cells.deep_view().take(j as int),
        decreases end - j,
    {
        let c = cells[j].clone();
        out.push(c);
        proof {
            assert(out@[j as int]@ == cells@[j as int]@);
            assert(out.deep_view() =~= cells.deep_view().take(j + 1));
        }
        j = j + 1;
    }
    out
}

/// Where a school day stands at the moment of a block.
#[derive(Clone, Copy, Debug, PartialEq, Eq, Structural)]
pub enum BlockStatus {
    NotStarted,
    /// In progress, or a day for which the question does not arise.
    Normal,
    IsOver,
}

/// The tables a block is built from: the bundled calendar and period
/// templates, and the live tables of specials, overrides and flagged dates
/// (`None` where one could not be read).
#[derive(Clone, Debug)]
pub struct Tables {
    pub sched_data: String,
    pub sched_classes: String,
    pub special: Option<String>,
    pub lookup: Option<String>,
    pub online: Option<String>,
}

/// The model of [`Tables`].
pub struct TablesView {
    pub sched_data: Seq<char>,
    pub sched_classes: Seq<char>,
    pub special: Option<Seq<char>>,
    pub lookup: Option<Seq<char>>,
    pub online: Option<Seq<char>>,
}

impl View for Tables {
    type V = TablesView;

    open spec fn view(&self) -> TablesView {
        TablesView {
            sched_data: self.sched_data@,
            sched_classes: self.sched_classes@,
            special: self.special.deep_view(),
            lookup: self.lookup.deep_view(),
            online: self.online.deep_view(),
        }
    }
}

/// What is shown for one date.
#[derive(Clone, Debug)]
pub struct Block {
    /// The date, as in `Sunday, 01-Sep-2024`.
    pub date: String,
    pub title: String,
    pub bgcolorcode: String,
    pub greeting: String,
    pub day: Option<Day>,
    pub day_str: String,
    /// The periods as shown; none on a day without classes or a cancelled one.
    pub classes: Option<Vec<String>>,
    pub special: Option<Vec<String>>,
    pub status: BlockStatus,
}

/// The model of a [`Block`].
pub struct BlockView {
    pub date: Seq<char>,
    pub title: Seq<char>,
    pub bgcolorcode: Seq<char>,
    pub greeting: Seq<char>,
    pub day: Option<Day>,
    pub day_str: Seq<char>,
    pub classes: Option<Seq<Seq<char>>>,
    pub special: Option<Seq<Seq<char>>>,
    pub status: BlockStatus,
}

impl View for Block {
    type V = BlockView;

    open spec fn view(&self) -> BlockView {
        BlockView {
            date: self.date@,
            title: self.title@,
            bgcolorcode: self.bgcolorcode@,
            greeting: self.greeting@,
            day: self.day,
            day_str: self.day_str@,
            classes: self.classes.deep_view(),
            special: self.special.deep_view(),
            status: self.status,
        }
    }
}

/// The number of greetings to pick from.
pub const GREETINGS: usize = 22;

pub open spec fn greeting_text(i: int) -> Seq<char> {
    if i == 0 { "I hope you have a great day."@ }
    else if i == 1 { "I hope you have a wonderful day."@ }
    else if i == 2 { "I hope you have an incredible day."@ }
    else if i == 3 { "I hope you have an exciting day."@ }
    else if i == 4 { "I hope you have an especially pleasant day."@ }
    else if i == 5 { "I especially hope you will have a nice day."@ }
    else if i == 6 { "I especially hope you will have a pleasant day."@ }
    else if i == 7 { "I hope you will have a pleasant day."@ }
    else if i == 8 { "I hope you will have a relaxing day."@ }
    else if i == 9 { "I hope you will have an extremely fun day."@ }
    else if i == 10 { "I hope you have an awesome day."@ }
    else if i == 11 { "I hope YOU specifically will have a nice day."@ }
    else if i == 12 { "I hope you, more than anyone else, will have a great day."@ }
    else if i == 13 { "I hope you have a randomly-generated day."@ }
    else if i == 14 { "I wish you a wonderful wonderful day."@ }
    else if i == 15 { "I hope you will have a reasonably normal day."@ }
    else if i == 16 { "I hope you won't have a bad day."@ }
    else if i == 17 { "I hope you excel academically today."@ }
    else if i == 18 { "I hope you will have a very unpredictable day."@ }
    else if i == 19 { "I hope you will have a very predictable day."@ }
    else if i == 20 { "J'espère que vous passerez une journée extraordinaire."@ }
    else { "今日、がんばってね"@ }
}

/// The greeting of the block titled "Today".
pub open spec fn fixed_greeting() -> Seq<char> {
    "I hope you have a nice day."@
}

/// The greeting of a block titled `title`, with `pick` chosen from the pool.
pub open spec fn greeting_of(title: Seq<char>, pick: int) -> Seq<char> {
    if title == "Today"@ { fixed_greeting() } else { greeting_text(pick) }
}

/// Days of eight periods, over at 16:00.
pub open spec fn is_full_day(d: Day) -> bool {
    d == Day::Day1 || d == Day::Day2 || d == Day::Day3 || d == Day::Day4 || d == Day::Day5 || d == Day::Day6
        || d == Day::Day7 || d == Day::Day8
}

/// The hour at which a school day is over; none for a day without classes.
pub open spec fn closing_hour(d: Day) -> Option<int> {
    if is_full_day(d) { Some(16) } else if d == Day::Day9 { Some(13) } else { None }
}

/// Where the day of `dt` stands: only a school day that is the date of `now`
/// has started or ended, by the hour of `dt`.
pub open spec fn status_of(day: Option<Day>, dt: Moment, now: Moment) -> BlockStatus {
    if dt.date != now.date {
        BlockStatus::Normal
    } else {
        match day {
            Some(d) => match closing_hour(d) {
                Some(h) => if dt.hour < 8 {
                    BlockStatus::NotStarted
                } else if dt.hour >= h {
                    BlockStatus::IsOver
                } else {
                    BlockStatus::Normal
                },
                None => BlockStatus::Normal,
            },
            None => BlockStatus::Normal,
        }
    }
}

/// The first special of a date, if it has any.
pub open spec fn first_special(special: Option<Seq<Seq<char>>>) -> Option<Seq<char>> {
    match special {
        Some(s) => if s.len() > 0 { Some(s[0]) } else { None },
        None => None,
    }
}

/// The block of `dt`, seen at `now`, titled `title`, with the greeting
/// `pick` of the pool where a random one is shown.
pub open spec fn block_of(dt: Moment, now: Moment, title: Seq<char>, t: TablesView, pick: int) -> Result<BlockView, CorruptTable> {
    let date = dt.date;
    match calendar_lookup(csv_records(t.sched_data), key_of(date)) {
        Err(e) => Err(e),
        Ok(day) => {
            let periods = match day {
                Some(d) => periods_of(d, csv_records(t.sched_classes)),
                None => Ok(None),
            };
            match periods {
                Err(e) => Err(e),
                Ok(classes) => {
                    let special = specials_of(t.special, key_of(date));
                    if first_special(special) == Some("CANCEL"@) {
                        Ok(BlockView {
                            date: display_of(date),
                            title,
                            bgcolorcode: "#aaaaaa"@,
                            greeting: greeting_of(title, pick),
                            day,
                            day_str: "CANCELLED"@,
                            classes: None,
                            special,
                            status: BlockStatus::Normal,
                        })
                    } else if first_special(special) == Some("CANCEL_WEATHER"@) {
                        Ok(BlockView {
                            date: display_of(date),
                            title,
                            bgcolorcode: "#bf6565"@,
                            greeting: fixed_greeting(),
                            day,
                            day_str: "Snow day!"@,
                            classes: None,
                            special,
                            status: BlockStatus::Normal,
                        })
                    } else {
                        let default_color = match day {
                            Some(d) => day_color(d),
                            None => "#2b3032"@,
                        };
                        let (shown, day_str, color) = match classes {
                            Some(c) => {
                                let a = alter_of(t.lookup, key_of(date), c);
                                (
                                    Some(render_all(a.classes)),
                                    match a.ctd { Some(l) => l, None => day_label(day) },
                                    match a.ctdcolor { Some(k) => k, None => default_color },
                                )
                            },
                            None => (None, day_label(day), default_color),
                        };
                        Ok(BlockView {
                            date: display_of(date),
                            title,
                            bgcolorcode: color,
                            greeting: greeting_of(title, pick),
                            day,
                            day_str,
                            classes: shown,
                            special,
                            status: status_of(day, dt, now),
                        })
                    }
                },
            }
        },
    }
}

/// Whether `r` is the block, or the error, that `v` describes.
pub open spec fn shows(r: Result<Block, CorruptTable>, v: Result<BlockView, CorruptTable>) -> bool {
    match v {
        Ok(bv) => r matches Ok(b) && b@ == bv,
        Err(e) => r == Err::<Block, CorruptTable>(e),
    }
}

/// Relies on rand's `thread_rng` and `Rng::gen_range`, which returns a value
/// of a non-empty range (and panics on an empty one).
#[verifier::external_body]
fn choose_index(n: usize) -> (r: usize)
    requires
        n > 0,
    ensures
        r < n,
{
    rand::Rng::gen_range(&mut rand::thread_rng(), 0..n)
}


impl Block {
    /// The category that the calendar gives the date keyed `key`.
    pub fn day_in_records(key: &String, rows: &Vec<Option<Vec<String>>>) -> (r: Result<Option<Day>, CorruptTable>)
        ensures
            r == calendar_lookup(rows.deep_view(), key@),
    {
        let ghost all = rows.deep_view();
        let mut i: usize = 0;
        assert(all.subrange(0, all.len() as int) =~= all);
        while i < rows.len()
            invariant
                i <= rows.len(),
                all == rows.deep_view(),
                calendar_lookup(all, key@) == calendar_lookup(all.subrange(i as int, all.len() as int), key@),
            decreases rows.len() - i,
        {
            proof {
                assert(all.subrange(i as int, all.len() as int).drop_first() =~= all.subrange(i + 1, all.len() as int));
            }
            match &rows[i] {
                None => return Err(CorruptTable::Calendar),
                Some(f) => {
                    if f.len() > 0 && f[0].eq(key) {
                        if f.len() < 2 {
                            return Err(CorruptTable::Calendar);
                        }
                        let code = trim(f[1].as_str());
                        return Ok(Some(day_of_code(&code)));
                    }
                },
            }
            i = i + 1;
        }
        proof {
            assert(all.subrange(i as int, all.len() as int).len() == 0);
        }
        Ok(None)
    }

    /// The category of `date` in the calendar `sched_data`: none where the
    /// calendar does not list the date, `Unknown` where its code is not known.
    pub fn day_from_date(date: &Date, sched_data: &str) -> (r: Result<Option<Day>, CorruptTable>)
        requires
            date.wf(),
        ensures
            r == calendar_lookup(csv_records(sched_data@), key_of(*date)),
    {
        let key = date.key();
        let rows = read_records(sched_data);
        Self::day_in_records(&key, &rows)
    }

    /// The periods of `day` in the templates `rows`.
    pub fn classes_in_records(day: &Day, rows: &Vec<Option<Vec<String>>>) -> (r: Result<Option<Vec<String>>, CorruptTable>)
        ensures
            match r {
                Ok(Some(v)) => periods_of(*day, rows.deep_view()) == Ok::<Option<Seq<Seq<char>>>, CorruptTable>(Some(v.deep_view())),
                Ok(None) => periods_of(*day, rows.deep_view()) == Ok::<Option<Seq<Seq<char>>>, CorruptTable>(None),
                Err(e) => periods_of(*day, rows.deep_view()) == Err::<Option<Seq<Seq<char>>>, CorruptTable>(e),
            },
    {
        let n = match ordinal_of(*day) {
            None => return Ok(None),
            Some(n) => n,
        };
        if n >= rows.len() {
            return Err(CorruptTable::Periods);
        }
        match &rows[n] {
            None => Err(CorruptTable::Periods),
            Some(f) => {
                let ghost cells = f.deep_view();
                let mut end: usize = f.len();
                assert(cells.take(end as int) =~= cells);
                while end > 0 && f[end - 1].as_str().is_empty()
                    invariant
                        end <= f.len(),
                        cells == f.deep_view(),
                        trim_blank_tail(cells) == trim_blank_tail(cells.take(end as int)),
                    decreases end,
                {
                    proof {
                        assert(cells.take(end as int).drop_last() =~= cells.take(end - 1));
                    }
                    end = end - 1;
                }
                let t = copy_prefix(f, end);
                Ok(Some(t))
            },
        }
    }

    /// The periods of `day` in the templates `sched_classes`: none for a day
    /// without classes, else the row of the day's ordinal without its trailing
    /// empty cells.
    pub fn classes_from_day(day: &Day, sched_classes: &str) -> (r: Result<Option<Vec<String>>, CorruptTable>)
        ensures
            match r {
                Ok(Some(v)) => periods_of(*day, csv_records(sched_classes@)) == Ok::<Option<Seq<Seq<char>>>, CorruptTable>(Some(v.deep_view())),
                Ok(None) => periods_of(*day, csv_records(sched_classes@)) == Ok::<Option<Seq<Seq<char>>>, CorruptTable>(None),
                Err(e) => periods_of(*day, csv_records(sched_classes@)) == Err::<Option<Seq<Seq<char>>>, CorruptTable>(e),
            },
    {
        let rows = read_records(sched_classes);
        Self::classes_in_records(day, &rows)
    }

    /// The labels that the rows keyed `key` give, in table order.
    pub fn specials_in_records(key: &String, rows: &Vec<Option<Vec<String>>>) -> (r: Vec<String>)
        ensures
            r.deep_view() == specials_in(rows.deep_view(), key@),
    {
        let ghost all = rows.deep_view();
        let mut out: Vec<String> = Vec::new();
        let mut i: usize = 0;
        assert(all.take(0) =~= Seq::<Option<Seq<Seq<char>>>>::empty());
        while i < rows.len()
            invariant
                i <= rows.len(),
                all == rows.deep_view(),
                out.deep_view() == specials_in(all.take(i as int), key@),
            decreases rows.len() - i,
        {
            proof {
                assert(all.take(i + 1).drop_last() =~= all.take(i as int));
            }
            match &rows[i] {
                None => {},
                Some(f) => {
                    if f.len() >= 2 && f[0].eq(key) {
                        out.push(f[1].clone());
                        assert(out.deep_view() =~= specials_in(all.take(i + 1), key@));
                    }
                },
            }
            i = i + 1;
        }
        assert(all.take(i as int) =~= all);
        out
    }

    /// The specials of `date`: the labels of its rows in the table `special`,
    /// in table order; none where the table could not be read or lists none.
    pub fn get_special(date: &Date, special: &Option<String>) -> (r: Option<Vec<String>>)
        requires
            date.wf(),
        ensures
            match specials_of(special.deep_view(), key_of(*date)) {
                Some(s) => r matches Some(v) && v.deep_view() == s,
                None => r is None,
            },
    {
        match special {
            None => None,
            Some(text) => {
                let key = date.key();
                let rows = read_records(text.as_str());
                let found = Self::specials_in_records(&key, &rows);
                if found.len() > 0 {
                    Some(found)
                } else {
                    None
                }
            },
        }
    }

    /// Whether the table `rows` lists the key `key`.
    pub fn lists_in_records(key: &String, rows: &Vec<Option<Vec<String>>>) -> (r: bool)
        ensures
            r == lists_key(rows.deep_view(), key@),
    {
        let ghost all = rows.deep_view();
        let mut i: usize = 0;
        while i < rows.len()
            invariant
                i <= rows.len(),
                all == rows.deep_view(),
                forall|j: int| 0 <= j < i ==> !is_keyed(#[trigger] all[j], key@),
            decreases rows.len() - i,
        {
            match &rows[i] {
                None => {},
                Some(f) => {
                    if f.len() > 0 && f[0].eq(key) {
                        assert(is_keyed(all[i as int], key@));
                        return true;
                    }
                },
            }
            i = i + 1;
        }
        false
    }

    /// Whether the table `online` flags `date`; false where it could not be read.
    pub fn check_online(date: &Date, online: &Option<String>) -> (r: bool)
        requires
            date.wf(),
        ensures
            r == match online.deep_view() {
                Some(t) => lists_key(csv_records(t), key_of(*date)),
                None => false,
            },
    {
        match online {
            None => false,
            Some(text) => {
                let key = date.key();
                let rows = read_records(text.as_str());
                Self::lists_in_records(&key, &rows)
            },
        }
    }

    /// The label of a day's category.
    pub fn format_day(day: &Option<Day>) -> (r: String)
        ensures
            r@ == day_label(*day),
    {
        match day {
            Some(d) => match d {
                Day::Day1 => "Day 1",
                Day::Day2 => "Day 2",
                Day::Day3 => "Day 3",
                Day::Day4 => "Day 4",
                Day::Day5 => "Day 5",
                Day::Day6 => "Day 6",
                Day::Day7 => "Day 7",
                Day::Day8 => "Day 8",
                Day::Day9 => "Day 9 (half day!)",
                Day::Ped => "a Ped Day",
                Day::Holiday | Day::HolidayDontCount => "a Holiday of Some Sort, idk look it up in the calendar",
                Day::Weekend => "the weekend",
                Day::Unknown => "unknown ???",
            }.to_owned(),
            None => "no day (this is probably an error!!)".to_owned(),
        }
    }

    /// The greeting `pick` of the pool.
    pub fn greeting_at(pick: usize) -> (r: String)
        requires
            pick < GREETINGS,
        ensures
            r@ == greeting_text(pick as int),
    {
        let g = if pick == 0 { "I hope you have a great day." }
        else if pick == 1 { "I hope you have a wonderful day." }
        else if pick == 2 { "I hope you have an incredible day." }
        else if pick == 3 { "I hope you have an exciting day." }
        else if pick == 4 { "I hope you have an especially pleasant day." }
        else if pick == 5 { "I especially hope you will have a nice day." }
        else if pick == 6 { "I especially hope you will have a pleasant day." }
        else if pick == 7 { "I hope you will have a pleasant day." }
        else if pick == 8 { "I hope you will have a relaxing day." }
        else if pick == 9 { "I hope you will have an extremely fun day." }
        else if pick == 10 { "I hope you have an awesome day." }
        else if pick == 11 { "I hope YOU specifically will have a nice day." }
        else if pick == 12 { "I hope you, more than anyone else, will have a great day." }
        else if pick == 13 { "I hope you have a randomly-generated day." }
        else if pick == 14 { "I wish you a wonderful wonderful day." }
        else if pick == 15 { "I hope you will have a reasonably normal day." }
        else if pick == 16 { "I hope you won't have a bad day." }
        else if pick == 17 { "I hope you excel academically today." }
        else if pick == 18 { "I hope you will have a very unpredictable day." }
        else if pick == 19 { "I hope you will have a very predictable day." }
        else if pick == 20 { "J'espère que vous passerez une journée extraordinaire." }
        else { "今日、がんばってね" };
        g.to_owned()
    }

    /// A greeting picked at random from the pool.
    pub fn rand_greeting() -> (r: String)
        ensures
            exists|i: int| 0 <= i < GREETINGS && r@ == greeting_text(i),
    {
        Self::greeting_at(choose_index(GREETINGS))
    }

    /// The greeting of a block titled `title`: a fixed one for "Today", else
    /// the greeting `pick` of the pool.
    pub fn greeting_for(title: &str, pick: usize) -> (r: String)
        requires
            pick < GREETINGS,
        ensures
            r@ == greeting_of(title@, pick as int),
    {
        let t = title.to_owned();
        if text_is(&t, "Today") {
            "I hope you have a nice day.".to_owned()
        } else {
            Self::greeting_at(pick)
        }
    }

    /// Where the day of `dt` stands at `now`.
    pub fn status_for(day: &Option<Day>, dt: &Moment, now: &Moment) -> (r: BlockStatus)
        ensures
            r == status_of(*day, *dt, *now),
    {
        if dt.date != now.date {
            return BlockStatus::Normal;
        }
        match day {
            Some(d) => {
                let closing: u32 = match d {
                    Day::Day1 | Day::Day2 | Day::Day3 | Day::Day4 | Day::Day5 | Day::Day6 | Day::Day7 | Day::Day8 => 16,
                    Day::Day9 => 13,
                    _ => return BlockStatus::Normal,
                };
                if dt.hour < 8 {
                    BlockStatus::NotStarted
                } else if dt.hour >= closing {
                    BlockStatus::IsOver
                } else {
                    BlockStatus::Normal
                }
            },
            None => BlockStatus::Normal,
        }
    }

    /// The block of `dt`, seen at `now` and titled `title`, with the greeting
    /// `pick` of the pool where a random one is shown.
    pub fn build(dt: &Moment, now: &Moment, title: &str, tables: &Tables, pick: usize) -> (r: Result<Block, CorruptTable>)
        requires
            dt.wf(),
            pick < GREETINGS,
        ensures
            shows(r, block_of(*dt, *now, title@, tables@, pick as int)),
    {
        let date = dt.date;
        let day = match Self::day_from_date(&date, tables.sched_data.as_str()) {
            Err(e) => return Err(e),
            Ok(d) => d,
        };
        let classes = match day {
            Some(d) => match Self::classes_from_day(&d, tables.sched_classes.as_str()) {
                Err(e) => return Err(e),
                Ok(c) => c,
            },
            None => None,
        };
        let special = Self::get_special(&date, &tables.special);
        let mut cancelled = false;
        let mut snow = false;
        match &special {
            Some(s) => {
                if s.len() > 0 {
                    cancelled = text_is(&s[0], "CANCEL");
                    snow = text_is(&s[0], "CANCEL_WEATHER");
                }
            },
            None => {},
        }
        if cancelled {
            return Ok(Block {
                date: date.display(),
                title: title.to_owned(),
                bgcolorcode: "#aaaaaa".to_owned(),
                greeting: Self::greeting_for(title, pick),
                day,
                day_str: "CANCELLED".to_owned(),
                classes: None,
                special,
                status: BlockStatus::Normal,
            });
        }
        if snow {
            return Ok(Block {
                date: date.display(),
                title: title.to_owned(),
                bgcolorcode: "#bf6565".to_owned(),
                greeting: "I hope you have a nice day.".to_owned(),
                day,
                day_str: "Snow day!".to_owned(),
                classes: None,
                special,
                status: BlockStatus::Normal,
            });
        }
        let status = Self::status_for(&day, dt, now);
        let default_color = match day {
            Some(d) => Self::bgcolorcode(&d),
            None => "#2b3032".to_owned(),
        };
        let mut day_str = Self::format_day(&day);
        let mut bgcolorcode = default_color;
        let shown = match classes {
            Some(c) => {
                let alter = LookupAlter::alter(&date, c, &tables.lookup);
                let html = alter.html();
                if let Some(l) = alter.ctd {
                    day_str = l;
                }
                if let Some(k) = alter.ctdcolor {
                    bgcolorcode = k;
                }
                Some(html)
            },
            None => None,
        };
        Ok(Block {
            date: date.display(),
            title: title.to_owned(),
            bgcolorcode,
            greeting: Self::greeting_for(title, pick),
            day,
            day_str,
            classes: shown,
            special,
            status,
        })
    }

    /// The block of `dt`, seen at `now` and titled `title`, with a greeting
    /// picked at random where one is shown.
    pub fn generate(dt: &Moment, now: &Moment, title: &str, tables: &Tables) -> (r: Result<Block, CorruptTable>)
        requires
            dt.wf(),
        ensures
            exists|pick: int| 0 <= pick < GREETINGS && shows(r, #[trigger] block_of(*dt, *now, title@, tables@, pick)),
    {
        let pick = choose_index(GREETINGS);
        Self::build(dt, now, title, tables, pick)
    }

    /// The background color of a day's category.
    pub fn bgcolorcode(day: &Day) -> (r: String)
        ensures
            r@ == day_color(*day),
    {
        match day {
            Day::Day1 => "#ad253e",
            Day::Day2 => "#6a4823",
            Day::Day3 => "#296a33",
            Day::Day4 => "#2f6a5f",
            Day::Day5 => "#29556a",
            Day::Day6 => "#3d386a",
            Day::Day7 => "#6a3a62",
            Day::Day8 => "#79141e",
            Day::Day9 => "#56617a",
            Day::Ped => "#549ac6",
            Day::Holiday | Day::HolidayDontCount => "#c68252",
            Day::Weekend => "#2b3032",
            Day::Unknown => "#FF0000",
        }.to_owned()
    }
}

} // verus!
