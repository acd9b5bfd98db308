//! The decisions behind the schedule page and the day query: which blocks a
//! page shows, and what a query for one date answers.

use vstd::prelude::*;
use crate::date::{Date, Moment, key_of, display_of, parsed, days_after};
use crate::table::{CorruptTable, csv_records, text_is};
use crate::blocks::{Block, Day, Tables, TablesView, calendar_lookup, periods_of, specials_of, lists_key, day_label, block_of, shows, GREETINGS};
use crate::stat::{Stat, generate_stat, stat_result};

verus! {

/// The most blocks a page is asked for before the request is refused.
pub const MAX_COUNT: i32 = 80;

/// What a query for one date answers.
pub enum ApiReply {
    /// The date did not read.
    BadDate,
    /// The calendar does not list the date.
    NoDay,
    /// The date has no classes.
    NoSchoolDay,
    Day(ApiBlock),
}

/// A school day, as a query hands it out.
pub struct ApiBlock {
    pub date: String,
    pub day: String,
    pub classes: Vec<String>,
    pub special: Vec<String>,
    pub is_online: bool,
}

/// The date a query names: today for `now`, else a `dd-mm-yyyy` key.
pub open spec fn query_date(date: Seq<char>, today: Date) -> Option<Date> {
    if date == "now"@ { Some(today) } else { parsed(date, "%d-%m-%Y"@) }
}

/// Categories that never have classes, whatever the templates hold.
pub open spec fn is_off_day(d: Day) -> bool {
    d == Day::Ped || d == Day::Holiday || d == Day::Unknown
}

/// Whether `r` answers a query for `date`, made on `today`, over the tables `t`.
pub open spec fn answers(r: Result<ApiReply, CorruptTable>, date: Seq<char>, today: Date, t: TablesView) -> bool {
    match query_date(date, today) {
        None => r matches Ok(ApiReply::BadDate),
        Some(d) => match calendar_lookup(csv_records(t.sched_data), key_of(d)) {
            Err(e) => r == Err::<ApiReply, CorruptTable>(e),
            Ok(None) => r matches Ok(ApiReply::NoDay),
            Ok(Some(day)) => if is_off_day(day) {
                r matches Ok(ApiReply::NoSchoolDay)
            } else {
                match periods_of(day, csv_records(t.sched_classes)) {
                    Err(e) => r == Err::<ApiReply, CorruptTable>(e),
                    Ok(None) => r matches Ok(ApiReply::NoSchoolDay),
                    Ok(Some(p)) => r matches Ok(ApiReply::Day(b)) && b.date@ == display_of(d) && b.day@ == day_label(Some(day))
                        && b.classes.deep_view() == p && b.special.deep_view() == (match specials_of(t.special, key_of(d)) {
                            Some(s) => s,
                            None => Seq::empty(),
                        }) && b.is_online == (match t.online {
                            Some(o) => lists_key(csv_records(o), key_of(d)),
                            None => false,
                        }),
                }
            },
        },
    }
}

/// Answers a query for `date` (`now` for `today`, else `dd-mm-yyyy`): the
/// day's category, periods without overrides, specials and flag, or why
/// there is no such day.
pub fn api(date: &str, today: &Date, tables: &Tables) -> (r: Result<ApiReply, CorruptTable>)
    requires
        today.wf(),
    ensures
        answers(r, date@, *today, tables@),
{
    let text = date.to_owned();
    let d = if text_is(&text, "now") {
        *today
    } else {
        match Date::from_key(date) {
            None => return Ok(ApiReply::BadDate),
            Some(d) => d,
        }
    };
    let day = match Block::day_from_date(&d, tables.sched_data.as_str()) {
        Err(e) => return Err(e),
        Ok(None) => return Ok(ApiReply::NoDay),
        Ok(Some(day)) => day,
    };
    match day {
        Day::Ped | Day::Holiday | Day::Unknown => return Ok(ApiReply::NoSchoolDay),
        _ => {},
    }
    let classes = match Block::classes_from_day(&day, tables.sched_classes.as_str()) {
        Err(e) => return Err(e),
        Ok(None) => return Ok(ApiReply::NoSchoolDay),
        Ok(Some(c)) => c,
    };
    let special = match Block::get_special(&d, &tables.special) {
        Some(s) => s,
        None => Vec::new(),
    };
    proof {
        if specials_of(tables@.special, key_of(d)) is None {
            assert(special.deep_view() =~= Seq::<Seq<char>>::empty());
        }
    }
    Ok(ApiReply::Day(ApiBlock {
        date: d.display(),
        day: Block::format_day(&Some(day)),
        classes,
        special,
        is_online: Block::check_online(&d, &tables.online),
    }))
}

impl ApiReply {
    /// The text that stands for a reply without a day.
    pub fn code(&self) -> (r: Option<String>)
        ensures
            match self {
                ApiReply::BadDate => r matches Some(s) && s@ == "bad_date"@,
                ApiReply::NoDay => r matches Some(s) && s@ == "no_day"@,
                ApiReply::NoSchoolDay => r matches Some(s) && s@ == "no_school_day"@,
                ApiReply::Day(_) => r is None,
            },
    {
        match self {
            ApiReply::BadDate => Some("bad_date".to_owned()),
            ApiReply::NoDay => Some("no_day".to_owned()),
            ApiReply::NoSchoolDay => Some("no_school_day".to_owned()),
            ApiReply::Day(_) => None,
        }
    }
}

/// What the help route answers.
pub fn api_help() -> (r: String)
    ensures
        r@ == "api for sched. i'll write docs later."@,
{
    "api for sched. i'll write docs later.".to_owned()
}

/// The late hours at which the page shows its banner.
pub open spec fn banner_hour(h: int) -> bool {
    h == 22 || h == 23 || h == 24 || h == 0 || h == 1 || h == 2
}

/// The title of the block `i` days from today.
pub open spec fn title_of(i: int) -> Seq<char> {
    if i == 0 { "Today"@ }
    else if i == 1 { "Tomorrow"@ }
    else if i == 2 { "Day after tomorrow"@ }
    else if i == 3 { "Day after day after tomorrow"@ }
    else { Seq::empty() }
}

/// How many blocks a page asked for `count` shows: four, or days 0 to
/// `count`.
pub open spec fn blocks_wanted(count: Option<i32>) -> int {
    match count {
        Some(c) => if c >= 4 { c + 1 } else { 4 },
        None => 4,
    }
}

/// The count that the page's "more" link asks for.
pub open spec fn next_count(count: Option<i32>) -> int {
    match count {
        Some(c) => c + 7,
        None => 10,
    }
}

/// The blocks of a page.
pub struct SchedPage {
    pub blocks: Vec<Block>,
    pub stat: Stat,
    pub show_banner: bool,
    pub nextcount: i32,
}

/// A page, or the refusal of a count that is too large.
pub enum Sched {
    Silly(i32),
    Page(SchedPage),
}

/// The title of the block `i` days from today.
pub fn title_for(i: u32) -> (r: String)
    ensures
        r@ == title_of(i as int),
{
    proof {
        reveal_strlit("");
    }
    let t = if i == 0 { "Today" } else if i == 1 { "Tomorrow" } else if i == 2 { "Day after tomorrow" }
    else if i == 3 { "Day after day after tomorrow" } else { "" };
    let s = t.to_owned();
    assert(i > 3 ==> s@ =~= Seq::<char>::empty());
    s
}

/// The block of the day `k` days after `now`, with greeting `pick`.
pub open spec fn block_after(now: Moment, k: int, t: TablesView, pick: int) -> Result<crate::blocks::BlockView, CorruptTable> {
    block_of(Moment { date: days_after(now.date, k as nat).unwrap(), hour: now.hour }, now, title_of(k), t, pick)
}

/// Whether block `k` of `blocks` is the block `k` days after `now`.
pub open spec fn block_at(blocks: Seq<Block>, k: int, now: Moment, t: TablesView) -> bool {
    days_after(now.date, k as nat) is Some && exists|pick: int| 0 <= pick < GREETINGS && shows(Ok(blocks[k]), #[trigger] block_after(now, k, t, pick))
}

/// Whether `v` holds the blocks of the `n` days from the day of `now` on, in
/// order, up to the end of chrono's range.
pub open spec fn lists_blocks(v: Seq<Block>, now: Moment, n: int, t: TablesView) -> bool {
    &&& v.len() <= n
    &&& v.len() < n ==> days_after(now.date, v.len() as nat) is None
    &&& forall|k: int| 0 <= k < v.len() ==> #[trigger] block_at(v, k, now, t)
}

/// Whether the block of one of the `n` days from the day of `now` on fails
/// with `e`.
pub open spec fn block_fails(e: CorruptTable, now: Moment, n: int, t: TablesView) -> bool {
    exists|k: int| 0 <= k < n && days_after(now.date, k as nat) is Some
        && #[trigger] block_after(now, k, t, 0) == Err::<crate::blocks::BlockView, CorruptTable>(e)
}

/// The blocks of the `n` days from the day of `now` on, titled by their
/// distance from today; the list stops early where chrono's range ends.
pub fn blocks_for(now: &Moment, n: u32, tables: &Tables) -> (r: Result<Vec<Block>, CorruptTable>)
    requires
        now.wf(),
    ensures
        r matches Ok(v) ==> lists_blocks(v@, *now, n as int, tables@),
        r matches Err(e) ==> block_fails(e, *now, n as int, tables@),
{
    let mut out: Vec<Block> = Vec::new();
    let mut i: u32 = 0;
    while i < n
        invariant
            i <= n,
            now.wf(),
            out@.len() == i,
            forall|k: int| 0 <= k < i ==> #[trigger] block_at(out@, k, *now, tables@),
        decreases n - i,
    {
        let date = match now.date.plus_days(i) {
            None => return Ok(out),
            Some(d) => d,
        };
        assert(days_after(now.date, (i as int) as nat) == Some(date));
        let dt = Moment { date, hour: now.hour };
        let title = title_for(i);
        let r = Block::generate(&dt, now, title.as_str(), tables);
        let ghost pick = choose|pick: int| 0 <= pick < GREETINGS && shows(r, #[trigger] block_of(dt, *now, title@, tables@, pick));
        proof {
            assert(block_of(dt, *now, title@, tables@, pick) == block_after(*now, i as int, tables@, pick));
            if r is Err {
                assert(block_after(*now, i as int, tables@, 0) == block_after(*now, i as int, tables@, pick));
            }
        }
        let b = match r {
            Err(e) => return Err(e),
            Ok(b) => b,
        };
        let ghost prev = out@;
        out.push(b);
        proof {
            assert(shows(Ok(out@[i as int]), block_after(*now, i as int, tables@, pick)));
            assert(block_at(out@, i as int, *now, tables@));
            assert forall|k: int| 0 <= k < i + 1 implies #[trigger] block_at(out@, k, *now, tables@) by {
                if k < i {
                    assert(out@[k] == prev[k]);
                    assert(block_at(prev, k, *now, tables@));
                    let p = choose|p: int| 0 <= p < GREETINGS && shows(Ok(prev[k]), #[trigger] block_after(*now, k, tables@, p));
                    assert(shows(Ok(out@[k]), block_after(*now, k, tables@, p)));
                }
            }
        }
        i = i + 1;
    }
    Ok(out)
}

/// Whether a page is asked for more blocks than it shows.
pub open spec fn too_many(count: Option<i32>) -> bool {
    match count {
        Some(c) => c > MAX_COUNT,
        None => false,
    }
}

/// Whether the late-hour banner shows at `hour`.
pub fn show_banner(hour: u32) -> (r: bool)
    ensures
        r == banner_hour(hour as int),
{
    hour == 22 || hour == 23 || hour == 24 || hour == 0 || hour == 1 || hour == 2
}

/// The schedule page asked for `count` blocks at `now`: refused for a count
/// over the limit; else the blocks of today and the following days (four, or
/// up to `count` days ahead), the statistics, the banner and the next count.
pub fn sched(count: Option<i32>, now: &Moment, tables: &Tables) -> (r: Result<Sched, CorruptTable>)
    requires
        now.wf(),
    ensures
        too_many(count) ==> (r matches Ok(Sched::Silly(x)) && count == Some(x)),
        !too_many(count) ==> match r {
            Ok(Sched::Page(p)) => lists_blocks(p.blocks@, *now, blocks_wanted(count), tables@)
                && stat_result(Ok(p.stat), now.date, tables@.sched_data)
                && p.show_banner == banner_hour(now.hour as int)
                && p.nextcount == next_count(count),
            Ok(Sched::Silly(_)) => false,
            Err(e) => block_fails(e, *now, blocks_wanted(count), tables@)
                || stat_result(Err(e), now.date, tables@.sched_data),
        },
{
    let n: u32 = match count {
        Some(c) => {
            if c > MAX_COUNT {
                return Ok(Sched::Silly(c));
            }
            if c >= 4 { (c + 1) as u32 } else { 4 }
        },
        None => 4,
    };
    let blocks = match blocks_for(now, n, tables) {
        Err(e) => return Err(e),
        Ok(v) => v,
    };
    let stat = match generate_stat(&now.date, tables.sched_data.as_str()) {
        Err(e) => return Err(e),
        Ok(s) => s,
    };
    let nextcount = match count {
        Some(c) => c + 7,
        None => 10,
    };
    Ok(Sched::Page(SchedPage { blocks, stat, show_banner: show_banner(now.hour), nextcount }))
}

} // verus!
