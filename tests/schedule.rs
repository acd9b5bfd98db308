use sched::alter::{parse_position, LookupAlter};
use sched::blocks::{Block, BlockStatus, Day, Tables};
use sched::date::{Date, Moment};
use sched::pages::{api, api_help, sched, show_banner, title_for, ApiReply, Sched};
use sched::stat::{format_thousandths, generate_stat, percent_text};
use sched::table::CorruptTable;

fn date(y: i32, m: u32, d: u32) -> Date {
    Date::new(y, m, d).unwrap()
}

fn at(y: i32, m: u32, d: u32, hour: u32) -> Moment {
    Moment { date: date(y, m, d), hour }
}

fn classes_table() -> String {
    let mut s = String::new();
    s.push_str("Math,Lunch,Science,,\n");
    for i in 2..=9 {
        s.push_str(&format!("A{},B{},Lunch,C{},\n", i, i, i));
    }
    s
}

fn tables(calendar: &str, special: Option<&str>, lookup: Option<&str>) -> Tables {
    Tables {
        sched_data: calendar.to_string(),
        sched_classes: classes_table(),
        special: special.map(|s| s.to_string()),
        lookup: lookup.map(|s| s.to_string()),
        online: None,
    }
}

fn strings(v: &[&str]) -> Vec<String> {
    v.iter().map(|s| s.to_string()).collect()
}

#[test]
fn day_one_block_is_in_progress() {
    let t = tables("01-09-2024,1\n", None, None);
    let b = Block::build(&at(2024, 9, 1, 9), &at(2024, 9, 1, 9), "Today", &t, 0).unwrap();
    assert_eq!(b.day_str, "Day 1");
    assert_eq!(b.status, BlockStatus::Normal);
    assert_eq!(b.bgcolorcode, "#ad253e");
    assert_eq!(b.classes, Some(strings(&["Math", "Lunch", "Science"])));
    assert_eq!(b.day, Some(Day::Day1));
    assert_eq!(b.date, "Sunday, 01-Sep-2024");
    assert_eq!(b.title, "Today");
    assert_eq!(b.greeting, "I hope you have a nice day.");
    assert_eq!(b.special, None);
}

#[test]
fn override_substitutes_and_emphasizes_a_period() {
    let t = tables("01-09-2024,1\n", None, Some("01-09-2024,2,Chemistry\n"));
    let b = Block::build(&at(2024, 9, 1, 9), &at(2024, 9, 1, 9), "Today", &t, 0).unwrap();
    assert_eq!(b.classes, Some(strings(&["Math", "<b><i>Chemistry</i></b>", "Science"])));
    assert_eq!(b.day_str, "Day 1");
}

#[test]
fn cancel_special_clears_the_day() {
    let t = tables("05-09-2024,3\n", Some("05-09-2024,CANCEL\n"), Some("05-09-2024,CTD,ProductionWeek\n"));
    let b = Block::build(&at(2024, 9, 5, 9), &at(2024, 9, 5, 9), "Today", &t, 0).unwrap();
    assert_eq!(b.classes, None);
    assert_eq!(b.day_str, "CANCELLED");
    assert_eq!(b.bgcolorcode, "#aaaaaa");
    assert_eq!(b.day, Some(Day::Day3));
    assert_eq!(b.special, Some(strings(&["CANCEL"])));
    assert_eq!(b.status, BlockStatus::Normal);
}

#[test]
fn cancel_on_other_titles_picks_a_pool_greeting() {
    let t = tables("05-09-2024,3\n", Some("05-09-2024,CANCEL\n"), None);
    let b = Block::build(&at(2024, 9, 5, 9), &at(2024, 9, 4, 9), "Tomorrow", &t, 1).unwrap();
    assert_eq!(b.greeting, "I hope you have a wonderful day.");
    assert_eq!(b.day_str, "CANCELLED");
}

#[test]
fn weather_cancel_is_a_snow_day() {
    let t = tables("05-09-2024,3\n", Some("05-09-2024,CANCEL_WEATHER\n05-09-2024,Assembly\n"), None);
    let b = Block::build(&at(2024, 9, 5, 9), &at(2024, 9, 5, 9), "Later", &t, 5).unwrap();
    assert_eq!(b.classes, None);
    assert_eq!(b.day_str, "Snow day!");
    assert_eq!(b.bgcolorcode, "#bf6565");
    assert_eq!(b.greeting, "I hope you have a nice day.");
    assert_eq!(b.special, Some(strings(&["CANCEL_WEATHER", "Assembly"])));
}

#[test]
fn cancel_only_counts_as_first_special() {
    let t = tables("05-09-2024,3\n", Some("05-09-2024,Assembly\n05-09-2024,CANCEL\n"), None);
    let b = Block::build(&at(2024, 9, 5, 9), &at(2024, 9, 5, 9), "Today", &t, 0).unwrap();
    assert_eq!(b.day_str, "Day 3");
    assert!(b.classes.is_some());
}

#[test]
fn status_follows_the_hour_on_a_full_day() {
    let t = tables("02-09-2024,2\n", None, None);
    let s = |h: u32| Block::build(&at(2024, 9, 2, h), &at(2024, 9, 2, h), "Today", &t, 0).unwrap().status;
    assert_eq!(s(7), BlockStatus::NotStarted);
    assert_eq!(s(12), BlockStatus::Normal);
    assert_eq!(s(15), BlockStatus::Normal);
    assert_eq!(s(16), BlockStatus::IsOver);
}

#[test]
fn status_of_a_half_day_ends_at_thirteen() {
    let t = tables("02-09-2024,9\n", None, None);
    let s = |h: u32| Block::build(&at(2024, 9, 2, h), &at(2024, 9, 2, h), "Today", &t, 0).unwrap().status;
    assert_eq!(s(7), BlockStatus::NotStarted);
    assert_eq!(s(12), BlockStatus::Normal);
    assert_eq!(s(13), BlockStatus::IsOver);
}

#[test]
fn status_of_other_dates_is_normal() {
    let t = tables("02-09-2024,2\n", None, None);
    let b = Block::build(&at(2024, 9, 2, 7), &at(2024, 9, 1, 7), "Tomorrow", &t, 0).unwrap();
    assert_eq!(b.status, BlockStatus::Normal);
    let p = tables("02-09-2024,P\n", None, None);
    let b = Block::build(&at(2024, 9, 2, 20), &at(2024, 9, 2, 20), "Today", &p, 0).unwrap();
    assert_eq!(b.status, BlockStatus::Normal);
}

#[test]
fn ped_day_block_has_no_periods_and_its_color() {
    let t = tables("02-09-2024,P\n", None, None);
    let b = Block::build(&at(2024, 9, 2, 9), &at(2024, 9, 2, 9), "Today", &t, 0).unwrap();
    assert_eq!(b.classes, None);
    assert_eq!(b.day_str, "a Ped Day");
    assert_eq!(b.bgcolorcode, "#549ac6");
}

#[test]
fn unlisted_date_block() {
    let t = tables("02-09-2024,P\n", None, None);
    let b = Block::build(&at(2024, 9, 3, 9), &at(2024, 9, 3, 9), "Today", &t, 0).unwrap();
    assert_eq!(b.day, None);
    assert_eq!(b.day_str, "no day (this is probably an error!!)");
    assert_eq!(b.bgcolorcode, "#2b3032");
}

#[test]
fn generate_uses_a_pool_greeting() {
    let t = tables("01-09-2024,1\n", None, None);
    let b = Block::generate(&at(2024, 9, 1, 9), &at(2024, 9, 1, 9), "Someday", &t).unwrap();
    let pool: Vec<String> = (0..22).map(|i| Block::greeting_at(i)).collect();
    assert!(pool.contains(&b.greeting));
    assert!(pool.contains(&Block::rand_greeting()));
}

#[test]
fn classify_unlisted_and_unknown() {
    let cal = "01-09-2024,1\n02-09-2024,X\n03-09-2024, 4 \n";
    assert_eq!(Block::day_from_date(&date(2024, 9, 4), cal), Ok(None));
    assert_eq!(Block::day_from_date(&date(2024, 9, 2), cal), Ok(Some(Day::Unknown)));
    assert_eq!(Block::day_from_date(&date(2024, 9, 1), cal), Ok(Some(Day::Day1)));
    assert_eq!(Block::day_from_date(&date(2024, 9, 3), cal), Ok(Some(Day::Day4)));
}

#[test]
fn classify_every_code() {
    let codes = [
        ("1", Day::Day1), ("2", Day::Day2), ("3", Day::Day3), ("4", Day::Day4), ("5", Day::Day5),
        ("6", Day::Day6), ("7", Day::Day7), ("8", Day::Day8), ("9", Day::Day9), ("P", Day::Ped),
        ("C", Day::Holiday), ("D", Day::HolidayDontCount), ("W", Day::Weekend),
    ];
    for (code, day) in codes.iter() {
        let cal = format!("10-10-2024,{}\n", code);
        assert_eq!(Block::day_from_date(&date(2024, 10, 10), &cal), Ok(Some(*day)));
    }
}

#[test]
fn calendar_row_without_code_is_corrupt() {
    assert_eq!(Block::day_from_date(&date(2024, 9, 1), "01-09-2024\n"), Err(CorruptTable::Calendar));
    assert_eq!(Block::day_from_date(&date(2024, 9, 2), "01-09-2024,1\n02-09-2024\n"), Err(CorruptTable::Calendar));
}

#[test]
fn periods_of_days_without_classes() {
    for d in [Day::Ped, Day::Holiday, Day::HolidayDontCount, Day::Weekend, Day::Unknown].iter() {
        assert_eq!(Block::classes_from_day(d, &classes_table()), Ok(None));
    }
}

#[test]
fn periods_keep_interior_blanks() {
    let table = "A,,B,,\n";
    assert_eq!(Block::classes_from_day(&Day::Day1, table), Ok(Some(strings(&["A", "", "B"]))));
    assert_eq!(Block::classes_from_day(&Day::Day2, &classes_table()), Ok(Some(strings(&["A2", "B2", "Lunch", "C2"]))));
}

#[test]
fn missing_template_row_is_corrupt() {
    assert_eq!(Block::classes_from_day(&Day::Day9, "A,B\n"), Err(CorruptTable::Periods));
}

#[test]
fn specials_in_table_order() {
    let table = Some("01-09-2024,First\n02-09-2024,Other\n01-09-2024,Second\n".to_string());
    assert_eq!(Block::get_special(&date(2024, 9, 1), &table), Some(strings(&["First", "Second"])));
    assert_eq!(Block::get_special(&date(2024, 9, 3), &table), None);
    assert_eq!(Block::get_special(&date(2024, 9, 1), &None), None);
}

#[test]
fn online_flag() {
    let table = Some("01-09-2024\n".to_string());
    assert!(Block::check_online(&date(2024, 9, 1), &table));
    assert!(!Block::check_online(&date(2024, 9, 2), &table));
    assert!(!Block::check_online(&date(2024, 9, 1), &None));
}

#[test]
fn day_labels_and_colors() {
    assert_eq!(Block::format_day(&Some(Day::Day9)), "Day 9 (half day!)");
    assert_eq!(Block::format_day(&Some(Day::Weekend)), "the weekend");
    assert_eq!(Block::format_day(&None), "no day (this is probably an error!!)");
    assert_eq!(Block::bgcolorcode(&Day::Day8), "#79141e");
    assert_eq!(Block::bgcolorcode(&Day::HolidayDontCount), "#c68252");
    assert_eq!(Block::bgcolorcode(&Day::Unknown), "#FF0000");
}

#[test]
fn greetings() {
    assert_eq!(Block::greeting_for("Today", 3), "I hope you have a nice day.");
    assert_eq!(Block::greeting_for("Tomorrow", 0), "I hope you have a great day.");
    assert_eq!(Block::greeting_at(21), "今日、がんばってね");
}

fn alter(classes: &[&str], lookup: &str) -> LookupAlter {
    LookupAlter::alter(&date(2024, 9, 1), strings(classes), &Some(lookup.to_string()))
}

#[test]
fn substitution_changes_only_its_slot() {
    let a = alter(&["Math", "Lunch", "Science"], "01-09-2024,3,Art\n");
    assert_eq!(a.html(), strings(&["Math", "Lunch", "<b><i>Art</i></b>"]));
    assert_eq!(a.classes.len(), 3);
    assert!(a.classes[2].emphasized);
    assert!(!a.classes[0].emphasized);
    assert_eq!(a.ctd, None);
}

#[test]
fn substitution_out_of_range_is_skipped() {
    let a = alter(&["Math", "Lunch"], "01-09-2024,3,Art\n01-09-2024,0,Gym\n02-09-2024,1,Other\n");
    assert_eq!(a.html(), strings(&["Math", "Lunch"]));
}

#[test]
fn production_week_keeps_the_exemptions() {
    let a = alter(&["Chant", "Math", "Lunch", "Instro", "Sci"], "01-09-2024,CTD,ProductionWeek\n");
    assert_eq!(a.html(), strings(&["Chant", " ", "Lunch", "Instro", " "]));
    assert_eq!(a.ctd, Some("Production Day".to_string()));
    assert_eq!(a.ctdcolor, Some("#4e94af".to_string()));
}

#[test]
fn production_show_and_last_directive_wins() {
    let a = alter(&["Math", "Lunch"], "01-09-2024,CTD,ProductionWeek\n01-09-2024,CTD,ProductionWeekShow\n");
    assert_eq!(a.ctd, Some("Show!".to_string()));
    assert_eq!(a.ctdcolor, Some("#cb762d".to_string()));
    assert_eq!(a.html(), strings(&[" ", "Lunch"]));
    let b = alter(&["Math"], "01-09-2024,CTD,Other\n");
    assert_eq!(b.ctd, None);
    assert_eq!(b.html(), strings(&["Math"]));
}

#[test]
fn block_takes_the_directive_label_and_color() {
    let t = tables("01-09-2024,1\n", None, Some("01-09-2024,CTD,ProductionWeek\n"));
    let b = Block::build(&at(2024, 9, 1, 9), &at(2024, 9, 1, 9), "Today", &t, 0).unwrap();
    assert_eq!(b.day_str, "Production Day");
    assert_eq!(b.bgcolorcode, "#4e94af");
    assert_eq!(b.classes, Some(strings(&[" ", "Lunch", " "])));
}

#[test]
fn unreadable_lookup_leaves_periods() {
    let a = LookupAlter::alter(&date(2024, 9, 1), strings(&["Math"]), &None);
    assert_eq!(a.html(), strings(&["Math"]));
}

#[test]
fn positions() {
    assert_eq!(parse_position("+3", 10), Some(3));
    assert_eq!(parse_position("12", 5), Some(5));
    assert_eq!(parse_position("007", 100), Some(7));
    assert_eq!(parse_position("a", 5), None);
    assert_eq!(parse_position("", 5), None);
    assert_eq!(parse_position("+", 5), None);
    assert_eq!(parse_position("-1", 5), None);
}

const CALENDAR: &str = "\
02-09-2024,1
03-09-2024,P
07-09-2024,W
09-09-2024,2
10-09-2024,C
11-09-2024,3
12-09-2024,P
13-09-2024,D
";

#[test]
fn stat_counts() {
    let s = generate_stat(&date(2024, 9, 9), CALENDAR).unwrap();
    assert_eq!(s.days_total, 7);
    assert_eq!(s.days_passed, 3);
    assert_eq!(s.days_rem, 4);
    assert_eq!(s.ped_rem, 2);
    assert_eq!(s.ped_past, 1);
    assert_eq!(s.days_rem_pct, "57.143");
    assert_eq!(s.days_rem + s.days_passed, s.days_total);
}

#[test]
fn stat_is_idempotent() {
    let a = generate_stat(&date(2024, 9, 10), CALENDAR).unwrap();
    let b = generate_stat(&date(2024, 9, 10), CALENDAR).unwrap();
    assert_eq!((a.days_total, a.days_passed, a.days_rem, a.ped_rem, a.ped_past), (b.days_total, b.days_passed, b.days_rem, b.ped_rem, b.ped_past));
    assert_eq!(a.days_rem_pct, b.days_rem_pct);
    assert_eq!(a.ped_past + a.ped_rem, 3);
}

#[test]
fn stat_before_and_after_the_year() {
    let s = generate_stat(&date(2024, 1, 1), CALENDAR).unwrap();
    assert_eq!((s.days_passed, s.days_rem, s.ped_rem, s.ped_past), (0, 7, 3, 0));
    assert_eq!(s.days_rem_pct, "100.000");
    let s = generate_stat(&date(2025, 1, 1), CALENDAR).unwrap();
    assert_eq!((s.days_passed, s.days_rem, s.ped_rem, s.ped_past), (7, 0, 0, 3));
    assert_eq!(s.days_rem_pct, "0.000");
}

#[test]
fn stat_of_unreadable_date_is_corrupt() {
    assert!(matches!(generate_stat(&date(2024, 9, 9), "xx-09-2024,1\n"), Err(CorruptTable::Calendar)));
    let s = generate_stat(&date(2024, 9, 9), "junk,W\n").unwrap();
    assert_eq!(s.days_total, 0);
}

#[test]
fn percentages() {
    assert_eq!(percent_text(1, 3), "33.333");
    assert_eq!(percent_text(2, 3), "66.667");
    assert_eq!(percent_text(0, 0), "0.000");
    assert_eq!(percent_text(5, 5), "100.000");
    assert_eq!(format_thousandths(42500), "42.500");
}

#[test]
fn dates() {
    assert_eq!(Date::new(2023, 2, 29), None);
    assert!(Date::new(2024, 2, 29).is_some());
    assert_eq!(Date::new(2024, 4, 31), None);
    assert_eq!(Date::new(2024, 13, 1), None);
    assert_eq!(date(2024, 9, 1).key(), "01-09-2024");
    assert_eq!(date(2024, 9, 1).display(), "Sunday, 01-Sep-2024");
    assert_eq!(Date::from_key("28-02-2024"), Some(date(2024, 2, 28)));
    assert_eq!(Date::from_key("31-02-2024"), None);
    assert_eq!(date(2024, 2, 28).plus_days(1), Some(date(2024, 2, 29)));
    assert_eq!(date(2024, 12, 31).plus_days(1), Some(date(2025, 1, 1)));
    assert!(date(2024, 9, 2).is_after(&date(2024, 9, 1)));
    assert!(!date(2024, 9, 1).is_after(&date(2024, 9, 1)));
}

#[test]
fn api_answers() {
    let mut t = tables("01-09-2024,1\n02-09-2024,P\n03-09-2024,W\n", Some("01-09-2024,Assembly\n"), None);
    t.online = Some("01-09-2024\n".to_string());
    let today = date(2024, 9, 2);
    assert!(matches!(api("bad", &today, &t), Ok(ApiReply::BadDate)));
    assert!(matches!(api("04-09-2024", &today, &t), Ok(ApiReply::NoDay)));
    assert!(matches!(api("now", &today, &t), Ok(ApiReply::NoSchoolDay)));
    assert!(matches!(api("03-09-2024", &today, &t), Ok(ApiReply::NoSchoolDay)));
    match api("01-09-2024", &today, &t) {
        Ok(ApiReply::Day(b)) => {
            assert_eq!(b.date, "Sunday, 01-Sep-2024");
            assert_eq!(b.day, "Day 1");
            assert_eq!(b.classes, strings(&["Math", "Lunch", "Science"]));
            assert_eq!(b.special, strings(&["Assembly"]));
            assert!(b.is_online);
        }
        _ => panic!("expected a day"),
    }
    assert_eq!(ApiReply::BadDate.code(), Some("bad_date".to_string()));
    assert_eq!(ApiReply::NoDay.code(), Some("no_day".to_string()));
    assert_eq!(ApiReply::NoSchoolDay.code(), Some("no_school_day".to_string()));
    assert_eq!(api_help(), "api for sched. i'll write docs later.");
}

#[test]
fn sched_pages() {
    let t = tables("01-09-2024,1\n02-09-2024,2\n", None, None);
    let now = at(2024, 9, 1, 23);
    assert!(matches!(sched(Some(81), &now, &t), Ok(Sched::Silly(81))));
    match sched(None, &now, &t) {
        Ok(Sched::Page(p)) => {
            assert_eq!(p.blocks.len(), 4);
            assert_eq!(p.blocks[0].title, "Today");
            assert_eq!(p.blocks[1].title, "Tomorrow");
            assert_eq!(p.blocks[1].day, Some(Day::Day2));
            assert_eq!(p.blocks[3].title, "Day after day after tomorrow");
            assert!(p.show_banner);
            assert_eq!(p.nextcount, 10);
            assert_eq!(p.stat.days_total, 2);
        }
        _ => panic!("expected a page"),
    }
    match sched(Some(6), &at(2024, 9, 1, 12), &t) {
        Ok(Sched::Page(p)) => {
            assert_eq!(p.blocks.len(), 7);
            assert_eq!(p.blocks[5].title, "");
            assert!(!p.show_banner);
            assert_eq!(p.nextcount, 13);
        }
        _ => panic!("expected a page"),
    }
    assert_eq!(title_for(2), "Day after tomorrow");
    assert!(show_banner(0) && show_banner(2) && !show_banner(3));
}
