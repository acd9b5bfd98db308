//! Overrides of a day's periods: single-period substitutions and whole-day
//! ("change the day") directives, applied in table order.

use vstd::prelude::*;
use crate::date::{Date, key_of};
use crate::table::{Records, csv_records, read_records, text_is};

verus! {

/// One period of a day, possibly marked for emphasis by a substitution.
#[derive(Clone, Debug)]
pub struct Slot {
    pub label: String,
    pub emphasized: bool,
}

/// The model of a list of periods: each label with its emphasis.
pub open spec fn slots_view(v: Seq<Slot>) -> Seq<(Seq<char>, bool)> {
    v.map_values(|s: Slot| (s.label@, s.emphasized))
}

/// The periods of a day after its overrides, with the day label and color
/// that a whole-day directive sets.
pub struct LookupAlter {
    pub classes: Vec<Slot>,
    pub ctd: Option<String>,
    pub ctdcolor: Option<String>,
}

/// The model of a [`LookupAlter`].
pub struct AlterState {
    pub classes: Seq<(Seq<char>, bool)>,
    pub ctd: Option<Seq<char>>,
    pub ctdcolor: Option<Seq<char>>,
}

impl View for LookupAlter {
    type V = AlterState;

    open spec fn view(&self) -> AlterState {
        AlterState { classes: slots_view(self.classes@), ctd: self.ctd.deep_view(), ctdcolor: self.ctdcolor.deep_view() }
    }
}

pub open spec fn is_digit(c: char) -> bool {
    '0' <= c <= '9'
}

/// The number that a run of decimal digits writes.
pub open spec fn digits_value(s: Seq<char>) -> nat
    decreases s.len(),
{
    if s.len() == 0 {
        0
    } else {
        10 * digits_value(s.drop_last()) + ((s.last() as nat) - ('0' as nat)) as nat
    }
}

/// The number that `s` writes as an unsigned decimal, with an optional
/// leading `+`; none where `s` is not one.
pub open spec fn position_text(s: Seq<char>) -> Option<nat> {
    let d = unsigned_part(s);
    if d.len() > 0 && all_digits(d) {
        Some(digits_value(d))
    } else {
        None
    }
}

/// `s` without one leading `+`.
pub open spec fn unsigned_part(s: Seq<char>) -> Seq<char> {
    if s.len() > 0 && s[0] == '+' { s.drop_first() } else { s }
}

pub open spec fn all_digits(d: Seq<char>) -> bool {
    forall|i: int| 0 <= i < d.len() ==> is_digit(#[trigger] d[i])
}

/// The periods that a production day keeps.
pub open spec fn is_exempt(label: Seq<char>) -> bool {
    label == "Chant"@ || label == "Instro"@ || label == "Lunch"@
}

/// The marker that stands for a blanked period.
pub open spec fn blank_marker() -> Seq<char> {
    " "@
}

/// `classes` with every period outside the exemptions blanked.
pub open spec fn blank_unexempt(classes: Seq<(Seq<char>, bool)>) -> Seq<(Seq<char>, bool)> {
    classes.map_values(|s: (Seq<char>, bool)| if is_exempt(s.0) { s } else { (blank_marker(), false) })
}

/// `classes` with slot `p - 1` replaced by `label`, marked for emphasis.
pub open spec fn substitute(classes: Seq<(Seq<char>, bool)>, p: int, label: Seq<char>) -> Seq<(Seq<char>, bool)> {
    classes.update(p - 1, (label, true))
}

/// The state after one override row `f` of the day: a position in range
/// substitutes that period; `CTD` with `ProductionWeek` blanks the periods
/// outside the exemptions and makes it a production day; `CTD` with
/// `ProductionWeekShow` makes it a show. Anything else changes nothing.
pub open spec fn apply_row(st: AlterState, f: Seq<Seq<char>>) -> AlterState {
    let r1 = if f.len() > 1 { f[1] } else { Seq::empty() };
    let payload = if f.len() > 2 { f[2] } else { Seq::empty() };
    match position_text(r1) {
        Some(p) => if 1 <= p <= st.classes.len() {
            AlterState { classes: substitute(st.classes, p as int, payload), ctd: st.ctd, ctdcolor: st.ctdcolor }
        } else {
            st
        },
        None => if r1 == "CTD"@ && payload == "ProductionWeek"@ {
            AlterState { classes: blank_unexempt(st.classes), ctd: Some("Production Day"@), ctdcolor: Some("#4e94af"@) }
        } else if r1 == "CTD"@ && payload == "ProductionWeekShow"@ {
            AlterState { classes: st.classes, ctd: Some("Show!"@), ctdcolor: Some("#cb762d"@) }
        } else {
            st
        },
    }
}

/// The periods of a day before any override.
pub open spec fn plain_state(classes: Seq<Seq<char>>) -> AlterState {
    AlterState { classes: classes.map_values(|l: Seq<char>| (l, false)), ctd: None, ctdcolor: None }
}

/// The state after every row keyed `key`, in table order, from `st`.
pub open spec fn alter_rows(rows: Records, key: Seq<char>, st: AlterState) -> AlterState
    decreases rows.len(),
{
    if rows.len() == 0 {
        st
    } else {
        let before = alter_rows(rows.drop_last(), key, st);
        match rows.last() {
            Some(f) => if f.len() > 0 && f[0] == key { apply_row(before, f) } else { before },
            None => before,
        }
    }
}

/// The overrides of the date keyed `key` applied to `classes`; none where the
/// table could not be read.
pub open spec fn alter_of(table: Option<Seq<char>>, key: Seq<char>, classes: Seq<Seq<char>>) -> AlterState {
    match table {
        None => plain_state(classes),
        Some(t) => alter_rows(csv_records(t), key, plain_state(classes)),
    }
}

/// How a period is shown: an emphasized one in bold italics.
pub open spec fn render(s: (Seq<char>, bool)) -> Seq<char> {
    if s.1 { "<b><i>"@ + s.0 + "</i></b>"@ } else { s.0 }
}

pub open spec fn render_all(classes: Seq<(Seq<char>, bool)>) -> Seq<Seq<char>> {
    classes.map_values(|s: (Seq<char>, bool)| render(s))
}

proof fn lemma_digits_value_step(s: Seq<char>, c: char)
    ensures
        digits_value(s.push(c)) == 10 * digits_value(s) + ((c as nat) - ('0' as nat)) as nat,
{
    assert(s.push(c).drop_last() =~= s);
}

/// The position written by `s`, capped at `cap`: `Some(min(n, cap))` where
/// [`position_text`] gives `Some(n)`.
pub fn parse_position(s: &str, cap: u128) -> (r: Option<u128>)
    requires
        cap <= u64::MAX as u128 + 1,
    ensures
        match position_text(s@) {
            Some(n) => r == Some((if n < cap { n } else { cap as nat }) as u128),
            None => r is None,
        },
{
    let n = s.unicode_len();
    let mut start: usize = 0;
    if n > 0 && s.get_char(0) == '+' {
        start = 1;
    }
    let ghost d = unsigned_part(s@);
    assert(d =~= s@.subrange(start as int, n as int));
    if start >= n {
        return None;
    }
    let mut v: u128 = 0;
    let mut i: usize = start;
    assert(d.take(0) =~= Seq::<char>::empty());
    while i < n
        invariant
            start <= i <= n,
            n == s@.len(),
            cap <= u64::MAX as u128 + 1,
            d == unsigned_part(s@),
            d =~= s@.subrange(start as int, n as int),
            v as nat == (if digits_value(d.take(i - start)) < cap { digits_value(d.take(i - start)) } else { cap as nat }),
            forall|j: int| 0 <= j < i - start ==> is_digit(#[trigger] d[j]),
        decreases n - i,
    {
        let c = s.get_char(i);
        assert(d[i - start] == c);
        if c < '0' || c > '9' {
            assert(!is_digit(d[i - start]));
            return None;
        }
        let digit = (c as u32 - '0' as u32) as u128;
        proof {
            assert(d.take(i - start + 1) =~= d.take(i - start).push(c));
            lemma_digits_value_step(d.take(i - start), c);
        }
        if v >= cap {
            v = cap;
        } else {
            let t = 10 * v + digit;
            v = if t < cap { t } else { cap };
        }
        i = i + 1;
    }
    assert(d.take(n - start) =~= d);
    Some(v)
}

/// `classes` as periods without emphasis.
fn plain_slots(classes: Vec<String>) -> (r: Vec<Slot>)
    ensures
        slots_view(r@) == plain_state(classes.deep_view()).classes,
{
    let mut out: Vec<Slot> = Vec::new();
    let mut i: usize = 0;
    while i < classes.len()
        invariant
            i <= classes.len(),
            out@.len() == i,
            forall|j: int| 0 <= j < i ==> (#[trigger] out@[j]).label@ == classes@[j]@ && !out@[j].emphasized,
        decreases classes.len() - i,
    {
        let label = classes[i].clone();
        out.push(Slot { label, emphasized: false });
        i = i + 1;
    }
    assert forall|j: int| 0 <= j < out@.len() implies #[trigger] slots_view(out@)[j] == plain_state(classes.deep_view()).classes[j] by {
        assert(classes.deep_view()[j] == classes@[j]@);
    }
    assert(slots_view(out@) =~= plain_state(classes.deep_view()).classes);
    out
}

impl LookupAlter {
    /// `classes` without any override.
    pub fn plain(classes: Vec<String>) -> (r: LookupAlter)
        ensures
            r@ == plain_state(classes.deep_view()),
    {
        LookupAlter { classes: plain_slots(classes), ctd: None, ctdcolor: None }
    }

    /// Blanks every period outside the exemptions.
    fn blank_periods(&mut self)
        ensures
            final(self)@.classes == blank_unexempt(old(self)@.classes),
            final(self).ctd == old(self).ctd,
            final(self).ctdcolor == old(self).ctdcolor,
    {
        let ghost before = slots_view(self.classes@);
        let ghost orig = self.classes@;
        let mut i: usize = 0;
        while i < self.classes.len()
            invariant
                i <= self.classes.len(),
                self.classes@.len() == orig.len(),
                self.ctd == old(self).ctd,
                self.ctdcolor == old(self).ctdcolor,
                orig == old(self).classes@,
                before == slots_view(orig),
                forall|j: int| 0 <= j < i ==> ((#[trigger] self.classes@[j]).label@, self.classes@[j].emphasized) == blank_unexempt(before)[j],
                forall|j: int| i <= j < orig.len() ==> #[trigger] self.classes@[j] == orig[j],
            decreases self.classes.len() - i,
        {
            let keep = text_is(&self.classes[i].label, "Chant") || text_is(&self.classes[i].label, "Instro")
                || text_is(&self.classes[i].label, "Lunch");
            assert(before[i as int] == (orig[i as int].label@, orig[i as int].emphasized));
            if !keep {
                self.classes[i] = Slot { label: " ".to_owned(), emphasized: false };
            }
            i = i + 1;
        }
        assert forall|j: int| 0 <= j < orig.len() implies #[trigger] slots_view(self.classes@)[j] == blank_unexempt(before)[j] by {
            assert(((self.classes@[j]).label@, self.classes@[j].emphasized) == blank_unexempt(before)[j]);
        }
        assert(slots_view(self.classes@) =~= blank_unexempt(before));
    }

    /// Applies one override row `f` of the day.
    fn apply(&mut self, f: &Vec<String>)
        ensures
            final(self)@ == apply_row(old(self)@, f.deep_view()),
    {
        let ghost fv = f.deep_view();
        let r1: &str = if f.len() > 1 { f[1].as_str() } else { "" };
        let payload: &str = if f.len() > 2 { f[2].as_str() } else { "" };
        proof {
            reveal_strlit("");
        }
        assert(r1@ =~= (if fv.len() > 1 { fv[1] } else { Seq::empty() }));
        assert(payload@ =~= (if fv.len() > 2 { fv[2] } else { Seq::empty() }));
        let len = self.classes.len();
        match parse_position(r1, len as u128 + 1) {
            Some(p) => {
                if 1 <= p && p <= len as u128 {
                    let k = (p - 1) as usize;
                    self.classes[k] = Slot { label: payload.to_owned(), emphasized: true };
                    assert(slots_view(self.classes@) =~= substitute(old(self)@.classes, p as int, payload@));
                }
            },
            None => {
                let ctd = "CTD".to_owned();
                let is_ctd = text_is(&ctd, r1);
                let kind = payload.to_owned();
                if is_ctd && text_is(&kind, "ProductionWeek") {
                    self.blank_periods();
                    self.ctd = Some("Production Day".to_owned());
                    self.ctdcolor = Some("#4e94af".to_owned());
                } else if is_ctd && text_is(&kind, "ProductionWeekShow") {
                    self.ctd = Some("Show!".to_owned());
                    self.ctdcolor = Some("#cb762d".to_owned());
                }
            },
        }
    }

    /// The overrides of the rows keyed `key` in `rows`, applied in table
    /// order to `classes`.
    pub fn alter_in_records(key: &String, classes: Vec<String>, rows: &Vec<Option<Vec<String>>>) -> (r: LookupAlter)
        ensures
            r@ == alter_rows(rows.deep_view(), key@, plain_state(classes.deep_view())),
    {
        let ghost all = rows.deep_view();
        let ghost init = plain_state(classes.deep_view());
        let mut st = Self::plain(classes);
        let mut i: usize = 0;
        assert(all.take(0) =~= Seq::<Option<Seq<Seq<char>>>>::empty());
        while i < rows.len()
            invariant
                i <= rows.len(),
                all == rows.deep_view(),
                st@ == alter_rows(all.take(i as int), key@, init),
            decreases rows.len() - i,
        {
            proof {
                assert(all.take(i + 1).drop_last() =~= all.take(i as int));
            }
            match &rows[i] {
                None => {},
                Some(f) => {
                    if f.len() > 0 && f[0].eq(key) {
                        st.apply(f);
                    }
                },
            }
            i = i + 1;
        }
        assert(all.take(i as int) =~= all);
        st
    }

    /// The overrides of `date` in the table `lookup`, applied in table order
    /// to `classes`; where the table could not be read, `classes` unchanged.
    pub fn alter(date: &Date, classes: Vec<String>, lookup: &Option<String>) -> (r: LookupAlter)
        requires
            date.wf(),
        ensures
            r@ == alter_of(lookup.deep_view(), key_of(*date), classes.deep_view()),
    {
        match lookup {
            None => Self::plain(classes),
            Some(text) => {
                let key = date.key();
                let rows = read_records(text.as_str());
                Self::alter_in_records(&key, classes, &rows)
            },
        }
    }

    /// The periods as shown: an emphasized one in bold italics.
    pub fn html(&self) -> (r: Vec<String>)
        ensures
            r.deep_view() == render_all(self@.classes),
    {
        let mut out: Vec<String> = Vec::new();
        let mut i: usize = 0;
        while i < self.classes.len()
            invariant
                i <= self.classes.len(),
                out@.len() == i,
                out.deep_view() =~= render_all(self@.classes).take(i as int),
            decreases self.classes.len() - i,
        {
            let slot = &self.classes[i];
            if slot.emphasized {
                let mut s = "<b><i>".to_owned();
                s.append(slot.label.as_str());
                s.append("</i></b>");
                out.push(s);
            } else {
                out.push(slot.label.clone());
            }
            proof {
                assert(out.deep_view() =~= render_all(self@.classes).take(i + 1));
            }
            i = i + 1;
        }
        out
    }
}

} // verus!
