//! Dates of possibly partial precision, date periods, and the rendering of a
//! period as the canonical display text of a date of birth.
use vstd::prelude::*;
use crate::calendar::{calendar_date_of, days_in_month, decimal_u32, is_calendar_date, is_month_end, parse_decimal, read_calendar_date, CalendarDate};
use crate::text::{copy_text, same_text, zero_pad, zero_padded};

verus! {

/// A date as the document writes it: year, month and day as decimal text.
#[derive(Debug, Default, Clone, PartialEq, Eq)]
pub struct Date {
    pub year: String,
    pub month: String,
    pub day: String,
}

/// One end of a period: the earliest and latest date it may stand for.
#[derive(Debug, Clone, PartialEq, Eq)]
pub struct DatePeriodRange {
    pub from: Date,
    pub to: Date,
    pub approximate: bool,
}

/// A period given by its two ends.
#[derive(Debug, Clone, PartialEq, Eq)]
pub struct DatePeriod {
    pub start: Option<DatePeriodRange>,
    pub end: Option<DatePeriodRange>,
}

/// The month number that a month text denotes once padded to two digits
/// with zeros: 1 to 12, or 0 when it denotes none.
pub open spec fn month_number(m: Seq<char>) -> int {
    let p = zero_padded(m, 2);
    if p.len() == 2 && p[0] == '0' && '1' <= p[1] && p[1] <= '9' {
        (p[1] as u32 - '0' as u32) as int
    } else if p.len() == 2 && p[0] == '1' && '0' <= p[1] && p[1] <= '2' {
        10 + (p[1] as u32 - '0' as u32) as int
    } else {
        0
    }
}

/// The three-letter upper-case name of month `n`.
pub open spec fn month_abbrev(n: int) -> Seq<char> {
    if n == 1 {
        seq!['J', 'A', 'N']
    } else if n == 2 {
        seq!['F', 'E', 'B']
    } else if n == 3 {
        seq!['M', 'A', 'R']
    } else if n == 4 {
        seq!['A', 'P', 'R']
    } else if n == 5 {
        seq!['M', 'A', 'Y']
    } else if n == 6 {
        seq!['J', 'U', 'N']
    } else if n == 7 {
        seq!['J', 'U', 'L']
    } else if n == 8 {
        seq!['A', 'U', 'G']
    } else if n == 9 {
        seq!['S', 'E', 'P']
    } else if n == 10 {
        seq!['O', 'C', 'T']
    } else if n == 11 {
        seq!['N', 'O', 'V']
    } else {
        seq!['D', 'E', 'C']
    }
}

/// The text put before an approximate date.
pub open spec fn circa_text() -> Seq<char> {
    seq!['C', 'I', 'R', 'C', 'A', ' ']
}

/// The text put between the two ends of a range.
pub open spec fn range_text() -> Seq<char> {
    seq![' ', 'T', 'O', ' ']
}

impl Date {
    /// Whether the month text denotes one of the twelve months.
    pub open spec fn has_month(&self) -> bool {
        1 <= month_number(self.month@) <= 12
    }

    /// The same date, field by field.
    pub open spec fn same_date(&self, o: &Date) -> bool {
        self.year@ == o.year@ && self.month@ == o.month@ && self.day@ == o.day@
    }

    /// `YYYY-MM-DD`, month and day padded to two digits.
    pub open spec fn iso_text(&self) -> Seq<char> {
        self.year@ + seq!['-'] + zero_padded(self.month@, 2) + seq!['-'] + zero_padded(
            self.day@,
            2,
        )
    }

    /// `DD MON YYYY`.
    pub open spec fn dmy_text(&self) -> Seq<char> {
        zero_padded(self.day@, 2) + seq![' '] + month_abbrev(month_number(self.month@)) + seq![
            ' ',
        ] + self.year@
    }

    /// `MON YYYY`.
    pub open spec fn my_text(&self) -> Seq<char> {
        month_abbrev(month_number(self.month@)) + seq![' '] + self.year@
    }

    /// The day text is `1`.
    pub open spec fn first_day(&self) -> bool {
        self.day@ == seq!['1']
    }

    /// The month text is `1`.
    pub open spec fn first_month(&self) -> bool {
        self.month@ == seq!['1']
    }

    /// The month text is `12`.
    pub open spec fn last_month(&self) -> bool {
        self.month@ == seq!['1', '2']
    }

    /// The date is 1 January or 31 December.
    pub open spec fn year_edge(&self) -> bool {
        (self.first_day() && self.first_month()) || (self.last_day() && self.last_month())
    }

    /// The date is the first or the last day of its month.
    pub open spec fn month_edge(&self) -> bool {
        self.first_day() || self.last_day()
    }

    /// The three texts are decimals that name an existing day, and that day
    /// ends its month.
    pub open spec fn last_day(&self) -> bool {
        &&& decimal_u32(self.year@) is Some
        &&& decimal_u32(self.month@) is Some
        &&& decimal_u32(self.day@) is Some
        &&& {
            let y = decimal_u32(self.year@)->0 as int;
            let m = decimal_u32(self.month@)->0 as int;
            let d = decimal_u32(self.day@)->0 as int;
            is_calendar_date(y, m, d) && d == days_in_month(y, m)
        }
    }

    /// The calendar date that the texts name; `None` when they are not
    /// decimals or name no day.
    pub fn to_sql_date(&self) -> (r: Option<CalendarDate>)
        ensures
            r == calendar_date_of(self.year@, self.month@, self.day@),
    {
        read_calendar_date(self.year.as_str(), self.month.as_str(), self.day.as_str())
    }

    /// The date as `YYYY-MM-DD`.
    pub fn to_string_date(&self) -> (r: String)
        ensures
            r@ == self.iso_text(),
    {
        let mut r = copy_text(self.year.as_str());
        proof {
            reveal_strlit("-");
        }
        r.append("-");
        let m = zero_pad(self.month.as_str(), 2);
        r.append(m.as_str());
        r.append("-");
        let d = zero_pad(self.day.as_str(), 2);
        r.append(d.as_str());
        r
    }

    /// The date as `DD MON YYYY`.
    pub fn to_ofac_string_dmy(&self) -> (r: String)
        requires
            self.has_month(),
        ensures
            r@ == self.dmy_text(),
    {
        let mut r = zero_pad(self.day.as_str(), 2);
        proof {
            reveal_strlit(" ");
        }
        r.append(" ");
        let m = self.format_month();
        r.append(m.as_str());
        r.append(" ");
        r.append(self.year.as_str());
        r
    }

    /// The date as `MON YYYY`.
    pub fn to_ofac_string_my(&self) -> (r: String)
        requires
            self.has_month(),
        ensures
            r@ == self.my_text(),
    {
        let mut r = self.format_month();
        proof {
            reveal_strlit(" ");
        }
        r.append(" ");
        r.append(self.year.as_str());
        r
    }

    /// The three-letter name of the month.
    pub fn format_month(&self) -> (r: String)
        requires
            self.has_month(),
        ensures
            r@ == month_abbrev(month_number(self.month@)),
    {
        let p = zero_pad(self.month.as_str(), 2);
        let c0 = p.as_str().get_char(0);
        let c1 = p.as_str().get_char(1);
        let n: u32 = if c0 == '0' {
            c1 as u32 - '0' as u32
        } else {
            10 + (c1 as u32 - '0' as u32)
        };
        month_name(n)
    }

    /// Whether the day text is `1`.
    pub fn is_first_day_of_month(&self) -> (r: bool)
        ensures
            r == self.first_day(),
    {
        proof {
            reveal_strlit("1");
            assert("1"@ =~= seq!['1']);
        }
        same_text(self.day.as_str(), "1")
    }

    /// Whether the month text is `1`.
    pub fn is_first_month_of_year(&self) -> (r: bool)
        ensures
            r == self.first_month(),
    {
        proof {
            reveal_strlit("1");
            assert("1"@ =~= seq!['1']);
        }
        same_text(self.month.as_str(), "1")
    }

    /// Whether the month text is `12`.
    pub fn is_last_month_of_year(&self) -> (r: bool)
        ensures
            r == self.last_month(),
    {
        proof {
            reveal_strlit("12");
            assert("12"@ =~= seq!['1', '2']);
        }
        same_text(self.month.as_str(), "12")
    }

    /// Whether the date names an existing day that ends its month; text
    /// that is not a date gives `false`.
    pub fn is_last_day_of_month(&self) -> (r: bool)
        ensures
            r == self.last_day(),
    {
        match (
            parse_decimal(self.year.as_str()),
            parse_decimal(self.month.as_str()),
            parse_decimal(self.day.as_str()),
        ) {
            (Some(y), Some(m), Some(d)) => is_month_end(y, m, d),
            _ => false,
        }
    }
}

/// The three-letter upper-case name of month `n`.
fn month_name(n: u32) -> (r: String)
    requires
        1 <= n <= 12,
    ensures
        r@ == month_abbrev(n as int),
{
    proof {
        reveal_strlit("JAN");
        reveal_strlit("FEB");
        reveal_strlit("MAR");
        reveal_strlit("APR");
        reveal_strlit("MAY");
        reveal_strlit("JUN");
        reveal_strlit("JUL");
        reveal_strlit("AUG");
        reveal_strlit("SEP");
        reveal_strlit("OCT");
        reveal_strlit("NOV");
        reveal_strlit("DEC");
    }
    let s = if n == 1 {
        "JAN"
    } else if n == 2 {
        "FEB"
    } else if n == 3 {
        "MAR"
    } else if n == 4 {
        "APR"
    } else if n == 5 {
        "MAY"
    } else if n == 6 {
        "JUN"
    } else if n == 7 {
        "JUL"
    } else if n == 8 {
        "AUG"
    } else if n == 9 {
        "SEP"
    } else if n == 10 {
        "OCT"
    } else if n == 11 {
        "NOV"
    } else {
        "DEC"
    };
    let r = String::from_str(s);
    assert(r@ =~= month_abbrev(n as int));
    r
}

/// Whether `t` is to be qualified as approximate.
pub open spec fn qualified(approximate: bool, t: Seq<char>) -> Seq<char> {
    if approximate {
        circa_text() + t
    } else {
        t
    }
}

impl DatePeriodRange {
    /// Both ends of the range fall in the same year.
    pub open spec fn within_one_year(&self) -> bool {
        self.from.year@ == self.to.year@
    }

    /// The range starts on the first of a month and ends on the last day of
    /// that same month.
    pub open spec fn spans_one_month(&self) -> bool {
        self.from.first_day() && self.to.last_day() && self.within_one_year()
            && self.from.month@ == self.to.month@
    }

    /// The range starts on 1 January and ends on 31 December of one year.
    pub open spec fn spans_one_year(&self) -> bool {
        self.from.first_day() && self.from.first_month() && self.to.last_day()
            && self.to.last_month() && self.within_one_year()
    }
}

/// All four dates of the period are one and the same day.
pub open spec fn is_exact_day(s: &DatePeriodRange, e: &DatePeriodRange) -> bool {
    s.from.same_date(&s.to) && e.from.same_date(&e.to) && s.from.same_date(&e.from)
}

/// The period runs from 1 January to 31 December, all within one year, and
/// the inner ends (the end of the start range, the start of the end range)
/// are each 1 January or 31 December.
pub open spec fn is_exact_year(s: &DatePeriodRange, e: &DatePeriodRange) -> bool {
    s.from.first_day() && s.from.first_month() && e.to.last_day() && e.to.last_month()
        && s.to.year_edge() && e.from.year_edge() && s.within_one_year() && e.within_one_year()
        && s.from.year@ == e.from.year@
}

/// The period runs from the first to the last day of one month, and the
/// inner ends are each the first or the last day of that month.
pub open spec fn is_exact_month(s: &DatePeriodRange, e: &DatePeriodRange) -> bool {
    s.from.first_day() && e.to.last_day() && s.to.month_edge() && e.from.month_edge()
        && s.within_one_year() && e.within_one_year()
        && s.from.year@ == e.from.year@ && s.from.month@ == s.to.month@ && e.from.month@
        == e.to.month@ && s.from.month@ == e.from.month@
}

/// Each end spans one whole year, and the two years differ.
pub open spec fn is_year_range(s: &DatePeriodRange, e: &DatePeriodRange) -> bool {
    s.spans_one_year() && e.spans_one_year() && s.from.year@ != e.from.year@
}

/// Each end spans one whole month of the same year, and the two months differ.
pub open spec fn is_month_range(s: &DatePeriodRange, e: &DatePeriodRange) -> bool {
    s.spans_one_month() && e.spans_one_month() && s.from.year@ == e.from.year@
        && s.from.month@ != e.from.month@
}

/// Each end lies within one year.
pub open spec fn is_day_range(s: &DatePeriodRange, e: &DatePeriodRange) -> bool {
    s.within_one_year() && e.within_one_year()
}

/// The display text of the period with ends `s` and `e`: the first shape that
/// matches, in this order, decides; no shape gives the empty text.
pub open spec fn period_text(s: &DatePeriodRange, e: &DatePeriodRange) -> Seq<char> {
    let approximate = s.approximate || e.approximate;
    if is_exact_day(s, e) {
        qualified(approximate, s.from.dmy_text())
    } else if is_exact_year(s, e) {
        qualified(approximate, s.from.year@)
    } else if is_exact_month(s, e) {
        qualified(approximate, s.from.my_text())
    } else if is_year_range(s, e) {
        s.from.year@ + range_text() + e.from.year@
    } else if is_month_range(s, e) {
        s.from.my_text() + range_text() + e.from.my_text()
    } else if is_day_range(s, e) {
        s.from.dmy_text() + range_text() + e.from.dmy_text()
    } else {
        Seq::empty()
    }
}

impl DatePeriod {
    /// Both ends are given, and the dates that may be written out name a month.
    pub open spec fn renderable(&self) -> bool {
        &&& self.start is Some
        &&& self.end is Some
        &&& self.start->0.from.has_month()
        &&& self.end->0.from.has_month()
    }

    /// The display text of the period.
    pub open spec fn display_text(&self) -> Seq<char>
        recommends
            self.renderable(),
    {
        period_text(&self.start->0, &self.end->0)
    }

    /// Renders the period as `DD MON YYYY`, `YYYY`, `MON YYYY` (each possibly
    /// after `CIRCA `), `YYYY TO YYYY`, `MON YYYY TO MON YYYY` or
    /// `DD MON YYYY TO DD MON YYYY`; empty when no shape matches.
    pub fn classify(&self) -> (r: String)
        requires
            self.renderable(),
        ensures
            r@ == self.display_text(),
    {
        let s = self.start.as_ref().unwrap();
        let e = self.end.as_ref().unwrap();
        let approximate = s.approximate || e.approximate;
        let s_one_year = same_text(s.from.year.as_str(), s.to.year.as_str());
        let e_one_year = same_text(e.from.year.as_str(), e.to.year.as_str());
        let same_year = same_text(s.from.year.as_str(), e.from.year.as_str());
        proof {
            reveal_strlit(" TO ");
            assert(" TO "@ =~= range_text());
        }
        if same_date(&s.from, &s.to) && same_date(&e.from, &e.to) && same_date(&s.from, &e.from) {
            qualify(approximate, s.from.to_ofac_string_dmy())
        } else if s.from.is_first_day_of_month() && s.from.is_first_month_of_year()
            && e.to.is_last_day_of_month() && e.to.is_last_month_of_year() && is_year_edge(&s.to)
            && is_year_edge(&e.from) && s_one_year && e_one_year && same_year {
            qualify(approximate, copy_text(s.from.year.as_str()))
        } else if s.from.is_first_day_of_month() && e.to.is_last_day_of_month() && is_month_edge(
            &s.to,
        ) && is_month_edge(&e.from) && s_one_year && e_one_year && same_year && same_text(s.from.month.as_str(), s.to.month.as_str())
            && same_text(e.from.month.as_str(), e.to.month.as_str()) && same_text(
            s.from.month.as_str(),
            e.from.month.as_str(),
        ) {
            qualify(approximate, s.from.to_ofac_string_my())
        } else if spans_one_year(s) && spans_one_year(e) && !same_year {
            let mut r = copy_text(s.from.year.as_str());
            r.append(" TO ");
            r.append(e.from.year.as_str());
            r
        } else if spans_one_month(s) && spans_one_month(e) && same_year && !same_text(
            s.from.month.as_str(),
            e.from.month.as_str(),
        ) {
            let mut r = s.from.to_ofac_string_my();
            r.append(" TO ");
            let t = e.from.to_ofac_string_my();
            r.append(t.as_str());
            r
        } else if s_one_year && e_one_year {
            let mut r = s.from.to_ofac_string_dmy();
            r.append(" TO ");
            let t = e.from.to_ofac_string_dmy();
            r.append(t.as_str());
            r
        } else {
            String::new()
        }
    }
}

/// Whether the two dates are written alike.
fn same_date(a: &Date, b: &Date) -> (r: bool)
    ensures
        r == a.same_date(b),
{
    same_text(a.year.as_str(), b.year.as_str()) && same_text(a.month.as_str(), b.month.as_str())
        && same_text(a.day.as_str(), b.day.as_str())
}

/// Whether the date is 1 January or 31 December.
fn is_year_edge(d: &Date) -> (r: bool)
    ensures
        r == d.year_edge(),
{
    (d.is_first_day_of_month() && d.is_first_month_of_year()) || (d.is_last_day_of_month()
        && d.is_last_month_of_year())
}

/// Whether the date is the first or the last day of its month.
fn is_month_edge(d: &Date) -> (r: bool)
    ensures
        r == d.month_edge(),
{
    d.is_first_day_of_month() || d.is_last_day_of_month()
}

/// Whether the range spans one whole year.
fn spans_one_year(r: &DatePeriodRange) -> (b: bool)
    ensures
        b == r.spans_one_year(),
{
    r.from.is_first_day_of_month() && r.from.is_first_month_of_year() && r.to.is_last_day_of_month()
        && r.to.is_last_month_of_year() && same_text(r.from.year.as_str(), r.to.year.as_str())
}

/// Whether the range spans one whole month.
fn spans_one_month(r: &DatePeriodRange) -> (b: bool)
    ensures
        b == r.spans_one_month(),
{
    r.from.is_first_day_of_month() && r.to.is_last_day_of_month() && same_text(
        r.from.year.as_str(),
        r.to.year.as_str(),
    ) && same_text(r.from.month.as_str(), r.to.month.as_str())
}

/// `t`, after `CIRCA ` when approximate.
fn qualify(approximate: bool, t: String) -> (r: String)
    ensures
        r@ == qualified(approximate, t@),
{
    if approximate {
        proof {
            reveal_strlit("CIRCA ");
            assert("CIRCA "@ =~= circa_text());
        }
        let mut r = String::from_str("CIRCA ");
        r.append(t.as_str());
        r
    } else {
        t
    }
}

impl DatePeriodRange {
    /// The two ranges are written alike.
    pub open spec fn same_range(&self, o: &DatePeriodRange) -> bool {
        self.from.same_date(&o.from) && self.to.same_date(&o.to) && self.approximate
            == o.approximate
    }
}

/// Rendering is a function of what the period holds: two periods written
/// alike are rendered alike, so rendering one period twice gives the same text.
pub proof fn lemma_classify_deterministic(p: &DatePeriod, q: &DatePeriod)
    requires
        p.renderable(),
        q.renderable(),
        p.start->0.same_range(&q.start->0),
        p.end->0.same_range(&q.end->0),
    ensures
        p.display_text() == q.display_text(),
{
}

/// A period whose four dates are one day is rendered as that day, whichever
/// broader shape it also matches.
pub proof fn lemma_exact_day_first(p: &DatePeriod)
    requires
        p.renderable(),
        is_exact_day(&p.start->0, &p.end->0),
    ensures
        p.display_text() == qualified(
            p.start->0.approximate || p.end->0.approximate,
            p.start->0.from.dmy_text(),
        ),
{
}

impl DatePeriod {
    /// The day a period stands for when each of its ends is a single date:
    /// the start date; `None` otherwise, or when that date names no day.
    pub fn parse_from_to(&self) -> (r: Option<CalendarDate>)
        requires
            self.start is Some,
            self.end is Some,
        ensures
            r == (if self.start->0.from.same_date(&self.start->0.to) && self.end->0.from.same_date(
                &self.end->0.to,
            ) {
                calendar_date_of(
                    self.start->0.from.year@,
                    self.start->0.from.month@,
                    self.start->0.from.day@,
                )
            } else {
                None
            }),
    {
        let s = self.start.as_ref().unwrap();
        let e = self.end.as_ref().unwrap();
        if same_date(&s.from, &s.to) && same_date(&e.from, &e.to) {
            s.from.to_sql_date()
        } else {
            None
        }
    }
}

} // verus!
