//! Calendar dates and the month buckets that shard transaction history.
use vstd::prelude::*;
use vstd::arithmetic::div_mod::{lemma_fundamental_div_mod_converse, lemma_mod_multiples_vanish};
use chrono::Datelike;

verus! {

/// Earliest year that a date may have.
pub const MIN_YEAR: i32 = -262143;

/// Latest year that a date may have.
pub const MAX_YEAR: i32 = 262142;

/// A proleptic Gregorian calendar date.
#[derive(Clone, Copy, Debug, PartialEq, Eq, Structural)]
pub struct Date {
    pub year: i32,
    pub month: u32,
    pub day: u32,
}

/// An inclusive range of dates lying within one calendar month.
#[derive(Clone, Copy, Debug, PartialEq, Eq, Structural)]
pub struct MonthRange {
    pub start: Date,
    pub end: Date,
}

pub open spec fn is_leap_year(y: int) -> bool {
    y % 4 == 0 && (y % 100 != 0 || y % 400 == 0)
}

pub open spec fn days_in_month_spec(y: int, m: int) -> int {
    if m == 2 {
        if is_leap_year(y) { 29 } else { 28 }
    } else if m == 4 || m == 6 || m == 9 || m == 11 {
        30
    } else {
        31
    }
}

pub open spec fn ymd(y: int, m: int, d: int) -> Date {
    Date { year: y as i32, month: m as u32, day: d as u32 }
}

impl Date {
    /// The date exists and lies within the supported years.
    pub open spec fn wf(self) -> bool {
        &&& MIN_YEAR <= self.year <= MAX_YEAR
        &&& 1 <= self.month <= 12
        &&& 1 <= self.day <= days_in_month_spec(self.year as int, self.month as int)
    }

    /// Months counted from January of year zero.
    pub open spec fn month_index(self) -> int {
        self.year * 12 + (self.month - 1)
    }

    pub open spec fn le(self, other: Date) -> bool {
        ||| self.year < other.year
        ||| (self.year == other.year && self.month < other.month)
        ||| (self.year == other.year && self.month == other.month && self.day <= other.day)
    }
}

/// The first day of the month with the given index.
pub open spec fn month_first(k: int) -> Date {
    ymd(k / 12, k % 12 + 1, 1)
}

/// The last day of the month with the given index.
pub open spec fn month_last(k: int) -> Date {
    ymd(k / 12, k % 12 + 1, days_in_month_spec(k / 12, k % 12 + 1))
}

pub open spec fn first_of_month(d: Date) -> Date {
    Date { day: 1, ..d }
}

/// The calendar day after `d`.
pub open spec fn next_day(d: Date) -> Date {
    if (d.day as int) < days_in_month_spec(d.year as int, d.month as int) {
        Date { day: (d.day + 1) as u32, ..d }
    } else if d.month < 12 {
        ymd(d.year as int, d.month + 1, 1)
    } else {
        ymd(d.year + 1, 1, 1)
    }
}

/// The calendar day before `d`.
pub open spec fn prev_day(d: Date) -> Date {
    if d.day > 1 {
        Date { day: (d.day - 1) as u32, ..d }
    } else if d.month > 1 {
        ymd(d.year as int, d.month - 1, days_in_month_spec(d.year as int, d.month - 1))
    } else {
        ymd(d.year - 1, 12, 31)
    }
}

/// The date `n` days before `d`.
pub open spec fn days_before(d: Date, n: nat) -> Date
    decreases n,
{
    if n == 0 {
        d
    } else {
        prev_day(days_before(d, (n - 1) as nat))
    }
}

/// The bucket for month `k` of a range that ends on `end`.
pub open spec fn month_bucket(k: int, end: Date) -> MonthRange {
    MonthRange {
        start: month_first(k),
        end: if k == end.month_index() { end } else { month_last(k) },
    }
}

/// The number of buckets between the months of `start` and `end`.
pub open spec fn month_count(start: Date, end: Date) -> int {
    if end.month_index() < start.month_index() {
        0
    } else {
        end.month_index() - start.month_index() + 1
    }
}

/// The month buckets of `[start, end]`: one for each month from that of
/// `start` to that of `end`, running from the month's first day to its last
/// day, or to `end` in the final month.
pub open spec fn month_buckets(start: Date, end: Date) -> Seq<MonthRange> {
    Seq::new(month_count(start, end) as nat, |i: int| month_bucket(start.month_index() + i, end))
}

/// Whether `year` is a leap year.
pub fn leap_year(year: i32) -> (r: bool)
    requires
        MIN_YEAR <= year <= MAX_YEAR,
    ensures
        r == is_leap_year(year as int),
{
    // Shifted by a multiple of 400 years, which keeps every remainder used here.
    let shifted: u32 = (year + 262400) as u32;
    proof {
        let y = year as int;
        lemma_mod_multiples_vanish(65600, y, 4);
        lemma_mod_multiples_vanish(2624, y, 100);
        lemma_mod_multiples_vanish(656, y, 400);
        assert(4 * 65600 + y == shifted as int);
        assert(100 * 2624 + y == shifted as int);
        assert(400 * 656 + y == shifted as int);
    }
    shifted % 4 == 0 && (shifted % 100 != 0 || shifted % 400 == 0)
}

/// Number of days in month `month` of `year`.
pub fn days_in_month(year: i32, month: u32) -> (r: u32)
    requires
        MIN_YEAR <= year <= MAX_YEAR,
        1 <= month <= 12,
    ensures
        r == days_in_month_spec(year as int, month as int),
{
    if month == 2 {
        if leap_year(year) {
            29
        } else {
            28
        }
    } else if month == 4 || month == 6 || month == 9 || month == 11 {
        30
    } else {
        31
    }
}

impl Date {
    /// The date with the given fields, if it exists in the supported years.
    pub fn new(year: i32, month: u32, day: u32) -> (r: Option<Date>)
        ensures
            r matches Some(d) ==> d == (Date { year, month, day }),
            r is Some <==> (Date { year, month, day }).wf(),
    {
        if year < MIN_YEAR || year > MAX_YEAR || month < 1 || month > 12 || day < 1 {
            return None;
        }
        if day > days_in_month(year, month) {
            return None;
        }
        Some(Date { year, month, day })
    }
}

/// `d` itself when it is the first of its month, else the first day of the
/// following month.
pub open spec fn round_up_to_month(d: Date) -> Date {
    if d.day == 1 {
        d
    } else {
        month_first(d.month_index() + 1)
    }
}

pub open spec fn digit_char(d: int) -> char {
    if d == 0 { '0' } else if d == 1 { '1' } else if d == 2 { '2' } else if d == 3 { '3' }
    else if d == 4 { '4' } else if d == 5 { '5' } else if d == 6 { '6' } else if d == 7 { '7' }
    else if d == 8 { '8' } else { '9' }
}

/// The decimal digits of `v`, without leading zeros.
pub open spec fn decimal_digits(v: nat) -> Seq<char>
    decreases v,
{
    if v < 10 {
        seq![digit_char(v as int)]
    } else {
        decimal_digits(v / 10).push(digit_char((v % 10) as int))
    }
}

/// `s` preceded by as many zeros as make it `width` characters long.
pub open spec fn zero_padded(s: Seq<char>, width: nat) -> Seq<char> {
    if s.len() < width {
        Seq::new((width - s.len()) as nat, |i: int| '0') + s
    } else {
        s
    }
}

/// A year written with at least four digits, signed outside years 0 to 9999.
pub open spec fn year_text(y: int) -> Seq<char> {
    if 0 <= y <= 9999 {
        zero_padded(decimal_digits(y as nat), 4)
    } else if y < 0 {
        seq!['-'] + zero_padded(decimal_digits((-y) as nat), 4)
    } else {
        seq!['+'] + zero_padded(decimal_digits(y as nat), 4)
    }
}

/// `YYYY-MM` for a month.
pub open spec fn month_label_spec(year: int, month: int) -> Seq<char> {
    year_text(year) + seq!['-'] + zero_padded(decimal_digits(month as nat), 2)
}

proof fn lemma_month_index_split(y: int, m: int)
    requires
        1 <= m <= 12,
    ensures
        (y * 12 + (m - 1)) / 12 == y,
        (y * 12 + (m - 1)) % 12 == m - 1,
{
    lemma_fundamental_div_mod_converse(y * 12 + (m - 1), 12, y, m - 1);
}

proof fn lemma_month_first_of(d: Date)
    requires
        d.wf(),
    ensures
        month_first(d.month_index()) == first_of_month(d),
        month_last(d.month_index()).year == d.year,
        month_last(d.month_index()).month == d.month,
        month_last(d.month_index()).day == days_in_month_spec(d.year as int, d.month as int),
{
    lemma_month_index_split(d.year as int, d.month as int);
}

/// The fields of the first and last day of month `k`.
proof fn lemma_month_fields(k: int)
    requires
        MIN_YEAR * 12 <= k < (MAX_YEAR + 1) * 12,
    ensures
        MIN_YEAR <= k / 12 <= MAX_YEAR,
        0 <= k % 12 < 12,
        k == (k / 12) * 12 + k % 12,
        month_first(k).year == k / 12,
        month_first(k).month == k % 12 + 1,
        month_first(k).day == 1,
        month_first(k).wf(),
        month_last(k).year == k / 12,
        month_last(k).month == k % 12 + 1,
        month_last(k).day == days_in_month_spec(k / 12, k % 12 + 1),
        month_last(k).wf(),
        month_first(k).month_index() == k,
        month_last(k).month_index() == k,
{
    assert(k == (k / 12) * 12 + k % 12);
}

/// The month after month `k` starts the day after month `k` ends.
proof fn lemma_next_day_of_month_last(k: int)
    requires
        MIN_YEAR * 12 <= k,
        k + 1 < (MAX_YEAR + 1) * 12,
    ensures
        next_day(month_last(k)) == month_first(k + 1),
{
    lemma_month_fields(k);
    lemma_month_fields(k + 1);
    let y = k / 12;
    let m = k % 12 + 1;
    if m < 12 {
        lemma_fundamental_div_mod_converse(k + 1, 12, y, m);
    } else {
        lemma_fundamental_div_mod_converse(k + 1, 12, y + 1, 0);
    }
}

/// What holds of bucket `i` of the buckets of `[start, end]`.
proof fn lemma_bucket_facts(start: Date, end: Date, i: int)
    requires
        start.wf(),
        end.wf(),
        start.month_index() <= end.month_index(),
        0 <= i <= end.month_index() - start.month_index(),
    ensures
        ({
            let c = month_bucket(start.month_index() + i, end);
            &&& c.start.wf()
            &&& c.end.wf()
            &&& c.start.day == 1
            &&& c.start.le(c.end)
            &&& c.end.le(end)
            &&& c.start.month_index() == c.end.month_index()
        }),
{
    lemma_month_first_of(start);
    lemma_month_first_of(end);
    lemma_month_fields(start.month_index() + i);
    lemma_month_fields(end.month_index());
}

/// The month buckets of a range partition it: the first starts on the first
/// day of the month of `start`, each next one starts the day after the one
/// before it ends, the last ends on `end`, and every bucket lies within one
/// month and ends no later than `end`.
pub proof fn lemma_month_buckets_partition(start: Date, end: Date)
    requires
        start.wf(),
        end.wf(),
        start.le(end),
    ensures
        month_buckets(start, end).len() >= 1,
        month_buckets(start, end)[0].start == first_of_month(start),
        month_buckets(start, end).last().end == end,
        forall|i: int|
            0 <= i < month_buckets(start, end).len() - 1 ==> next_day(
                #[trigger] month_buckets(start, end)[i].end,
            ) == month_buckets(start, end)[i + 1].start,
        forall|i: int|
            0 <= i < month_buckets(start, end).len() ==> {
                let b = #[trigger] month_buckets(start, end)[i];
                &&& b.start.wf()
                &&& b.end.wf()
                &&& b.start.day == 1
                &&& b.start.le(b.end)
                &&& b.end.le(end)
                &&& b.start.month_index() == b.end.month_index()
            },
{
    let b = month_buckets(start, end);
    let k0 = start.month_index();
    let k1 = end.month_index();
    lemma_bucket_ends(start, end);
    assert forall|i: int| 0 <= i < b.len() - 1 implies next_day(#[trigger] b[i].end) == b[i + 1].start by {
        assert(b[i] == month_bucket(k0 + i, end));
        assert(b[i + 1] == month_bucket(k0 + i + 1, end));
        lemma_next_day_of_month_last(k0 + i);
    }
    assert forall|i: int| 0 <= i < b.len() implies {
        let c = #[trigger] b[i];
        &&& c.start.wf()
        &&& c.end.wf()
        &&& c.start.day == 1
        &&& c.start.le(c.end)
        &&& c.end.le(end)
        &&& c.start.month_index() == c.end.month_index()
    } by {
        assert(b[i] == month_bucket(k0 + i, end));
        lemma_bucket_facts(start, end, i);
    }
}

/// The first bucket starts on the first of the month of `start`; the last
/// ends on `end`.
proof fn lemma_bucket_ends(start: Date, end: Date)
    requires
        start.wf(),
        end.wf(),
        start.le(end),
    ensures
        month_buckets(start, end).len() == end.month_index() - start.month_index() + 1,
        month_buckets(start, end)[0].start == first_of_month(start),
        month_buckets(start, end).last().end == end,
{
    lemma_month_first_of(start);
    lemma_month_first_of(end);
}

/// The month buckets between the months of `start` and `end`.
pub fn months(start: Date, end: Date) -> (r: Vec<MonthRange>)
    requires
        start.wf(),
        end.wf(),
    ensures
        r@ == month_buckets(start, end),
{
    let mut r: Vec<MonthRange> = Vec::new();
    let mut year: i32 = start.year;
    let mut month: u32 = start.month;
    proof {
        lemma_month_first_of(start);
        lemma_month_first_of(end);
    }
    while year < end.year || (year == end.year && month <= end.month)
        invariant
            start.wf(),
            end.wf(),
            MIN_YEAR <= year <= MAX_YEAR + 1,
            1 <= month <= 12,
            year * 12 + (month - 1) == start.month_index() + r.len(),
            r.len() > 0 ==> year * 12 + (month - 1) <= end.month_index() + 1,
            forall|i: int|
                0 <= i < r.len() ==> r@[i] == month_bucket(start.month_index() + i, end),
        decreases end.month_index() + 1 - (year * 12 + (month - 1)),
    {
        let k = Ghost(year * 12 + (month - 1));
        proof {
            lemma_month_index_split(year as int, month as int);
            lemma_month_fields(k@);
        }
        let last = if year == end.year && month == end.month {
            end
        } else {
            Date { year, month, day: days_in_month(year, month) }
        };
        r.push(MonthRange { start: Date { year, month, day: 1 }, end: last });
        if month == 12 {
            year = year + 1;
            month = 1;
        } else {
            month = month + 1;
        }
    }
    proof {
        assert(r@ =~= month_buckets(start, end));
    }
    r
}

/// Relies on chrono's `NaiveDate::checked_sub_days`: the date `n` days
/// earlier, or `None` when `n` exceeds `i32::MAX` or the result would fall
/// before the earliest supported date.
#[verifier::external_body]
fn checked_sub_days(d: Date, n: u64) -> (r: Option<Date>)
    requires
        d.wf(),
    ensures
        r == (if n <= i32::MAX && days_before(d, n as nat).year >= MIN_YEAR {
            Some(days_before(d, n as nat))
        } else {
            None
        }),
        r matches Some(x) ==> x.wf(),
{
    let date = chrono::NaiveDate::from_ymd_opt(d.year, d.month, d.day).expect("valid date");
    match date.checked_sub_days(chrono::Days::new(n)) {
        Some(x) => Some(Date { year: x.year(), month: x.month(), day: x.day() }),
        None => None,
    }
}

/// Relies on chrono's `%Y-%m` formatting of a date: the year zero-padded to
/// four digits (signed outside years 0 to 9999), a dash, the two-digit month.
#[verifier::external_body]
fn format_year_month(d: Date) -> (r: String)
    requires
        d.wf(),
    ensures
        r@ == month_label_spec(d.year as int, d.month as int),
{
    let date = chrono::NaiveDate::from_ymd_opt(d.year, d.month, d.day).expect("valid date");
    date.format("%Y-%m").to_string()
}

/// The `YYYY-MM` label of the month of `d`.
pub fn month_label(d: Date) -> (r: String)
    requires
        d.wf(),
    ensures
        r@ == month_label_spec(d.year as int, d.month as int),
{
    format_year_month(d)
}

/// A window start that is not the first of its month moves to the first day
/// of the following month.
pub proof fn lemma_round_up_moves_to_next_month(d: Date)
    requires
        d.wf(),
        d.day != 1,
        d.year < MAX_YEAR || d.month < 12,
    ensures
        round_up_to_month(d).day == 1,
        round_up_to_month(d).month == (if d.month == 12 { 1 } else { d.month + 1 }),
        round_up_to_month(d).year == (if d.month == 12 { d.year + 1 } else { d.year as int }),
        round_up_to_month(d).wf(),
{
    if d.month == 12 {
        lemma_month_index_split(d.year + 1, 1);
    } else {
        lemma_month_index_split(d.year as int, d.month + 1);
    }
}

/// The window of history to fetch up to `today`: it starts `history_days`
/// before `today`, moved forward to the first of the next month unless it is
/// already a first of the month, and ends on `today`. `None` when the start
/// falls outside the supported dates.
pub fn history_range(today: Date, history_days: u64) -> (r: Option<(Date, Date)>)
    requires
        today.wf(),
    ensures
        r == (if history_days <= i32::MAX && days_before(today, history_days as nat).year >= MIN_YEAR
            && round_up_to_month(days_before(today, history_days as nat)).year <= MAX_YEAR {
            Some((round_up_to_month(days_before(today, history_days as nat)), today))
        } else {
            None
        }),
        r matches Some((s, e)) ==> s.wf() && e.wf() && s.day == 1,
{
    match checked_sub_days(today, history_days) {
        None => None,
        Some(s) => {
            if s.day == 1 {
                Some((s, today))
            } else if s.month == 12 {
                if s.year == MAX_YEAR {
                    proof {
                        lemma_month_index_split(s.year as int + 1, 1);
                    }
                    None
                } else {
                    proof {
                        lemma_month_index_split(s.year as int + 1, 1);
                    }
                    Some((Date { year: s.year + 1, month: 1, day: 1 }, today))
                }
            } else {
                proof {
                    lemma_month_index_split(s.year as int, s.month as int + 1);
                }
                Some((Date { year: s.year, month: s.month + 1, day: 1 }, today))
            }
        }
    }
}

} // verus!
