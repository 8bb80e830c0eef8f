//! The minute at which a line is written, and how it stands in the line.

use vstd::prelude::*;

verus! {

/// The first year that a [`Minute`] can hold.
pub const MIN_YEAR: i32 = -262_143;

/// The last year that a [`Minute`] can hold.
pub const MAX_YEAR: i32 = 262_142;

/// Whether February has 29 days in `year` of the Gregorian calendar, taken
/// backwards too.
pub open spec fn is_leap_year(year: int) -> bool {
    year % 4 == 0 && (year % 100 != 0 || year % 400 == 0)
}

/// The number of days of a month.
pub open spec fn days_in_month(year: int, month: int) -> int {
    if month == 2 {
        if is_leap_year(year) {
            29
        } else {
            28
        }
    } else if month == 4 || month == 6 || month == 9 || month == 11 {
        30
    } else {
        31
    }
}

/// A [`Minute`] as plain numbers.
pub struct MinuteView {
    pub year: int,
    pub month: int,
    pub day: int,
    pub hour: int,
    pub minute: int,
}

impl MinuteView {
    /// A day of the calendar and a minute of that day.
    pub open spec fn is_valid(self) -> bool {
        &&& MIN_YEAR <= self.year <= MAX_YEAR
        &&& 1 <= self.month <= 12
        &&& 1 <= self.day <= days_in_month(self.year, self.month)
        &&& 0 <= self.hour < 24
        &&& 0 <= self.minute < 60
    }
}

/// The character for a number below ten.
pub open spec fn digit(n: int) -> char {
    if n == 0 {
        '0'
    } else if n == 1 {
        '1'
    } else if n == 2 {
        '2'
    } else if n == 3 {
        '3'
    } else if n == 4 {
        '4'
    } else if n == 5 {
        '5'
    } else if n == 6 {
        '6'
    } else if n == 7 {
        '7'
    } else if n == 8 {
        '8'
    } else {
        '9'
    }
}

/// `n` in decimal, with zeros in front where it has fewer than `width`
/// digits.
pub open spec fn decimal(n: nat, width: nat) -> Seq<char>
    decreases n + width,
{
    if n < 10 && width <= 1 {
        seq![digit(n as int)]
    } else {
        decimal(n / 10, if width > 0 { (width - 1) as nat } else { 0 }).push(digit((n % 10) as int))
    }
}

/// A year as it is written in a timestamp: with four digits from 0000 to
/// 9999, and otherwise with its sign and at least four digits.
pub open spec fn year_text(year: int) -> Seq<char> {
    if 0 <= year <= 9999 {
        decimal(year as nat, 4)
    } else if year > 9999 {
        "+"@ + decimal(year as nat, 4)
    } else {
        "-"@ + decimal((-year) as nat, 4)
    }
}

/// A minute as it is written in a log line: `DD.MM.YYYY HH:MM`.
pub open spec fn stamp_text(at: MinuteView) -> Seq<char> {
    decimal(at.day as nat, 2) + "."@ + decimal(at.month as nat, 2) + "."@ + year_text(at.year)
        + " "@ + decimal(at.hour as nat, 2) + ":"@ + decimal(at.minute as nat, 2)
}

/// One of the ten decimal digits.
pub open spec fn is_digit(c: char) -> bool {
    '0' <= c && c <= '9'
}

/// Decimal digits from the first character to the last.
pub open spec fn all_digits(text: Seq<char>) -> bool {
    forall|i: int| 0 <= i < text.len() ==> is_digit(#[trigger] text[i])
}

/// The shape of a year: four digits, or a sign followed by at least four
/// digits.
pub open spec fn is_year(text: Seq<char>) -> bool {
    ||| text.len() == 4 && all_digits(text)
    ||| text.len() >= 5 && (text[0] == '+' || text[0] == '-') && all_digits(text.skip(1))
}

/// The shape `DD.MM.YYYY HH:MM`: day, month, year, hour and minute, each
/// of the four short fields written with two digits.
pub open spec fn is_timestamp(text: Seq<char>) -> bool {
    let n = text.len() as int;
    &&& n >= 16
    &&& all_digits(text.subrange(0, 2)) && text[2] == '.'
    &&& all_digits(text.subrange(3, 5)) && text[5] == '.'
    &&& is_year(text.subrange(6, n - 6))
    &&& text[n - 6] == ' '
    &&& all_digits(text.subrange(n - 5, n - 3)) && text[n - 3] == ':'
    &&& all_digits(text.subrange(n - 2, n))
}

/// The characters that a timestamp is made of.
pub open spec fn is_timestamp_char(c: char) -> bool {
    is_digit(c) || c == '.' || c == ':' || c == ' ' || c == '+' || c == '-'
}

/// A minute of the Gregorian calendar, between the years [`MIN_YEAR`] and
/// [`MAX_YEAR`].
#[derive(Clone, Copy, Debug, PartialEq, Eq)]
pub struct Minute {
    year: i32,
    month: u32,
    day: u32,
    hour: u32,
    minute: u32,
}

impl View for Minute {
    type V = MinuteView;

    closed spec fn view(&self) -> MinuteView {
        MinuteView {
            year: self.year as int,
            month: self.month as int,
            day: self.day as int,
            hour: self.hour as int,
            minute: self.minute as int,
        }
    }
}

impl Minute {
    /// Every minute that a program holds is valid.
    #[verifier::type_invariant]
    pub open spec fn is_in_calendar(self) -> bool {
        self@.is_valid()
    }

    /// The minute with these numbers, if the calendar has it: the day must
    /// exist in its month and year, and the hour and the minute in a day.
    pub fn new(year: i32, month: u32, day: u32, hour: u32, minute: u32) -> (at: Option<Minute>)
        ensures
            at is Some <==> (MinuteView {
                year: year as int,
                month: month as int,
                day: day as int,
                hour: hour as int,
                minute: minute as int,
            }).is_valid(),
            at matches Some(m) ==> m@ == (MinuteView {
                year: year as int,
                month: month as int,
                day: day as int,
                hour: hour as int,
                minute: minute as int,
            }),
    {
        if year < MIN_YEAR || year > MAX_YEAR || month < 1 || month > 12 {
            return None;
        }
        if day < 1 || day > days_of(year, month) || hour >= 24 || minute >= 60 {
            return None;
        }
        Some(Minute { year, month, day, hour, minute })
    }

    /// The minute as it stands in a log line.
    pub fn timestamp(&self) -> (text: String)
        ensures
            text@ == stamp_text(self@),
            is_timestamp(text@),
    {
        proof {
            use_type_invariant(self);
            lemma_stamp_is_timestamp(self@);
        }
        match chrono_stamp(*self) {
            Some(text) => text,
            None => unreached(),
        }
    }
}

/// The number of days of a month.
fn days_of(year: i32, month: u32) -> (days: u32)
    requires
        MIN_YEAR <= year <= MAX_YEAR,
        1 <= month <= 12,
    ensures
        days == days_in_month(year as int, month as int),
{
    if month == 2 {
        // 262400 years are a whole number of 400-year cycles.
        let shifted: i32 = year + 262_400;
        if shifted % 4 == 0 && (shifted % 100 != 0 || shifted % 400 == 0) {
            29
        } else {
            28
        }
    } else if month == 4 || month == 6 || month == 9 || month == 11 {
        30
    } else {
        31
    }
}

/// Has chrono write the minute: `NaiveDate::from_ymd_opt` takes year, month
/// and day, `NaiveDate::and_hms_opt` hour and minute with second 0, and
/// `NaiveDateTime::format` with the pattern `%d.%m.%Y %H:%M`, followed by
/// `to_string`, writes them. chrono accepts every day of the Gregorian
/// calendar between its first and its last year, and every hour below 24
/// and minute below 60. It writes day, month, hour and minute zero-padded
/// to two digits and the year zero-padded to four, with its sign before a
/// year outside of 0000 to 9999, and puts the pattern's `.`, space and `:`
/// between them.
#[verifier::external_body]
fn chrono_stamp(at: Minute) -> (text: Option<String>)
    ensures
        at@.is_valid() ==> text is Some,
        text matches Some(written) ==> written@ == stamp_text(at@),
{
    let date = chrono::NaiveDate::from_ymd_opt(at.year, at.month, at.day)?;
    let minute = date.and_hms_opt(at.hour, at.minute, 0)?;
    Some(minute.format("%d.%m.%Y %H:%M").to_string())
}

/// Every character written for a number is a digit, and there are at
/// least as many as the width asks for.
pub proof fn lemma_decimal_is_digits(n: nat, width: nat)
    ensures
        all_digits(decimal(n, width)),
        decimal(n, width).len() >= width,
        decimal(n, width).len() >= 1,
    decreases n + width,
{
    if !(n < 10 && width <= 1) {
        let rest: nat = if width > 0 { (width - 1) as nat } else { 0 };
        lemma_decimal_is_digits(n / 10, rest);
        let head = decimal(n / 10, rest);
        assert forall|i: int| 0 <= i < decimal(n, width).len() implies is_digit(
            #[trigger] decimal(n, width)[i],
        ) by {
            if i < head.len() {
                assert(decimal(n, width)[i] == head[i]);
            }
        }
    }
}

/// A number below 100 is written with two digits at width two, a number
/// below 10000 with four digits at width four.
pub proof fn lemma_decimal_has_its_width(n: nat)
    ensures
        n < 100 ==> decimal(n, 2).len() == 2,
        n < 10000 ==> decimal(n, 4).len() == 4,
{
    reveal_with_fuel(decimal, 5);
}

/// The text of a year has the shape of one.
pub proof fn lemma_year_text_is_year(year: int)
    ensures
        is_year(year_text(year)),
{
    reveal_strlit("+");
    reveal_strlit("-");
    if 0 <= year <= 9999 {
        lemma_decimal_is_digits(year as nat, 4);
        lemma_decimal_has_its_width(year as nat);
    } else {
        let size: nat = if year > 9999 { year as nat } else { (-year) as nat };
        lemma_decimal_is_digits(size, 4);
        assert(year_text(year).skip(1) == decimal(size, 4));
    }
}

/// A valid minute is written in the shape `DD.MM.YYYY HH:MM`.
pub proof fn lemma_stamp_is_timestamp(at: MinuteView)
    requires
        at.is_valid(),
    ensures
        is_timestamp(stamp_text(at)),
{
    let day = decimal(at.day as nat, 2);
    let month = decimal(at.month as nat, 2);
    let year = year_text(at.year);
    let hour = decimal(at.hour as nat, 2);
    let minute = decimal(at.minute as nat, 2);
    let text = stamp_text(at);
    let n = text.len() as int;
    reveal_strlit(".");
    reveal_strlit(" ");
    reveal_strlit(":");
    lemma_decimal_is_digits(at.day as nat, 2);
    lemma_decimal_is_digits(at.month as nat, 2);
    lemma_decimal_is_digits(at.hour as nat, 2);
    lemma_decimal_is_digits(at.minute as nat, 2);
    lemma_decimal_has_its_width(at.day as nat);
    lemma_decimal_has_its_width(at.month as nat);
    lemma_decimal_has_its_width(at.hour as nat);
    lemma_decimal_has_its_width(at.minute as nat);
    lemma_year_text_is_year(at.year);
    assert(n == year.len() + 12);
    assert(text.subrange(0, 2) == day);
    assert(text.subrange(3, 5) == month);
    assert(text.subrange(6, n - 6) == year);
    assert(text.subrange(n - 5, n - 3) == hour);
    assert(text.subrange(n - 2, n) == minute);
}

/// A timestamp holds digits, the three separators and at most a sign:
/// no control character and no line break.
pub proof fn lemma_timestamp_chars(text: Seq<char>)
    requires
        is_timestamp(text),
    ensures
        forall|i: int| 0 <= i < text.len() ==> is_timestamp_char(#[trigger] text[i]),
{
    let n = text.len() as int;
    let year = text.subrange(6, n - 6);
    assert forall|i: int| 0 <= i < n implies is_timestamp_char(#[trigger] text[i]) by {
        if i < 2 {
            assert(text[i] == text.subrange(0, 2)[i]);
        } else if 3 <= i < 5 {
            assert(text[i] == text.subrange(3, 5)[i - 3]);
        } else if 6 <= i < n - 6 {
            assert(text[i] == year[i - 6]);
            if year.len() != 4 && i > 6 {
                assert(year[i - 6] == year.skip(1)[i - 7]);
            }
        } else if n - 5 <= i < n - 3 {
            assert(text[i] == text.subrange(n - 5, n - 3)[i - (n - 5)]);
        } else if n - 2 <= i {
            assert(text[i] == text.subrange(n - 2, n)[i - (n - 2)]);
        }
    }
}

} // verus!
