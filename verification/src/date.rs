use vstd::prelude::*;

verus! {

/// Earliest year a calendar date may carry (the proleptic Gregorian range of chrono's `NaiveDate`).
pub const MIN_YEAR: i32 = -262143;

/// Latest year a calendar date may carry.
pub const MAX_YEAR: i32 = 262142;

pub open spec fn abs_int(y: int) -> int {
    if y < 0 {
        -y
    } else {
        y
    }
}

/// Proleptic Gregorian leap year rule.
pub open spec fn is_leap_year(y: int) -> bool {
    let a: int = abs_int(y);
    a % 4 == 0 && (a % 100 != 0 || a % 400 == 0)
}

pub open spec fn days_in_month(y: int, m: int) -> int {
    if m == 2 {
        if is_leap_year(y) {
            29
        } else {
            28
        }
    } else if m == 4 || m == 6 || m == 9 || m == 11 {
        30
    } else {
        31
    }
}

/// `(year, month, day)` names an existing day of the supported calendar range.
pub open spec fn is_valid_date(d: (int, int, int)) -> bool {
    &&& MIN_YEAR <= d.0 <= MAX_YEAR
    &&& 1 <= d.1 <= 12
    &&& 1 <= d.2 <= days_in_month(d.0, d.1)
}

/// The day before `d`, or `None` before the first supported day.
pub open spec fn prev_date(d: (int, int, int)) -> Option<(int, int, int)> {
    if d.2 > 1 {
        Some((d.0, d.1, d.2 - 1))
    } else if d.1 > 1 {
        Some((d.0, d.1 - 1, days_in_month(d.0, d.1 - 1)))
    } else if d.0 > MIN_YEAR {
        Some((d.0 - 1, 12, 31))
    } else {
        None
    }
}

/// The day `n` days before `d`, or `None` when that leaves the supported range.
pub open spec fn date_days_before(d: (int, int, int), n: nat) -> Option<(int, int, int)>
    decreases n,
{
    if n == 0 {
        Some(d)
    } else {
        match date_days_before(d, (n - 1) as nat) {
            Some(p) => prev_date(p),
            None => None,
        }
    }
}

pub open spec fn digit_char(k: int) -> char {
    (k + 48) as char
}

/// Decimal digits of `n`, most significant first, without leading zeros.
pub open spec fn decimal(n: nat) -> Seq<char>
    decreases n,
{
    if n < 10 {
        seq![digit_char(n as int)]
    } else {
        decimal(n / 10).push(digit_char((n % 10) as int))
    }
}

/// `s` left-padded with `'0'` to at least four characters.
pub open spec fn zero_pad4(s: Seq<char>) -> Seq<char> {
    if s.len() >= 4 {
        s
    } else {
        Seq::new((4 - s.len()) as nat, |i: int| '0') + s
    }
}

/// The `%Y` rendering of a year: four digits at least, with a sign outside `0..=9999`.
pub open spec fn year_text(y: int) -> Seq<char> {
    if 0 <= y <= 9999 {
        zero_pad4(decimal(y as nat))
    } else if y > 0 {
        seq!['+'] + zero_pad4(decimal(y as nat))
    } else {
        seq!['-'] + zero_pad4(decimal((-y) as nat))
    }
}

/// The `%d` / `%m` rendering of a number below 100.
pub open spec fn two_digits(n: int) -> Seq<char> {
    seq![digit_char(n / 10), digit_char(n % 10)]
}

/// The `%d.%m.%Y` rendering of a date, the form the portal expects.
pub open spec fn dmy_text(d: (int, int, int)) -> Seq<char> {
    two_digits(d.2) + seq!['.'] + two_digits(d.1) + seq!['.'] + year_text(d.0)
}

pub open spec fn date_view_opt(r: Option<ReportDate>) -> Option<(int, int, int)> {
    match r {
        Some(d) => Some(d@),
        None => None,
    }
}

/// A calendar day (proleptic Gregorian), always valid.
#[derive(Clone, Copy, Debug)]
pub struct ReportDate {
    year: i32,
    month: u32,
    day: u32,
}

impl View for ReportDate {
    type V = (int, int, int);

    closed spec fn view(&self) -> (int, int, int) {
        (self.year as int, self.month as int, self.day as int)
    }
}

fn leap_year(y: i32) -> (b: bool)
    ensures
        b == is_leap_year(y as int),
{
    let a: u64 = if y < 0 {
        (0i64 - y as i64) as u64
    } else {
        y as u64
    };
    a % 4 == 0 && (a % 100 != 0 || a % 400 == 0)
}

fn month_length(y: i32, m: u32) -> (n: u32)
    ensures
        n == days_in_month(y as int, m as int),
{
    if m == 2 {
        if leap_year(y) {
            29
        } else {
            28
        }
    } else if m == 4 || m == 6 || m == 9 || m == 11 {
        30
    } else {
        31
    }
}

fn digit_str(k: u32) -> (r: &'static str)
    requires
        k < 10,
    ensures
        r@ == seq![digit_char(k as int)],
{
    if k == 0 {
        proof { reveal_strlit("0"); }
        "0"
    } else if k == 1 {
        proof { reveal_strlit("1"); }
        "1"
    } else if k == 2 {
        proof { reveal_strlit("2"); }
        "2"
    } else if k == 3 {
        proof { reveal_strlit("3"); }
        "3"
    } else if k == 4 {
        proof { reveal_strlit("4"); }
        "4"
    } else if k == 5 {
        proof { reveal_strlit("5"); }
        "5"
    } else if k == 6 {
        proof { reveal_strlit("6"); }
        "6"
    } else if k == 7 {
        proof { reveal_strlit("7"); }
        "7"
    } else if k == 8 {
        proof { reveal_strlit("8"); }
        "8"
    } else {
        proof { reveal_strlit("9"); }
        "9"
    }
}

fn push_decimal(out: &mut String, n: u32)
    ensures
        final(out)@ == old(out)@ + decimal(n as nat),
    decreases n,
{
    if n >= 10 {
        push_decimal(out, n / 10);
    }
    out.append(digit_str(n % 10));
    proof {
        if n >= 10 {
            assert(decimal(n as nat) == decimal((n / 10) as nat).push(digit_char((n % 10) as int)));
        }
    }
}

proof fn lemma_decimal_len(n: nat)
    ensures
        n < 10 ==> decimal(n).len() == 1,
        10 <= n < 100 ==> decimal(n).len() == 2,
        100 <= n < 1000 ==> decimal(n).len() == 3,
        1000 <= n ==> decimal(n).len() >= 4,
        1000 <= n < 10000 ==> decimal(n).len() == 4,
    decreases n,
{
    if n >= 10 {
        lemma_decimal_len(n / 10);
    }
}

fn push_year(out: &mut String, y: i32)
    ensures
        final(out)@ == old(out)@ + year_text(y as int),
{
    let neg = y < 0;
    let a: u32 = if neg {
        (0i64 - y as i64) as u32
    } else {
        y as u32
    };
    let ghost start = out@;
    if y > 9999 {
        proof { reveal_strlit("+"); }
        out.append("+");
    } else if neg {
        proof { reveal_strlit("-"); }
        out.append("-");
    }
    let ghost signed = out@;
    proof { lemma_decimal_len(a as nat); }
    if a < 10 {
        proof { reveal_strlit("000"); }
        out.append("000");
    } else if a < 100 {
        proof { reveal_strlit("00"); }
        out.append("00");
    } else if a < 1000 {
        proof { reveal_strlit("0"); }
        out.append("0");
    }
    let ghost padded = out@;
    push_decimal(out, a);
    proof {
        assert(padded + decimal(a as nat) =~= signed + zero_pad4(decimal(a as nat)));
        if 0 <= y <= 9999 {
            assert(signed == start);
        } else if y > 0 {
            assert(signed == start + seq!['+']);
        } else {
            assert(signed == start + seq!['-']);
        }
        assert(out@ =~= start + year_text(y as int));
    }
}

fn push_two_digits(out: &mut String, n: u32)
    requires
        n < 100,
    ensures
        final(out)@ == old(out)@ + two_digits(n as int),
{
    out.append(digit_str(n / 10));
    out.append(digit_str(n % 10));
    assert(final(out)@ =~= old(out)@ + two_digits(n as int));
}

impl ReportDate {
    #[verifier::type_invariant]
    spec fn valid(self) -> bool {
        is_valid_date(self@)
    }

    /// The date with the given year, month and day, or `None` when no such day exists
    /// in the supported range.
    pub fn from_ymd(year: i32, month: u32, day: u32) -> (r: Option<ReportDate>)
        ensures
            r is Some <==> is_valid_date((year as int, month as int, day as int)),
            r matches Some(d) ==> d@ == (year as int, month as int, day as int),
    {
        if year < MIN_YEAR || year > MAX_YEAR || month < 1 || month > 12 {
            return None;
        }
        if day < 1 || day > month_length(year, month) {
            return None;
        }
        Some(ReportDate { year, month, day })
    }

    pub fn year(&self) -> (y: i32)
        ensures
            y as int == self@.0,
    {
        self.year
    }

    pub fn month(&self) -> (m: u32)
        ensures
            m as int == self@.1,
    {
        self.month
    }

    pub fn day(&self) -> (d: u32)
        ensures
            d as int == self@.2,
    {
        self.day
    }

    /// The previous day, or `None` on the first supported day.
    pub fn pred(&self) -> (r: Option<ReportDate>)
        ensures
            date_view_opt(r) == prev_date(self@),
    {
        proof { use_type_invariant(self); }
        if self.day > 1 {
            Some(ReportDate { year: self.year, month: self.month, day: self.day - 1 })
        } else if self.month > 1 {
            let m: u32 = self.month - 1;
            Some(ReportDate { year: self.year, month: m, day: month_length(self.year, m) })
        } else if self.year > MIN_YEAR {
            Some(ReportDate { year: self.year - 1, month: 12, day: 31 })
        } else {
            None
        }
    }

    /// The day `n` days earlier, or `None` when it falls before the supported range.
    pub fn days_before(&self, n: u32) -> (r: Option<ReportDate>)
        ensures
            date_view_opt(r) == date_days_before(self@, n as nat),
    {
        let mut cur: Option<ReportDate> = Some(*self);
        let mut i: u32 = 0;
        while i < n
            invariant
                i <= n,
                date_view_opt(cur) == date_days_before(self@, i as nat),
            decreases n - i,
        {
            cur = match cur {
                Some(d) => d.pred(),
                None => None,
            };
            i = i + 1;
        }
        cur
    }

    /// The date as `dd.mm.yyyy`, as chrono renders it with `%d.%m.%Y`.
    pub fn format_dmy(&self) -> (s: String)
        ensures
            s@ == dmy_text(self@),
    {
        proof { use_type_invariant(self); }
        let mut out = String::new();
        push_two_digits(&mut out, self.day);
        proof { reveal_strlit("."); }
        out.append(".");
        push_two_digits(&mut out, self.month);
        out.append(".");
        push_year(&mut out, self.year);
        assert(out@ =~= dmy_text(self@));
        out
    }
}


/// The Gregorian calendar, written out: months 1, 3, 5, 7, 8, 10 and 12 have 31 days, months
/// 4, 6, 9 and 11 have 30, and February has 29 in years divisible by 4 but not by 100 unless
/// by 400, else 28; a date is valid when its year lies in the supported range, its month in
/// 1..=12 and its day within its month.
pub proof fn law_calendar(y: int, m: int, d: int)
    ensures
        (m == 1 || m == 3 || m == 5 || m == 7 || m == 8 || m == 10 || m == 12) ==> days_in_month(
            y,
            m,
        ) == 31,
        (m == 4 || m == 6 || m == 9 || m == 11) ==> days_in_month(y, m) == 30,
        m == 2 ==> days_in_month(y, m) == (if y % 4 == 0 && (y % 100 != 0 || y % 400 == 0) {
            29int
        } else {
            28int
        }),
        is_valid_date((y, m, d)) <==> (-262143 <= y <= 262142 && 1 <= m <= 12 && 1 <= d
            <= days_in_month(y, m)),
{
    if y < 0 {
        assert((-y) % 4 == 0 <==> y % 4 == 0);
        assert((-y) % 100 == 0 <==> y % 100 == 0);
        assert((-y) % 400 == 0 <==> y % 400 == 0);
    }
}

pub open spec fn is_digit(c: char) -> bool {
    '0' <= c <= '9'
}

pub open spec fn digit_value(c: char) -> int {
    (c as int) - 48
}

/// The number that a string of decimal digits denotes.
pub open spec fn digits_value(s: Seq<char>) -> int
    decreases s.len(),
{
    if s.len() == 0 {
        0
    } else {
        digits_value(s.drop_last()) * 10 + digit_value(s.last())
    }
}

pub open spec fn all_digits(s: Seq<char>) -> bool {
    forall|i: int| 0 <= i < s.len() ==> is_digit(#[trigger] s[i])
}

proof fn lemma_digit_char(k: int)
    requires
        0 <= k < 10,
    ensures
        is_digit(digit_char(k)),
        digit_value(digit_char(k)) == k,
{
}

proof fn lemma_decimal_reads_back(n: nat)
    ensures
        all_digits(decimal(n)),
        digits_value(decimal(n)) == n,
        decimal(n).len() >= 1,
    decreases n,
{
    lemma_digit_char((n % 10) as int);
    let s = decimal(n);
    if n >= 10 {
        lemma_decimal_reads_back(n / 10);
        assert(s.drop_last() =~= decimal(n / 10));
        assert(s.last() == digit_char((n % 10) as int));
        assert(digits_value(s) == digits_value(decimal(n / 10)) * 10 + (n % 10));
    } else {
        assert(s.drop_last() =~= Seq::<char>::empty());
        assert(digits_value(s.drop_last()) == 0);
        assert(s.last() == digit_char(n as int));
    }
}

proof fn lemma_zeros_value(z: Seq<char>, s: Seq<char>)
    requires
        forall|i: int| 0 <= i < z.len() ==> z[i] == '0',
    ensures
        digits_value(z + s) == digits_value(s),
    decreases s.len() + z.len(),
{
    if s.len() == 0 {
        assert(z + s =~= z);
        if z.len() > 0 {
            lemma_zeros_value(z.drop_last(), s);
            assert(z.drop_last() + s =~= z.drop_last());
        }
    } else {
        lemma_zeros_value(z, s.drop_last());
        assert((z + s).drop_last() =~= z + s.drop_last());
    }
}

proof fn lemma_padded_reads_back(n: nat)
    ensures
        all_digits(zero_pad4(decimal(n))),
        digits_value(zero_pad4(decimal(n))) == n,
        zero_pad4(decimal(n)).len() >= 4,
        n <= 9999 ==> zero_pad4(decimal(n)).len() == 4,
{
    lemma_decimal_reads_back(n);
    lemma_decimal_len(n);
    let s = decimal(n);
    if s.len() < 4 {
        let z = Seq::new((4 - s.len()) as nat, |i: int| '0');
        lemma_zeros_value(z, s);
        assert(zero_pad4(s) == z + s);
        assert forall|i: int| 0 <= i < (z + s).len() implies is_digit(#[trigger] (z + s)[i]) by {
            if i >= z.len() {
                assert((z + s)[i] == s[i - z.len()]);
            }
        }
    }
}

/// The text of a date reads back as that date: two digits of the day, a dot, two digits of
/// the month, a dot, then the year, which for years 0..=9999 is exactly four digits and
/// otherwise a sign (`+` or `-`) followed by at least four digits of its magnitude.
pub proof fn law_dmy_text_reads_back(d: (int, int, int))
    requires
        1 <= d.1 <= 12,
        1 <= d.2 <= 31,
    ensures
        ({
            let t = dmy_text(d);
            let y = t.skip(6);
            &&& t.len() >= 10
            &&& is_digit(t[0]) && is_digit(t[1]) && is_digit(t[3]) && is_digit(t[4])
            &&& digit_value(t[0]) * 10 + digit_value(t[1]) == d.2
            &&& t[2] == '.'
            &&& digit_value(t[3]) * 10 + digit_value(t[4]) == d.1
            &&& t[5] == '.'
            &&& (0 <= d.0 <= 9999 ==> y.len() == 4 && all_digits(y) && digits_value(y) == d.0)
            &&& (d.0 > 9999 ==> y[0] == '+' && y.skip(1).len() >= 4 && all_digits(y.skip(1))
                && digits_value(y.skip(1)) == d.0)
            &&& (d.0 < 0 ==> y[0] == '-' && y.skip(1).len() >= 4 && all_digits(y.skip(1))
                && digits_value(y.skip(1)) == -d.0)
        }),
{
    lemma_digit_char(d.2 / 10);
    lemma_digit_char(d.2 % 10);
    lemma_digit_char(d.1 / 10);
    lemma_digit_char(d.1 % 10);
    let t = dmy_text(d);
    let head = two_digits(d.2) + seq!['.'] + two_digits(d.1) + seq!['.'];
    assert(t == head + year_text(d.0));
    assert(t.skip(6) =~= year_text(d.0));
    if 0 <= d.0 <= 9999 {
        lemma_padded_reads_back(d.0 as nat);
    } else if d.0 > 9999 {
        lemma_padded_reads_back(d.0 as nat);
        assert(year_text(d.0).skip(1) =~= zero_pad4(decimal(d.0 as nat)));
    } else {
        lemma_padded_reads_back((-d.0) as nat);
        assert(year_text(d.0).skip(1) =~= zero_pad4(decimal((-d.0) as nat)));
    }
}

/// `a` comes strictly before `b` in the calendar.
pub open spec fn date_before(a: (int, int, int), b: (int, int, int)) -> bool {
    a.0 < b.0 || (a.0 == b.0 && (a.1 < b.1 || (a.1 == b.1 && a.2 < b.2)))
}

/// The predecessor of a valid day is the latest valid day before it; there is none exactly
/// when no valid day comes before it.
pub proof fn law_prev_date_is_day_before(d: (int, int, int))
    requires
        is_valid_date(d),
    ensures
        prev_date(d) matches Some(p) ==> {
            &&& is_valid_date(p)
            &&& date_before(p, d)
            &&& forall|q: (int, int, int)|
                is_valid_date(q) && date_before(q, d) ==> q == p || date_before(q, p)
        },
        prev_date(d) is None ==> forall|q: (int, int, int)|
            is_valid_date(q) ==> !date_before(q, d),
{
}

/// Going `n` days back from a valid day lands on a valid day, when it lands at all.
pub proof fn law_days_before_valid(d: (int, int, int), n: nat)
    requires
        is_valid_date(d),
    ensures
        date_days_before(d, n) matches Some(p) ==> is_valid_date(p),
    decreases n,
{
    if n > 0 {
        law_days_before_valid(d, (n - 1) as nat);
        if let Some(p) = date_days_before(d, (n - 1) as nat) {
            law_prev_date_is_day_before(p);
        }
    }
}

} // verus!
