//! Which file holds a day's tally: one file per local calendar day, named
//! `DD-MM-YY.streak`.
use crate::codec::string_of_chars;
use crate::decimal::digit_char;
use crate::render::push_str;
use vstd::prelude::*;

verus! {

/// A calendar date as the clock reports it.
#[derive(Clone, Copy, Debug, PartialEq, Eq, Structural)]
pub struct DayDate {
    pub year: i32,
    /// 1 to 12.
    pub month: u32,
    /// 1 to 31.
    pub day: u32,
}

impl DayDate {
    pub open spec fn wf(&self) -> bool {
        1 <= self.month <= 12 && 1 <= self.day <= 31
    }
}

/// A number below a hundred as two digits, zero-padded.
pub open spec fn two_digits(n: nat) -> Seq<char> {
    seq![digit_char(n / 10), digit_char(n % 10)]
}

/// The last two digits of the year (for years before zero too).
pub open spec fn year_in_century(y: int) -> nat {
    (y % 100) as nat
}

/// `DD-MM-YY`.
pub open spec fn day_stamp(d: DayDate) -> Seq<char> {
    two_digits(d.day as nat) + seq!['-'] + two_digits(d.month as nat) + seq!['-'] + two_digits(
        year_in_century(d.year as int),
    )
}

/// The name of the file that holds the tally of day `d`.
pub open spec fn day_file_name(d: DayDate) -> Seq<char> {
    day_stamp(d) + ".streak"@
}

/// Two dates that the file name tells apart: they differ in the day, the
/// month or the last two digits of the year.
pub open spec fn distinct_days(a: DayDate, b: DayDate) -> bool {
    a.day != b.day || a.month != b.month || year_in_century(a.year as int) != year_in_century(
        b.year as int,
    )
}

/// The latest clock reading, in seconds since the Unix epoch, that is turned
/// into a date (some time in the year 5138).
pub const LATEST_CLOCK_SECONDS: u64 = 100_000_000_000;

/// Relies on std's `SystemTime::now` and `SystemTime::duration_since`: the
/// whole seconds since the Unix epoch, or `None` when the clock reads before
/// it. What the clock reads is not known in advance, so nothing more is said.
#[verifier::external_body]
fn unix_seconds() -> (r: Option<u64>) {
    match std::time::SystemTime::now().duration_since(std::time::UNIX_EPOCH) {
        Ok(d) => Some(d.as_secs()),
        Err(_) => None,
    }
}

/// Relies on chrono's `DateTime::from_timestamp` (`Some` for every count of
/// seconds in range), `DateTime::with_timezone(&Local)`, `date_naive` and the
/// `Datelike` accessors of `NaiveDate`: the local calendar date at `secs`
/// seconds after the Unix epoch, whose month is documented to lie in 1..=12
/// and whose day in 1..=31.
#[verifier::external_body]
fn local_date_at(secs: u64) -> (d: DayDate)
    requires
        secs <= LATEST_CLOCK_SECONDS,
    ensures
        d.wf(),
{
    let utc = chrono::DateTime::from_timestamp(secs as i64, 0).unwrap();
    let t = utc.with_timezone(&chrono::Local).date_naive();
    DayDate {
        year: chrono::Datelike::year(&t),
        month: chrono::Datelike::month(&t),
        day: chrono::Datelike::day(&t),
    }
}

fn push_two_digits(out: &mut Vec<char>, n: u32)
    requires
        n < 100,
    ensures
        final(out)@ == old(out)@ + two_digits(n as nat),
{
    let hi: u8 = (n / 10) as u8 + 48;
    let lo: u8 = (n % 10) as u8 + 48;
    out.push(hi as char);
    out.push(lo as char);
    assert(out@ =~= old(out)@ + two_digits(n as nat));
}

/// The name of the file that holds the tally of day `d`.
pub fn file_name_for(d: DayDate) -> (r: String)
    requires
        d.wf(),
    ensures
        r@ == day_file_name(d),
{
    let mut v: Vec<char> = Vec::new();
    push_two_digits(&mut v, d.day);
    v.push('-');
    push_two_digits(&mut v, d.month);
    v.push('-');
    let m: i32 = d.year % 100;
    let yy: u32 = if m < 0 {
        (m + 100) as u32
    } else {
        m as u32
    };
    assert(yy == year_in_century(d.year as int));
    push_two_digits(&mut v, yy);
    push_str(&mut v, ".streak");
    assert(v@ =~= day_file_name(d));
    string_of_chars(&v)
}

/// The name of the file that holds today's tally, by the local calendar;
/// `None` when the system clock reads before the Unix epoch or after
/// `LATEST_CLOCK_SECONDS`.
pub fn todays_file() -> (r: Option<String>)
    ensures
        r matches Some(s) ==> exists|d: DayDate| d.wf() && s@ == day_file_name(d),
{
    match unix_seconds() {
        Some(secs) => {
            if secs <= LATEST_CLOCK_SECONDS {
                Some(file_name_for(local_date_at(secs)))
            } else {
                None
            }
        },
        None => None,
    }
}

proof fn lemma_two_digits_injective(m: nat, n: nat)
    requires
        m < 100,
        n < 100,
        two_digits(m) == two_digits(n),
    ensures
        m == n,
{
    assert(two_digits(m)[0] == two_digits(n)[0]);
    assert(two_digits(m)[1] == two_digits(n)[1]);
    let a = ((m / 10 + 48) as u8);
    let b = ((n / 10 + 48) as u8);
    assert(a as char as u32 == a as u32);
    assert(b as char as u32 == b as u32);
    let c = ((m % 10 + 48) as u8);
    let e = ((n % 10 + 48) as u8);
    assert(c as char as u32 == c as u32);
    assert(e as char as u32 == e as u32);
    assert(m == 10 * (m / 10) + m % 10);
    assert(n == 10 * (n / 10) + n % 10);
}

/// Days that differ in their date have different files, so what is done on
/// one day never touches another day's tally.
pub proof fn lemma_distinct_day_files(a: DayDate, b: DayDate)
    requires
        a.wf(),
        b.wf(),
        distinct_days(a, b),
    ensures
        day_file_name(a) != day_file_name(b),
{
    if day_file_name(a) == day_file_name(b) {
        let sa = day_file_name(a);
        let sb = day_file_name(b);
        assert(two_digits(a.day as nat) =~= sa.subrange(0, 2));
        assert(two_digits(b.day as nat) =~= sb.subrange(0, 2));
        assert(two_digits(a.month as nat) =~= sa.subrange(3, 5));
        assert(two_digits(b.month as nat) =~= sb.subrange(3, 5));
        assert(two_digits(year_in_century(a.year as int)) =~= sa.subrange(6, 8));
        assert(two_digits(year_in_century(b.year as int)) =~= sb.subrange(6, 8));
        lemma_two_digits_injective(a.day as nat, b.day as nat);
        lemma_two_digits_injective(a.month as nat, b.month as nat);
        lemma_two_digits_injective(year_in_century(a.year as int), year_in_century(b.year as int));
    }
}

} // verus!
