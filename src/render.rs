//! The status-bar segment: the day's tally framed in one of three colour
//! bands for the terminal multiplexer.
use crate::codec::{chars_of, string_of_chars};
use crate::counter::Counter;
use crate::decimal::{decimal, push_decimal};
use vstd::prelude::*;

verus! {

/// Which side leads on the day.
#[derive(Clone, Copy, Debug, PartialEq, Eq, Structural)]
pub enum Band {
    /// As many failures as successes.
    Tie,
    /// More successes than failures.
    Ahead,
    /// More failures than successes.
    Behind,
}

pub open spec fn band_of(c: Counter) -> Band {
    if c.success == c.fail {
        Band::Tie
    } else if c.success > c.fail {
        Band::Ahead
    } else {
        Band::Behind
    }
}

/// The background colour of a band.
pub open spec fn band_bg(b: Band) -> nat {
    match b {
        Band::Tie => 66,
        Band::Ahead => 237,
        Band::Behind => 196,
    }
}

/// The foreground colour of a band.
pub open spec fn band_fg(b: Band) -> nat {
    match b {
        Band::Tie => 234,
        Band::Ahead => 255,
        Band::Behind => 234,
    }
}

/// `success | fail`.
pub open spec fn tally_text(c: Counter) -> Seq<char> {
    decimal(c.success as nat) + " | "@ + decimal(c.fail as nat)
}

/// The powerline separator glyph that closes each colour block.
pub open spec fn separator() -> char {
    '\u{e0b2}'
}

/// The segment that shows `c` in band `b`.
pub open spec fn segment(b: Band, c: Counter) -> Seq<char> {
    let bg = decimal(band_bg(b));
    "#[fg=colour"@ + bg + ",bg=colour234]"@ + seq![separator()] + "#[bg=colour"@ + bg
        + ",fg=colour"@ + decimal(band_fg(b)) + "] "@ + tally_text(c)
        + " #[fg=colour234,bg=colour"@ + bg + "]"@ + seq![separator()]
}

/// The segment that the status bar shows for `c`.
pub open spec fn render_spec(c: Counter) -> Seq<char> {
    segment(band_of(c), c)
}

/// Appends the characters of `s` to `out`.
pub(crate) fn push_str(out: &mut Vec<char>, s: &str)
    ensures
        final(out)@ == old(out)@ + s@,
{
    let v = chars_of(s);
    let mut i: usize = 0;
    while i < v.len()
        invariant
            v@ == s@,
            i <= v@.len(),
            out@ == old(out)@ + s@.take(i as int),
        decreases v@.len() - i,
    {
        out.push(v[i]);
        i = i + 1;
        assert(s@.take(i as int) =~= s@.take(i - 1) + seq![v@[i - 1]]);
    }
    assert(s@.take(i as int) =~= s@);
}

/// The band that `c` falls in.
pub fn band(c: Counter) -> (r: Band)
    ensures
        r == band_of(c),
{
    if c.success == c.fail {
        Band::Tie
    } else if c.success > c.fail {
        Band::Ahead
    } else {
        Band::Behind
    }
}

fn push_tally(out: &mut Vec<char>, c: Counter)
    ensures
        final(out)@ == old(out)@ + tally_text(c),
{
    push_decimal(out, c.success);
    push_str(out, " | ");
    push_decimal(out, c.fail);
    assert(out@ =~= old(out)@ + tally_text(c));
}

/// The tally as `success | fail`.
pub fn status_line(c: Counter) -> (r: String)
    ensures
        r@ == tally_text(c),
{
    let mut v: Vec<char> = Vec::new();
    push_tally(&mut v, c);
    assert(v@ =~= tally_text(c));
    string_of_chars(&v)
}

/// The status-bar segment for `c`: exactly one band, chosen by comparing the
/// two counts.
pub fn render(c: Counter) -> (r: String)
    ensures
        r@ == render_spec(c),
{
    let b = band(c);
    let (bg, fg): (usize, usize) = match b {
        Band::Tie => (66, 234),
        Band::Ahead => (237, 255),
        Band::Behind => (196, 234),
    };
    let mut v: Vec<char> = Vec::new();
    push_str(&mut v, "#[fg=colour");
    push_decimal(&mut v, bg);
    push_str(&mut v, ",bg=colour234]");
    v.push('\u{e0b2}');
    push_str(&mut v, "#[bg=colour");
    push_decimal(&mut v, bg);
    push_str(&mut v, ",fg=colour");
    push_decimal(&mut v, fg);
    push_str(&mut v, "] ");
    push_tally(&mut v, c);
    push_str(&mut v, " #[fg=colour234,bg=colour");
    push_decimal(&mut v, bg);
    push_str(&mut v, "]");
    v.push('\u{e0b2}');
    assert(v@ =~= render_spec(c));
    string_of_chars(&v)
}

/// Every tally falls in exactly one band, chosen strictly by comparing the
/// two counts, and is rendered in that band.
pub proof fn lemma_render_one_band(c: Counter)
    ensures
        (band_of(c) == Band::Tie) <==> c.success == c.fail,
        (band_of(c) == Band::Ahead) <==> c.success > c.fail,
        (band_of(c) == Band::Behind) <==> c.success < c.fail,
        render_spec(c) == segment(band_of(c), c),
{
}

} // verus!
