//! The text form of a day's tally: the two counts in decimal, separated by
//! one line break.
use crate::counter::Counter;
use crate::decimal::{decimal, parse_or_zero, parse_usize, push_decimal};
use crate::decimal::{all_digits, digit_value, digits_value, is_digit, unsigned_body};
use vstd::prelude::*;

verus! {

/// `s` holds exactly one line break, at position `k`.
pub open spec fn sole_break(s: Seq<char>, k: int) -> bool {
    &&& 0 <= k < s.len()
    &&& s[k] == '\n'
    &&& forall|j: int| 0 <= j < s.len() && j != k ==> s[j] != '\n'
}

/// What a stored tally reads as. Text that does not split into exactly two
/// lines is corrupt (`None`); a line that is not a number counts as zero.
pub open spec fn decode(s: Seq<char>) -> Option<Counter> {
    if exists|k: int| sole_break(s, k) {
        let k = choose|k: int| sole_break(s, k);
        Some(
            Counter {
                success: parse_or_zero(s.subrange(0, k)),
                fail: parse_or_zero(s.subrange(k + 1, s.len() as int)),
            },
        )
    } else {
        None
    }
}

/// The text that a tally is stored as.
pub open spec fn encode(c: Counter) -> Seq<char> {
    decimal(c.success as nat) + seq!['\n'] + decimal(c.fail as nat)
}

/// Relies on `FromIterator<&char> for String`: collecting characters gives the
/// string of exactly those characters.
#[verifier::external_body]
pub(crate) fn string_of_chars(v: &Vec<char>) -> (r: String)
    ensures
        r@ == v@,
{
    v.iter().collect()
}

/// The characters of `s`, in order.
pub(crate) fn chars_of(s: &str) -> (r: Vec<char>)
    ensures
        r@ == s@,
{
    let mut r: Vec<char> = Vec::new();
    for c in it: s.chars()
        invariant
            it.seq() == s@,
            r@ == it.seq().take(it.index() as int),
    {
        r.push(c);
    }
    r
}

proof fn lemma_digits_step(s: Seq<char>, i: int)
    requires
        0 <= i < s.len(),
    ensures
        s.take(i + 1).drop_last() == s.take(i),
        s.take(i + 1).last() == s[i],
        digits_value(s.take(i + 1)) == 10 * digits_value(s.take(i)) + digit_value(s[i]),
{
    assert(s.take(i + 1).drop_last() =~= s.take(i));
}

/// Reads `v[lo..hi]` as a `usize`, as `usize::from_str` would.
fn parse_field(v: &Vec<char>, lo: usize, hi: usize) -> (r: Option<usize>)
    requires
        lo <= hi <= v@.len(),
    ensures
        r == parse_usize(v@.subrange(lo as int, hi as int)),
{
    let ghost field = v@.subrange(lo as int, hi as int);
    let mut start = lo;
    if lo < hi && v[lo] == '+' {
        start = lo + 1;
    }
    let ghost body = v@.subrange(start as int, hi as int);
    assert(body == unsigned_body(field));
    if start == hi {
        return None;
    }
    let mut acc: usize = 0;
    let mut over = false;
    let mut i = start;
    while i < hi
        invariant
            lo <= start <= i <= hi <= v@.len(),
            body == v@.subrange(start as int, hi as int),
            body == unsigned_body(field),
            field == v@.subrange(lo as int, hi as int),
            all_digits(body.take(i - start)),
            over ==> digits_value(body.take(i - start)) > usize::MAX,
            !over ==> acc == digits_value(body.take(i - start)),
        decreases hi - i,
    {
        let c = v[i];
        if !('0' <= c && c <= '9') {
            assert(body[i - start] == c);
            assert(!is_digit(body[i - start]));
            assert(!all_digits(unsigned_body(field)));
            return None;
        }
        let d = (c as u32 - 48) as usize;
        proof {
            lemma_digits_step(body, i - start);
            assert(body[i - start] == c);
            assert(all_digits(body.take(i + 1 - start))) by {
                assert forall|j: int| 0 <= j < i + 1 - start implies is_digit(
                    #[trigger] body.take(i + 1 - start)[j],
                ) by {
                    if j < i - start {
                        assert(body.take(i + 1 - start)[j] == body.take(i - start)[j]);
                    }
                }
            }
        }
        if !over {
            if acc > (usize::MAX - d) / 10 {
                over = true;
            } else {
                acc = acc * 10 + d;
            }
        }
        i = i + 1;
    }
    assert(body.take(i - start) =~= body);
    if over {
        None
    } else {
        Some(acc)
    }
}

/// Reads a stored tally; `None` when the text is corrupt.
pub fn decode_counter(text: &str) -> (r: Option<Counter>)
    ensures
        r == decode(text@),
{
    let v = chars_of(text);
    let n = v.len();
    let mut breaks: usize = 0;
    let mut at: usize = 0;
    let mut i: usize = 0;
    while i < n
        invariant
            n == v@.len(),
            v@ == text@,
            i <= n,
            breaks <= i,
            breaks == 0 ==> forall|j: int| 0 <= j < i ==> v@[j] != '\n',
            breaks == 1 ==> at < i && v@[at as int] == '\n' && forall|j: int|
                0 <= j < i && j != at ==> v@[j] != '\n',
            breaks >= 2 ==> !exists|k: int| sole_break(v@, k),
        decreases n - i,
    {
        if v[i] == '\n' {
            if breaks == 1 {
                assert forall|k: int| !sole_break(v@, k) by {
                    if sole_break(v@, k) {
                        assert(k == at || v@[at as int] != '\n');
                        assert(k == i || v@[i as int] != '\n');
                    }
                }
                breaks = 2;
            } else if breaks == 0 {
                breaks = 1;
                at = i;
            }
        }
        i = i + 1;
    }
    if breaks != 1 {
        if breaks == 0 {
            assert forall|k: int| !sole_break(v@, k) by {
                if sole_break(v@, k) {
                    assert(v@[k] != '\n');
                }
            }
        }
        return None;
    }
    assert(sole_break(v@, at as int));
    proof {
        let k = choose|k: int| sole_break(v@, k);
        assert(k == at);
    }
    let success = match parse_field(&v, 0, at) {
        Some(x) => x,
        None => 0,
    };
    let fail = match parse_field(&v, at + 1, n) {
        Some(x) => x,
        None => 0,
    };
    Some(Counter { success, fail })
}

/// The text that `c` is stored as.
pub fn encode_counter(c: Counter) -> (r: String)
    ensures
        r@ == encode(c),
{
    let mut v: Vec<char> = Vec::new();
    push_decimal(&mut v, c.success);
    v.push('\n');
    push_decimal(&mut v, c.fail);
    assert(v@ =~= encode(c));
    string_of_chars(&v)
}

/// Stored text reads back as the tally it was written from.
pub proof fn lemma_decode_encode(c: Counter)
    ensures
        decode(encode(c)) == Some(c),
{
    let a = decimal(c.success as nat);
    let b = decimal(c.fail as nat);
    let s = encode(c);
    let k = a.len() as int;
    crate::decimal::lemma_decimal_digits(c.success as nat);
    crate::decimal::lemma_decimal_digits(c.fail as nat);
    crate::decimal::lemma_parse_decimal(c.success);
    crate::decimal::lemma_parse_decimal(c.fail);
    assert forall|j: int| 0 <= j < s.len() && j != k implies s[j] != '\n' by {
        if j < k {
            assert(s[j] == a[j]);
            assert(is_digit(a[j]));
        } else {
            assert(s[j] == b[j - k - 1]);
            assert(is_digit(b[j - k - 1]));
        }
    }
    assert(sole_break(s, k));
    let k2 = choose|k2: int| sole_break(s, k2);
    assert(k2 == k);
    assert(s.subrange(0, k) =~= a);
    assert(s.subrange(k + 1, s.len() as int) =~= b);
}

} // verus!
