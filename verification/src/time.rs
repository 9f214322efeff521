//! Calendar timestamps as plain values, and the strftime-style rendering
//! of a timestamp under a caller-supplied pattern.
//!
//! The pattern language supports the directives for day (`%d`), month
//! (`%m`), year (`%Y`), hour (`%H`), minute (`%M`) and second (`%S`),
//! plus `%%` for a literal percent sign; any other character after `%`
//! is kept as written, and every character outside a directive is copied
//! to the output unchanged.

use vstd::prelude::*;

use crate::text::dec_digits;
use crate::text::esc_free;
use crate::text::four_digits;
use crate::text::lemma_dec_digits_esc_free;
use crate::text::lemma_esc_free_concat;
use crate::text::push_dec;
use crate::text::push_four_digits;
use crate::text::push_two_digits;
use crate::text::two_digits;

verus! {

/// A wall-clock instant, broken into calendar fields.
#[derive(Clone, Copy, Debug, PartialEq, Eq, Structural)]
pub struct Timestamp {
    pub year: i32,
    pub month: u32,
    pub day: u32,
    pub hour: u32,
    pub minute: u32,
    pub second: u32,
}

impl Timestamp {
    /// The calendar fields lie in their usual ranges.
    pub open spec fn wf(self) -> bool {
        &&& 1 <= self.month <= 12
        &&& 1 <= self.day <= 31
        &&& self.hour < 24
        &&& self.minute < 60
        &&& self.second < 60
    }
}

/// The digits of a year: zero-padded to four digits in the common range,
/// a minus sign followed by the plain digits for years before year zero,
/// and the plain digits beyond four of them.
pub open spec fn year_digits(y: int) -> Seq<char> {
    if 0 <= y < 10000 {
        four_digits(y as nat)
    } else if y < 0 {
        seq!['-'] + dec_digits((-y) as nat)
    } else {
        dec_digits(y as nat)
    }
}

/// What a single `%`-directive expands to.
pub open spec fn expand_directive(c: char, ts: Timestamp) -> Seq<char> {
    if c == 'd' {
        two_digits(ts.day as nat)
    } else if c == 'm' {
        two_digits(ts.month as nat)
    } else if c == 'Y' {
        year_digits(ts.year as int)
    } else if c == 'H' {
        two_digits(ts.hour as nat)
    } else if c == 'M' {
        two_digits(ts.minute as nat)
    } else if c == 'S' {
        two_digits(ts.second as nat)
    } else if c == '%' {
        seq!['%']
    } else {
        seq!['%', c]
    }
}

/// The rendering of `ts` under `pattern`.
pub open spec fn format_spec(pattern: Seq<char>, ts: Timestamp) -> Seq<char>
    decreases pattern.len(),
{
    if pattern.len() == 0 {
        Seq::empty()
    } else if pattern[0] == '%' && pattern.len() >= 2 {
        expand_directive(pattern[1], ts) + format_spec(pattern.skip(2), ts)
    } else {
        seq![pattern[0]] + format_spec(pattern.skip(1), ts)
    }
}

/// A rendered timestamp holds no escape character as long as the
/// pattern holds none.
pub proof fn lemma_format_spec_esc_free(pattern: Seq<char>, ts: Timestamp)
    requires
        esc_free(pattern),
    ensures
        esc_free(format_spec(pattern, ts)),
    decreases pattern.len(),
{
    if pattern.len() == 0 {
    } else if pattern[0] == '%' && pattern.len() >= 2 {
        lemma_expand_directive_esc_free(pattern[1], ts);
        assert(esc_free(pattern.skip(2)));
        lemma_format_spec_esc_free(pattern.skip(2), ts);
        lemma_esc_free_concat(expand_directive(pattern[1], ts), format_spec(pattern.skip(2), ts));
    } else {
        assert(esc_free(seq![pattern[0]]));
        assert(esc_free(pattern.skip(1)));
        lemma_format_spec_esc_free(pattern.skip(1), ts);
        lemma_esc_free_concat(seq![pattern[0]], format_spec(pattern.skip(1), ts));
    }
}

proof fn lemma_expand_directive_esc_free(c: char, ts: Timestamp)
    requires
        c != '\u{1b}',
    ensures
        esc_free(expand_directive(c, ts)),
{
    if c == 'Y' {
        let y = ts.year as int;
        if 0 <= y < 10000 {
        } else if y < 0 {
            lemma_dec_digits_esc_free((-y) as nat);
            lemma_esc_free_concat(seq!['-'], dec_digits((-y) as nat));
        } else {
            lemma_dec_digits_esc_free(y as nat);
        }
    }
}

/// Appends the digits of the year, as `year_digits` describes.
fn push_year(s: &mut String, y: i32)
    ensures
        final(s)@ == old(s)@ + year_digits(y as int),
{
    if 0 <= y && y < 10000 {
        push_four_digits(s, y as u64);
    } else if y < 0 {
        s.push('-');
        let m: i64 = -(y as i64);
        push_dec(s, m as u64);
        proof {
            assert(old(s)@.push('-') + dec_digits((-(y as int)) as nat) =~= old(s)@ + year_digits(
                y as int,
            ));
        }
    } else {
        push_dec(s, y as u64);
    }
}

/// Appends the expansion of a single `%`-directive.
fn push_directive(s: &mut String, c: char, ts: &Timestamp)
    ensures
        final(s)@ == old(s)@ + expand_directive(c, *ts),
{
    if c == 'd' {
        push_two_digits(s, ts.day as u64);
    } else if c == 'm' {
        push_two_digits(s, ts.month as u64);
    } else if c == 'Y' {
        push_year(s, ts.year);
    } else if c == 'H' {
        push_two_digits(s, ts.hour as u64);
    } else if c == 'M' {
        push_two_digits(s, ts.minute as u64);
    } else if c == 'S' {
        push_two_digits(s, ts.second as u64);
    } else if c == '%' {
        s.push('%');
        proof {
            assert(old(s)@.push('%') =~= old(s)@ + expand_directive(c, *ts));
        }
    } else {
        s.push('%');
        s.push(c);
        proof {
            assert(old(s)@.push('%').push(c) =~= old(s)@ + expand_directive(c, *ts));
        }
    }
}

/// Renders `ts` under `pattern`, directive by directive.
pub fn format_timestamp(pattern: &str, ts: &Timestamp) -> (r: String)
    ensures
        r@ == format_spec(pattern@, *ts),
{
    let n = pattern.unicode_len();
    let mut out = String::new();
    let mut i: usize = 0;
    proof {
        assert(pattern@.skip(0) =~= pattern@);
        assert(out@ + format_spec(pattern@, *ts) =~= format_spec(pattern@, *ts));
    }
    while i < n
        invariant
            n == pattern@.len(),
            i <= n,
            out@ + format_spec(pattern@.skip(i as int), *ts) == format_spec(pattern@, *ts),
        decreases n - i,
    {
        let c = pattern.get_char(i);
        proof {
            assert(pattern@.skip(i as int)[0] == pattern@[i as int]);
        }
        if c == '%' && i + 1 < n {
            let d = pattern.get_char(i + 1);
            push_directive(&mut out, d, ts);
            proof {
                assert(pattern@.skip(i as int).skip(2) =~= pattern@.skip(i as int + 2));
                assert(pattern@.skip(i as int)[1] == pattern@[i as int + 1]);
                assert(out@ + format_spec(pattern@.skip(i as int + 2), *ts) == format_spec(
                    pattern@,
                    *ts,
                ));
            }
            i += 2;
        } else {
            out.push(c);
            proof {
                assert(pattern@.skip(i as int).skip(1) =~= pattern@.skip(i as int + 1));
                assert(out@ + format_spec(pattern@.skip(i as int + 1), *ts) == format_spec(
                    pattern@,
                    *ts,
                ));
            }
            i += 1;
        }
    }
    proof {
        assert(pattern@.skip(n as int) =~= Seq::<char>::empty());
        assert(out@ + format_spec(pattern@.skip(n as int), *ts) =~= out@);
    }
    out
}

/// Relies on chrono's `Utc::now` and its calendar accessors: `month` and
/// `day` are one-based and at most 12 and 31, `hour` is below 24,
/// `minute` and `second` below 60.
#[verifier::external_body]
pub(crate) fn now_utc() -> (r: Timestamp)
    ensures
        r.wf(),
{
    let t = chrono::Utc::now();
    Timestamp {
        year: chrono::Datelike::year(&t),
        month: chrono::Datelike::month(&t),
        day: chrono::Datelike::day(&t),
        hour: chrono::Timelike::hour(&t),
        minute: chrono::Timelike::minute(&t),
        second: chrono::Timelike::second(&t),
    }
}

/// Relies on chrono's `Utc::now().timestamp_millis()`, the wall clock in
/// milliseconds since the epoch; nothing is promised of the value.
#[verifier::external_body]
pub(crate) fn now_millis() -> (r: i64)
{
    chrono::Utc::now().timestamp_millis()
}

} // verus!
