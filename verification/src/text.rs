//! Text primitives the sink is specified over: substring containment for
//! target exclusion, decimal digit rendering for timestamps and stream
//! names, and escape-freedom of rendered text.

use vstd::prelude::*;

verus! {

/// `String::push` appends the given character at the end of the string.
pub assume_specification[ String::push ](s: &mut String, c: char)
    ensures
        final(s)@ == old(s)@.push(c),
;

/// `needle` occurs as a contiguous run of characters inside `hay`.
pub open spec fn is_substring(needle: Seq<char>, hay: Seq<char>) -> bool {
    exists|i: int|
        0 <= i && i + needle.len() <= hay.len() && #[trigger] hay.subrange(i, i + needle.len())
            == needle
}

/// Some element of `excludes` is a substring of `target`.
pub open spec fn some_excluded(excludes: Seq<Seq<char>>, target: Seq<char>) -> bool {
    exists|i: int| 0 <= i < excludes.len() && is_substring(excludes[i], target)
}

/// `s` contains no ANSI escape character.
pub open spec fn esc_free(s: Seq<char>) -> bool {
    forall|i: int| 0 <= i < s.len() ==> s[i] != '\u{1b}'
}

pub proof fn lemma_esc_free_concat(a: Seq<char>, b: Seq<char>)
    requires
        esc_free(a),
        esc_free(b),
    ensures
        esc_free(a + b),
{
    assert forall|i: int| 0 <= i < (a + b).len() implies (a + b)[i] != '\u{1b}' by {
        if i < a.len() {
            assert((a + b)[i] == a[i]);
        } else {
            assert((a + b)[i] == b[i - a.len()]);
        }
    }
}

/// Whether `needle` stands at position `at` of `hay`.
fn matches_at(hay: &str, needle: &str, hay_len: usize, needle_len: usize, at: usize) -> (r: bool)
    requires
        hay_len == hay@.len(),
        needle_len == needle@.len(),
        at + needle_len <= hay_len,
    ensures
        r == (hay@.subrange(at as int, at + needle@.len()) == needle@),
{
    let mut j: usize = 0;
    while j < needle_len
        invariant
            hay_len == hay@.len(),
            needle_len == needle@.len(),
            at + needle_len <= hay_len,
            j <= needle_len,
            forall|k: int| 0 <= k < j ==> hay@[at + k] == needle@[k],
        decreases needle_len - j,
    {
        if hay.get_char(at + j) != needle.get_char(j) {
            proof {
                assert(hay@.subrange(at as int, at + needle@.len())[j as int] == hay@[at + j]);
            }
            return false;
        }
        j += 1;
    }
    proof {
        assert(hay@.subrange(at as int, at + needle@.len()) =~= needle@);
    }
    true
}

/// Whether `needle` occurs anywhere inside `hay`; an empty `needle` is
/// found in every `hay`.
pub fn contains_str(hay: &str, needle: &str) -> (r: bool)
    ensures
        r == is_substring(needle@, hay@),
{
    let hay_len = hay.unicode_len();
    let needle_len = needle.unicode_len();
    if needle_len > hay_len {
        return false;
    }
    if needle_len == 0 {
        proof {
            assert(hay@.subrange(0, 0 + needle@.len() as int) =~= needle@);
            assert(is_substring(needle@, hay@));
        }
        return true;
    }
    let mut i: usize = 0;
    while i <= hay_len - needle_len
        invariant
            hay_len == hay@.len(),
            needle_len == needle@.len(),
            1 <= needle_len <= hay_len,
            i <= hay_len - needle_len + 1,
            forall|i2: int|
                0 <= i2 < i ==> #[trigger] hay@.subrange(i2, i2 + needle@.len()) != needle@,
        decreases hay_len - needle_len + 1 - i,
    {
        if matches_at(hay, needle, hay_len, needle_len, i) {
            return true;
        }
        i += 1;
    }
    false
}

/// Whether the two strings hold the same characters.
pub fn str_eq(a: &str, b: &str) -> (r: bool)
    ensures
        r == (a@ == b@),
{
    let a_len = a.unicode_len();
    let b_len = b.unicode_len();
    if a_len != b_len {
        return false;
    }
    let r = matches_at(a, b, a_len, b_len, 0);
    proof {
        assert(a@.subrange(0, a@.len() as int) =~= a@);
    }
    r
}

/// Some element of `excludes` is a substring of `target`.
pub fn is_excluded(excludes: &Vec<String>, target: &str) -> (r: bool)
    ensures
        r == some_excluded(excludes.deep_view(), target@),
{
    let mut i: usize = 0;
    while i < excludes.len()
        invariant
            i <= excludes.len(),
            forall|k: int| 0 <= k < i ==> !is_substring(excludes.deep_view()[k], target@),
        decreases excludes.len() - i,
    {
        if contains_str(target, excludes[i].as_str()) {
            proof {
                assert(excludes.deep_view()[i as int] == excludes@[i as int]@);
                assert(is_substring(excludes.deep_view()[i as int], target@));
            }
            return true;
        }
        i += 1;
    }
    false
}

/// The character for a single decimal digit.
pub open spec fn digit_char(d: nat) -> char {
    if d == 0 {
        '0'
    } else if d == 1 {
        '1'
    } else if d == 2 {
        '2'
    } else if d == 3 {
        '3'
    } else if d == 4 {
        '4'
    } else if d == 5 {
        '5'
    } else if d == 6 {
        '6'
    } else if d == 7 {
        '7'
    } else if d == 8 {
        '8'
    } else {
        '9'
    }
}

/// The decimal digits of `n`, most significant first, without leading
/// zeros (a single `'0'` for zero).
pub open spec fn dec_digits(n: nat) -> Seq<char>
    decreases n,
{
    if n < 10 {
        seq![digit_char(n)]
    } else {
        dec_digits(n / 10).push(digit_char(n % 10))
    }
}

/// `n` modulo 100, zero-padded to two decimal digits.
pub open spec fn two_digits(n: nat) -> Seq<char> {
    seq![digit_char(n / 10 % 10), digit_char(n % 10)]
}

/// `n` modulo 10000, zero-padded to four decimal digits.
pub open spec fn four_digits(n: nat) -> Seq<char> {
    seq![
        digit_char(n / 1000 % 10),
        digit_char(n / 100 % 10),
        digit_char(n / 10 % 10),
        digit_char(n % 10),
    ]
}

pub proof fn lemma_dec_digits_esc_free(n: nat)
    ensures
        esc_free(dec_digits(n)),
    decreases n,
{
    if n < 10 {
    } else {
        lemma_dec_digits_esc_free(n / 10);
        assert(dec_digits(n) =~= dec_digits(n / 10) + seq![digit_char(n % 10)]);
        lemma_esc_free_concat(dec_digits(n / 10), seq![digit_char(n % 10)]);
    }
}

/// Appends a single decimal digit character.
pub fn push_digit(s: &mut String, d: u64)
    requires
        d < 10,
    ensures
        final(s)@ == old(s)@.push(digit_char(d as nat)),
{
    let c: char = if d == 0 {
        '0'
    } else if d == 1 {
        '1'
    } else if d == 2 {
        '2'
    } else if d == 3 {
        '3'
    } else if d == 4 {
        '4'
    } else if d == 5 {
        '5'
    } else if d == 6 {
        '6'
    } else if d == 7 {
        '7'
    } else if d == 8 {
        '8'
    } else {
        '9'
    };
    s.push(c);
}

/// Appends `n` as two zero-padded decimal digits.
pub fn push_two_digits(s: &mut String, n: u64)
    ensures
        final(s)@ == old(s)@ + two_digits(n as nat),
{
    push_digit(s, n / 10 % 10);
    push_digit(s, n % 10);
    proof {
        assert(old(s)@.push(digit_char((n / 10 % 10) as nat)).push(digit_char((n % 10) as nat))
            =~= old(s)@ + two_digits(n as nat));
    }
}

/// Appends `n` as four zero-padded decimal digits.
pub fn push_four_digits(s: &mut String, n: u64)
    ensures
        final(s)@ == old(s)@ + four_digits(n as nat),
{
    push_digit(s, n / 1000 % 10);
    push_digit(s, n / 100 % 10);
    push_digit(s, n / 10 % 10);
    push_digit(s, n % 10);
    proof {
        assert(old(s)@.push(digit_char((n / 1000 % 10) as nat)).push(
            digit_char((n / 100 % 10) as nat),
        ).push(digit_char((n / 10 % 10) as nat)).push(digit_char((n % 10) as nat)) =~= old(s)@
            + four_digits(n as nat));
    }
}

/// Appends the decimal digits of `n`.
pub fn push_dec(s: &mut String, n: u64)
    ensures
        final(s)@ == old(s)@ + dec_digits(n as nat),
    decreases n,
{
    if n < 10 {
        push_digit(s, n);
        proof {
            assert(old(s)@.push(digit_char(n as nat)) =~= old(s)@ + dec_digits(n as nat));
        }
    } else {
        push_dec(s, n / 10);
        push_digit(s, n % 10);
        proof {
            assert((old(s)@ + dec_digits((n / 10) as nat)).push(digit_char((n % 10) as nat))
                =~= old(s)@ + dec_digits(n as nat));
        }
    }
}

} // verus!
