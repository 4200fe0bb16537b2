//! Integers in decimal notation.

use vstd::prelude::*;

verus! {

/// The character of a decimal digit.
pub open spec fn digit_char(d: int) -> char {
    if d == 0 {
        '0'
    } else if d == 1 {
        '1'
    } else if d == 2 {
        '2'
    } else if d == 3 {
        '3'
    } else if d == 4 {
        '4'
    } else if d == 5 {
        '5'
    } else if d == 6 {
        '6'
    } else if d == 7 {
        '7'
    } else if d == 8 {
        '8'
    } else {
        '9'
    }
}

/// Whether `c` is one of the ten decimal digits.
pub open spec fn is_digit(c: char) -> bool {
    '0' <= c <= '9'
}

/// The value of a decimal digit.
pub open spec fn digit_value(c: char) -> int {
    c as int - '0' as int
}

/// The digits of `n`, most significant first, without leading zeros.
pub open spec fn digits(n: nat) -> Seq<char>
    decreases n,
{
    if n < 10 {
        seq![digit_char(n as int)]
    } else {
        digits(n / 10).push(digit_char((n % 10) as int))
    }
}

/// The decimal notation of an integer: a minus sign if it is negative, then the
/// digits of its magnitude.
pub open spec fn decimal(n: int) -> Seq<char> {
    if n < 0 {
        seq!['-'] + digits((-n) as nat)
    } else {
        digits(n as nat)
    }
}

/// Whether every character of `s` is a decimal digit.
pub open spec fn all_digits(s: Seq<char>) -> bool {
    forall|i: int| 0 <= i < s.len() ==> is_digit(#[trigger] s[i])
}

/// The number that a sequence of digits denotes, leading zeros allowed.
pub open spec fn digits_value(s: Seq<char>) -> nat
    decreases s.len(),
{
    if s.len() == 0 {
        0
    } else {
        (digits_value(s.drop_last()) * 10 + digit_value(s.last())) as nat
    }
}

/// The one-character text of a digit.
fn digit_text(d: u64) -> (t: &'static str)
    requires
        d < 10,
    ensures
        t@ == seq![digit_char(d as int)],
{
    proof {
        reveal_strlit("0");
        reveal_strlit("1");
        reveal_strlit("2");
        reveal_strlit("3");
        reveal_strlit("4");
        reveal_strlit("5");
        reveal_strlit("6");
        reveal_strlit("7");
        reveal_strlit("8");
        reveal_strlit("9");
    }
    let t = if d == 0 {
        "0"
    } else if d == 1 {
        "1"
    } else if d == 2 {
        "2"
    } else if d == 3 {
        "3"
    } else if d == 4 {
        "4"
    } else if d == 5 {
        "5"
    } else if d == 6 {
        "6"
    } else if d == 7 {
        "7"
    } else if d == 8 {
        "8"
    } else {
        "9"
    };
    assert(t@ =~= seq![digit_char(d as int)]);
    t
}

/// Appends the digits of `n` to `out`.
fn append_digits(out: &mut String, n: u64)
    ensures
        final(out)@ == old(out)@ + digits(n as nat),
    decreases n,
{
    if n >= 10 {
        append_digits(out, n / 10);
    }
    out.append(digit_text(n % 10));
    assert(out@ =~= old(out)@ + digits(n as nat));
}

/// The decimal notation of `n`.
pub fn unsigned_text(n: u64) -> (t: String)
    ensures
        t@ == decimal(n as int),
{
    let mut out = String::new();
    append_digits(&mut out, n);
    assert(out@ =~= digits(n as nat));
    out
}

/// The decimal notation of `n`.
pub fn signed_text(n: i64) -> (t: String)
    ensures
        t@ == decimal(n as int),
{
    if n < 0 {
        let magnitude: u64 = (-(n + 1)) as u64 + 1;
        let mut out = String::new();
        proof {
            reveal_strlit("-");
        }
        out.append("-");
        append_digits(&mut out, magnitude);
        assert(out@ =~= seq!['-'] + digits((-n) as nat));
        out
    } else {
        unsigned_text(n as u64)
    }
}

/// Reads the characters `chars[from..to]` as a number.
///
/// The result is the number they denote, if they are characters of `chars`, at
/// least one, all of them digits, and the number fits.
pub fn read_digits(chars: &Vec<char>, from: usize, to: usize) -> (r: Option<u64>)
    ensures
        r is Some <==> from < to <= chars.len() && all_digits(chars@.subrange(from as int, to as int))
            && digits_value(chars@.subrange(from as int, to as int)) <= u64::MAX,
        r matches Some(v) ==> v == digits_value(chars@.subrange(from as int, to as int)),
{
    if from >= to || to > chars.len() {
        return None;
    }
    let ghost whole = chars@.subrange(from as int, to as int);
    let mut value: u64 = 0;
    let mut i: usize = from;
    while i < to
        invariant
            from <= i <= to <= chars.len(),
            whole == chars@.subrange(from as int, to as int),
            all_digits(chars@.subrange(from as int, i as int)),
            value == digits_value(chars@.subrange(from as int, i as int)),
        decreases to - i,
    {
        let c = chars[i];
        let ghost shorter = chars@.subrange(from as int, i as int);
        let ghost longer = chars@.subrange(from as int, i + 1);
        proof {
            assert(longer.drop_last() =~= shorter);
            assert(longer.last() == c);
            assert(whole[i - from] == c);
        }
        if !(c >= '0' && c <= '9') {
            return None;
        }
        let d: u64 = (c as u32 - '0' as u32) as u64;
        proof {
            if all_digits(whole) {
                lemma_digits_value_grows(longer, whole);
            }
        }
        if value > (u64::MAX - d) / 10 {
            return None;
        }
        value = value * 10 + d;
        proof {
            assert forall|k: int| 0 <= k < longer.len() implies is_digit(#[trigger] longer[k]) by {
                if k < shorter.len() {
                    assert(longer[k] == shorter[k]);
                }
            }
        }
        i += 1;
    }
    assert(chars@.subrange(from as int, i as int) =~= whole);
    Some(value)
}

/// A sequence of digits denotes at least what any of its prefixes denotes.
pub proof fn lemma_digits_value_grows(prefix: Seq<char>, whole: Seq<char>)
    requires
        prefix.len() <= whole.len(),
        prefix =~= whole.subrange(0, prefix.len() as int),
        all_digits(whole),
    ensures
        digits_value(prefix) <= digits_value(whole),
    decreases whole.len(),
{
    if prefix.len() < whole.len() {
        let shorter = whole.drop_last();
        assert(prefix =~= shorter.subrange(0, prefix.len() as int));
        assert forall|k: int| 0 <= k < shorter.len() implies is_digit(#[trigger] shorter[k]) by {
            assert(shorter[k] == whole[k]);
        }
        lemma_digits_value_grows(prefix, shorter);
        assert(is_digit(whole.last()));
    } else {
        assert(prefix =~= whole);
    }
}

/// The number that `s` is the decimal notation of, if it is that of a number
/// that fits: digits only, with no leading zero but in `0` itself.
pub open spec fn natural_of(s: Seq<char>) -> Option<u64> {
    if s.len() > 0 && all_digits(s) && (s.len() == 1 || s[0] != '0') && digits_value(s)
        <= u64::MAX {
        Some(digits_value(s) as u64)
    } else {
        None
    }
}

/// Reads a number in decimal notation.
pub fn read_natural(s: &str) -> (r: Option<u64>)
    ensures
        r == natural_of(s@),
{
    let chars = crate::text::chars_of(s);
    assert(chars@.subrange(0, chars.len() as int) =~= chars@);
    if chars.len() > 1 && chars[0] == '0' {
        return None;
    }
    read_digits(&chars, 0, chars.len())
}

/// The digits of a number are digits, begin with no zero unless the number is
/// zero, and denote the number.
pub proof fn lemma_digits(n: nat)
    ensures
        digits(n).len() >= 1,
        all_digits(digits(n)),
        digits(n)[0] == '0' <==> n == 0,
        n == 0 ==> digits(n).len() == 1,
        digits_value(digits(n)) == n,
    decreases n,
{
    if n < 10 {
        let s = digits(n);
        assert(s.drop_last() =~= Seq::<char>::empty());
        assert(digits_value(s.drop_last()) == 0);
    } else {
        lemma_digits(n / 10);
        let s = digits(n);
        assert(s.drop_last() =~= digits(n / 10));
        assert(s[0] == digits(n / 10)[0]);
        assert forall|i: int| 0 <= i < s.len() implies is_digit(#[trigger] s[i]) by {
            if i < s.len() - 1 {
                assert(s[i] == digits(n / 10)[i]);
            }
        }
    }
}

/// A number that is written in decimal notation is read back as it was.
pub proof fn law_written_number_is_read_back(n: u64)
    ensures
        natural_of(decimal(n as int)) == Some(n),
{
    lemma_digits(n as nat);
}

} // verus!
