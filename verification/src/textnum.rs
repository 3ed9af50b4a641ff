//! Decimal text: rendering unsigned integers to decimal character sequences
//! and reading them back.
//!
//! The wire protocol carries every numeric field (frequencies, codes, squelch
//! levels, signal strength) as plain decimal ASCII, so the whole crate leans
//! on one pair of spec functions: `dec_rep`, the canonical decimal rendering
//! of a natural number, and `dec_val`, the value of a digit sequence.

use vstd::prelude::*;
use vstd::string::StringExecFns;

verus! {

/// Whether `c` is a decimal digit.
pub open spec fn is_dec_digit(c: char) -> bool {
    48 <= c as u32 <= 57
}

/// The numeric value of a digit character; 0 on anything else.
pub open spec fn digit_val(c: char) -> nat {
    if is_dec_digit(c) {
        (c as u32 - 48) as nat
    } else {
        0
    }
}

/// The digit character for a value below ten.
pub open spec fn digit_char(d: nat) -> char {
    if d == 0 {
        '0'
    } else if d == 1 {
        '1'
    } else if d == 2 {
        '2'
    } else if d == 3 {
        '3'
    } else if d == 4 {
        '4'
    } else if d == 5 {
        '5'
    } else if d == 6 {
        '6'
    } else if d == 7 {
        '7'
    } else if d == 8 {
        '8'
    } else {
        '9'
    }
}

/// The canonical decimal rendering of `n`: no sign, no leading zero except
/// for the single digit of zero itself.
pub open spec fn dec_rep(n: nat) -> Seq<char>
    decreases n,
{
    if n < 10 {
        seq![digit_char(n)]
    } else {
        dec_rep(n / 10) + seq![digit_char(n % 10)]
    }
}

/// Whether every character of `s` is a decimal digit.
pub open spec fn all_dec_digits(s: Seq<char>) -> bool {
    forall|i: int| 0 <= i < s.len() ==> is_dec_digit(#[trigger] s[i])
}

/// The value of a digit sequence read as a decimal numeral.
pub open spec fn dec_val(s: Seq<char>) -> nat
    decreases s.len(),
{
    if s.len() == 0 {
        0
    } else {
        dec_val(s.drop_last()) * 10 + digit_val(s.last())
    }
}

/// `s` without the single leading `+` sign that an unsigned numeral may
/// carry; anything else is left as it is.
pub open spec fn strip_plus(s: Seq<char>) -> Seq<char> {
    if s.len() > 0 && s[0] == '+' {
        s.drop_first()
    } else {
        s
    }
}

/// Whether `s` is a numeral that `u32` can hold: an optional leading `+`,
/// then at least one character, all of them digits, value within range.
pub open spec fn parses_as_u32(s: Seq<char>) -> bool {
    strip_plus(s).len() > 0 && all_dec_digits(strip_plus(s)) && dec_val(strip_plus(s)) <= u32::MAX
}

/// The value of a numeral, sign stripped.
pub open spec fn numeral_val(s: Seq<char>) -> nat {
    dec_val(strip_plus(s))
}

/// A digit value below ten renders to its digit character.
pub fn digit_text(d: u32) -> (r: &'static str)
    requires
        d < 10,
    ensures
        r@ == seq![digit_char(d as nat)],
{
    let r = if d == 0 {
        "0"
    } else if d == 1 {
        "1"
    } else if d == 2 {
        "2"
    } else if d == 3 {
        "3"
    } else if d == 4 {
        "4"
    } else if d == 5 {
        "5"
    } else if d == 6 {
        "6"
    } else if d == 7 {
        "7"
    } else if d == 8 {
        "8"
    } else {
        "9"
    };
    proof {
        reveal_strlit("0");
        reveal_strlit("1");
        reveal_strlit("2");
        reveal_strlit("3");
        reveal_strlit("4");
        reveal_strlit("5");
        reveal_strlit("6");
        reveal_strlit("7");
        reveal_strlit("8");
        reveal_strlit("9");
        assert(r@ =~= seq![digit_char(d as nat)]);
    }
    r
}

/// Appends the decimal rendering of `n` to `out`.
pub fn push_dec(n: u32, out: &mut String)
    ensures
        final(out)@ == old(out)@ + dec_rep(n as nat),
    decreases n,
{
    if n >= 10 {
        push_dec(n / 10, out);
        out.append(digit_text(n % 10));
        assert(out@ =~= old(out)@ + dec_rep(n as nat));
    } else {
        out.append(digit_text(n));
        assert(out@ =~= old(out)@ + dec_rep(n as nat));
    }
}

/// The decimal rendering of `n` as an owned string.
pub fn u32_to_text(n: u32) -> (s: String)
    ensures
        s@ == dec_rep(n as nat),
{
    let mut s = String::new();
    push_dec(n, &mut s);
    assert(s@ =~= dec_rep(n as nat));
    s
}

/// The canonical rendering of `n` is a nonempty digit sequence whose value
/// is `n` again: rendering loses nothing.
pub proof fn lemma_dec_rep_val(n: nat)
    ensures
        dec_rep(n).len() >= 1,
        all_dec_digits(dec_rep(n)),
        dec_val(dec_rep(n)) == n,
    decreases n,
{
    if n < 10 {
        let s = dec_rep(n);
        assert(s =~= seq![digit_char(n)]);
        assert(is_dec_digit(digit_char(n)));
        assert(s.drop_last() =~= Seq::<char>::empty());
        assert(dec_val(s.drop_last()) == 0);
        assert(s.last() == digit_char(n));
        assert(dec_val(s) == digit_val(digit_char(n)));
        assert(digit_val(digit_char(n)) == n);
    } else {
        lemma_dec_rep_val(n / 10);
        let tail = seq![digit_char(n % 10)];
        assert((dec_rep(n / 10) + tail).drop_last() =~= dec_rep(n / 10));
        assert((dec_rep(n / 10) + tail).last() == digit_char(n % 10));
        assert(digit_val(digit_char(n % 10)) == n % 10);
        assert(dec_val(dec_rep(n)) == (n / 10) * 10 + n % 10);
        assert((n / 10) * 10 + n % 10 == n) by {
            vstd::arithmetic::div_mod::lemma_fundamental_div_mod(n as int, 10);
        }
        assert forall|i: int| 0 <= i < dec_rep(n).len() implies is_dec_digit(
            #[trigger] dec_rep(n)[i],
        ) by {
            if i < dec_rep(n / 10).len() {
                assert(dec_rep(n)[i] == dec_rep(n / 10)[i]);
            } else {
                assert(dec_rep(n)[i] == digit_char(n % 10));
            }
        }
    }
}

/// One more character multiplies the value of a segment by ten and adds the
/// digit.
pub proof fn lemma_dec_val_seg_succ(s: Seq<char>, start: int, i: int)
    requires
        0 <= start <= i < s.len(),
    ensures
        dec_val(s.subrange(start, i + 1)) == dec_val(s.subrange(start, i)) * 10 + digit_val(s[i]),
{
    assert(s.subrange(start, i + 1).drop_last() =~= s.subrange(start, i));
    assert(s.subrange(start, i + 1).last() == s[i]);
}

/// A digit segment is worth at least any of its prefixes.
pub proof fn lemma_dec_val_seg_prefix(s: Seq<char>, start: int, i: int)
    requires
        0 <= start <= i <= s.len(),
    ensures
        dec_val(s.subrange(start, s.len() as int)) >= dec_val(s.subrange(start, i)),
    decreases s.len() - i,
{
    if i < s.len() {
        lemma_dec_val_seg_succ(s, start, i);
        lemma_dec_val_seg_prefix(s, start, i + 1);
    }
}

/// Reads a whole string as an unsigned decimal numeral, the way `u32` reads
/// one: an optional leading `+`, then at least one digit, nothing but
/// digits, value within `u32`.  `None` on anything else.
pub fn parse_u32_text(s: &str) -> (r: Option<u32>)
    ensures
        parses_as_u32(s@) ==> r == Some(numeral_val(s@) as u32),
        !parses_as_u32(s@) ==> r is None,
{
    let n = s.unicode_len();
    let mut start: usize = 0;
    if n > 0 && s.get_char(0) == '+' {
        start = 1;
    }
    proof {
        assert(strip_plus(s@) =~= s@.subrange(start as int, n as int));
    }
    if start == n {
        return None;
    }
    let mut acc: u64 = 0;
    let mut i: usize = start;
    while i < n
        invariant
            start <= i <= n,
            n == s@.len(),
            strip_plus(s@) =~= s@.subrange(start as int, n as int),
            acc == dec_val(s@.subrange(start as int, i as int)),
            acc <= u32::MAX,
            all_dec_digits(s@.subrange(start as int, i as int)),
        decreases n - i,
    {
        let c = s.get_char(i);
        let u = c as u32;
        if u < 48 || u > 57 {
            proof {
                assert(!is_dec_digit(s@[i as int]));
                assert(strip_plus(s@)[i - start as int] == s@[i as int]);
            }
            return None;
        }
        let d = (u - 48) as u64;
        let next = acc * 10 + d;
        proof {
            lemma_dec_val_seg_succ(s@, start as int, i as int);
        }
        if next > u32::MAX as u64 {
            proof {
                lemma_dec_val_seg_prefix(s@, start as int, i as int + 1);
            }
            return None;
        }
        acc = next;
        i = i + 1;
        assert(all_dec_digits(s@.subrange(start as int, i as int)));
    }
    Some(acc as u32)
}

} // verus!
