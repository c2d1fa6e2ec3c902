//! What holds of decimal numbers and of text cut at a separator.

use crate::text;
use vstd::prelude::*;

verus! {

/// True if every character is one of `0` to `9`.
pub open spec fn digits_only(s: Seq<char>) -> bool {
    forall|i: int| 0 <= i < s.len() ==> '0' <= #[trigger] s[i] && s[i] <= '9'
}

/// Ten times a number and a digit is written as the number with the digit behind it.
pub proof fn law_decimal_appends_a_digit(n: nat, d: nat)
    requires
        d < 10,
    ensures
        text::decimal(d) == seq![('0' as nat + d) as char],
        n > 0 ==> text::decimal(10 * n + d) == text::decimal(n).push(('0' as nat + d) as char),
{
    if n > 0 {
        assert((10 * n + d) / 10 == n);
        assert((10 * n + d) % 10 == d);
    }
}

/// A number is written in digits alone, without a zero in front, and no other number is
/// written like it.
pub proof fn law_decimal_is_plain(n: nat, m: nat)
    ensures
        text::decimal(n).len() > 0,
        digits_only(text::decimal(n)),
        text::decimal(n)[0] == '0' ==> n == 0,
        text::decimal(n) == text::decimal(m) ==> n == m,
{
    text::lemma_decimal_reads_back(n);
    text::lemma_decimal_reads_back(m);
    lemma_no_zero_in_front(n);
    assert forall|i: int| 0 <= i < text::decimal(n).len() implies '0' <= #[trigger] text::decimal(
        n,
    )[i] && text::decimal(n)[i] <= '9' by {
        assert(text::is_digit(text::decimal(n)[i]));
    }
}

proof fn lemma_no_zero_in_front(n: nat)
    ensures
        text::decimal(n).len() > 0,
        text::decimal(n)[0] == '0' ==> n == 0,
    decreases n,
{
    if n >= 10 {
        lemma_no_zero_in_front(n / 10);
    }
}

/// Digits are read one behind the other: each makes ten times what was read before it
/// and its own value, as long as that does not exceed the maximum.
pub proof fn law_digits_are_read_in_turn(s: Seq<char>, c: char, max: nat)
    requires
        digits_only(s),
        '0' <= c <= '9',
    ensures
        ({
            let d = (c as nat - '0' as nat) as nat;
            let before = if s.len() == 0 {
                Some(0nat)
            } else {
                text::unsigned_of(s, max)
            };
            text::unsigned_of(s.push(c), max) == match before {
                Some(v) => if v * 10 + d <= max {
                    Some(v * 10 + d)
                } else {
                    None
                },
                None => None,
            }
        }),
{
    let t = s.push(c);
    assert(t.drop_last() =~= s);
    assert(text::all_digits(t)) by {
        assert forall|i: int| 0 <= i < t.len() implies text::is_digit(#[trigger] t[i]) by {
            if i < s.len() {
                assert(t[i] == s[i]);
            }
        }
    }
    assert(text::all_digits(s));
    assert(t[0] == if s.len() > 0 {
        s[0]
    } else {
        c
    });
    assert(text::without_plus(t) == t);
    if s.len() > 0 {
        assert(text::without_plus(s) == s);
    } else {
        assert(text::digits_value(s) == 0);
    }
}

/// A `+` before digits says nothing.
pub proof fn law_plus_says_nothing(s: Seq<char>, max: nat)
    requires
        s.len() > 0,
        digits_only(s),
    ensures
        text::unsigned_of(seq!['+'] + s, max) == text::unsigned_of(s, max),
{
    assert((seq!['+'] + s).skip(1) =~= s);
    assert(s[0] != '+');
}

/// Nothing but digits is a number: a character that is none, unless it is a `+` in
/// front, spoils it. So does it that there are no digits.
pub proof fn law_only_digits_are_a_number(s: Seq<char>, i: int, max: nat)
    requires
        0 <= i < s.len(),
        !('0' <= s[i] && s[i] <= '9'),
        i == 0 ==> s[0] != '+',
    ensures
        text::unsigned_of(s, max) is None,
        text::unsigned_of(Seq::empty(), max) is None,
        text::unsigned_of(seq!['+'], max) is None,
{
    let t = text::without_plus(s);
    let k = if s[0] == '+' {
        i - 1
    } else {
        i
    };
    assert(t[k] == s[i]);
    assert(!text::is_digit(t[k]));
}

/// Text is cut at the first separator: what stands before it and what stands behind it
/// are its two parts.
pub proof fn law_cut_at_the_first(before: Seq<char>, c: char, behind: Seq<char>)
    requires
        forall|i: int| 0 <= i < before.len() ==> before[i] != c,
    ensures
        text::before_first(before + seq![c] + behind, c) == before,
        text::after_first(before + seq![c] + behind, c) == Some(behind),
{
    let s = before + seq![c] + behind;
    s.index_of_first_ensures(c);
    assert(s[before.len() as int] == c);
    assert(s.contains(c));
    let i = s.index_of_first(c)->0;
    if i < before.len() {
        assert(before[i] == s[i]);
    }
    assert(s.take(before.len() as int) =~= before);
    assert(s.skip(before.len() as int + 1) =~= behind);
}

/// Text is cut at the last separator: what counts is what stands behind it.
pub proof fn law_cut_at_the_last(before: Seq<char>, c: char, behind: Seq<char>)
    requires
        forall|i: int| 0 <= i < behind.len() ==> behind[i] != c,
    ensures
        text::after_last(before + seq![c] + behind, c) == behind,
{
    let s = before + seq![c] + behind;
    s.index_of_last_ensures(c);
    assert(s[before.len() as int] == c);
    assert(s.contains(c));
    let i = s.index_of_last(c)->0;
    if i > before.len() {
        assert(behind[i - before.len() - 1] == s[i]);
    }
    assert(s.skip(before.len() as int + 1) =~= behind);
}

/// Text without a separator is not cut.
pub proof fn law_nothing_to_cut(s: Seq<char>, c: char)
    requires
        forall|i: int| 0 <= i < s.len() ==> s[i] != c,
    ensures
        text::before_first(s, c) == s,
        text::after_first(s, c) is None,
        text::after_last(s, c) == s,
{
    s.index_of_first_ensures(c);
    s.index_of_last_ensures(c);
}

} // verus!
