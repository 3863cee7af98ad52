//! Reading a decimal number that the player has typed.
//!
//! A number is an optional sign, digits, and optionally a point followed by
//! digits; at least one digit must be there. Its value is taken in
//! millionths: digits beyond the sixth after the point are dropped, and a
//! value beyond the range of the simulation is clamped to it.

use vstd::prelude::*;
use crate::fixed::{saturate, LIMIT, ONE};

verus! {

/// Whether `c` is a decimal digit.
pub open spec fn is_digit(c: char) -> bool {
    '0' <= c && c <= '9'
}

/// The value of the digit `c`.
pub open spec fn digit_value(c: char) -> int {
    c as int - '0' as int
}

/// Whether `s` holds digits only.
pub open spec fn all_digits(s: Seq<char>) -> bool {
    forall|i: int| 0 <= i < s.len() ==> is_digit(#[trigger] s[i])
}

/// The number that the digits of `s` spell.
pub open spec fn number_of(s: Seq<char>) -> int
    decreases s.len(),
{
    if s.len() == 0 {
        0
    } else {
        number_of(s.drop_last()) * 10 + digit_value(s.last())
    }
}

/// Whether `text` begins with a sign.
pub open spec fn has_sign(text: Seq<char>) -> bool {
    text.len() > 0 && (text[0] == '+' || text[0] == '-')
}

/// `text` without its sign.
pub open spec fn unsigned_part(text: Seq<char>) -> Seq<char> {
    if has_sign(text) {
        text.subrange(1, text.len() as int)
    } else {
        text
    }
}

/// The place of the first point of `s` at or after `from`; the length of
/// `s` if there is none.
pub open spec fn point_from(s: Seq<char>, from: int) -> int
    decreases s.len() - from,
{
    if from < 0 || from >= s.len() {
        s.len() as int
    } else if s[from] == '.' {
        from
    } else {
        point_from(s, from + 1)
    }
}

/// The digits before the point.
pub open spec fn whole_part(text: Seq<char>) -> Seq<char> {
    let body = unsigned_part(text);
    body.subrange(0, point_from(body, 0))
}

/// The digits after the point; none if there is no point.
pub open spec fn fraction_part(text: Seq<char>) -> Seq<char> {
    let body = unsigned_part(text);
    let point = point_from(body, 0);
    if point < body.len() {
        body.subrange(point + 1, body.len() as int)
    } else {
        Seq::empty()
    }
}

/// The first six places of `fraction`, with zeros where it has fewer.
pub open spec fn six_places(fraction: Seq<char>) -> Seq<char> {
    Seq::new(
        6,
        |i: int|
            if i < fraction.len() {
                fraction[i]
            } else {
                '0'
            },
    )
}

/// Whether `text` is a decimal number: an optional sign, digits, and
/// optionally a point followed by digits, with at least one digit in all.
pub open spec fn is_decimal(text: Seq<char>) -> bool {
    &&& all_digits(whole_part(text))
    &&& all_digits(fraction_part(text))
    &&& whole_part(text).len() + fraction_part(text).len() > 0
}

/// The value of the decimal number `text` in millionths, rounded toward
/// zero.
pub open spec fn decimal_value(text: Seq<char>) -> int {
    let size = number_of(whole_part(text)) * ONE + number_of(six_places(fraction_part(text)));
    if text.len() > 0 && text[0] == '-' {
        -size
    } else {
        size
    }
}

/// What `text` reads as: its value in millionths, clamped to the range of
/// the simulation, if it is a decimal number.
pub open spec fn spec_parse_decimal(text: Seq<char>) -> Option<i64> {
    if is_decimal(text) {
        Some(saturate(decimal_value(text)) as i64)
    } else {
        None
    }
}

/// The largest number of whole units that is told apart from anything
/// larger; it lies beyond the range of the simulation.
pub const WHOLE_CAP: i64 = 10_000_000;

proof fn lemma_number_grows(s: Seq<char>, i: int)
    requires
        0 <= i < s.len(),
        all_digits(s.subrange(0, i + 1)),
    ensures
        number_of(s.subrange(0, i + 1)) == number_of(s.subrange(0, i)) * 10 + digit_value(s[i]),
        0 <= digit_value(s[i]) <= 9,
{
    let t = s.subrange(0, i + 1);
    assert(t.drop_last() =~= s.subrange(0, i));
    assert(t.last() == s[i]);
    assert(is_digit(t[i]));
}

proof fn lemma_number_nonnegative(s: Seq<char>)
    requires
        all_digits(s),
    ensures
        0 <= number_of(s),
    decreases s.len(),
{
    if s.len() > 0 {
        assert(is_digit(s[s.len() - 1]));
        assert forall|i: int| 0 <= i < s.drop_last().len() implies is_digit(
            #[trigger] s.drop_last()[i],
        ) by {
            assert(is_digit(s[i]));
        }
        lemma_number_nonnegative(s.drop_last());
    }
}

fn digit_of(c: char) -> (d: Option<i64>)
    ensures
        d is Some <==> is_digit(c),
        d is Some ==> d->0 == digit_value(c) && 0 <= d->0 <= 9,
{
    if '0' <= c && c <= '9' {
        Some((c as u32 - '0' as u32) as i64)
    } else {
        None
    }
}

/// Reads `text` as a decimal number in millionths.
#[verifier::rlimit(50)]
#[verifier::when_used_as_spec(spec_parse_decimal_vec)]
pub fn parse_decimal(text: &Vec<char>) -> (r: Option<i64>)
    ensures
        r == spec_parse_decimal(text@),
        r is Some ==> -LIMIT <= r->0 <= LIMIT,
{
    let ghost body = unsigned_part(text@);
    let len = text.len();
    let start: usize = if len > 0 && (text[0] == '+' || text[0] == '-') {
        1
    } else {
        0
    };
    let negative = len > 0 && text[0] == '-';
    assert(body =~= text@.subrange(start as int, len as int));
    // The whole part: digits up to the first point.
    let mut i: usize = start;
    let mut whole: i64 = 0;
    let mut valid = true;
    while i < len && text[i] != '.'
        invariant
            start <= i <= len,
            len == text@.len(),
            body == text@.subrange(start as int, len as int),
            point_from(body, 0) == point_from(body, i - start),
            valid <==> all_digits(body.subrange(0, i - start)),
            0 <= whole <= WHOLE_CAP * 10 + 9,
            valid && whole < WHOLE_CAP ==> whole == number_of(body.subrange(0, i - start)),
            valid && whole >= WHOLE_CAP ==> number_of(body.subrange(0, i - start)) >= WHOLE_CAP,
        decreases len - i,
    {
        let ghost k = i - start;
        assert(body[k] == text@[i as int]);
        let ghost before = body.subrange(0, k);
        let ghost grown = body.subrange(0, k + 1);
        assert(grown.drop_last() =~= before);
        assert(grown.last() == body[k]);
        match digit_of(text[i]) {
            Some(d) => {
                proof {
                    if valid {
                        assert forall|j: int| 0 <= j < grown.len() implies is_digit(
                            #[trigger] grown[j],
                        ) by {
                            if j < k {
                                assert(is_digit(before[j]));
                            }
                        }
                        lemma_number_grows(body, k);
                        lemma_number_nonnegative(before);
                    } else {
                        if all_digits(grown) {
                            assert forall|j: int| 0 <= j < before.len() implies is_digit(
                                #[trigger] before[j],
                            ) by {
                                assert(is_digit(grown[j]));
                            }
                        }
                    }
                }
                if whole < WHOLE_CAP {
                    whole = whole * 10 + d;
                }
            },
            None => {
                proof {
                    if all_digits(grown) {
                        assert(is_digit(grown[k]));
                    }
                }
                valid = false;
            },
        }
        i += 1;
    }
    let point = i;
    assert(point_from(body, 0) == point - start);
    let ghost whole_digits = whole_part(text@);
    assert(whole_digits =~= body.subrange(0, point - start));
    let whole_len = point - start;
    // The fraction: all digits after the point, of which six count.
    let frac_start: usize = if point < len {
        point + 1
    } else {
        len
    };
    let ghost fraction = fraction_part(text@);
    assert(fraction =~= text@.subrange(frac_start as int, len as int));
    let frac_len = len - frac_start;
    let mut j: usize = frac_start;
    while j < len
        invariant
            frac_start <= j <= len,
            len == text@.len(),
            fraction == text@.subrange(frac_start as int, len as int),
            valid ==> all_digits(fraction.subrange(0, j - frac_start)),
            !valid ==> !all_digits(whole_digits) || !all_digits(fraction),
            valid ==> all_digits(whole_digits),
        decreases len - j,
    {
        let ghost k = j - frac_start;
        assert(fraction[k] == text@[j as int]);
        match digit_of(text[j]) {
            Some(_) => {
                proof {
                    if valid {
                        assert forall|m: int| 0 <= m < k + 1 implies is_digit(
                            #[trigger] fraction.subrange(0, k + 1)[m],
                        ) by {
                            if m < k {
                                assert(is_digit(fraction.subrange(0, k)[m]));
                            }
                        }
                    }
                }
            },
            None => {
                proof {
                    if all_digits(fraction) {
                        assert(is_digit(fraction[k]));
                    }
                }
                valid = false;
            },
        }
        j += 1;
    }
    assert(valid ==> fraction.subrange(0, fraction.len() as int) =~= fraction);
    if !valid || whole_len + frac_len == 0 {
        return None;
    }
    let ghost places = six_places(fraction);
    let mut micro: i64 = 0;
    let mut n: usize = 0;
    while n < 6
        invariant
            n <= 6,
            valid,
            all_digits(fraction),
            len == text@.len(),
            frac_len == fraction.len(),
            frac_start + frac_len == len,
            fraction == text@.subrange(frac_start as int, len as int),
            places == six_places(fraction),
            micro == number_of(places.subrange(0, n as int)),
            0 <= micro < 1_000_000,
            n == 0 ==> micro == 0,
            n == 1 ==> micro < 10,
            n == 2 ==> micro < 100,
            n == 3 ==> micro < 1_000,
            n == 4 ==> micro < 10_000,
            n == 5 ==> micro < 100_000,
        decreases 6 - n,
    {
        let d: i64 = if n < frac_len {
            assert(fraction[n as int] == text@[frac_start + n]);
            assert(is_digit(fraction[n as int]));
            match digit_of(text[frac_start + n]) {
                Some(d) => d,
                None => 0,
            }
        } else {
            0
        };
        proof {
            assert(places[n as int] == if n < frac_len {
                fraction[n as int]
            } else {
                '0'
            });
            assert(digit_value(places[n as int]) == d);
            assert forall|m: int| 0 <= m < n + 1 implies is_digit(
                #[trigger] places.subrange(0, n + 1)[m],
            ) by {
                if m < fraction.len() {
                    assert(is_digit(fraction[m]));
                }
            }
            lemma_number_grows(places, n as int);
        }
        micro = micro * 10 + d;
        n += 1;
    }
    assert(places.subrange(0, 6) =~= places);
    proof {
        lemma_number_nonnegative(whole_digits);
    }
    let size: i64 = if whole >= WHOLE_CAP {
        LIMIT
    } else {
        let exact = whole * ONE + micro;
        if exact > LIMIT {
            LIMIT
        } else {
            exact
        }
    };
    if negative {
        Some(-size)
    } else {
        Some(size)
    }
}

/// `spec_parse_decimal` on what a vector holds.
pub open spec fn spec_parse_decimal_vec(text: &Vec<char>) -> Option<i64> {
    spec_parse_decimal(text@)
}

/// A decimal number without a sign and its negative read as opposite
/// values.
pub proof fn lemma_sign_negates(digits: Seq<char>)
    requires
        digits.len() > 0,
        !has_sign(digits),
        is_decimal(digits),
    ensures
        is_decimal(seq!['-'].add(digits)),
        is_decimal(seq!['+'].add(digits)),
        spec_parse_decimal(seq!['-'].add(digits))->0 == -spec_parse_decimal(digits)->0,
        spec_parse_decimal(seq!['+'].add(digits)) == spec_parse_decimal(digits),
{
    let minus = seq!['-'].add(digits);
    let plus = seq!['+'].add(digits);
    assert(unsigned_part(minus) =~= digits);
    assert(unsigned_part(plus) =~= digits);
    assert(unsigned_part(digits) =~= digits);
}

/// Nothing but a sign, or nothing but a point, or nothing at all, is no
/// number.
pub proof fn lemma_needs_a_digit()
    ensures
        spec_parse_decimal(Seq::empty()) is None,
        spec_parse_decimal(seq!['-']) is None,
        spec_parse_decimal(seq!['+']) is None,
        spec_parse_decimal(seq!['.']) is None,
{
    let e = Seq::<char>::empty();
    assert(unsigned_part(e) =~= e);
    assert(whole_part(e).len() == 0 && fraction_part(e).len() == 0);
    assert(unsigned_part(seq!['-']) =~= e);
    assert(whole_part(seq!['-']).len() == 0 && fraction_part(seq!['-']).len() == 0);
    assert(unsigned_part(seq!['+']) =~= e);
    assert(whole_part(seq!['+']).len() == 0 && fraction_part(seq!['+']).len() == 0);
    let p = seq!['.'];
    assert(unsigned_part(p) =~= p);
    assert(point_from(p, 0) == 0);
    assert(whole_part(p).len() == 0 && fraction_part(p).len() == 0);
}

} // verus!
