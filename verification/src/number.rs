//! Numeric tokens: the decimal literals that the instrument sends and accepts.
//!
//! A token is kept as the text that was on the wire. What is checked here is
//! its form, the one that the standard decimal-number parser accepts, so that
//! a caller who wants a machine number can convert the text without failure.

use vstd::prelude::*;
use vstd::string::*;
use crate::text::rest_from;

verus! {

/// A decimal digit.
pub open spec fn is_digit(c: char) -> bool {
    '0' <= c && c <= '9'
}

/// A plus or a minus.
pub open spec fn is_sign(c: char) -> bool {
    c == '+' || c == '-'
}

/// `c` is the letter `lower`, in either case.
pub open spec fn is_letter(c: char, lower: char, upper: char) -> bool {
    c == lower || c == upper
}

/// The length of the longest prefix of `s` that is made of digits.
pub open spec fn digits_len(s: Seq<char>) -> nat
    decreases s.len(),
{
    if s.len() > 0 && is_digit(s[0]) {
        1 + digits_len(s.skip(1))
    } else {
        0
    }
}

/// `s` without its leading sign, if it has one.
pub open spec fn unsigned_part(s: Seq<char>) -> Seq<char> {
    if s.len() > 0 && is_sign(s[0]) {
        s.skip(1)
    } else {
        s
    }
}

/// `inf`, `infinity` or `nan`, in any mix of cases.
pub open spec fn is_special(s: Seq<char>) -> bool {
    ||| {
        &&& s.len() == 3
        &&& is_letter(s[0], 'i', 'I')
        &&& is_letter(s[1], 'n', 'N')
        &&& is_letter(s[2], 'f', 'F')
    }
    ||| {
        &&& s.len() == 3
        &&& is_letter(s[0], 'n', 'N')
        &&& is_letter(s[1], 'a', 'A')
        &&& is_letter(s[2], 'n', 'N')
    }
    ||| {
        &&& s.len() == 8
        &&& is_letter(s[0], 'i', 'I')
        &&& is_letter(s[1], 'n', 'N')
        &&& is_letter(s[2], 'f', 'F')
        &&& is_letter(s[3], 'i', 'I')
        &&& is_letter(s[4], 'n', 'N')
        &&& is_letter(s[5], 'i', 'I')
        &&& is_letter(s[6], 't', 'T')
        &&& is_letter(s[7], 'y', 'Y')
    }
}

/// What follows the exponent mark: an optional sign, then one digit or more
/// and nothing else.
pub open spec fn is_exponent(s: Seq<char>) -> bool {
    let d = unsigned_part(s);
    d.len() > 0 && digits_len(d) == d.len()
}

/// Digits with an optional point among them and at least one digit in all,
/// then an optional exponent.
pub open spec fn is_decimal(s: Seq<char>) -> bool {
    let whole = digits_len(s);
    let after_whole = s.skip(whole as int);
    let has_point = after_whole.len() > 0 && after_whole[0] == '.';
    let fraction: nat = if has_point { digits_len(after_whole.skip(1)) } else { 0 };
    let tail = if has_point { after_whole.skip(1 + fraction as int) } else { after_whole };
    &&& whole + fraction > 0
    &&& (tail.len() == 0 || (is_letter(tail[0], 'e', 'E') && is_exponent(tail.skip(1))))
}

/// The form of a numeric token: an optional sign, then a decimal number or
/// one of the three special words.
pub open spec fn is_number_token(s: Seq<char>) -> bool {
    let body = unsigned_part(s);
    is_special(body) || is_decimal(body)
}

/// The digits at the start of `s` are digits, and what follows them, if
/// anything does, is none.
pub proof fn lemma_digits_len_bound(s: Seq<char>)
    ensures
        digits_len(s) <= s.len(),
        forall|i: int| 0 <= i < digits_len(s) ==> is_digit(#[trigger] s[i]),
        digits_len(s) < s.len() ==> !is_digit(s[digits_len(s) as int]),
    decreases s.len(),
{
    if s.len() > 0 && is_digit(s[0]) {
        let t = s.skip(1);
        lemma_digits_len_bound(t);
        assert forall|i: int| 0 <= i < digits_len(s) implies is_digit(#[trigger] s[i]) by {
            if i > 0 {
                assert(s[i] == t[i - 1]);
            }
        }
        if digits_len(s) < s.len() {
            assert(s[digits_len(s) as int] == t[digits_len(t) as int]);
        }
    }
}

/// A run of `n` digits that stops at the end of `s` or at another character
/// is the longest one.
pub proof fn lemma_digits_len_is(s: Seq<char>, n: nat)
    requires
        n <= s.len(),
        forall|i: int| 0 <= i < n ==> is_digit(#[trigger] s[i]),
        n < s.len() ==> !is_digit(s[n as int]),
    ensures
        digits_len(s) == n,
    decreases n,
{
    if n > 0 {
        let t = s.skip(1);
        assert forall|i: int| 0 <= i < n - 1 implies is_digit(#[trigger] t[i]) by {
            assert(t[i] == s[i + 1]);
        }
        if n < s.len() {
            assert(t[n - 1] == s[n as int]);
        }
        lemma_digits_len_is(t, (n - 1) as nat);
    }
}

fn is_digit_char(c: char) -> (result: bool)
    ensures
        result == is_digit(c),
{
    '0' <= c && c <= '9'
}

fn is_letter_char(c: char, lower: char, upper: char) -> (result: bool)
    ensures
        result == is_letter(c, lower, upper),
{
    c == lower || c == upper
}

/// Counts the digits at the start of `s`.
pub(crate) fn count_digits(s: &str) -> (count: usize)
    ensures
        count == digits_len(s@),
        count <= s@.len(),
{
    let n: usize = s.unicode_len();
    let mut i: usize = 0;
    while i < n && is_digit_char(s.get_char(i))
        invariant
            i <= n,
            n == s@.len(),
            forall|j: int| 0 <= j < i ==> is_digit(#[trigger] s@[j]),
        decreases n - i,
    {
        i += 1;
    }
    proof {
        lemma_digits_len_is(s@, i as nat);
    }
    i
}

/// `s` without its leading sign, if it has one.
pub(crate) fn strip_sign(s: &str) -> (body: &str)
    ensures
        body@ == unsigned_part(s@),
{
    let n: usize = s.unicode_len();
    if n > 0 {
        let c = s.get_char(0);
        if c == '+' || c == '-' {
            return rest_from(s, 1);
        }
    }
    s
}

fn check_special(s: &str) -> (result: bool)
    ensures
        result == is_special(s@),
{
    let n: usize = s.unicode_len();
    if n == 3 {
        let a = s.get_char(0);
        let b = s.get_char(1);
        let c = s.get_char(2);
        (is_letter_char(a, 'i', 'I') && is_letter_char(b, 'n', 'N') && is_letter_char(c, 'f', 'F'))
            || (is_letter_char(a, 'n', 'N') && is_letter_char(b, 'a', 'A') && is_letter_char(
            c,
            'n',
            'N',
        ))
    } else if n == 8 {
        is_letter_char(s.get_char(0), 'i', 'I') && is_letter_char(s.get_char(1), 'n', 'N')
            && is_letter_char(s.get_char(2), 'f', 'F') && is_letter_char(s.get_char(3), 'i', 'I')
            && is_letter_char(s.get_char(4), 'n', 'N') && is_letter_char(s.get_char(5), 'i', 'I')
            && is_letter_char(s.get_char(6), 't', 'T') && is_letter_char(s.get_char(7), 'y', 'Y')
    } else {
        false
    }
}

fn check_exponent(s: &str) -> (result: bool)
    ensures
        result == is_exponent(s@),
{
    let digits = strip_sign(s);
    let n: usize = digits.unicode_len();
    n > 0 && count_digits(digits) == n
}

fn check_decimal(s: &str) -> (result: bool)
    ensures
        result == is_decimal(s@),
{
    let whole: usize = count_digits(s);
    let after_whole = rest_from(s, whole);
    let has_point = after_whole.unicode_len() > 0 && after_whole.get_char(0) == '.';
    let mut fraction: usize = 0;
    let mut tail = after_whole;
    if has_point {
        let after_point = rest_from(after_whole, 1);
        fraction = count_digits(after_point);
        tail = rest_from(after_point, fraction);
        assert(tail@ =~= after_whole@.skip(1 + fraction as int));
    }
    if whole == 0 && fraction == 0 {
        return false;
    }
    if tail.unicode_len() == 0 {
        return true;
    }
    is_letter_char(tail.get_char(0), 'e', 'E') && check_exponent(rest_from(tail, 1))
}

/// Whether `token` has the form of a numeric token.
pub fn is_number(token: &str) -> (result: bool)
    ensures
        result == is_number_token(token@),
{
    let body = strip_sign(token);
    check_special(body) || check_decimal(body)
}

/// A numeric token, as it stood on the wire.
#[derive(Debug, PartialEq, Eq)]
pub struct Number {
    text: String,
}

impl View for Number {
    type V = Seq<char>;

    closed spec fn view(&self) -> Seq<char> {
        self.text@
    }
}

impl Number {
    #[verifier::type_invariant]
    spec fn well_formed(&self) -> bool {
        is_number_token(self.text@)
    }

    /// Accepts `token` if and only if it has the form of a numeric token,
    /// and keeps it unchanged.
    pub fn parse(token: &str) -> (result: Option<Number>)
        ensures
            result is Some <==> is_number_token(token@),
            result is Some ==> result->Some_0@ == token@,
    {
        if is_number(token) {
            Some(Number { text: token.to_owned() })
        } else {
            None
        }
    }

    /// The token's text.
    pub fn as_str(&self) -> (text: &str)
        ensures
            text@ == self@,
            is_number_token(self@),
    {
        proof {
            use_type_invariant(self);
        }
        self.text.as_str()
    }

    /// Whether two tokens are the same text.
    pub fn same(&self, other: &Number) -> (result: bool)
        ensures
            result == (self@ == other@),
    {
        self.text == other.text
    }
}

impl Clone for Number {
    fn clone(&self) -> (copy: Number)
        ensures
            copy == *self,
    {
        proof {
            use_type_invariant(self);
        }
        Number { text: self.text.clone() }
    }
}

} // verus!
