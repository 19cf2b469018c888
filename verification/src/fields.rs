//! Comma-separated fields of a reply line.

use vstd::prelude::*;
use vstd::string::*;
use crate::text::{rest_from, start_of};

verus! {

/// The index of the first comma in `s`, or the length of `s` if it has none.
pub open spec fn first_comma(s: Seq<char>) -> nat
    decreases s.len(),
{
    if s.len() == 0 || s[0] == ',' {
        0
    } else {
        1 + first_comma(s.skip(1))
    }
}

/// The fields of `s`: the stretches between its commas, in order. A line
/// without a comma is one field, and so is the empty line.
pub open spec fn split_fields(s: Seq<char>) -> Seq<Seq<char>>
    decreases s.len(),
{
    let k = first_comma(s);
    if k < s.len() {
        seq![s.take(k as int)] + split_fields(s.skip(k as int + 1))
    } else {
        seq![s]
    }
}

/// A stretch of `n` characters without a comma that ends at a comma or at
/// the end of `s` reaches the first comma.
pub proof fn lemma_first_comma_is(s: Seq<char>, n: nat)
    requires
        n <= s.len(),
        forall|i: int| 0 <= i < n ==> #[trigger] s[i] != ',',
        n < s.len() ==> s[n as int] == ',',
    ensures
        first_comma(s) == n,
    decreases n,
{
    if n > 0 {
        let t = s.skip(1);
        assert forall|i: int| 0 <= i < n - 1 implies #[trigger] t[i] != ',' by {
            assert(t[i] == s[i + 1]);
        }
        if n < s.len() {
            assert(t[n - 1] == s[n as int]);
        }
        lemma_first_comma_is(t, (n - 1) as nat);
    }
}

/// A cursor over the fields of a line that have not been taken yet.
pub struct Fields<'a> {
    rest: Option<&'a str>,
}

impl<'a> View for Fields<'a> {
    type V = Seq<Seq<char>>;

    closed spec fn view(&self) -> Seq<Seq<char>> {
        match self.rest {
            Some(text) => split_fields(text@),
            None => Seq::empty(),
        }
    }
}

impl<'a> Fields<'a> {
    /// A cursor over all the fields of `line`.
    pub fn new(line: &'a str) -> (fields: Fields<'a>)
        ensures
            fields@ == split_fields(line@),
    {
        Fields { rest: Some(line) }
    }

    /// Takes the next field, if one is left.
    pub fn next_field(&mut self) -> (field: Option<&'a str>)
        ensures
            old(self)@.len() == 0 ==> field is None && final(self)@ == old(self)@,
            old(self)@.len() > 0 ==> field is Some && field->Some_0@ == old(self)@[0]
                && final(self)@ == old(self)@.skip(1),
    {
        match self.rest {
            None => None,
            Some(text) => {
                let n: usize = text.unicode_len();
                let mut k: usize = 0;
                while k < n && text.get_char(k) != ','
                    invariant
                        k <= n,
                        n == text@.len(),
                        forall|i: int| 0 <= i < k ==> #[trigger] text@[i] != ',',
                    decreases n - k,
                {
                    k += 1;
                }
                proof {
                    lemma_first_comma_is(text@, k as nat);
                }
                if k < n {
                    let field = start_of(text, k);
                    let rest = rest_from(text, k + 1);
                    self.rest = Some(rest);
                    assert(split_fields(text@).skip(1) =~= split_fields(rest@));
                    Some(field)
                } else {
                    self.rest = None;
                    assert(split_fields(text@).skip(1) =~= Seq::<Seq<char>>::empty());
                    Some(text)
                }
            },
        }
    }
}

} // verus!
