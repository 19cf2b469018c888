//! The instrument's commands: what each one sends and how its reply is read.

use vstd::prelude::*;
use vstd::string::*;
use crate::error::Error;

pub mod iee4882;
pub mod measure;
pub mod output;

verus! {

/// A command of the instrument, with the way to decode the reply line that
/// it calls for.
pub trait Operation {
    /// What a reply decodes to.
    type Out: View;

    /// The text of the command, without the line terminator.
    spec fn command_text(&self) -> Seq<char>;

    /// Whether the instrument answers the command with a line.
    spec fn expects_reply(&self) -> bool;

    /// What `line` decodes to, or `None` where it is not a reply that the
    /// command calls for.
    spec fn decoded(&self, line: Seq<char>) -> Option<<Self::Out as View>::V>;

    fn command(&self) -> (text: String)
        ensures
            text@ == self.command_text(),
    ;

    fn has_output(&self) -> (flag: bool)
        ensures
            flag == self.expects_reply(),
    ;

    fn parse_line(&self, line: &str) -> (result: Result<Self::Out, Error>)
        ensures
            result is Ok ==> self.decoded(line@) == Some(result->Ok_0@),
            result is Err ==> self.decoded(line@) is None && result->Err_0 is UnexpectedData,
    ;

    /// Whether two decoded replies say the same.
    fn same_out(left: &Self::Out, right: &Self::Out) -> (same: bool)
        ensures
            same == (left@ == right@),
    ;
}

/// The truth value that a token stands for, if it is one of the four
/// accepted spellings.
pub open spec fn bool_of_token(token: Seq<char>) -> Option<bool> {
    if token == seq!['O', 'N'] || token == seq!['1'] {
        Some(true)
    } else if token == seq!['O', 'F', 'F'] || token == seq!['0'] {
        Some(false)
    } else {
        None
    }
}

/// Decodes an on/off token: `ON` and `1` are true, `OFF` and `0` are false,
/// and nothing else is accepted.
pub fn parse_bool(data: &str) -> (result: Option<bool>)
    ensures
        result == bool_of_token(data@),
{
    let n: usize = data.unicode_len();
    if n == 1 {
        let c = data.get_char(0);
        if c == '1' {
            assert(data@ =~= seq!['1']);
            Some(true)
        } else if c == '0' {
            assert(data@ =~= seq!['0']);
            Some(false)
        } else {
            None
        }
    } else if n == 2 {
        if data.get_char(0) == 'O' && data.get_char(1) == 'N' {
            assert(data@ =~= seq!['O', 'N']);
            Some(true)
        } else {
            None
        }
    } else if n == 3 {
        if data.get_char(0) == 'O' && data.get_char(1) == 'F' && data.get_char(2) == 'F' {
            assert(data@ =~= seq!['O', 'F', 'F']);
            Some(false)
        } else {
            None
        }
    } else {
        None
    }
}

/// Whether decoding `line` under `op` comes out as `expected`: the same
/// value, or a rejection where one is expected. An expected transport
/// failure is never met, since decoding a line does not touch a transport.
pub open spec fn meets<O: Operation>(op: O, line: Seq<char>, expected: Result<O::Out, Error>) -> bool {
    match expected {
        Ok(out) => op.decoded(line) == Some(out@),
        Err(error) => error is UnexpectedData && op.decoded(line) is None,
    }
}

/// Runs a decoder over a table of lines, each with the outcome expected of
/// it, and says whether every line came out as expected.
pub fn test_states<O: Operation>(op: O, states: &[(&str, Result<O::Out, Error>)]) -> (all: bool)
    ensures
        all == forall|i: int|
            0 <= i < states@.len() ==> meets(op, (#[trigger] states@[i]).0@, states@[i].1),
{
    let mut i: usize = 0;
    while i < states.len()
        invariant
            i <= states@.len(),
            forall|j: int| 0 <= j < i ==> meets(op, (#[trigger] states@[j]).0@, states@[j].1),
        decreases states@.len() - i,
    {
        let state = &states[i];
        let out = op.parse_line(state.0);
        let met = match (&state.1, &out) {
            (Ok(expected), Ok(out)) => O::same_out(expected, out),
            (Err(Error::UnexpectedData), Err(_)) => true,
            _ => false,
        };
        if !met {
            assert(!meets(op, states@[i as int].0@, states@[i as int].1));
            return false;
        }
        i += 1;
    }
    true
}

} // verus!
