//! What holds of the commands, the decoders and the engine as a whole.

use vstd::prelude::*;
use crate::engine::{
    accepts, decodes_to, is_terminator, is_whole_line, operation_step, reply_comes_to, trimmed,
    Action, Event, Phase,
};
use crate::error::Error;
use crate::fields::split_fields;
use crate::operations::iee4882::{Idn, Reset};
use crate::operations::measure;
use crate::operations::measure::{MeasureAll, MeasureAllInfo};
use crate::operations::output::{
    Current, CurrentLimit, DisableOutput, EnableOutput, Output, SetCurrent, SetCurrentLimit,
    SetVolt, SetVoltLimit, Volt, VoltLimit,
};
use crate::operations::Operation;
use crate::number::{
    digits_len, is_decimal, is_digit, is_exponent, is_number_token, is_sign, is_special,
    lemma_digits_len_bound, unsigned_part, Number,
};

verus! {

/// A text without a terminator character in it.
pub open spec fn is_one_line(text: Seq<char>) -> bool {
    forall|i: int| 0 <= i < text.len() ==> !is_terminator(#[trigger] text[i])
}

/// A character that can occur in a numeric token.
pub open spec fn is_number_char(c: char) -> bool {
    is_digit(c) || is_sign(c) || c == '.' || ('a' <= c && c <= 'z') || ('A' <= c && c <= 'Z')
}

proof fn lemma_exponent_chars(s: Seq<char>)
    requires
        is_exponent(s),
    ensures
        forall|i: int| 0 <= i < s.len() ==> is_number_char(#[trigger] s[i]),
{
    let d = unsigned_part(s);
    lemma_digits_len_bound(d);
    assert forall|i: int| 0 <= i < s.len() implies is_number_char(#[trigger] s[i]) by {
        if s.len() > 0 && is_sign(s[0]) {
            if i > 0 {
                assert(s[i] == d[i - 1]);
            }
        }
    }
}

proof fn lemma_decimal_chars(s: Seq<char>)
    requires
        is_decimal(s),
    ensures
        forall|i: int| 0 <= i < s.len() ==> is_number_char(#[trigger] s[i]),
{
    let whole = digits_len(s);
    lemma_digits_len_bound(s);
    let after_whole = s.skip(whole as int);
    let has_point = after_whole.len() > 0 && after_whole[0] == '.';
    let fraction: nat = if has_point { digits_len(after_whole.skip(1)) } else { 0 };
    let tail = if has_point { after_whole.skip(1 + fraction as int) } else { after_whole };
    let tail_at: int = s.len() - tail.len();
    if has_point {
        lemma_digits_len_bound(after_whole.skip(1));
    }
    if tail.len() > 0 {
        lemma_exponent_chars(tail.skip(1));
    }
    assert forall|i: int| 0 <= i < s.len() implies is_number_char(#[trigger] s[i]) by {
        if i < whole {
        } else if i < tail_at {
            if i > whole {
                assert(s[i] == after_whole.skip(1)[i - whole - 1]);
            } else {
                assert(s[i] == after_whole[0]);
            }
        } else if i == tail_at {
            assert(s[i] == tail[0]);
        } else {
            assert(s[i] == tail.skip(1)[i - tail_at - 1]);
        }
    }
}

/// A numeric token is made of digits, signs, points and letters, so it
/// holds no terminator character.
pub proof fn lemma_number_is_one_line(token: Seq<char>)
    requires
        is_number_token(token),
    ensures
        is_one_line(token),
{
    let body = unsigned_part(token);
    if !is_special(body) {
        lemma_decimal_chars(body);
    }
    assert forall|i: int| 0 <= i < token.len() implies !is_terminator(#[trigger] token[i]) by {
        if token.len() > 0 && is_sign(token[0]) {
            if i > 0 {
                assert(token[i] == body[i - 1]);
                assert(is_number_char(body[i - 1]));
            }
        } else {
            assert(is_number_char(body[i]));
        }
    }
}

/// Trimming takes a terminator away from a text that had none, and leaves
/// the text.
pub proof fn lemma_trimmed_line(text: Seq<char>)
    requires
        is_one_line(text),
    ensures
        trimmed(text + seq!['\r', '\n']) == text,
        is_whole_line(text + seq!['\r', '\n']),
{
    let raw = text + seq!['\r', '\n'];
    assert(raw.last() == '\n');
    if text.len() > 0 {
        assert(raw[text.len() - 1] == text[text.len() - 1]);
    }
    crate::engine::lemma_trimmed_is(raw, text.len() as int);
    assert(raw.take(text.len() as int) =~= text);
}

/// Setting the voltage and reading it back: where the instrument answers the
/// query with the token that the set command carried, the query comes to
/// that token, unchanged.
pub proof fn lemma_volt_round_trip(set: SetVolt, result: Result<Number, Error>)
    requires
        is_number_token(set.value@),
        reply_comes_to(Volt {}, set.value@ + seq!['\r', '\n'], result),
    ensures
        set.command_text() == "VOLT "@ + set.value@,
        result is Ok,
        result->Ok_0@ == set.value@,
{
    lemma_number_is_one_line(set.value@);
    lemma_trimmed_line(set.value@);
}

/// Setting the voltage limit and reading it back: where the instrument answers the
/// query with the token that the set command carried, the query comes to
/// that token, unchanged.
pub proof fn lemma_volt_limit_round_trip(set: SetVoltLimit, result: Result<Number, Error>)
    requires
        is_number_token(set.value@),
        reply_comes_to(VoltLimit {}, set.value@ + seq!['\r', '\n'], result),
    ensures
        set.command_text() == "VOLT:LIMIT "@ + set.value@,
        result is Ok,
        result->Ok_0@ == set.value@,
{
    lemma_number_is_one_line(set.value@);
    lemma_trimmed_line(set.value@);
}

/// Setting the current and reading it back: where the instrument answers the
/// query with the token that the set command carried, the query comes to
/// that token, unchanged.
pub proof fn lemma_current_round_trip(set: SetCurrent, result: Result<Number, Error>)
    requires
        is_number_token(set.value@),
        reply_comes_to(Current {}, set.value@ + seq!['\r', '\n'], result),
    ensures
        set.command_text() == "CURR "@ + set.value@,
        result is Ok,
        result->Ok_0@ == set.value@,
{
    lemma_number_is_one_line(set.value@);
    lemma_trimmed_line(set.value@);
}

/// Setting the current limit and reading it back: where the instrument answers the
/// query with the token that the set command carried, the query comes to
/// that token, unchanged.
pub proof fn lemma_current_limit_round_trip(set: SetCurrentLimit, result: Result<Number, Error>)
    requires
        is_number_token(set.value@),
        reply_comes_to(CurrentLimit {}, set.value@ + seq!['\r', '\n'], result),
    ensures
        set.command_text() == "CURR:LIMIT "@ + set.value@,
        result is Ok,
        result->Ok_0@ == set.value@,
{
    lemma_number_is_one_line(set.value@);
    lemma_trimmed_line(set.value@);
}

/// Decoding is a function of the command and the line: two decodings of one
/// line under one command both succeed with the same value, or both refuse
/// the line.
pub proof fn lemma_decoding_is_a_function<O: Operation>(
    op: O,
    line: Seq<char>,
    first: Result<O::Out, Error>,
    second: Result<O::Out, Error>,
)
    requires
        decodes_to(op, line, first),
        decodes_to(op, line, second),
    ensures
        first is Ok <==> second is Ok,
        first is Ok ==> first->Ok_0@ == second->Ok_0@,
        first is Err ==> first->Err_0 is UnexpectedData && second->Err_0 is UnexpectedData,
{
}

/// An identification with fewer than four fields is refused.
pub proof fn lemma_short_identification_is_refused(line: Seq<char>)
    requires
        split_fields(line).len() < 4,
    ensures
        (Idn {}).decoded(line) is None,
{
}

/// A reply that the stream cut short, without a line feed at its end, is a
/// transport failure whatever it holds, and never a refused reply.
pub proof fn lemma_cut_reply_is_transport_failure<O: Operation>(
    op: O,
    raw: Seq<char>,
    result: Result<O::Out, Error>,
)
    requires
        !is_whole_line(raw),
        reply_comes_to(op, raw, result),
    ensures
        result is Err,
        result->Err_0 is IOError,
        !(result->Err_0 is UnexpectedData),
{
}

/// Whether two actions ask for the same: the same bytes to send, a line to
/// read, or the same outcome, which is the same value or a failure of the
/// same kind.
pub open spec fn same_action<T: View>(first: Action<T>, second: Action<T>) -> bool {
    match (first, second) {
        (Action::Send(a), Action::Send(b)) => a@ == b@,
        (Action::Receive, Action::Receive) => true,
        (Action::Finish(Ok(a)), Action::Finish(Ok(b))) => a@ == b@,
        (Action::Finish(Err(a)), Action::Finish(Err(b))) => (a is IOError) == (b is IOError),
        _ => false,
    }
}

/// A step depends on the command and the event alone: two engines that are
/// handed the same event for the same command go to the same phase and ask
/// for the same, whoever drives them.
pub proof fn lemma_step_is_determined<O: Operation>(
    op: O,
    event: Event,
    first_after: Phase,
    first: Action<O::Out>,
    second_after: Phase,
    second: Action<O::Out>,
)
    requires
        operation_step(op, event, first_after, first),
        operation_step(op, event, second_after, second),
    ensures
        first_after == second_after,
        same_action(first, second),
{
}

/// Whatever comes of a step that ends a call, the engine is free for the
/// next call: a refused reply or a failed transport leaves nothing behind.
pub proof fn lemma_finished_call_frees_engine<O: Operation>(
    op: O,
    event: Event,
    after: Phase,
    action: Action<O::Out>,
)
    requires
        operation_step(op, event, after, action),
    ensures
        action is Finish <==> after == Phase::Idle,
        after == Phase::Idle ==> accepts(after, Event::Start),
{
}

/// No command of the vocabulary holds a terminator character, so each goes
/// out as one line.
pub proof fn lemma_commands_are_one_line()
    ensures
        is_one_line((Idn {}).command_text()),
        is_one_line((Reset {}).command_text()),
        is_one_line((EnableOutput {}).command_text()),
        is_one_line((DisableOutput {}).command_text()),
        is_one_line((Output {}).command_text()),
        is_one_line((Volt {}).command_text()),
        is_one_line((VoltLimit {}).command_text()),
        is_one_line((Current {}).command_text()),
        is_one_line((CurrentLimit {}).command_text()),
        is_one_line((measure::Volt {}).command_text()),
        is_one_line((measure::Current {}).command_text()),
        is_one_line((measure::Power {}).command_text()),
        is_one_line((MeasureAll {}).command_text()),
        is_one_line((MeasureAllInfo {}).command_text()),
{
    reveal_strlit("*IDN?");
    reveal_strlit("*RST");
    reveal_strlit("OUTP ON");
    reveal_strlit("OUTP OFF");
    reveal_strlit("OUTP?");
    reveal_strlit("VOLT?");
    reveal_strlit("VOLT:LIM?");
    reveal_strlit("CURR?");
    reveal_strlit("CURR:LIM?");
    reveal_strlit("MEAS:VOLT?");
    reveal_strlit("MEAS:Current?");
    reveal_strlit("MEAS:Power?");
    reveal_strlit("MEAS:ALL?");
    reveal_strlit("MEAS:ALL:INFO?");
}

/// A set command goes out as one line too, whatever token it carries.
pub proof fn lemma_set_commands_are_one_line(value: Number)
    requires
        is_number_token(value@),
    ensures
        is_one_line((SetVolt { value }).command_text()),
        is_one_line((SetVoltLimit { value }).command_text()),
        is_one_line((SetCurrent { value }).command_text()),
        is_one_line((SetCurrentLimit { value }).command_text()),
{
    reveal_strlit("VOLT ");
    reveal_strlit("VOLT:LIMIT ");
    reveal_strlit("CURR ");
    reveal_strlit("CURR:LIMIT ");
    lemma_number_is_one_line(value@);
}

} // verus!
