//! Reading what the instrument measures at its output.

use vstd::prelude::*;
use vstd::string::*;
use crate::error::Error;
use crate::fields::{split_fields, Fields};
use crate::number::{
    count_digits, digits_len, is_digit, is_number_token, strip_sign, unsigned_part, Number,
};
use crate::operations::output::{number_of_line, parse_number};
use crate::operations::{bool_of_token, parse_bool, Operation};

verus! {

/// Takes the next field and decodes it as a numeric token.
pub fn pop_number(parts: &mut Fields) -> (result: Result<Number, Error>)
    ensures
        result is Ok <==> old(parts)@.len() > 0 && is_number_token(old(parts)@[0]),
        result is Ok ==> result->Ok_0@ == old(parts)@[0],
        result is Err ==> result->Err_0 is UnexpectedData,
        old(parts)@.len() > 0 ==> final(parts)@ == old(parts)@.skip(1),
        old(parts)@.len() == 0 ==> final(parts)@ == old(parts)@,
{
    match parts.next_field() {
        Some(field) => parse_number(field),
        None => Err(Error::UnexpectedData),
    }
}

/// Takes the next field and decodes it as an on/off token.
pub fn pop_bool(parts: &mut Fields) -> (result: Result<bool, Error>)
    ensures
        result is Ok <==> old(parts)@.len() > 0 && bool_of_token(old(parts)@[0]) is Some,
        result is Ok ==> Some(result->Ok_0) == bool_of_token(old(parts)@[0]),
        result is Err ==> result->Err_0 is UnexpectedData,
        old(parts)@.len() > 0 ==> final(parts)@ == old(parts)@.skip(1),
        old(parts)@.len() == 0 ==> final(parts)@ == old(parts)@,
{
    match parts.next_field() {
        Some(field) => match parse_bool(field) {
            Some(state) => Ok(state),
            None => Err(Error::UnexpectedData),
        },
        None => Err(Error::UnexpectedData),
    }
}

/// The query for the voltage at the output.
pub struct Volt {}

impl Operation for Volt {
    type Out = Number;

    open spec fn command_text(&self) -> Seq<char> {
        "MEAS:VOLT?"@
    }

    open spec fn expects_reply(&self) -> bool {
        true
    }

    open spec fn decoded(&self, line: Seq<char>) -> Option<Seq<char>> {
        number_of_line(line)
    }

    fn command(&self) -> (text: String) {
        "MEAS:VOLT?".to_owned()
    }

    fn has_output(&self) -> (flag: bool) {
        true
    }

    fn parse_line(&self, line: &str) -> (result: Result<Number, Error>) {
        parse_number(line)
    }

    fn same_out(left: &Number, right: &Number) -> (same: bool) {
        left.same(right)
    }
}

/// The query for the current through the output.
pub struct Current {}

impl Operation for Current {
    type Out = Number;

    open spec fn command_text(&self) -> Seq<char> {
        "MEAS:Current?"@
    }

    open spec fn expects_reply(&self) -> bool {
        true
    }

    open spec fn decoded(&self, line: Seq<char>) -> Option<Seq<char>> {
        number_of_line(line)
    }

    fn command(&self) -> (text: String) {
        "MEAS:Current?".to_owned()
    }

    fn has_output(&self) -> (flag: bool) {
        true
    }

    fn parse_line(&self, line: &str) -> (result: Result<Number, Error>) {
        parse_number(line)
    }

    fn same_out(left: &Number, right: &Number) -> (same: bool) {
        left.same(right)
    }
}

/// The query for the power that the output delivers.
pub struct Power {}

impl Operation for Power {
    type Out = Number;

    open spec fn command_text(&self) -> Seq<char> {
        "MEAS:Power?"@
    }

    open spec fn expects_reply(&self) -> bool {
        true
    }

    open spec fn decoded(&self, line: Seq<char>) -> Option<Seq<char>> {
        number_of_line(line)
    }

    fn command(&self) -> (text: String) {
        "MEAS:Power?".to_owned()
    }

    fn has_output(&self) -> (flag: bool) {
        true
    }

    fn parse_line(&self, line: &str) -> (result: Result<Number, Error>) {
        parse_number(line)
    }

    fn same_out(left: &Number, right: &Number) -> (same: bool) {
        left.same(right)
    }
}

/// Voltage and current, measured together.
#[derive(Debug, Clone, PartialEq)]
pub struct MeasureAllOutput {
    pub volt: Number,
    pub current: Number,
}

/// A pair of measurements, as the texts of its two parts.
pub struct MeasureAllText {
    pub volt: Seq<char>,
    pub current: Seq<char>,
}

impl View for MeasureAllOutput {
    type V = MeasureAllText;

    open spec fn view(&self) -> MeasureAllText {
        MeasureAllText { volt: self.volt@, current: self.current@ }
    }
}

/// The query for voltage and current together.
pub struct MeasureAll {}

impl Operation for MeasureAll {
    type Out = MeasureAllOutput;

    open spec fn command_text(&self) -> Seq<char> {
        "MEAS:ALL?"@
    }

    open spec fn expects_reply(&self) -> bool {
        true
    }

    /// The reply holds voltage and current, in that order. Fields beyond the
    /// second are not looked at.
    open spec fn decoded(&self, line: Seq<char>) -> Option<MeasureAllText> {
        let fields = split_fields(line);
        if fields.len() >= 2 && is_number_token(fields[0]) && is_number_token(fields[1]) {
            Some(MeasureAllText { volt: fields[0], current: fields[1] })
        } else {
            None
        }
    }

    fn command(&self) -> (text: String) {
        "MEAS:ALL?".to_owned()
    }

    fn has_output(&self) -> (flag: bool) {
        true
    }

    fn parse_line(&self, line: &str) -> (result: Result<MeasureAllOutput, Error>) {
        let mut parts = Fields::new(line);
        let volt = match pop_number(&mut parts) {
            Ok(value) => value,
            Err(error) => { return Err(error); },
        };
        let current = match pop_number(&mut parts) {
            Ok(value) => value,
            Err(error) => { return Err(error); },
        };
        Ok(MeasureAllOutput { volt, current })
    }

    fn same_out(left: &MeasureAllOutput, right: &MeasureAllOutput) -> (same: bool) {
        left.volt.same(&right.volt) && left.current.same(&right.current)
    }
}

/// The state that the instrument works in.
#[derive(Debug, Clone, Copy, Eq, PartialEq, Structural)]
pub enum Mode {
    Standby,
    ConstantVoltage,
    ConstantCurrent,
    Failed,
}

impl Mode {
    /// The number that stands for the mode on the wire.
    pub open spec fn code(self) -> int {
        match self {
            Mode::Standby => 0,
            Mode::ConstantVoltage => 1,
            Mode::ConstantCurrent => 2,
            Mode::Failed => 3,
        }
    }

    /// The mode that `code` stands for, if it stands for one.
    pub open spec fn of_code(code: int) -> Option<Mode> {
        if code == 0 {
            Some(Mode::Standby)
        } else if code == 1 {
            Some(Mode::ConstantVoltage)
        } else if code == 2 {
            Some(Mode::ConstantCurrent)
        } else if code == 3 {
            Some(Mode::Failed)
        } else {
            None
        }
    }

    /// The mode's name in words.
    pub open spec fn label(self) -> Seq<char> {
        match self {
            Mode::Standby => "Standby"@,
            Mode::ConstantVoltage => "Constant Voltage"@,
            Mode::ConstantCurrent => "Constant Current"@,
            Mode::Failed => "Failed"@,
        }
    }

    /// The mode's name in words.
    pub fn name(&self) -> (text: String)
        ensures
            text@ == self.label(),
    {
        match self {
            Mode::Standby => "Standby".to_owned(),
            Mode::ConstantVoltage => "Constant Voltage".to_owned(),
            Mode::ConstantCurrent => "Constant Current".to_owned(),
            Mode::Failed => "Failed".to_owned(),
        }
    }
}

/// The number that a run of digits spells in base ten.
pub open spec fn digits_value(digits: Seq<char>) -> nat
    decreases digits.len(),
{
    if digits.len() == 0 {
        0
    } else {
        (digits_value(digits.drop_last()) * 10 + (digits.last() as int - '0' as int)) as nat
    }
}

/// The integer that a token spells: an optional sign, then one digit or
/// more and nothing else.
pub open spec fn integer_of_token(token: Seq<char>) -> Option<int> {
    let digits = unsigned_part(token);
    if digits.len() > 0 && digits_len(digits) == digits.len() {
        if token[0] == '-' {
            Some(-(digits_value(digits) as int))
        } else {
            Some(digits_value(digits) as int)
        }
    } else {
        None
    }
}

/// The mode that a token stands for: the token spells an integer, and the
/// integer is the code of a mode.
pub open spec fn mode_of_token(token: Seq<char>) -> Option<Mode> {
    match integer_of_token(token) {
        Some(code) => Mode::of_code(code),
        None => None,
    }
}

/// Decodes a mode token.
pub fn parse_mode(token: &str) -> (result: Option<Mode>)
    ensures
        result == mode_of_token(token@),
{
    let digits = strip_sign(token);
    let n: usize = digits.unicode_len();
    if n == 0 || count_digits(digits) != n {
        return None;
    }
    proof {
        crate::number::lemma_digits_len_bound(digits@);
    }
    // The value so far, or 4 where it is beyond the codes.
    let mut value: u32 = 0;
    let mut i: usize = 0;
    while i < n
        invariant
            i <= n,
            n == digits@.len(),
            forall|j: int| 0 <= j < n ==> is_digit(#[trigger] digits@[j]),
            value <= 4,
            value < 4 ==> value == digits_value(digits@.take(i as int)),
            value == 4 ==> digits_value(digits@.take(i as int)) >= 4,
        decreases n - i,
    {
        let c = digits.get_char(i);
        let digit: u32 = c as u32 - '0' as u32;
        proof {
            assert(digits@.take(i + 1).drop_last() =~= digits@.take(i as int));
            assert(digits@.take(i + 1).last() == digits@[i as int]);
        }
        let next: u32 = value * 10 + digit;
        value = if next > 4 { 4 } else { next };
        i += 1;
    }
    proof {
        assert(digits@.take(n as int) =~= digits@);
    }
    let negative = token.get_char(0) == '-';
    if value == 0 {
        Some(Mode::Standby)
    } else if negative {
        None
    } else if value == 1 {
        Some(Mode::ConstantVoltage)
    } else if value == 2 {
        Some(Mode::ConstantCurrent)
    } else if value == 3 {
        Some(Mode::Failed)
    } else {
        None
    }
}

/// The measurements, the protection flags and the mode, read together.
#[derive(Debug, Clone, PartialEq)]
pub struct MeasureAllInfoOutput {
    pub volt: Number,
    pub current: Number,
    pub power: Number,
    pub over_voltage: bool,
    pub over_current: bool,
    pub over_temperature: bool,
    pub mode: Mode,
}

/// A full reading, its three measurements as texts.
pub struct MeasureAllInfoText {
    pub volt: Seq<char>,
    pub current: Seq<char>,
    pub power: Seq<char>,
    pub over_voltage: bool,
    pub over_current: bool,
    pub over_temperature: bool,
    pub mode: Mode,
}

impl View for MeasureAllInfoOutput {
    type V = MeasureAllInfoText;

    open spec fn view(&self) -> MeasureAllInfoText {
        MeasureAllInfoText {
            volt: self.volt@,
            current: self.current@,
            power: self.power@,
            over_voltage: self.over_voltage,
            over_current: self.over_current,
            over_temperature: self.over_temperature,
            mode: self.mode,
        }
    }
}

/// The query for everything that the instrument reports of its output.
pub struct MeasureAllInfo {}

impl Operation for MeasureAllInfo {
    type Out = MeasureAllInfoOutput;

    open spec fn command_text(&self) -> Seq<char> {
        "MEAS:ALL:INFO?"@
    }

    open spec fn expects_reply(&self) -> bool {
        true
    }

    /// The reply holds voltage, current and power, then the flags for
    /// overvoltage, overcurrent and overtemperature, then the mode. Fields
    /// beyond the seventh are not looked at.
    open spec fn decoded(&self, line: Seq<char>) -> Option<MeasureAllInfoText> {
        let fields = split_fields(line);
        if fields.len() >= 7 && is_number_token(fields[0]) && is_number_token(fields[1])
            && is_number_token(fields[2]) && bool_of_token(fields[3]) is Some && bool_of_token(
            fields[4],
        ) is Some && bool_of_token(fields[5]) is Some && mode_of_token(fields[6]) is Some {
            Some(
                MeasureAllInfoText {
                    volt: fields[0],
                    current: fields[1],
                    power: fields[2],
                    over_voltage: bool_of_token(fields[3])->Some_0,
                    over_current: bool_of_token(fields[4])->Some_0,
                    over_temperature: bool_of_token(fields[5])->Some_0,
                    mode: mode_of_token(fields[6])->Some_0,
                },
            )
        } else {
            None
        }
    }

    fn command(&self) -> (text: String) {
        "MEAS:ALL:INFO?".to_owned()
    }

    fn has_output(&self) -> (flag: bool) {
        true
    }

    fn parse_line(&self, line: &str) -> (result: Result<MeasureAllInfoOutput, Error>) {
        let mut parts = Fields::new(line);
        let volt = match pop_number(&mut parts) {
            Ok(value) => value,
            Err(error) => { return Err(error); },
        };
        let current = match pop_number(&mut parts) {
            Ok(value) => value,
            Err(error) => { return Err(error); },
        };
        let power = match pop_number(&mut parts) {
            Ok(value) => value,
            Err(error) => { return Err(error); },
        };
        let over_voltage = match pop_bool(&mut parts) {
            Ok(state) => state,
            Err(error) => { return Err(error); },
        };
        let over_current = match pop_bool(&mut parts) {
            Ok(state) => state,
            Err(error) => { return Err(error); },
        };
        let over_temperature = match pop_bool(&mut parts) {
            Ok(state) => state,
            Err(error) => { return Err(error); },
        };
        let mode = match parts.next_field() {
            Some(field) => match parse_mode(field) {
                Some(mode) => mode,
                None => { return Err(Error::UnexpectedData); },
            },
            None => { return Err(Error::UnexpectedData); },
        };
        Ok(
            MeasureAllInfoOutput {
                volt,
                current,
                power,
                over_voltage,
                over_current,
                over_temperature,
                mode,
            },
        )
    }

    fn same_out(left: &MeasureAllInfoOutput, right: &MeasureAllInfoOutput) -> (same: bool) {
        left.volt.same(&right.volt) && left.current.same(&right.current) && left.power.same(
            &right.power,
        ) && left.over_voltage == right.over_voltage && left.over_current == right.over_current
            && left.over_temperature == right.over_temperature && left.mode == right.mode
    }
}

} // verus!
