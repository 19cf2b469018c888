//! Switching the output and setting or reading back what it is to deliver.

use vstd::prelude::*;
use vstd::string::*;
use crate::error::Error;
use crate::number::{is_number_token, Number};
use crate::operations::{bool_of_token, parse_bool, Operation};

verus! {

/// What a line that holds one numeric token and nothing else decodes to.
pub open spec fn number_of_line(line: Seq<char>) -> Option<Seq<char>> {
    if is_number_token(line) {
        Some(line)
    } else {
        None
    }
}

/// Decodes a line that holds one numeric token and nothing else.
pub fn parse_number(line: &str) -> (result: Result<Number, Error>)
    ensures
        result is Ok ==> number_of_line(line@) == Some(result->Ok_0@),
        result is Err ==> number_of_line(line@) is None && result->Err_0 is UnexpectedData,
{
    match Number::parse(line) {
        Some(value) => Ok(value),
        None => Err(Error::UnexpectedData),
    }
}

/// The query for the state of the output.
pub struct Output {}

impl Operation for Output {
    type Out = bool;

    open spec fn command_text(&self) -> Seq<char> {
        "OUTP?"@
    }

    open spec fn expects_reply(&self) -> bool {
        true
    }

    open spec fn decoded(&self, line: Seq<char>) -> Option<bool> {
        bool_of_token(line)
    }

    fn command(&self) -> (text: String) {
        "OUTP?".to_owned()
    }

    fn has_output(&self) -> (flag: bool) {
        true
    }

    fn parse_line(&self, line: &str) -> (result: Result<bool, Error>) {
        match parse_bool(line) {
            Some(state) => Ok(state),
            None => Err(Error::UnexpectedData),
        }
    }

    fn same_out(left: &bool, right: &bool) -> (same: bool) {
        *left == *right
    }
}

/// The command that switches the output on.
pub struct EnableOutput {}

impl Operation for EnableOutput {
    type Out = ();

    open spec fn command_text(&self) -> Seq<char> {
        "OUTP ON"@
    }

    open spec fn expects_reply(&self) -> bool {
        false
    }

    open spec fn decoded(&self, line: Seq<char>) -> Option<()> {
        Some(())
    }

    fn command(&self) -> (text: String) {
        "OUTP ON".to_owned()
    }

    fn has_output(&self) -> (flag: bool) {
        false
    }

    fn parse_line(&self, line: &str) -> (result: Result<(), Error>) {
        Ok(())
    }

    fn same_out(left: &(), right: &()) -> (same: bool) {
        true
    }
}

/// The command that switches the output off.
pub struct DisableOutput {}

impl Operation for DisableOutput {
    type Out = ();

    open spec fn command_text(&self) -> Seq<char> {
        "OUTP OFF"@
    }

    open spec fn expects_reply(&self) -> bool {
        false
    }

    open spec fn decoded(&self, line: Seq<char>) -> Option<()> {
        Some(())
    }

    fn command(&self) -> (text: String) {
        "OUTP OFF".to_owned()
    }

    fn has_output(&self) -> (flag: bool) {
        false
    }

    fn parse_line(&self, line: &str) -> (result: Result<(), Error>) {
        Ok(())
    }

    fn same_out(left: &(), right: &()) -> (same: bool) {
        true
    }
}

/// The command that sets the voltage.
pub struct SetVolt {
    pub value: Number,
}

impl Operation for SetVolt {
    type Out = ();

    open spec fn command_text(&self) -> Seq<char> {
        "VOLT "@ + self.value@
    }

    open spec fn expects_reply(&self) -> bool {
        false
    }

    open spec fn decoded(&self, line: Seq<char>) -> Option<()> {
        Some(())
    }

    fn command(&self) -> (text: String) {
        "VOLT ".to_owned().concat(self.value.as_str())
    }

    fn has_output(&self) -> (flag: bool) {
        false
    }

    fn parse_line(&self, line: &str) -> (result: Result<(), Error>) {
        Ok(())
    }

    fn same_out(left: &(), right: &()) -> (same: bool) {
        true
    }
}

/// The query for the voltage that is set.
pub struct Volt {}

impl Operation for Volt {
    type Out = Number;

    open spec fn command_text(&self) -> Seq<char> {
        "VOLT?"@
    }

    open spec fn expects_reply(&self) -> bool {
        true
    }

    open spec fn decoded(&self, line: Seq<char>) -> Option<Seq<char>> {
        number_of_line(line)
    }

    fn command(&self) -> (text: String) {
        "VOLT?".to_owned()
    }

    fn has_output(&self) -> (flag: bool) {
        true
    }

    fn parse_line(&self, line: &str) -> (result: Result<Number, Error>) {
        parse_number(line)
    }

    fn same_out(left: &Number, right: &Number) -> (same: bool) {
        left.same(right)
    }
}

/// The command that sets the voltage limit.
pub struct SetVoltLimit {
    pub value: Number,
}

impl Operation for SetVoltLimit {
    type Out = ();

    open spec fn command_text(&self) -> Seq<char> {
        "VOLT:LIMIT "@ + self.value@
    }

    open spec fn expects_reply(&self) -> bool {
        false
    }

    open spec fn decoded(&self, line: Seq<char>) -> Option<()> {
        Some(())
    }

    fn command(&self) -> (text: String) {
        "VOLT:LIMIT ".to_owned().concat(self.value.as_str())
    }

    fn has_output(&self) -> (flag: bool) {
        false
    }

    fn parse_line(&self, line: &str) -> (result: Result<(), Error>) {
        Ok(())
    }

    fn same_out(left: &(), right: &()) -> (same: bool) {
        true
    }
}

/// The query for the voltage limit that is set.
pub struct VoltLimit {}

impl Operation for VoltLimit {
    type Out = Number;

    open spec fn command_text(&self) -> Seq<char> {
        "VOLT:LIM?"@
    }

    open spec fn expects_reply(&self) -> bool {
        true
    }

    open spec fn decoded(&self, line: Seq<char>) -> Option<Seq<char>> {
        number_of_line(line)
    }

    fn command(&self) -> (text: String) {
        "VOLT:LIM?".to_owned()
    }

    fn has_output(&self) -> (flag: bool) {
        true
    }

    fn parse_line(&self, line: &str) -> (result: Result<Number, Error>) {
        parse_number(line)
    }

    fn same_out(left: &Number, right: &Number) -> (same: bool) {
        left.same(right)
    }
}

/// The command that sets the current.
pub struct SetCurrent {
    pub value: Number,
}

impl Operation for SetCurrent {
    type Out = ();

    open spec fn command_text(&self) -> Seq<char> {
        "CURR "@ + self.value@
    }

    open spec fn expects_reply(&self) -> bool {
        false
    }

    open spec fn decoded(&self, line: Seq<char>) -> Option<()> {
        Some(())
    }

    fn command(&self) -> (text: String) {
        "CURR ".to_owned().concat(self.value.as_str())
    }

    fn has_output(&self) -> (flag: bool) {
        false
    }

    fn parse_line(&self, line: &str) -> (result: Result<(), Error>) {
        Ok(())
    }

    fn same_out(left: &(), right: &()) -> (same: bool) {
        true
    }
}

/// The query for the current that is set.
pub struct Current {}

impl Operation for Current {
    type Out = Number;

    open spec fn command_text(&self) -> Seq<char> {
        "CURR?"@
    }

    open spec fn expects_reply(&self) -> bool {
        true
    }

    open spec fn decoded(&self, line: Seq<char>) -> Option<Seq<char>> {
        number_of_line(line)
    }

    fn command(&self) -> (text: String) {
        "CURR?".to_owned()
    }

    fn has_output(&self) -> (flag: bool) {
        true
    }

    fn parse_line(&self, line: &str) -> (result: Result<Number, Error>) {
        parse_number(line)
    }

    fn same_out(left: &Number, right: &Number) -> (same: bool) {
        left.same(right)
    }
}

/// The command that sets the current limit.
pub struct SetCurrentLimit {
    pub value: Number,
}

impl Operation for SetCurrentLimit {
    type Out = ();

    open spec fn command_text(&self) -> Seq<char> {
        "CURR:LIMIT "@ + self.value@
    }

    open spec fn expects_reply(&self) -> bool {
        false
    }

    open spec fn decoded(&self, line: Seq<char>) -> Option<()> {
        Some(())
    }

    fn command(&self) -> (text: String) {
        "CURR:LIMIT ".to_owned().concat(self.value.as_str())
    }

    fn has_output(&self) -> (flag: bool) {
        false
    }

    fn parse_line(&self, line: &str) -> (result: Result<(), Error>) {
        Ok(())
    }

    fn same_out(left: &(), right: &()) -> (same: bool) {
        true
    }
}

/// The query for the current limit that is set.
pub struct CurrentLimit {}

impl Operation for CurrentLimit {
    type Out = Number;

    open spec fn command_text(&self) -> Seq<char> {
        "CURR:LIM?"@
    }

    open spec fn expects_reply(&self) -> bool {
        true
    }

    open spec fn decoded(&self, line: Seq<char>) -> Option<Seq<char>> {
        number_of_line(line)
    }

    fn command(&self) -> (text: String) {
        "CURR:LIM?".to_owned()
    }

    fn has_output(&self) -> (flag: bool) {
        true
    }

    fn parse_line(&self, line: &str) -> (result: Result<Number, Error>) {
        parse_number(line)
    }

    fn same_out(left: &Number, right: &Number) -> (same: bool) {
        left.same(right)
    }
}

} // verus!
