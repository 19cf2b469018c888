//! The common commands that every instrument of the family understands.

use vstd::prelude::*;
use vstd::string::*;
use crate::error::Error;
use crate::fields::{split_fields, Fields};
use crate::operations::Operation;

verus! {

/// What the instrument says of itself.
#[derive(Clone, Debug, Eq, PartialEq)]
pub struct IdnOutput {
    pub model: String,
    pub serial: String,
    pub fw: String,
}

/// An identification, as the texts of its three parts.
pub struct IdnText {
    pub model: Seq<char>,
    pub serial: Seq<char>,
    pub fw: Seq<char>,
}

impl View for IdnOutput {
    type V = IdnText;

    open spec fn view(&self) -> IdnText {
        IdnText { model: self.model@, serial: self.serial@, fw: self.fw@ }
    }
}

/// The identification query.
pub struct Idn {}

impl Operation for Idn {
    type Out = IdnOutput;

    open spec fn command_text(&self) -> Seq<char> {
        "*IDN?"@
    }

    open spec fn expects_reply(&self) -> bool {
        true
    }

    /// The reply names vendor, model, serial number and firmware, in that
    /// order. The vendor is dropped, and fields beyond the fourth are not
    /// looked at.
    open spec fn decoded(&self, line: Seq<char>) -> Option<IdnText> {
        let fields = split_fields(line);
        if fields.len() >= 4 {
            Some(IdnText { model: fields[1], serial: fields[2], fw: fields[3] })
        } else {
            None
        }
    }

    fn command(&self) -> (text: String) {
        "*IDN?".to_owned()
    }

    fn has_output(&self) -> (flag: bool) {
        true
    }

    fn parse_line(&self, line: &str) -> (result: Result<IdnOutput, Error>) {
        let mut parts = Fields::new(line);
        let vendor = parts.next_field();
        if vendor.is_none() {
            return Err(Error::UnexpectedData);
        }
        let model = match parts.next_field() {
            Some(field) => field.to_owned(),
            None => { return Err(Error::UnexpectedData); },
        };
        let serial = match parts.next_field() {
            Some(field) => field.to_owned(),
            None => { return Err(Error::UnexpectedData); },
        };
        let fw = match parts.next_field() {
            Some(field) => field.to_owned(),
            None => { return Err(Error::UnexpectedData); },
        };
        Ok(IdnOutput { model, serial, fw })
    }

    fn same_out(left: &IdnOutput, right: &IdnOutput) -> (same: bool) {
        left.model == right.model && left.serial == right.serial && left.fw == right.fw
    }
}

/// The command that puts the instrument back into its initial state.
pub struct Reset {}

impl Operation for Reset {
    type Out = ();

    open spec fn command_text(&self) -> Seq<char> {
        "*RST"@
    }

    open spec fn expects_reply(&self) -> bool {
        false
    }

    open spec fn decoded(&self, line: Seq<char>) -> Option<()> {
        Some(())
    }

    fn command(&self) -> (text: String) {
        "*RST".to_owned()
    }

    fn has_output(&self) -> (flag: bool) {
        false
    }

    fn parse_line(&self, line: &str) -> (result: Result<(), Error>) {
        Ok(())
    }

    fn same_out(left: &(), right: &()) -> (same: bool) {
        true
    }
}

} // verus!
