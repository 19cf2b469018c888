//! The two ways in which a call can fail.

use vstd::prelude::*;
use vstd::string::*;

verus! {

/// `std::io::Error`, carried from the transport to the caller as it came:
/// nothing inside it is read.
#[verifier::external_type_specification]
#[verifier::external_body]
pub struct ExIoError(std::io::Error);

/// Why a command did not yield a decoded reply.
#[derive(Debug)]
pub enum Error {
    /// The reply line does not have the form that the command calls for.
    UnexpectedData,
    /// The transport failed while writing, flushing or reading, or the
    /// stream ended before a whole line had arrived.
    IOError(std::io::Error),
}

impl Error {
    /// What the failure is, in words.
    pub open spec fn message_text(&self, message: Seq<char>) -> bool {
        match self {
            Error::UnexpectedData => message == "Unexpected data"@,
            Error::IOError(_) => exists|detail: Seq<char>| message == "IO Error: "@ + detail,
        }
    }

    /// A description of the failure: for a transport failure, what the
    /// transport said of it, behind a fixed heading.
    pub fn message(&self) -> (text: String)
        ensures
            self.message_text(text@),
    {
        match self {
            Error::UnexpectedData => "Unexpected data".to_owned(),
            Error::IOError(error) => {
                let detail = io_error_text(error);
                "IO Error: ".to_owned().concat(detail.as_str())
            },
        }
    }
}

/// `ToString::to_string` on a `std::io::Error`: the text that the error
/// displays as. Nothing is claimed of the text.
#[verifier::external_body]
fn io_error_text(error: &std::io::Error) -> (text: String)
{
    error.to_string()
}

/// `std::io::Error::from` applied to `ErrorKind::UnexpectedEof`: the error
/// that std itself reports when a stream ends too early. Nothing is claimed
/// of the value.
#[verifier::external_body]
pub(crate) fn unexpected_eof() -> (error: std::io::Error)
{
    std::io::Error::from(std::io::ErrorKind::UnexpectedEof)
}

} // verus!
