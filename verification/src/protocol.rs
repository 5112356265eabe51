//! The transport protocol: newline-delimited text over a byte stream.
//!
//! An agent sends one encoded record per line; the collector answers each
//! line with exactly one reply line.

use vstd::prelude::*;
use vstd::string::StringExecFns;

verus! {

/// A payload followed by the line terminator.
pub open spec fn framed(payload: Seq<char>) -> Seq<char> {
    payload.push('\n')
}

/// Ends `payload` with the line terminator, making it one protocol line.
pub fn frame_line(payload: String) -> (line: String)
    ensures
        line@ == framed(payload@),
{
    proof {
        reveal_strlit("\n");
    }
    let line = payload.concat("\n");
    assert(line@ =~= framed(payload@));
    line
}

/// What the collector answers to one received line.
#[derive(Clone, Copy, Debug, PartialEq, Eq, Structural)]
pub enum Reply {
    /// The line held a record, and the record was stored.
    Ack,
    /// The line could not be read as a record.
    InvalidFormat,
}

impl Reply {
    /// The reply's text on the wire, without the line terminator.
    pub open spec fn text(self) -> Seq<char> {
        match self {
            Reply::Ack => "ACK"@,
            Reply::InvalidFormat => "ERROR: Invalid format"@,
        }
    }

    /// The reply's text, without the line terminator.
    pub fn token(&self) -> (token: &'static str)
        ensures
            token@ == self.text(),
    {
        match self {
            Reply::Ack => "ACK",
            Reply::InvalidFormat => "ERROR: Invalid format",
        }
    }

    /// The reply as one protocol line.
    pub fn line(&self) -> (line: String)
        ensures
            line@ == framed(self.text()),
    {
        frame_line(String::from_str(self.token()))
    }
}

} // verus!
