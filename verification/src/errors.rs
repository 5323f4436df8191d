//! The error taxonomy shared by every operation of the library: a failed
//! HTTP response, a transport failure, a structural parse failure, and a
//! bad caller-supplied argument.

use vstd::prelude::*;
use crate::text::{push_u64_digits, spec_u64_digits};
use vstd::string::StringExecFns;

verus! {

/// One error of the library. `PageResponseError` carries the HTTP status,
/// `IoError` a transport failure's description, `ParseError` and
/// `CommandLineError` a fixed explanatory tag.
#[derive(Debug)]
pub enum PageError {
    PageResponseError(u16),
    IoError(String),
    ParseError(&'static str),
    CommandLineError(&'static str),
}

impl PageError {
    /// The human-readable rendering of the error.
    pub open spec fn spec_message(&self) -> Seq<char> {
        match self {
            PageError::PageResponseError(c) => "Response Error: "@ + spec_u64_digits(*c as u64),
            PageError::IoError(e) => "IO Error: "@ + e@,
            PageError::ParseError(s) => "Parsing Failure: "@ + s@,
            PageError::CommandLineError(s) => "Command Line Failure: "@ + s@,
        }
    }

    /// Renders the error for reporting to a user.
    pub fn message(&self) -> (r: String)
        ensures
            r@ == self.spec_message(),
    {
        match self {
            PageError::PageResponseError(c) => {
                let mut s = String::new();
                s.append("Response Error: ");
                push_u64_digits(&mut s, *c as u64);
                proof {
                    assert(s@ =~= self.spec_message());
                }
                s
            },
            PageError::IoError(e) => {
                let mut s = String::new();
                s.append("IO Error: ");
                s.append(e.as_str());
                proof {
                    assert(s@ =~= self.spec_message());
                }
                s
            },
            PageError::ParseError(m) => {
                let mut s = String::new();
                s.append("Parsing Failure: ");
                s.append(m);
                proof {
                    assert(s@ =~= self.spec_message());
                }
                s
            },
            PageError::CommandLineError(m) => {
                let mut s = String::new();
                s.append("Command Line Failure: ");
                s.append(m);
                proof {
                    assert(s@ =~= self.spec_message());
                }
                s
            },
        }
    }
}

} // verus!
