//! Resolving a show's internal numeric id from the body of its page: the
//! id stands in an inline script assignment `var hs_showid = <digits>;`.

use vstd::prelude::*;
use crate::errors::PageError;
use crate::pattern::{capture_show_id, show_id_capture};
use crate::text::{parse_u32, spec_parse_u32};

verus! {

/// Extracts the show id from the fetched body of a show's page.
///
/// Succeeds exactly when the fixed show-id pattern matches and its digit
/// capture parses as a `u32`; a missing match and an unparseable capture
/// each yield their own parse error.
pub fn get_show_id(body: &str) -> (r: Result<u32, PageError>)
    ensures
        match r {
            Ok(n) => show_id_capture(body@) matches Some(d) && spec_parse_u32(d) == Some(n),
            Err(e) => match show_id_capture(body@) {
                None => e matches PageError::ParseError(m) && m@ == "failed to extract show id"@,
                Some(d) => spec_parse_u32(d) is None && (e matches PageError::ParseError(m)
                    && m@ == "failed to parse extracted show id"@),
            },
        },
{
    match capture_show_id(body) {
        None => Err(PageError::ParseError("failed to extract show id")),
        Some(d) => match parse_u32(d.as_str()) {
            Some(n) => Ok(n),
            None => Err(PageError::ParseError("failed to parse extracted show id")),
        },
    }
}

} // verus!
