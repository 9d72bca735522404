//! What the remote service's answers mean, once their fields are read.

use vstd::prelude::*;

verus! {

/// Subscriber and issue counts of the remote service.
#[derive(Clone, Copy, Debug, PartialEq, Eq, Structural)]
pub struct Stats {
    pub total_subscribers: u32,
    pub confirmed_subscribers: u32,
    pub pending_subscribers: u32,
    pub total_issues: u32,
}

/// The error text of a failed answer: its own, or a stand-in when it gave none.
pub open spec fn error_text(error: Option<String>) -> Seq<char> {
    match error {
        Some(e) => e@,
        None => "Unknown error"@,
    }
}

fn error_or_unknown(error: Option<String>) -> (r: String)
    ensures
        r@ == error_text(error),
{
    match error {
        Some(e) => e,
        None => String::from_str("Unknown error"),
    }
}

/// The counts of a stats answer, or the error it carries when it holds none.
pub fn stats_from_response(data: Option<Stats>, error: Option<String>) -> (r: Result<Stats, String>)
    ensures
        data is Some ==> r == Ok::<Stats, String>(data->0),
        data is None ==> r is Err && r->Err_0@ == error_text(error),
{
    match data {
        Some(d) => Ok(d),
        None => Err(error_or_unknown(error)),
    }
}

/// The id of a created draft: the nested id when the answer gives one, else
/// its top-level id. A failed answer gives its error.
pub fn issue_id_from_response(
    success: Option<bool>,
    nested_id: Option<String>,
    id: Option<String>,
    error: Option<String>,
) -> (r: Result<String, String>)
    ensures
        success != Some(true) ==> r is Err && r->Err_0@ == error_text(error),
        success == Some(true) && nested_id is Some ==> r is Ok && r->Ok_0@ == nested_id->0@,
        success == Some(true) && nested_id is None && id is Some ==> r is Ok && r->Ok_0@
            == id->0@,
        success == Some(true) && nested_id is None && id is None ==> r is Err && r->Err_0@
            == "No issue ID in response"@,
{
    if success != Some(true) {
        return Err(error_or_unknown(error));
    }
    match nested_id {
        Some(x) => Ok(x),
        None => match id {
            Some(x) => Ok(x),
            None => Err(String::from_str("No issue ID in response")),
        },
    }
}

/// How many recipients a dispatch reached, taken modulo 2^32; zero when the
/// answer gives no count. A failed answer gives its error.
pub fn recipient_count_from_response(
    success: Option<bool>,
    count: Option<u64>,
    error: Option<String>,
) -> (r: Result<u32, String>)
    ensures
        success != Some(true) ==> r is Err && r->Err_0@ == error_text(error),
        success == Some(true) && count is None ==> r == Ok::<u32, String>(0),
        success == Some(true) && count is Some ==> r is Ok && r->Ok_0 == count->0 % 0x1_0000_0000,
{
    if success != Some(true) {
        return Err(error_or_unknown(error));
    }
    match count {
        Some(c) => Ok((c % 0x1_0000_0000) as u32),
        None => Ok(0),
    }
}

} // verus!
