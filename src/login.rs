//! The kiosk login call: its address, headers and how its reply is judged.
use vstd::prelude::*;
use crate::text::push_str;

verus! {

/// Version reported to the server.
pub const RELEASE_VERSION: &'static str = "1.1.3";

/// `s` with every trailing `c` removed.
pub open spec fn without_trailing(s: Seq<char>, c: char) -> Seq<char>
    decreases s.len(),
{
    if s.len() > 0 && s.last() == c {
        without_trailing(s.drop_last(), c)
    } else {
        s
    }
}

/// Relies on `str::trim_end_matches` with a `char` pattern: every trailing
/// occurrence of the character is removed.
#[verifier::external_body]
fn trim_end_char(s: &str, c: char) -> (r: &str)
    ensures
        r@ == without_trailing(s@, c),
{
    s.trim_end_matches(c)
}

/// Address of the login call: the base address without its trailing slashes,
/// directly followed by the login path, the machine identity and the version.
pub fn login_url(base_url: &str, machine_id: &str) -> (r: String)
    ensures
        r@ == without_trailing(base_url@, '/') + "api/v1/kiosk/login/"@ + machine_id@
            + "?version="@ + RELEASE_VERSION@,
{
    let mut url = trim_end_char(base_url, '/').to_owned();
    push_str(&mut url, "api/v1/kiosk/login/");
    push_str(&mut url, machine_id);
    push_str(&mut url, "?version=");
    push_str(&mut url, RELEASE_VERSION);
    url
}

/// Headers of the login call, as name and value.
pub fn login_headers(machine_id: &str) -> (r: Vec<(String, String)>)
    ensures
        r@.len() == 3,
        r@[0].0@ == "x-kiosk-uuid"@ && r@[0].1@ == machine_id@,
        r@[1].0@ == "x-kiosk-version"@ && r@[1].1@ == RELEASE_VERSION@,
        r@[2].0@ == "x-machine-id"@ && r@[2].1@ == machine_id@,
{
    let mut v: Vec<(String, String)> = Vec::new();
    v.push(("x-kiosk-uuid".to_owned(), machine_id.to_owned()));
    v.push(("x-kiosk-version".to_owned(), RELEASE_VERSION.to_owned()));
    v.push(("x-machine-id".to_owned(), machine_id.to_owned()));
    v
}

/// How a login reply is judged.
#[derive(Clone, Copy, Debug, PartialEq, Eq, Structural)]
pub enum LoginVerdict {
    /// The reply decoded and the status is a success: hand the reply on.
    Accepted,
    /// The reply decoded but the status is a failure: report the server's message.
    Rejected,
    /// The body is not a valid reply.
    UndecodableBody,
    /// The request did not reach the server.
    NetworkError,
}

/// Judges a login reply from whether it arrived, whether its status is a
/// success and whether its body decoded.
pub fn login_verdict(delivered: bool, status_success: bool, body_decoded: bool) -> (r:
    LoginVerdict)
    ensures
        !delivered ==> r == LoginVerdict::NetworkError,
        delivered && !body_decoded ==> r == LoginVerdict::UndecodableBody,
        delivered && body_decoded && status_success ==> r == LoginVerdict::Accepted,
        delivered && body_decoded && !status_success ==> r == LoginVerdict::Rejected,
{
    if !delivered {
        LoginVerdict::NetworkError
    } else if !body_decoded {
        LoginVerdict::UndecodableBody
    } else if status_success {
        LoginVerdict::Accepted
    } else {
        LoginVerdict::Rejected
    }
}

} // verus!
