//! What the answer to an HTTP request means.

use crate::error::{ErrorKind, NacosError, NacosResult};
use crate::text::concat;
use vstd::prelude::*;

verus! {

/// The message of a request that the server refused with a reason.
pub open spec fn refusal_message(url: Seq<char>, reason: Option<Seq<char>>) -> Seq<char> {
    "request to "@ + url + " error for: "@ + (match reason {
        Some(r) => r,
        None => "unknown error."@,
    })
}

/// The result of a form POST to `url` that the server answered: the body
/// where the status was a success, else an error that names the address and
/// the reason phrase of the status.
pub fn post_form_outcome(url: &str, success: bool, reason: Option<&str>, body: String) -> (r:
    NacosResult<String>)
    ensures
        match r {
            Ok(text) => success && text == body,
            Err(e) => !success && e.kind == ErrorKind::Transport && e.message@ == refusal_message(
                url@,
                match reason {
                    Some(r) => Some(r@),
                    None => None,
                },
            ),
        },
{
    if success {
        Ok(body)
    } else {
        let phrase = match reason {
            Some(r) => r,
            None => "unknown error.",
        };
        let text = concat(concat(concat("request to ".to_owned(), url), " error for: "), phrase);
        Err(NacosError { kind: ErrorKind::Transport, message: text })
    }
}

} // verus!
