//! Remote invocation of a deployed function.

use vstd::prelude::*;
use crate::request::{member_url, member_url_of, Body, BodyView, Method, Request, RequestView, RUNNER_URL};

verus! {

/// The JSON text that `serde_json::to_string` writes for a string value:
/// the string between double quotes, with quotes, backslashes and control
/// characters escaped. No contract says more of it than that it is a
/// function of the characters.
pub uninterp spec fn json_string_of(text: Seq<char>) -> Seq<char>;

/// `serde_json::to_string` on a string slice. The claim is that the
/// result is the JSON text of that string and depends on its characters
/// alone. The call does not fail on a string slice: `str` serialises by
/// handing itself to the serialiser, which escapes it into a byte vector,
/// so the fallback for the error is never taken.
#[verifier::external_body]
fn encode_json_string(text: &str) -> (encoded: String)
    ensures
        encoded@ == json_string_of(text@),
{
    serde_json::to_string(text).unwrap_or_default()
}

/// The request that runs the function `name` on a body that is already
/// JSON text.
pub open spec fn call_request_of(name: Seq<char>, encoded: Seq<char>) -> RequestView {
    RequestView {
        method: Method::Post,
        url: member_url_of(RUNNER_URL@, name),
        body: BodyView::Json { text: encoded },
    }
}

/// Builds the request that runs the function `name`: a POST to the
/// function's runner address that carries `encoded` as its JSON body.
pub fn call_request(name: &str, encoded: String) -> (request: Request)
    ensures
        request@ == call_request_of(name@, encoded@),
{
    Request {
        method: Method::Post,
        url: member_url(RUNNER_URL, name),
        body: Body::Json { text: encoded },
    }
}

/// Plans the `call` command. The body is opaque to the client: whatever
/// it holds, it is sent as one JSON string value, so a body that is itself
/// JSON text arrives encoded twice. The answer is shown as it comes, with
/// no schema applied.
pub fn call_action(name: String, body: String) -> (request: Request)
    ensures
        request@ == call_request_of(name@, json_string_of(body@)),
{
    let encoded = encode_json_string(body.as_str());
    call_request(name.as_str(), encoded)
}

} // verus!
