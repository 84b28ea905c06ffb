//! HTTP requests as plain values, and the endpoints of the remote service.

use vstd::prelude::*;
use vstd::string::StringExecFns;
use crate::record::{FunctionRecord, FunctionRecordView};

verus! {

/// Where the list of functions lives; one function lives one level below.
pub const FUNCTIONS_URL: &'static str = "https://faas3.deno.dev/api/functions";

/// Where a function is deployed to.
pub const DEPLOY_URL: &'static str = "https://faas3.deno.dev/api/deploy";

/// Where functions are run; one function is run one level below.
pub const RUNNER_URL: &'static str = "https://faas3.deno.dev/api/runner";

/// The HTTP methods the client uses.
#[derive(Clone, Copy, Debug, PartialEq, Eq, Structural)]
pub enum Method {
    Get,
    Post,
}

/// What a request carries. Every body is sent as JSON.
#[derive(Clone, Debug, PartialEq, Eq)]
pub enum Body {
    /// No body.
    Empty,
    /// A body that is already JSON text, sent as it is.
    Json { text: String },
    /// A function record, sent as a JSON object with one member per field.
    Record { record: FunctionRecord },
}

/// The view of [`Body`], every string as its sequence of characters.
pub enum BodyView {
    Empty,
    Json { text: Seq<char> },
    Record { record: FunctionRecordView },
}

impl View for Body {
    type V = BodyView;

    open spec fn view(&self) -> BodyView {
        match *self {
            Body::Empty => BodyView::Empty,
            Body::Json { text } => BodyView::Json { text: text@ },
            Body::Record { record } => BodyView::Record { record: record@ },
        }
    }
}

/// One HTTP request for a shell to send.
#[derive(Clone, Debug, PartialEq, Eq)]
pub struct Request {
    pub method: Method,
    pub url: String,
    pub body: Body,
}

/// The view of [`Request`], every string as its sequence of characters.
pub struct RequestView {
    pub method: Method,
    pub url: Seq<char>,
    pub body: BodyView,
}

impl View for Request {
    type V = RequestView;

    open spec fn view(&self) -> RequestView {
        RequestView { method: self.method, url: self.url@, body: self.body@ }
    }
}

/// The address one level below a collection: the collection's address, a
/// slash, and the name as it stands.
pub open spec fn member_url_of(collection: Seq<char>, name: Seq<char>) -> Seq<char> {
    collection + "/"@ + name
}

/// The request that fetches whatever lives at an address.
pub open spec fn get_of(url: Seq<char>) -> RequestView {
    RequestView { method: Method::Get, url, body: BodyView::Empty }
}

/// The address one level below a collection. The name is not escaped.
pub fn member_url(collection: &str, name: &str) -> (url: String)
    ensures
        url@ == member_url_of(collection@, name@),
{
    let mut url = collection.to_owned();
    url.append("/");
    url.append(name);
    url
}

/// The request that fetches whatever lives at an address.
pub fn get(url: String) -> (request: Request)
    ensures
        request@ == get_of(url@),
{
    Request { method: Method::Get, url, body: Body::Empty }
}

} // verus!
