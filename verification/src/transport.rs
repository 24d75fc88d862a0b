//! What the transport is handed: one POST, in plain values.

use vstd::prelude::*;
use vstd::string::*;

verus! {

/// The seconds that the transport waits for a reply.
pub const TIMEOUT_SECONDS: u64 = 120;

/// The name of the header that carries the credential.
pub const AUTHORIZATION: &'static str = "Authorization";

/// The name of the header that tells what the body is.
pub const CONTENT_TYPE: &'static str = "Content-Type";

/// The content type of every request body.
pub const JSON_CONTENT_TYPE: &'static str = "application/json";

/// One header of a request.
#[derive(Clone, Debug, PartialEq, Eq)]
pub struct Header {
    pub name: String,
    pub value: String,
}

/// A header as contracts see it.
pub struct HeaderView {
    pub name: Seq<char>,
    pub value: Seq<char>,
}

impl View for Header {
    type V = HeaderView;

    open spec fn view(&self) -> HeaderView {
        HeaderView { name: self.name@, value: self.value@ }
    }
}

/// One POST: where it goes, the headers it carries, its body, and how long
/// to wait for the reply.
#[derive(Clone, Debug, PartialEq, Eq)]
pub struct HttpPost {
    pub url: String,
    pub headers: Vec<Header>,
    pub body: String,
    /// Seconds to wait before giving up.
    pub timeout: u64,
}

/// A POST as contracts see it.
pub struct HttpPostView {
    pub url: Seq<char>,
    pub headers: Seq<HeaderView>,
    pub body: Seq<char>,
    pub timeout: nat,
}

impl View for HttpPost {
    type V = HttpPostView;

    open spec fn view(&self) -> HttpPostView {
        HttpPostView {
            url: self.url@,
            headers: Seq::new(self.headers@.len(), |i: int| self.headers@[i]@),
            body: self.body@,
            timeout: self.timeout as nat,
        }
    }
}

/// The `Authorization` header value that presents a key as a bearer token.
pub open spec fn bearer(api_key: Seq<char>) -> Seq<char> {
    "Bearer "@ + api_key
}

/// The headers of a request that carries a JSON body for the holder of a
/// key: the credential, then the content type.
pub open spec fn headers_for(api_key: Seq<char>) -> Seq<HeaderView> {
    seq![
        HeaderView { name: AUTHORIZATION@, value: bearer(api_key) },
        HeaderView { name: CONTENT_TYPE@, value: JSON_CONTENT_TYPE@ },
    ]
}

/// Makes the headers of a request that carries a JSON body for the holder
/// of a key.
pub fn json_headers(api_key: &str) -> (headers: Vec<Header>)
    ensures
        Seq::new(headers@.len(), |i: int| headers@[i]@) == headers_for(api_key@),
{
    let mut token = "Bearer ".to_owned();
    token.append(api_key);
    let mut headers: Vec<Header> = Vec::new();
    headers.push(Header { name: AUTHORIZATION.to_owned(), value: token });
    headers.push(Header { name: CONTENT_TYPE.to_owned(), value: JSON_CONTENT_TYPE.to_owned() });
    headers
}

} // verus!
