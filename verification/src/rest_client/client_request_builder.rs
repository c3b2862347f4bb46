//! How a request to the server is put together.

use vstd::prelude::*;
use vstd::string::*;

verus! {

/// The four verbs that the server's interface uses.
#[derive(Clone, Copy, Debug, PartialEq, Eq, Structural)]
pub enum HttpVerb {
    Get,
    Post,
    Delete,
    Patch,
}

impl HttpVerb {
    /// Tells whether a request with this verb carries a body.
    pub open spec fn carries_body(self) -> bool {
        self == HttpVerb::Post || self == HttpVerb::Patch
    }
}

/// One header line of a request.
#[derive(Clone, Debug, PartialEq, Eq)]
pub struct HttpHeader {
    pub name: String,
    pub value: String,
}

impl DeepView for HttpHeader {
    type V = (Seq<char>, Seq<char>);

    open spec fn deep_view(&self) -> (Seq<char>, Seq<char>) {
        (self.name@, self.value@)
    }
}

/// A request, ready to be sent but for its body.
#[derive(Clone, Debug, PartialEq, Eq)]
pub struct HttpRequest {
    pub verb: HttpVerb,
    pub uri: String,
    pub headers: Vec<HttpHeader>,
}

/// What an [`HttpRequest`] holds.
pub struct HttpRequestView {
    pub verb: HttpVerb,
    pub uri: Seq<char>,
    pub headers: Seq<(Seq<char>, Seq<char>)>,
}

impl View for HttpRequest {
    type V = HttpRequestView;

    open spec fn view(&self) -> HttpRequestView {
        HttpRequestView { verb: self.verb, uri: self.uri@, headers: self.headers.deep_view() }
    }
}

/// Builds requests against one server with one API key.
pub struct ClientRequestBuilder {
    base_uri: String,
    api_key: String,
}

/// What a [`ClientRequestBuilder`] was made with.
pub struct ClientRequestBuilderView {
    pub base_uri: Seq<char>,
    pub api_key: Seq<char>,
}

impl View for ClientRequestBuilder {
    type V = ClientRequestBuilderView;

    closed spec fn view(&self) -> ClientRequestBuilderView {
        ClientRequestBuilderView { base_uri: self.base_uri@, api_key: self.api_key@ }
    }
}

impl ClientRequestBuilderView {
    /// The headers of a request: the API key, the accepted format, the format
    /// of the body where there is one, and the ban on cached answers.
    pub open spec fn headers(self, verb: HttpVerb) -> Seq<(Seq<char>, Seq<char>)> {
        if verb.carries_body() {
            seq![
                ("x-api-key"@, self.api_key),
                ("accept"@, "application/json"@),
                ("content-type"@, "application/json"@),
                ("cache-control"@, "no-cache"@),
            ]
        } else {
            seq![
                ("x-api-key"@, self.api_key),
                ("accept"@, "application/json"@),
                ("cache-control"@, "no-cache"@),
            ]
        }
    }

    /// The request for `path`: the base URI and the path are put one after
    /// the other as they are.
    pub open spec fn request(self, verb: HttpVerb, path: Seq<char>) -> HttpRequestView {
        HttpRequestView { verb, uri: self.base_uri + path, headers: self.headers(verb) }
    }
}

fn header(name: &str, value: &str) -> (made: HttpHeader)
    ensures
        made.deep_view() == (name@, value@),
{
    HttpHeader { name: String::from_str(name), value: String::from_str(value) }
}

impl ClientRequestBuilder {
    /// A builder for the server at `base_uri`.
    pub fn new(base_uri: &String, api_key: &String) -> (builder: ClientRequestBuilder)
        ensures
            builder@ == (ClientRequestBuilderView { base_uri: base_uri@, api_key: api_key@ }),
    {
        ClientRequestBuilder { base_uri: base_uri.clone(), api_key: api_key.clone() }
    }

    /// Builds the request for `path` with the given verb.
    pub fn build(&self, verb: HttpVerb, path: &str) -> (request: HttpRequest)
        ensures
            request@ == self@.request(verb, path@),
    {
        let mut uri = self.base_uri.clone();
        uri.append(path);
        let mut headers: Vec<HttpHeader> = Vec::new();
        headers.push(header("x-api-key", self.api_key.as_str()));
        headers.push(header("accept", "application/json"));
        match verb {
            HttpVerb::Post | HttpVerb::Patch => {
                headers.push(header("content-type", "application/json"));
            },
            _ => {},
        }
        headers.push(header("cache-control", "no-cache"));
        assert(headers.deep_view() =~= self@.headers(verb));
        HttpRequest { verb, uri, headers }
    }

    /// Builds a GET request for `path`.
    pub fn get_for_path(&self, path: &str) -> (request: HttpRequest)
        ensures
            request@ == self@.request(HttpVerb::Get, path@),
    {
        self.build(HttpVerb::Get, path)
    }

    /// Builds a POST request for `path`.
    pub fn post_for_path(&self, path: &str) -> (request: HttpRequest)
        ensures
            request@ == self@.request(HttpVerb::Post, path@),
    {
        self.build(HttpVerb::Post, path)
    }

    /// Builds a DELETE request for `path`.
    pub fn delete_for_path(&self, path: &str) -> (request: HttpRequest)
        ensures
            request@ == self@.request(HttpVerb::Delete, path@),
    {
        self.build(HttpVerb::Delete, path)
    }

    /// Builds a PATCH request for `path`.
    pub fn patch_for_path(&self, path: &str) -> (request: HttpRequest)
        ensures
            request@ == self@.request(HttpVerb::Patch, path@),
    {
        self.build(HttpVerb::Patch, path)
    }
}

} // verus!
