//! The API client: its credentials and transport, and the requests it builds.
use vstd::prelude::*;
use vstd::string::*;

use crate::error::ClientError;
use crate::request::{
    bearer, body_view, decimal_text, headers_view, is_header_value, json_headers,
    upload_headers, Method, RequestPlan, ACCEPT, AUTHORIZATION, BEARER, CONTENT_TYPE, JSON,
    OCTET_STREAM, UPLOAD_CONTENT_LENGTH, UPLOAD_CONTENT_TYPE,
};
use crate::target::{resolve_target, resolved};
use crate::url_parse::{url_accepts, url_parses};

verus! {

/// Entry point for the API: a bearer token and a shared HTTP transport `H`
/// that the caller sends requests over. Nothing in it changes after
/// construction, so clones and concurrent calls share it freely.
#[derive(Clone)]
pub struct Client<H> {
    token: String,
    client: H,
}

/// Whether `r` is the request that `c`'s token, `method`, the absolute
/// `target`, the `headers` and the `body` make: it fails, with a URL error,
/// exactly where the target does not parse.
pub open spec fn is_plan(
    r: Result<RequestPlan, ClientError>,
    method: Method,
    target: Seq<char>,
    headers: Seq<(Seq<char>, Seq<char>)>,
    body: Option<Seq<u8>>,
) -> bool {
    match r {
        Ok(p) => url_accepts(target) && p.method == method && p.target@ == target
            && headers_view(p.headers@) == headers && body_view(p.body) == body,
        Err(e) => !url_accepts(target) && e == ClientError::UrlParse,
    }
}

/// Two requests built from the same method, target, headers and body agree
/// in all that the caller sees of them: what one call builds depends on its
/// own arguments and the client's fixed token alone, never on another call.
pub proof fn lemma_plans_depend_on_arguments_alone(
    r1: Result<RequestPlan, ClientError>,
    r2: Result<RequestPlan, ClientError>,
    method: Method,
    target: Seq<char>,
    headers: Seq<(Seq<char>, Seq<char>)>,
    body: Option<Seq<u8>>,
)
    requires
        is_plan(r1, method, target, headers, body),
        is_plan(r2, method, target, headers, body),
    ensures
        r1 is Ok == r2 is Ok,
        r1 matches Ok(p1) ==> (r2 matches Ok(p2) && p1.method == p2.method && p1.target@ == p2.target@
            && headers_view(p1.headers@) == headers_view(p2.headers@) && body_view(p1.body) == body_view(p2.body)),
        r1 matches Err(e1) ==> (r2 matches Err(e2) && e1 == e2),
{
}

fn header(name: &str, value: &str) -> (r: (String, String))
    ensures
        r.0@ == name@,
        r.1@ == value@,
{
    (String::from_str(name), String::from_str(value))
}

impl<H> Client<H> {
    /// The bearer token the client authenticates with.
    pub closed spec fn token_view(&self) -> Seq<char> {
        self.token@
    }

    /// The transport the client's requests go over.
    pub closed spec fn transport_view(&self) -> H {
        self.client
    }

    /// A client that authenticates with `token` over `transport`.
    pub fn new(token: &str, transport: H) -> (r: Client<H>)
        ensures
            r.token_view() == token@,
            r.transport_view() == transport,
    {
        Client { token: String::from_str(token), client: transport }
    }

    /// The bearer token.
    pub fn token(&self) -> (r: &str)
        ensures
            r@ == self.token_view(),
    {
        self.token.as_str()
    }

    /// The shared HTTP transport.
    pub fn transport(&self) -> (r: &H)
        ensures
            *r == self.transport_view(),
    {
        &self.client
    }

    /// Checks that an absolute URL parses, and gives it with the
    /// authorization header's value.
    pub fn url_and_auth(&self, uri: &str) -> (r: Result<(String, String), ClientError>)
        ensures
            r is Ok == url_accepts(uri@),
            r matches Ok(p) ==> p.0@ == uri@ && p.1@ == bearer(self.token_view()),
            r matches Err(e) ==> e == ClientError::UrlParse,
    {
        if url_parses(uri) {
            Ok((String::from_str(uri), String::from_str(BEARER).concat(self.token.as_str())))
        } else {
            Err(ClientError::UrlParse)
        }
    }

    /// The JSON request for `method` on `uri`, resolved against the default
    /// host, with `body` as its payload.
    pub fn request_raw(&self, method: Method, uri: &str, body: Option<Vec<u8>>) -> (r: Result<
        RequestPlan,
        ClientError,
    >)
        ensures
            is_plan(r, method, resolved(uri@), json_headers(self.token_view()), body_view(body)),
    {
        let target = resolve_target(uri);
        let (target, auth) = match self.url_and_auth(target.as_str()) {
            Ok(p) => p,
            Err(e) => return Err(e),
        };
        let mut headers: Vec<(String, String)> = Vec::new();
        headers.push(header(ACCEPT, JSON));
        headers.push(header(CONTENT_TYPE, JSON));
        headers.push(header(AUTHORIZATION, auth.as_str()));
        assert(headers_view(headers@) =~= json_headers(self.token_view()));
        Ok(RequestPlan { method, target, headers, body })
    }

    /// The request that uploads `content` of type `mime_type` for `method`
    /// on `uri`, resolved against the default host. The content is the body
    /// as it is; empty content makes no body.
    pub fn request_with_mime(&self, method: Method, uri: &str, content: &[u8], mime_type: &str) -> (r:
        Result<RequestPlan, ClientError>)
        requires
            is_header_value(mime_type@),
        ensures
            is_plan(
                r,
                method,
                resolved(uri@),
                upload_headers(self.token_view(), mime_type@, content@.len()),
                if content@.len() > 0 {
                    Some(content@)
                } else {
                    None
                },
            ),
    {
        let target = resolve_target(uri);
        let (target, auth) = match self.url_and_auth(target.as_str()) {
            Ok(p) => p,
            Err(e) => return Err(e),
        };
        let length = decimal_text(content.len());
        let mut headers: Vec<(String, String)> = Vec::new();
        headers.push(header(ACCEPT, JSON));
        headers.push(header(CONTENT_TYPE, mime_type));
        headers.push(header(UPLOAD_CONTENT_TYPE, OCTET_STREAM));
        headers.push(header(UPLOAD_CONTENT_LENGTH, length.as_str()));
        headers.push(header(AUTHORIZATION, auth.as_str()));
        assert(headers_view(headers@) =~= upload_headers(
            self.token_view(),
            mime_type@,
            content@.len(),
        ));
        let body = if content.len() > 0 {
            Some(vstd::slice::slice_to_vec(content))
        } else {
            None
        };
        Ok(RequestPlan { method, target, headers, body })
    }

    /// A GET of `uri`, resolved against the default host.
    pub fn get(&self, uri: &str, message: Option<Vec<u8>>) -> (r: Result<RequestPlan, ClientError>)
        ensures
            is_plan(r, Method::Get, resolved(uri@), json_headers(self.token_view()), body_view(message)),
    {
        self.request_raw(Method::Get, uri, message)
    }

    /// A POST to `uri`, resolved against the default host.
    pub fn post(&self, uri: &str, message: Option<Vec<u8>>) -> (r: Result<RequestPlan, ClientError>)
        ensures
            is_plan(r, Method::Post, resolved(uri@), json_headers(self.token_view()), body_view(message)),
    {
        self.request_raw(Method::Post, uri, message)
    }

    /// A PATCH of `uri`, resolved against the default host.
    pub fn patch(&self, uri: &str, message: Option<Vec<u8>>) -> (r: Result<RequestPlan, ClientError>)
        ensures
            is_plan(r, Method::Patch, resolved(uri@), json_headers(self.token_view()), body_view(message)),
    {
        self.request_raw(Method::Patch, uri, message)
    }

    /// A PUT to `uri`, resolved against the default host.
    pub fn put(&self, uri: &str, message: Option<Vec<u8>>) -> (r: Result<RequestPlan, ClientError>)
        ensures
            is_plan(r, Method::Put, resolved(uri@), json_headers(self.token_view()), body_view(message)),
    {
        self.request_raw(Method::Put, uri, message)
    }

    /// A DELETE of `uri`, resolved against the default host.
    pub fn delete(&self, uri: &str, message: Option<Vec<u8>>) -> (r: Result<RequestPlan, ClientError>)
        ensures
            is_plan(r, Method::Delete, resolved(uri@), json_headers(self.token_view()), body_view(message)),
    {
        self.request_raw(Method::Delete, uri, message)
    }

    /// The GET of the first page of the collection at `uri`, a target
    /// resolved against the default host.
    pub fn get_pages(&self, uri: &str) -> (r: Result<RequestPlan, ClientError>)
        ensures
            is_plan(r, Method::Get, resolved(uri@), json_headers(self.token_view()), None),
    {
        self.request_raw(Method::Get, uri, None)
    }

    /// The GET of a further page at `url`, as a `next` link gave it.
    pub fn get_pages_url(&self, url: &str) -> (r: Result<RequestPlan, ClientError>)
        ensures
            is_plan(r, Method::Get, resolved(url@), json_headers(self.token_view()), None),
    {
        self.request_raw(Method::Get, url, None)
    }
}

} // verus!
