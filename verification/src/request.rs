//! The request view that a handler receives, and the contract of a handler.
//!
//! A request view joins the read-only data of one connection with the one
//! place into which the response is written, the output sink. A handler
//! takes the view by value. Responding consumes the view, so that a handler
//! can emit one response at most, and nothing of the view outlives the
//! call.

use crate::err::BeakResult;
use crate::header::Header;
use crate::route::PathParams;
use crate::upload::MultipartEntry;
use vstd::prelude::*;

verus! {

/// The status of a response to a path that no route matches.
pub const NOT_FOUND: u16 = 404;

/// The status of a response to an upload that is rejected for its size.
pub const PAYLOAD_TOO_LARGE: u16 = 413;

/// The status of the response that is sent where a handler sent none.
pub const INTERNAL_SERVER_ERROR: u16 = 500;

/// The version of HTTP that a request was made in.
#[derive(Clone, Copy, Debug, PartialEq, Eq, Structural)]
pub struct HttpVersion(pub u8, pub u8);

/// A response as a handler states it: status, header lines and body.
#[derive(Debug)]
pub struct Response {
    pub status: u16,
    pub headers: Vec<Header>,
    pub body: Vec<u8>,
}

/// Whether a response has the given status, no header line and no body.
pub open spec fn is_bare(response: Response, status: u16) -> bool {
    &&& response.status == status
    &&& response.headers@.len() == 0
    &&& response.body@.len() == 0
}

impl Response {
    /// The response with the given status, without header lines and
    /// without a body.
    pub fn empty(status: u16) -> (response: Response)
        ensures
            is_bare(response, status),
    {
        Response { status, headers: Vec::new(), body: Vec::new() }
    }
}

/// The place into which the response of one exchange is written. It holds
/// the response that was emitted, if any.
#[derive(Debug)]
pub struct OutputSink {
    pub emitted: Option<Response>,
}

impl OutputSink {
    /// A sink into which nothing was written yet.
    pub fn new() -> (sink: OutputSink)
        ensures
            sink.emitted is None,
    {
        OutputSink { emitted: None }
    }
}

/// The view of one request that is handed to its handler.
///
/// The read-only side is the URL, the path parameters, the upload, the
/// header lines and the HTTP version. The writing side is the output sink,
/// which a handler uses through [`Request::respond`] or
/// [`Request::respond_with_tinyhttp`].
pub struct Request<'url, 'sender, 'mv> {
    /// The URL of the request.
    pub url: &'url str,
    /// The path parameters that the matched pattern binds.
    pub params: PathParams,
    /// The extracted upload, where the route asks for one and the request
    /// brought one.
    pub multipart_entry: Option<MultipartEntry<'mv>>,
    /// The header lines of the request.
    pub headers: &'url [Header],
    /// The HTTP version of the request.
    pub http_version: HttpVersion,
    /// The sink into which the response is written.
    pub output: &'sender mut OutputSink,
}

impl<'url, 'sender, 'mv> Request<'url, 'sender, 'mv> {
    /// Makes the view of a request from the data of its connection, its
    /// match, its upload and the output sink. This cannot fail.
    pub fn new(
        url: &'url str,
        params: PathParams,
        multipart_entry: Option<MultipartEntry<'mv>>,
        headers: &'url [Header],
        http_version: HttpVersion,
        output: &'sender mut OutputSink,
    ) -> (request: Request<'url, 'sender, 'mv>)
        ensures
            request.url == url,
            request.params == params,
            request.multipart_entry == multipart_entry,
            request.headers == headers,
            request.http_version == http_version,
            *request.output == *old(output),
            *final(request.output) == *final(output),
    {
        Request { url, params, multipart_entry, headers, http_version, output }
    }

    /// Emits the response with the given status, header lines and body.
    /// The sink holds exactly that response afterwards.
    pub fn respond(self, status: u16, headers: Vec<Header>, body: Vec<u8>) -> (r: Result<
        (),
        std::io::Error,
    >)
        ensures
            r is Ok,
            final(self.output).emitted == Some((Response { status, headers, body })),
    {
        self.respond_with_tinyhttp(Response { status, headers, body })
    }

    /// Emits a response that was built beforehand. The sink holds exactly
    /// that response afterwards.
    pub fn respond_with_tinyhttp(self, res: Response) -> (r: Result<(), std::io::Error>)
        ensures
            r is Ok,
            final(self.output).emitted == Some(res),
    {
        self.output.emitted = Some(res);
        Ok(())
    }
}

/// The contract of a route endpoint, implemented once per route.
pub trait Handler<C: Send + Sync>: Send + Sync {
    /// Handles one request. The view is consumed; the response is emitted
    /// through it.
    fn handle<'url, 'sender, 'mv>(
        &self,
        request: Request<'url, 'sender, 'mv>,
        context: C,
    ) -> BeakResult<()>;

    /// Whether the route wants a body part extracted. Read once, when the
    /// route is registered.
    fn needs_multipart(&self) -> bool;

    /// The pattern under which the route is registered.
    fn path(&self) -> &'static str;
}

} // verus!
