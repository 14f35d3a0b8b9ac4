//! JSON-RPC requests to a Portal client and the interpretation of its replies.

use vstd::prelude::*;

verus! {

/// `std::io::Error`, carried through unread.
#[verifier::external_type_specification]
#[verifier::external_body]
pub struct ExIoError(std::io::Error);

/// Streams that can hand out a second handle on the same connection, so that a
/// reply can be read from one handle while requests are written to the other.
pub trait TryClone {
    fn try_clone(&self) -> std::io::Result<Self> where Self: Sized;
}

/// The JSON-RPC protocol version sent with every request.
pub open spec fn jsonrpc_version() -> Seq<char> {
    "2.0"@
}

/// A JSON-RPC request: the method, its parameters as raw JSON texts, the
/// request id and the protocol version.
#[derive(Debug)]
pub struct JsonRpcRequest {
    pub method: String,
    pub params: Vec<String>,
    pub id: u64,
    pub jsonrpc: String,
}

/// Whether a request calls `method` with `params` under `id`, in version 2.0.
pub open spec fn request_is(
    req: JsonRpcRequest,
    method: Seq<char>,
    params: Seq<String>,
    id: u64,
) -> bool {
    &&& req.method@ == method
    &&& req.params@ == params
    &&& req.id == id
    &&& req.jsonrpc@ == jsonrpc_version()
}

/// The parameters of a request: the given ones, or none.
pub open spec fn params_or_empty(raw_params: Option<Vec<String>>) -> Seq<String> {
    match raw_params {
        Some(v) => v@,
        None => Seq::empty(),
    }
}

/// Builds a version 2.0 request of `method` with the given parameters (none
/// where there are none) and id `request_id`.
pub fn build_request(method: &str, raw_params: Option<Vec<String>>, request_id: u64) -> (req:
    JsonRpcRequest)
    ensures
        request_is(req, method@, params_or_empty(raw_params), request_id),
{
    let params = match raw_params {
        Some(val) => val,
        None => Vec::new(),
    };
    JsonRpcRequest {
        method: String::from_str(method),
        params,
        id: request_id,
        jsonrpc: String::from_str("2.0"),
    }
}

/// Why a reply could not be read.
#[derive(Debug)]
pub enum JsonRpcError {
    /// The reply was not a JSON-RPC result; the text says why.
    Malformed(String),
    /// The connection ended before any reply.
    Empty,
}

/// The message of a reply error.
pub open spec fn error_message(err: JsonRpcError) -> Seq<char> {
    match err {
        JsonRpcError::Malformed(m) => "Received malformed response: "@ + m@,
        JsonRpcError::Empty => "Received empty response"@,
    }
}

impl JsonRpcError {
    /// The message of the error.
    pub fn message(&self) -> (text: String)
        ensures
            text@ == error_message(*self),
    {
        match self {
            JsonRpcError::Malformed(m) => {
                let mut text = String::from_str("Received malformed response: ");
                text.append(m.as_str());
                text
            },
            JsonRpcError::Empty => String::from_str("Received empty response"),
        }
    }
}

/// A JSON-RPC reply; `result` is the result value written as compact JSON.
#[derive(Debug)]
pub struct JsonRpcResult {
    pub id: u32,
    pub jsonrpc: String,
    pub result: String,
}

/// The text shown for the client version from a reply.
pub open spec fn version_text(resp: Result<JsonRpcResult, JsonRpcError>) -> Seq<char> {
    match resp {
        Err(err) => "error: "@ + error_message(err),
        Ok(value) => value.result@,
    }
}

/// The text shown for the client version: the result as JSON, or the error.
pub fn client_version_text(resp: &Result<JsonRpcResult, JsonRpcError>) -> (text: String)
    ensures
        text@ == version_text(*resp),
{
    match resp {
        Err(err) => {
            let mut text = String::from_str("error: ");
            let message = err.message();
            text.append(message.as_str());
            text
        },
        Ok(value) => value.result.clone(),
    }
}

/// The method that asks a client for its version.
pub open spec fn client_version_method() -> Seq<char> {
    "web3_clientVersion"@
}

/// A JSON-RPC client over a stream, numbering its requests from 0.
pub struct PortalClient<S: TryClone> {
    stream: S,
    request_id: u64,
}

impl<S: TryClone> PortalClient<S> {
    /// The id the next request will carry.
    pub closed spec fn next_id(&self) -> u64 {
        self.request_id
    }

    /// The stream the client talks over.
    pub closed spec fn spec_stream(&self) -> S {
        self.stream
    }

    /// A client over `stream`; its first request has id 0.
    pub fn new(stream: S) -> (client: Self)
        ensures
            client.next_id() == 0,
            client.spec_stream() == stream,
    {
        PortalClient { stream, request_id: 0 }
    }

    /// The stream the client talks over.
    pub fn stream(&self) -> (s: &S)
        ensures
            *s == self.spec_stream(),
    {
        &self.stream
    }

    /// The id the next request will carry.
    pub fn request_id(&self) -> (id: u64)
        ensures
            id == self.next_id(),
    {
        self.request_id
    }

    /// Builds the next request and advances the id.
    pub fn build_request(&mut self, method: &str, params: Option<Vec<String>>) -> (req:
        JsonRpcRequest)
        requires
            old(self).next_id() < u64::MAX,
        ensures
            request_is(req, method@, params_or_empty(params), old(self).next_id()),
            final(self).next_id() == old(self).next_id() + 1,
            final(self).spec_stream() == old(self).spec_stream(),
    {
        let result = build_request(method, params, self.request_id);
        self.request_id = self.request_id + 1;
        result
    }

    /// Asks the client for its version: sends the request through
    /// `make_request` and gives the reply's result as JSON, or the error.
    pub fn get_client_version<F>(&mut self, make_request: F) -> (version: String) where
        F: FnOnce(JsonRpcRequest) -> Result<JsonRpcResult, JsonRpcError>,

        requires
            old(self).next_id() < u64::MAX,
            forall|req: JsonRpcRequest| make_request.requires((req,)),
        ensures
            final(self).next_id() == old(self).next_id() + 1,
            final(self).spec_stream() == old(self).spec_stream(),
            exists|req: JsonRpcRequest, resp: Result<JsonRpcResult, JsonRpcError>|
                {
                    &&& request_is(req, client_version_method(), Seq::empty(), old(self).next_id())
                    &&& make_request.ensures((req,), resp)
                    &&& version@ == version_text(resp)
                },
    {
        let req = self.build_request("web3_clientVersion", None);
        let ghost sent = req;
        let resp = make_request(req);
        let version = client_version_text(&resp);
        assert(request_is(sent, client_version_method(), Seq::empty(), old(self).next_id()));
        version
    }
}

} // verus!
