//! The JSON-RPC 2.0 objects: request, response and error, and the builder
//! that makes requests.

use vstd::prelude::*;

use crate::json::{
    as_i64, as_str, error_message, from_slice, integer_of, into_entries, is_null, json_of, lookup,
    object, parse_of, take_member, text, text_of, to_vec, Json, SyntaxError,
};

verus! {

/// A JSON-RPC error object.
#[derive(Clone, Debug, PartialEq)]
pub struct RpcError {
    /// The integer identifier of the error.
    pub code: i32,
    /// A string describing the error.
    pub message: String,
    /// Additional data specific to the error.
    pub data: Option<serde_json::Value>,
}

/// The content of an [`RpcError`].
pub struct RpcErrorView {
    pub code: int,
    pub message: Seq<char>,
    pub data: Option<Json>,
}

/// The content of an optional JSON value.
pub open spec fn optional_json_of(value: Option<serde_json::Value>) -> Option<Json> {
    match value {
        Some(v) => Some(json_of(v)),
        None => None,
    }
}

/// The content of an optional string.
pub open spec fn optional_text_of(text: Option<String>) -> Option<Seq<char>> {
    match text {
        Some(s) => Some(s@),
        None => None,
    }
}

impl View for RpcError {
    type V = RpcErrorView;

    open spec fn view(&self) -> RpcErrorView {
        RpcErrorView {
            code: self.code as int,
            message: self.message@,
            data: optional_json_of(self.data),
        }
    }
}

/// The JSON-RPC request object.
#[derive(Clone, Debug, PartialEq)]
pub struct Request {
    pub method: String,
    pub params: serde_json::Value,
    pub id: serde_json::Value,
    pub jsonrpc: String,
}

/// The content of a [`Request`].
pub struct RequestView {
    pub method: Seq<char>,
    pub params: Json,
    pub id: Json,
    pub jsonrpc: Seq<char>,
}

impl View for Request {
    type V = RequestView;

    open spec fn view(&self) -> RequestView {
        RequestView {
            method: self.method@,
            params: json_of(self.params),
            id: json_of(self.id),
            jsonrpc: self.jsonrpc@,
        }
    }
}

/// Accumulates the fields of a request. Fields may be set in any order and any
/// number of times; the last write wins.
pub struct RequestBuilder {
    id: Option<serde_json::Value>,
    method: Option<String>,
    params: Option<serde_json::Value>,
    json_rpc: Option<String>,
}

/// What a [`RequestBuilder`] has been given so far.
pub struct RequestBuilderView {
    pub id: Option<Json>,
    pub method: Option<Seq<char>>,
    pub params: Option<Json>,
    pub jsonrpc: Option<Seq<char>>,
}

/// A builder that has been given nothing.
pub open spec fn empty_builder() -> RequestBuilderView {
    RequestBuilderView { id: None, method: None, params: None, jsonrpc: None }
}

/// The protocol version that a request carries unless another one is set.
pub open spec fn default_version() -> Seq<char> {
    "2.0"@
}

/// The request that a builder finishes into: none while the method or the id
/// is missing; otherwise null parameters and version `"2.0"` stand in for what
/// was not set.
pub open spec fn finished(builder: RequestBuilderView) -> Option<RequestView> {
    if builder.id is Some && builder.method is Some {
        Some(
            RequestView {
                method: builder.method->0,
                params: match builder.params {
                    Some(params) => params,
                    None => Json::Null,
                },
                id: builder.id->0,
                jsonrpc: match builder.jsonrpc {
                    Some(version) => version,
                    None => default_version(),
                },
            },
        )
    } else {
        None
    }
}

impl View for RequestBuilder {
    type V = RequestBuilderView;

    closed spec fn view(&self) -> RequestBuilderView {
        RequestBuilderView {
            id: optional_json_of(self.id),
            method: optional_text_of(self.method),
            params: optional_json_of(self.params),
            jsonrpc: optional_text_of(self.json_rpc),
        }
    }
}

impl Default for RequestBuilder {
    fn default() -> (builder: RequestBuilder)
        ensures
            builder@ == empty_builder(),
    {
        RequestBuilder { id: None, method: None, params: None, json_rpc: None }
    }
}

/// A builder was finished before both its method and its id were set.
#[derive(Debug)]
pub struct IncompleteRequest;

impl Request {
    /// Starts a request: a builder that has been given nothing.
    pub fn build() -> (builder: RequestBuilder)
        ensures
            builder@ == empty_builder(),
    {
        RequestBuilder { id: None, method: None, params: None, json_rpc: None }
    }
}

impl RequestBuilder {
    /// Sets the method name.
    pub fn method(self, method: &str) -> (builder: RequestBuilder)
        ensures
            builder@ == (RequestBuilderView { method: Some(method@), ..self@ }),
    {
        let mut builder = self;
        builder.method = Some(method.to_owned());
        builder
    }

    /// Sets the id.
    pub fn id(self, id: serde_json::Value) -> (builder: RequestBuilder)
        ensures
            builder@ == (RequestBuilderView { id: Some(json_of(id)), ..self@ }),
    {
        let mut builder = self;
        builder.id = Some(id);
        builder
    }

    /// Sets the parameters.
    pub fn params(self, params: serde_json::Value) -> (builder: RequestBuilder)
        ensures
            builder@ == (RequestBuilderView { params: Some(json_of(params)), ..self@ }),
    {
        let mut builder = self;
        builder.params = Some(params);
        builder
    }

    /// Sets the protocol version.
    pub fn jsonrpc(self, json_rpc: &str) -> (builder: RequestBuilder)
        ensures
            builder@ == (RequestBuilderView { jsonrpc: Some(json_rpc@), ..self@ }),
    {
        let mut builder = self;
        builder.json_rpc = Some(json_rpc.to_owned());
        builder
    }

    /// Finishes the request.
    ///
    /// Succeeds exactly when both the method and the id have been set. Null
    /// parameters and version `"2.0"` stand in for what was not set.
    pub fn finish(self) -> (r: Result<Request, IncompleteRequest>)
        ensures
            match r {
                Ok(request) => finished(self@) == Some(request@),
                Err(_) => finished(self@) is None,
            },
    {
        let jsonrpc = match self.json_rpc {
            Some(jsonrpc) => jsonrpc,
            None => "2.0".to_owned(),
        };
        match (self.id, self.method) {
            (Some(id), Some(method)) => {
                let params = match self.params {
                    Some(params) => params,
                    None => crate::json::null(),
                };
                Ok(Request { id, method, params, jsonrpc })
            },
            _ => Err(IncompleteRequest),
        }
    }
}

/// The JSON-RPC response object.
#[derive(Clone, Debug, PartialEq)]
pub struct Response {
    pub result: Option<serde_json::Value>,
    pub error: Option<RpcError>,
    pub id: serde_json::Value,
    pub jsonrpc: Option<String>,
}

/// The content of a [`Response`].
pub struct ResponseView {
    pub result: Option<Json>,
    pub error: Option<RpcErrorView>,
    pub id: Json,
    pub jsonrpc: Option<Seq<char>>,
}

impl View for Response {
    type V = ResponseView;

    open spec fn view(&self) -> ResponseView {
        ResponseView {
            result: optional_json_of(self.result),
            error: match self.error {
                Some(error) => Some(error@),
                None => None,
            },
            id: json_of(self.id),
            jsonrpc: optional_text_of(self.jsonrpc),
        }
    }
}

impl Response {
    /// The result, if the response carries one.
    pub fn result(&self) -> (r: Option<&serde_json::Value>)
        ensures
            match r {
                Some(value) => self.result == Some(*value),
                None => self.result is None,
            },
    {
        self.result.as_ref()
    }

    /// The result, consuming the response.
    pub fn into_result(self) -> (r: Option<serde_json::Value>)
        ensures
            r == self.result,
    {
        self.result
    }

    /// The [`RpcError`], if the response carries one.
    pub fn error(self) -> (r: Option<RpcError>)
        ensures
            r == self.error,
    {
        self.error
    }

    /// Whether the response carries a result.
    pub fn is_result(&self) -> (b: bool)
        ensures
            b == (self@.result is Some),
    {
        self.result.is_some()
    }

    /// Whether the response carries an error.
    pub fn is_error(&self) -> (b: bool)
        ensures
            b == (self@.error is Some),
    {
        self.error.is_some()
    }
}

/// Why a JSON value is not the object that was expected.
#[derive(Clone, Copy, Debug, PartialEq, Eq)]
pub enum Malformed {
    /// The value is not an object.
    NotAnObject,
    /// A request without a `method` that is a string.
    Method,
    /// No `id` member.
    Id,
    /// A `jsonrpc` member that is not a string, or a request without one.
    Version,
    /// An `error` member that is not an error object.
    ErrorObject,
}

/// Why bytes are not a response.
#[derive(Debug)]
pub enum JsonError {
    /// The bytes are not JSON text.
    Syntax(SyntaxError),
    /// The bytes are JSON text, but of something else than a response.
    Shape(Malformed),
}

impl Malformed {
    /// The reason in words.
    pub open spec fn text(self) -> Seq<char> {
        match self {
            Malformed::NotAnObject => "not an object"@,
            Malformed::Method => "no method name"@,
            Malformed::Id => "no id"@,
            Malformed::Version => "no version string"@,
            Malformed::ErrorObject => "malformed error object"@,
        }
    }

    /// The reason in words.
    pub fn message(&self) -> (text: String)
        ensures
            text@ == self.text(),
    {
        match self {
            Malformed::NotAnObject => "not an object".to_owned(),
            Malformed::Method => "no method name".to_owned(),
            Malformed::Id => "no id".to_owned(),
            Malformed::Version => "no version string".to_owned(),
            Malformed::ErrorObject => "malformed error object".to_owned(),
        }
    }
}

impl JsonError {
    /// The error in words: the reason for a value of the wrong shape, the
    /// parser's own account for bytes that are not JSON text.
    pub fn message(&self) -> (text: String)
        ensures
            self matches JsonError::Shape(reason) ==> text@ == reason.text(),
    {
        match self {
            JsonError::Syntax(error) => error_message(error),
            JsonError::Shape(reason) => reason.message(),
        }
    }
}

/// A member that is absent or null counts as not given.
pub open spec fn given(member: Option<Json>) -> Option<Json> {
    match member {
        Some(Json::Null) => None,
        other => other,
    }
}

/// The members of a request on the wire, in their order.
pub open spec fn request_members(request: RequestView) -> Seq<(Seq<char>, Json)> {
    seq![
        ("method"@, Json::Text(request.method)),
        ("params"@, request.params),
        ("id"@, request.id),
        ("jsonrpc"@, Json::Text(request.jsonrpc)),
    ]
}

/// A request as a JSON value.
pub open spec fn request_json(request: RequestView) -> Json {
    Json::Object(request_members(request))
}

/// The request that a JSON value denotes.
///
/// It is an object with a string `method`, an `id` and a string `jsonrpc`;
/// `params` that are absent are null. Further members are ignored. Where
/// several things are wrong, the reason names the first of them in this
/// order: the method, the id, the version.
pub open spec fn request_of(json: Json) -> Result<RequestView, Malformed> {
    match json {
        Json::Object(members) => match lookup(members, "method"@) {
            Some(Json::Text(method)) => match lookup(members, "id"@) {
                Some(id) => match lookup(members, "jsonrpc"@) {
                    Some(Json::Text(jsonrpc)) => Ok(
                        RequestView {
                            method,
                            params: match lookup(members, "params"@) {
                                Some(params) => params,
                                None => Json::Null,
                            },
                            id,
                            jsonrpc,
                        },
                    ),
                    _ => Err(Malformed::Version),
                },
                None => Err(Malformed::Id),
            },
            _ => Err(Malformed::Method),
        },
        _ => Err(Malformed::NotAnObject),
    }
}

/// The error object that a JSON value denotes, if it denotes one.
///
/// It is an object with a `code` that is an integer of 32 bits and a string
/// `message`; `data` that is absent or null is not given. Further members are
/// ignored.
pub open spec fn error_of(json: Json) -> Option<RpcErrorView> {
    match json {
        Json::Object(members) => match lookup(members, "code"@) {
            Some(code) => match integer_of(code) {
                Some(code) => if i32::MIN <= code <= i32::MAX {
                    match lookup(members, "message"@) {
                        Some(Json::Text(message)) => Some(
                            RpcErrorView {
                                code,
                                message,
                                data: given(lookup(members, "data"@)),
                            },
                        ),
                        _ => None,
                    }
                } else {
                    None
                },
                None => None,
            },
            None => None,
        },
        _ => None,
    }
}

/// The response that a JSON value denotes.
///
/// It is an object with an `id`. A `result`, an `error` or a `jsonrpc` that
/// is absent or null is not given; an `error` that is given is an error
/// object, a `jsonrpc` that is given is a string. Further members are
/// ignored. Where several things are wrong, the reason names the first of
/// them in this order: the error object, the id, the version.
pub open spec fn response_of(json: Json) -> Result<ResponseView, Malformed> {
    match json {
        Json::Object(members) => match given(lookup(members, "error"@)) {
            Some(error) if error_of(error) is None => Err(Malformed::ErrorObject),
            error => match lookup(members, "id"@) {
                Some(id) => match given(lookup(members, "jsonrpc"@)) {
                    Some(Json::Text(jsonrpc)) => Ok(
                        ResponseView {
                            result: given(lookup(members, "result"@)),
                            error: match error {
                                Some(error) => error_of(error),
                                None => None,
                            },
                            id,
                            jsonrpc: Some(jsonrpc),
                        },
                    ),
                    None => Ok(
                        ResponseView {
                            result: given(lookup(members, "result"@)),
                            error: match error {
                                Some(error) => error_of(error),
                                None => None,
                            },
                            id,
                            jsonrpc: None,
                        },
                    ),
                    Some(_) => Err(Malformed::Version),
                },
                None => Err(Malformed::Id),
            },
        },
        _ => Err(Malformed::NotAnObject),
    }
}

/// A reply that gives a result and no error is read as a response that
/// carries that result and no error; a reply that gives an error and no
/// result is read as a response that carries that error and no result.
pub proof fn lemma_result_or_error(members: Seq<(Seq<char>, Json)>, response: ResponseView)
    requires
        response_of(Json::Object(members)) == Ok::<ResponseView, Malformed>(response),
    ensures
        given(lookup(members, "result"@)) is Some && given(lookup(members, "error"@)) is None
            ==> response.result == given(lookup(members, "result"@)) && response.error is None,
        given(lookup(members, "error"@)) is Some && given(lookup(members, "result"@)) is None
            ==> response.error is Some && response.error == error_of(
            given(lookup(members, "error"@))->0,
        ) && response.result is None,
{
}

/// The keys of the wire format are pairwise different.
proof fn lemma_keys_differ()
    ensures
        "method"@ != "params"@,
        "method"@ != "id"@,
        "method"@ != "jsonrpc"@,
        "params"@ != "id"@,
        "params"@ != "jsonrpc"@,
        "id"@ != "jsonrpc"@,
        "result"@ != "error"@,
        "result"@ != "id"@,
        "result"@ != "jsonrpc"@,
        "error"@ != "id"@,
        "error"@ != "jsonrpc"@,
        "code"@ != "message"@,
        "code"@ != "data"@,
        "message"@ != "data"@,
{
    reveal_strlit("method");
    reveal_strlit("params");
    reveal_strlit("id");
    reveal_strlit("jsonrpc");
    reveal_strlit("result");
    reveal_strlit("error");
    reveal_strlit("code");
    reveal_strlit("message");
    reveal_strlit("data");
    assert("id"@.len() == 2 && "code"@.len() == 4 && "data"@.len() == 4 && "error"@.len() == 5);
    assert("method"@.len() == 6 && "params"@.len() == 6 && "result"@.len() == 6);
    assert("jsonrpc"@.len() == 7 && "message"@.len() == 7);
    assert("method"@[0] != "params"@[0]);
    assert("code"@[0] != "data"@[0]);
}

/// What was found under a key, unless it is null.
fn unless_null(found: Option<serde_json::Value>) -> (r: Option<serde_json::Value>)
    ensures
        optional_json_of(r) == given(optional_json_of(found)),
        r matches Some(value) ==> found == Some(value),
{
    match found {
        Some(value) => if is_null(&value) {
            None
        } else {
            Some(value)
        },
        None => None,
    }
}

impl RpcError {
    /// Reads an error object from a JSON value.
    pub fn from_value(value: serde_json::Value) -> (r: Option<RpcError>)
        ensures
            match r {
                Some(error) => error_of(json_of(value)) == Some(error@),
                None => error_of(json_of(value)) is None,
            },
    {
        proof {
            lemma_keys_differ();
        }
        let mut entries = match into_entries(value) {
            Ok(entries) => entries,
            Err(_) => return None,
        };
        let code = match take_member(&mut entries, "code") {
            Some(code) => match as_i64(&code) {
                Some(code) => if -0x8000_0000 <= code && code <= 0x7fff_ffff {
                    code as i32
                } else {
                    return None
                },
                None => return None,
            },
            None => return None,
        };
        let message = match take_member(&mut entries, "message") {
            Some(message) => match as_str(&message) {
                Some(message) => message.to_owned(),
                None => return None,
            },
            None => return None,
        };
        let data = unless_null(take_member(&mut entries, "data"));
        Some(RpcError { code, message, data })
    }
}

impl Request {
    /// The request as a JSON value: an object with the members `method`,
    /// `params`, `id` and `jsonrpc`, in this order.
    pub fn into_value(self) -> (value: serde_json::Value)
        ensures
            json_of(value) == request_json(self@),
    {
        let mut entries: Vec<(String, serde_json::Value)> = Vec::new();
        entries.push(("method".to_owned(), text(self.method)));
        entries.push(("params".to_owned(), self.params));
        entries.push(("id".to_owned(), self.id));
        entries.push(("jsonrpc".to_owned(), text(self.jsonrpc)));
        proof {
            lemma_keys_differ();
            assert(crate::json::members_of(entries@) =~= request_members(self@));
        }
        object(entries)
    }

    /// The request as it goes over the wire: the compact JSON text of
    /// [`Request::into_value`].
    pub fn into_bytes(self) -> (bytes: Vec<u8>)
        ensures
            bytes@ == text_of(request_json(self@)),
    {
        let value = self.into_value();
        to_vec(&value)
    }

    /// Reads a request from a JSON value.
    pub fn from_value(value: serde_json::Value) -> (r: Result<Request, Malformed>)
        ensures
            match r {
                Ok(request) => request_of(json_of(value)) == Ok::<RequestView, Malformed>(
                    request@,
                ),
                Err(reason) => request_of(json_of(value)) == Err::<RequestView, Malformed>(reason),
            },
    {
        proof {
            lemma_keys_differ();
        }
        let mut entries = match into_entries(value) {
            Ok(entries) => entries,
            Err(_) => return Err(Malformed::NotAnObject),
        };
        let method = match take_member(&mut entries, "method") {
            Some(method) => match as_str(&method) {
                Some(method) => method.to_owned(),
                None => return Err(Malformed::Method),
            },
            None => return Err(Malformed::Method),
        };
        let id = match take_member(&mut entries, "id") {
            Some(id) => id,
            None => return Err(Malformed::Id),
        };
        let jsonrpc = match take_member(&mut entries, "jsonrpc") {
            Some(jsonrpc) => match as_str(&jsonrpc) {
                Some(jsonrpc) => jsonrpc.to_owned(),
                None => return Err(Malformed::Version),
            },
            None => return Err(Malformed::Version),
        };
        let params = match take_member(&mut entries, "params") {
            Some(params) => params,
            None => crate::json::null(),
        };
        Ok(Request { method, params, id, jsonrpc })
    }
}

/// Reading back a request that was turned into a JSON value gives the same
/// request, field for field.
pub proof fn lemma_request_round_trip(request: RequestView)
    ensures
        request_of(request_json(request)) == Ok::<RequestView, Malformed>(request),
{
    lemma_keys_differ();
    reveal_with_fuel(lookup, 5);
}

impl Response {
    /// Reads a response from a JSON value.
    pub fn from_value(value: serde_json::Value) -> (r: Result<Response, Malformed>)
        ensures
            match r {
                Ok(response) => response_of(json_of(value)) == Ok::<ResponseView, Malformed>(
                    response@,
                ),
                Err(reason) => response_of(json_of(value)) == Err::<ResponseView, Malformed>(
                    reason,
                ),
            },
    {
        proof {
            lemma_keys_differ();
        }
        let mut entries = match into_entries(value) {
            Ok(entries) => entries,
            Err(_) => return Err(Malformed::NotAnObject),
        };
        let error = match unless_null(take_member(&mut entries, "error")) {
            Some(error) => match RpcError::from_value(error) {
                Some(error) => Some(error),
                None => return Err(Malformed::ErrorObject),
            },
            None => None,
        };
        let id = match take_member(&mut entries, "id") {
            Some(id) => id,
            None => return Err(Malformed::Id),
        };
        let jsonrpc = match unless_null(take_member(&mut entries, "jsonrpc")) {
            Some(jsonrpc) => match as_str(&jsonrpc) {
                Some(jsonrpc) => Some(jsonrpc.to_owned()),
                None => return Err(Malformed::Version),
            },
            None => None,
        };
        let result = unless_null(take_member(&mut entries, "result"));
        Ok(Response { result, error, id, jsonrpc })
    }

    /// Reads a response from the bytes of a response body.
    ///
    /// Bytes that `serde_json` does not read as JSON text fail with its error;
    /// JSON text of anything but a response fails with the reason.
    pub fn from_slice(bytes: &[u8]) -> (r: Result<Response, JsonError>)
        ensures
            match parse_of(bytes@) {
                None => r matches Err(JsonError::Syntax(_)),
                Some(json) => match response_of(json) {
                    Ok(response) => r matches Ok(read) && read@ == response,
                    Err(reason) => r matches Err(JsonError::Shape(shape)) && shape == reason,
                },
            },
    {
        match from_slice(bytes) {
            Ok(value) => match Response::from_value(value) {
                Ok(response) => Ok(response),
                Err(reason) => Err(JsonError::Shape(reason)),
            },
            Err(error) => Err(JsonError::Syntax(error)),
        }
    }
}

} // verus!
