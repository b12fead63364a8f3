//! The client for JSON-RPC over HTTP.
//!
//! A [`Client`] holds where to send requests, the credentials to send them
//! with, a counter for request ids and the transport. It turns a request into
//! the [`Outbound`] message and the transport's [`Outcome`] into a response.
//! Sending the message is left to the caller.

use std::sync::atomic::{AtomicUsize, Ordering};
use std::sync::Arc;

use vstd::prelude::*;
use vstd::utf8::encode_utf8;

use crate::clients::{conclude, concluded, Error, RequestFactory};
use crate::json::{number, text_of, Json, Number};
use crate::objects::{
    empty_builder, optional_text_of, request_json, Request, RequestBuilder, RequestBuilderView,
    RequestView, Response,
};

verus! {

/// The error of a call over HTTP, over the transport's own error type `E`.
pub type HttpError<E> = Error<ConnectionError<E>>;

/// The error with which `hyper` gave up reading a response body.
#[verifier::external_body]
#[derive(Debug)]
pub struct TransferError(pub hyper::Error);

/// Error specific to HTTP connections.
#[derive(Debug)]
pub enum ConnectionError<E> {
    /// The transport failed while it was asked whether it is ready.
    Poll(E),
    /// The transport failed to answer the request.
    Service(E),
    /// The response began, but its body could not be read to the end.
    Body(TransferError),
}

/// `Display` for `hyper::Error`: the transport's account of what went wrong.
#[verifier::external_body]
fn transfer_message(error: &TransferError) -> (text: String) {
    error.0.to_string()
}

impl<E> ConnectionError<E> {
    /// Whether `text` describes the error, where `transport` describes the
    /// transport's errors.
    pub open spec fn described_by<F: Fn(&E) -> String>(self, transport: F, text: String) -> bool {
        match self {
            ConnectionError::Poll(error) => exists|inner: String|
                call_ensures(transport, (&error,), inner) && text@ == "polling error, "@ + inner@,
            ConnectionError::Service(error) => exists|inner: String|
                call_ensures(transport, (&error,), inner) && text@ == "service error, "@ + inner@,
            ConnectionError::Body(_) => exists|inner: String|
                text@ == "body error, "@ + inner@,
        }
    }

    /// The error in words. The transport's own error is put into words by
    /// `transport`.
    pub fn message<F: Fn(&E) -> String>(&self, transport: F) -> (text: String)
        requires
            self matches ConnectionError::Poll(error) ==> call_requires(transport, (&error,)),
            self matches ConnectionError::Service(error) ==> call_requires(transport, (&error,)),
        ensures
            self.described_by(transport, text),
    {
        match self {
            ConnectionError::Poll(error) => {
                let inner = transport(error);
                "polling error, ".to_owned().concat(inner.as_str())
            },
            ConnectionError::Service(error) => {
                let inner = transport(error);
                "service error, ".to_owned().concat(inner.as_str())
            },
            ConnectionError::Body(error) => {
                let inner = transfer_message(error);
                "body error, ".to_owned().concat(inner.as_str())
            },
        }
    }
}

/// The base64 text, in the standard alphabet and with padding, that
/// `base64::encode` gives for `input`.
pub uninterp spec fn base64_text(input: Seq<u8>) -> Seq<char>;

/// The longest input for which the length of the base64 text fits a `usize`.
pub open spec fn base64_limit() -> int {
    usize::MAX / 4 * 3
}

/// `base64::encode`: the base64 text of `input`. It panics where the length
/// of the text overflows, which the bound on the input rules out.
#[verifier::external_body]
fn base64_encode(input: &[u8]) -> (text: String)
    requires
        input@.len() <= base64_limit(),
    ensures
        text@ == base64_text(input@),
{
    base64::encode(input)
}

/// What is encoded into a Basic authorization: the user, a colon, and the
/// password, or nothing in its place.
pub open spec fn plain_text(user: Seq<char>, password: Option<Seq<char>>) -> Seq<char> {
    user + ":"@ + match password {
        Some(password) => password,
        None => Seq::empty(),
    }
}

/// The value of a Basic authorization header for encoded credentials.
pub open spec fn basic(encoded: Seq<char>) -> Seq<char> {
    "Basic "@ + encoded
}

/// The value of the authorization header: none without a user, else the
/// Basic scheme over the base64 text of `user:password`.
pub open spec fn authorization_of(user: Option<Seq<char>>, password: Option<Seq<char>>) -> Option<
    Seq<char>,
> {
    match user {
        Some(user) => Some(basic(base64_text(encode_utf8(plain_text(user, password))))),
        None => None,
    }
}

/// Whether a user and a password make credentials: a password comes with a
/// user, and what is to be encoded is short enough for its base64 text.
pub open spec fn admissible(user: Option<Seq<char>>, password: Option<Seq<char>>) -> bool {
    &&& password is Some ==> user is Some
    &&& user matches Some(user) ==> encode_utf8(plain_text(user, password)).len()
        <= base64_limit()
}

/// Where requests go, and as whom.
#[derive(Debug, PartialEq, Eq)]
pub struct Credentials {
    url: String,
    user: Option<String>,
    password: Option<String>,
}

/// The content of [`Credentials`].
pub struct CredentialsView {
    pub url: Seq<char>,
    pub user: Option<Seq<char>>,
    pub password: Option<Seq<char>>,
}

impl View for Credentials {
    type V = CredentialsView;

    closed spec fn view(&self) -> CredentialsView {
        CredentialsView {
            url: self.url@,
            user: optional_text_of(self.user),
            password: optional_text_of(self.password),
        }
    }
}

impl Clone for Credentials {
    fn clone(&self) -> (copy: Self)
        ensures
            copy@ == self@,
    {
        proof {
            use_type_invariant(self);
        }
        let user = match &self.user {
            Some(user) => Some(user.clone()),
            None => None,
        };
        let password = match &self.password {
            Some(password) => Some(password.clone()),
            None => None,
        };
        Credentials { url: self.url.clone(), user, password }
    }
}

/// The user, a colon, and the password or nothing.
fn plain(user: &String, password: &Option<String>) -> (text: String)
    ensures
        text@ == plain_text(user@, optional_text_of(*password)),
{
    let text = user.clone().concat(":");
    match password {
        Some(password) => text.concat(password.as_str()),
        None => {
            assert(text@ + Seq::<char>::empty() =~= text@);
            text
        },
    }
}

/// The value of a Basic authorization header for encoded credentials.
pub fn basic_authorization(encoded: &str) -> (value: String)
    ensures
        value@ == basic(encoded@),
{
    "Basic ".to_owned().concat(encoded)
}

impl Credentials {
    #[verifier::type_invariant]
    spec fn well_formed(self) -> bool {
        admissible(optional_text_of(self.user), optional_text_of(self.password))
    }

    /// Credentials for the server at `url`. A password needs a user.
    pub fn new(url: String, user: Option<String>, password: Option<String>) -> (credentials:
        Credentials)
        requires
            admissible(optional_text_of(user), optional_text_of(password)),
        ensures
            credentials@ == (CredentialsView {
                url: url@,
                user: optional_text_of(user),
                password: optional_text_of(password),
            }),
    {
        Credentials { url, user, password }
    }

    /// Whether a user and a password make credentials.
    pub fn admits(user: &Option<String>, password: &Option<String>) -> (ok: bool)
        ensures
            ok == admissible(optional_text_of(*user), optional_text_of(*password)),
    {
        match user {
            Some(user) => {
                let text = plain(user, password);
                text.as_str().as_bytes().len() <= usize::MAX / 4 * 3
            },
            None => password.is_none(),
        }
    }

    /// The value of the authorization header, if requests carry one.
    pub fn authorization(&self) -> (value: Option<String>)
        ensures
            optional_text_of(value) == authorization_of(self@.user, self@.password),
    {
        proof {
            use_type_invariant(self);
        }
        match &self.user {
            Some(user) => {
                let text = plain(user, &self.password);
                let encoded = base64_encode(text.as_str().as_bytes());
                Some(basic_authorization(encoded.as_str()))
            },
            None => None,
        }
    }
}

/// The message that carries a request to the server: an HTTP POST.
#[derive(Clone, Debug, PartialEq, Eq)]
pub struct Outbound {
    /// Where the message goes.
    pub url: String,
    /// The value of the `Content-Type` header.
    pub content_type: String,
    /// The value of the `Authorization` header, if there is one.
    pub authorization: Option<String>,
    /// The body.
    pub body: Vec<u8>,
}

/// The content of an [`Outbound`] message.
pub struct OutboundView {
    pub url: Seq<char>,
    pub content_type: Seq<char>,
    pub authorization: Option<Seq<char>>,
    pub body: Seq<u8>,
}

impl View for Outbound {
    type V = OutboundView;

    open spec fn view(&self) -> OutboundView {
        OutboundView {
            url: self.url@,
            content_type: self.content_type@,
            authorization: optional_text_of(self.authorization),
            body: self.body@,
        }
    }
}

/// The message that carries `request` under `credentials`: it goes to their
/// URL, declares JSON, is authorized exactly if there is a user, and holds
/// the request as compact JSON text.
pub open spec fn outbound_of(credentials: CredentialsView, request: RequestView) -> OutboundView {
    OutboundView {
        url: credentials.url,
        content_type: "application/json"@,
        authorization: authorization_of(credentials.user, credentials.password),
        body: text_of(request_json(request)),
    }
}

impl Credentials {
    /// The message that carries `request` under these credentials.
    pub fn outbound(&self, request: Request) -> (outbound: Outbound)
        ensures
            outbound@ == outbound_of(self@, request@),
    {
        Outbound {
            url: self.url.clone(),
            content_type: "application/json".to_owned(),
            authorization: self.authorization(),
            body: request.into_bytes(),
        }
    }
}

/// What the transport did with an [`Outbound`] message.
#[derive(Debug)]
pub enum Outcome<E> {
    /// It failed when asked whether it is ready; the message was not sent.
    NotReady(E),
    /// It failed to answer the message.
    Failed(E),
    /// It began to answer, but the body broke off.
    Interrupted(TransferError),
    /// It answered, with this body.
    Answered(Vec<u8>),
}

impl<E> Outcome<E> {
    /// The body that the transport brought back, or the connection error of
    /// the stage at which it failed.
    pub open spec fn transport(self) -> Result<Vec<u8>, ConnectionError<E>> {
        match self {
            Outcome::NotReady(error) => Err(ConnectionError::Poll(error)),
            Outcome::Failed(error) => Err(ConnectionError::Service(error)),
            Outcome::Interrupted(error) => Err(ConnectionError::Body(error)),
            Outcome::Answered(body) => Ok(body),
        }
    }

    /// What the call comes to: each failure of the transport is the
    /// connection error of its stage; a body is the response that it denotes,
    /// or the JSON error that says why it denotes none.
    pub fn conclude(self) -> (result: Result<Response, HttpError<E>>)
        ensures
            concluded(self.transport(), result),
    {
        conclude(
            match self {
                Outcome::NotReady(error) => Err(ConnectionError::Poll(error)),
                Outcome::Failed(error) => Err(ConnectionError::Service(error)),
                Outcome::Interrupted(error) => Err(ConnectionError::Body(error)),
                Outcome::Answered(body) => Ok(body),
            },
        )
    }
}

/// What a builder has been given that carries the id `nonce` and nothing
/// else.
pub open spec fn numbered_builder(nonce: usize) -> RequestBuilderView {
    RequestBuilderView { id: Some(Json::Number(Number::Integer(nonce as int))), ..empty_builder() }
}

/// A request builder that carries the id `nonce` and nothing else.
pub fn numbered(nonce: usize) -> (builder: RequestBuilder)
    ensures
        builder@ == numbered_builder(nonce),
{
    Request::build().id(number(nonce))
}

/// A handle to a remote HTTP JSON-RPC server.
///
/// Clones share the credentials and the id counter.
#[derive(Clone, Debug)]
pub struct Client<S> {
    credentials: Arc<Credentials>,
    nonce: Arc<AtomicUsize>,
    inner_service: S,
}

impl<S> Client<S> {
    /// Where requests go, and as whom.
    pub closed spec fn credentials(&self) -> CredentialsView {
        self.credentials@
    }

    /// The transport.
    pub closed spec fn service(&self) -> S {
        self.inner_service
    }

    /// Creates a new HTTP client over a transport.
    ///
    /// A password needs a user.
    pub fn from_service(
        service: S,
        url: String,
        user: Option<String>,
        password: Option<String>,
    ) -> (client: Self)
        requires
            admissible(optional_text_of(user), optional_text_of(password)),
        ensures
            client.credentials() == (CredentialsView {
                url: url@,
                user: optional_text_of(user),
                password: optional_text_of(password),
            }),
            client.service() == service,
    {
        let credentials = Arc::new(Credentials::new(url, user, password));
        Client { credentials, inner_service: service, nonce: Arc::new(AtomicUsize::new(0)) }
    }

    /// The id that the next request gets, unless another caller takes it
    /// first.
    pub fn next_nonce(&self) -> usize {
        self.nonce.load(Ordering::Acquire)
    }

    /// The transport, to send a message with.
    pub fn transport(&mut self) -> (service: &mut S)
        ensures
            *service == old(self).service(),
            final(self).service() == *final(service),
            final(self).credentials() == old(self).credentials(),
    {
        &mut self.inner_service
    }

    /// The message that carries `request` to the server.
    pub fn prepare(&self, request: Request) -> (outbound: Outbound)
        ensures
            outbound@ == outbound_of(self.credentials(), request@),
    {
        self.credentials.outbound(request)
    }
}

impl<S> RequestFactory for Client<S> {
    /// A builder that carries the next id, a number, and nothing else. The id
    /// is taken by an atomic fetch-and-increment on the counter that the
    /// clones of this client share.
    fn build_request(&self) -> (builder: RequestBuilder)
        ensures
            exists|nonce: usize| builder@ == numbered_builder(nonce),
    {
        numbered(self.nonce.fetch_add(1, Ordering::AcqRel))
    }
}

} // verus!
