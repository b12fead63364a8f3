//! The client that is not shared.
//!
//! An [`HttpClient`] owns its credentials and its id counter outright. It
//! makes the same messages as [`crate::clients::http::Client`] and fails with
//! the transport's error as it is.

use std::sync::atomic::{AtomicUsize, Ordering};

use vstd::prelude::*;

use crate::clients::http::{
    admissible, numbered, numbered_builder, outbound_of, Credentials, CredentialsView, Outbound,
};
use crate::clients::RequestFactory;
use crate::objects::{optional_text_of, Request, RequestBuilder};

verus! {

/// A handle to a remote HTTP JSON-RPC server.
pub struct HttpClient<C> {
    credentials: Credentials,
    nonce: AtomicUsize,
    inner_client: C,
}

impl<C> HttpClient<C> {
    /// Where requests go, and as whom.
    pub closed spec fn credentials(&self) -> CredentialsView {
        self.credentials@
    }

    /// The transport.
    pub closed spec fn client(&self) -> C {
        self.inner_client
    }

    /// Creates a new client over a transport.
    ///
    /// A password needs a user.
    pub fn new(inner_client: C, url: String, user: Option<String>, password: Option<String>) -> (client:
        Self)
        requires
            admissible(optional_text_of(user), optional_text_of(password)),
        ensures
            client.credentials() == (CredentialsView {
                url: url@,
                user: optional_text_of(user),
                password: optional_text_of(password),
            }),
            client.client() == inner_client,
    {
        HttpClient {
            credentials: Credentials::new(url, user, password),
            inner_client,
            nonce: AtomicUsize::new(0),
        }
    }

    /// The id that the next request gets, unless another caller takes it
    /// first.
    pub fn next_nonce(&self) -> usize {
        self.nonce.load(Ordering::Acquire)
    }

    /// The transport, to send a message with.
    pub fn transport(&mut self) -> (client: &mut C)
        ensures
            *client == old(self).client(),
            final(self).client() == *final(client),
            final(self).credentials() == old(self).credentials(),
    {
        &mut self.inner_client
    }

    /// The message that carries `request` to the server.
    pub fn prepare(&self, request: Request) -> (outbound: Outbound)
        ensures
            outbound@ == outbound_of(self.credentials(), request@),
    {
        self.credentials.outbound(request)
    }
}

impl<C> RequestFactory for HttpClient<C> {
    /// A builder that carries the next id, a number, and nothing else. The id
    /// is taken by an atomic fetch-and-increment on the client's counter.
    fn build_request(&self) -> (builder: RequestBuilder)
        ensures
            exists|nonce: usize| builder@ == numbered_builder(nonce),
    {
        numbered(self.nonce.fetch_add(1, Ordering::AcqRel))
    }
}

} // verus!
