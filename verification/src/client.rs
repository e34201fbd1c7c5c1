//! The client: what is sent to the database for a query, and what its
//! answer means.

pub mod response;

use std::time::Duration;
use vstd::prelude::*;
use vstd::string::*;
use vstd::utf8::encode_utf8;
use crate::error::Error;
use crate::expr::expr_text;
use crate::json::{decimal_text, write_unsigned};
use crate::query::{query_expr, Query};

verus! {

/// The most bytes that a secret and its colon may have together.
pub const MAX_CREDENTIALS_BYTES: usize = 0x1000_0000;

/// The text that `base64::encode` gives for `bytes`: base64 in the
/// standard alphabet, with padding.
pub uninterp spec fn base64_standard(bytes: Seq<u8>) -> Seq<char>;

/// `text` parses as an `http::Uri`.
pub uninterp spec fn uri_accepted(text: Seq<char>) -> bool;

/// The duration that `Duration::from_secs` gives for `seconds`.
pub uninterp spec fn whole_seconds(seconds: u64) -> Duration;

/// Calls `base64::encode` on the bytes of `input`. Trusted: what comes back
/// depends on the bytes alone; `base64_standard` is its name. The bound
/// keeps the length of the output, four characters for every three bytes
/// begun, within what a string can hold.
#[verifier::external_body]
fn base64_encode(input: &str) -> (r: String)
    requires
        encode_utf8(input@).len() <= MAX_CREDENTIALS_BYTES,
    ensures
        r@ == base64_standard(encode_utf8(input@)),
{
    base64::encode(input)
}

/// Parses `text` as an `http::Uri`. Trusted: the result is none exactly
/// where the parser accepts the text; else it is the message of the
/// parser's error, of which nothing is claimed.
#[verifier::external_body]
fn uri_rejection(text: &str) -> (r: Option<String>)
    ensures
        r is None <==> uri_accepted(text@),
{
    text.parse::<http::Uri>().err().map(|error| error.to_string())
}

/// Calls `Duration::from_secs`. Trusted: what comes back depends on the
/// number alone; `whole_seconds` is its name.
#[verifier::external_body]
fn duration_of_seconds(seconds: u64) -> (r: Duration)
    ensures
        r == whole_seconds(seconds),
{
    Duration::from_secs(seconds)
}

/// The value of the `Authorization` header for a secret: `Basic` and the
/// base64 text of the secret and a colon.
pub open spec fn authorization_of(secret: Seq<char>) -> Seq<char> {
    "Basic "@ + base64_standard(encode_utf8(secret + ":"@))
}

/// The secret and its colon are short enough to be encoded.
pub open spec fn secret_fits(secret: Seq<char>) -> bool {
    encode_utf8(secret + ":"@).len() <= MAX_CREDENTIALS_BYTES
}

/// For building a client.
pub struct ClientBuilder {
    uri: String,
    secret: String,
    timeout: Duration,
}

/// The value of a `ClientBuilder`.
pub ghost struct ClientBuilderView {
    pub uri: Seq<char>,
    pub secret: Seq<char>,
    pub timeout: Duration,
}

impl View for ClientBuilder {
    type V = ClientBuilderView;

    closed spec fn view(&self) -> ClientBuilderView {
        ClientBuilderView { uri: self.uri@, secret: self.secret@, timeout: self.timeout }
    }
}

/// What a client keeps of its configuration, fixed when it is built: the
/// address, the deadline of a query and the `Authorization` header.
pub struct Client {
    uri: String,
    timeout: Duration,
    authorization: String,
}

/// The value of a `Client`.
pub ghost struct ClientView {
    pub uri: Seq<char>,
    pub timeout: Duration,
    pub authorization: Seq<char>,
}

impl View for Client {
    type V = ClientView;

    closed spec fn view(&self) -> ClientView {
        ClientView { uri: self.uri@, timeout: self.timeout, authorization: self.authorization@ }
    }
}

/// The client that a builder describes.
pub open spec fn built_client(builder: ClientBuilderView) -> ClientView {
    ClientView {
        uri: builder.uri,
        timeout: builder.timeout,
        authorization: authorization_of(builder.secret),
    }
}

/// The builder can be built: its address is accepted and its secret fits.
pub open spec fn buildable(builder: ClientBuilderView) -> bool {
    uri_accepted(builder.uri) && secret_fits(builder.secret)
}

/// A client for callers that block until the answer is there.
pub struct SyncClient {
    client: Client,
}

impl View for SyncClient {
    type V = ClientView;

    closed spec fn view(&self) -> ClientView {
        self.client@
    }
}

impl SyncClient {
    /// The configuration of the client.
    pub fn client(&self) -> (r: &Client)
        ensures
            r@ == self@,
    {
        &self.client
    }
}

impl ClientBuilder {
    /// Sets the address of the database, for dedicated servers.
    pub fn uri(&mut self, uri: &str) -> (ret: &mut Self)
        ensures
            ret@ == (ClientBuilderView { uri: uri@, ..old(self)@ }),
            *final(self) == *final(ret),
    {
        self.uri = String::from_str(uri);
        self
    }

    /// Sets the deadline of a query.
    pub fn timeout(&mut self, timeout: Duration) -> (ret: &mut Self)
        ensures
            ret@ == (ClientBuilderView { timeout, ..old(self)@ }),
            *final(self) == *final(ret),
    {
        self.timeout = timeout;
        self
    }

    /// Builds the client: checks the address, then encodes the secret. A
    /// builder that cannot be built gives a `ConnectionError`, and no client.
    pub fn build(self) -> (r: Result<Client, Error>)
        ensures
            match r {
                Ok(client) => buildable(self@) && client@ == built_client(self@),
                Err(error) => !buildable(self@) && error@ is ConnectionError,
            },
    {
        match uri_rejection(self.uri.as_str()) {
            Some(message) => {
                return Err(Error::ConnectionError(message));
            },
            None => {},
        }
        let mut credentials = self.secret;
        credentials.append(":");
        if credentials.as_str().as_bytes().len() > MAX_CREDENTIALS_BYTES {
            return Err(Error::ConnectionError(String::from_str("the secret is too long")));
        }
        let encoded = base64_encode(credentials.as_str());
        let mut authorization = String::from_str("Basic ");
        authorization.append(encoded.as_str());
        Ok(Client { uri: self.uri, timeout: self.timeout, authorization })
    }

    /// Builds the client for callers that block.
    pub fn build_sync(self) -> (r: Result<SyncClient, Error>)
        ensures
            match r {
                Ok(client) => buildable(self@) && client@ == built_client(self@),
                Err(error) => !buildable(self@) && error@ is ConnectionError,
            },
    {
        match self.build() {
            Ok(client) => Ok(SyncClient { client }),
            Err(error) => Err(error),
        }
    }
}

/// A request to the database, as plain values.
#[derive(Debug, PartialEq, Eq)]
pub struct Request {
    pub method: String,
    pub uri: String,
    /// The headers, each a name and a value, in the order they are set.
    pub headers: Vec<(String, String)>,
    pub body: String,
}

/// The value of a `Request`.
pub ghost struct RequestView {
    pub method: Seq<char>,
    pub uri: Seq<char>,
    pub headers: Seq<(Seq<char>, Seq<char>)>,
    pub body: Seq<char>,
}

impl View for Request {
    type V = RequestView;

    open spec fn view(&self) -> RequestView {
        RequestView {
            method: self.method@,
            uri: self.uri@,
            headers: self.headers@.map_values(|header: (String, String)| (header.0@, header.1@)),
            body: self.body@,
        }
    }
}

/// The request that carries `payload` for `client`: a POST to the address
/// of the client, with the length of the payload in bytes, its content
/// type, the authorization of the client and the version of the API.
pub open spec fn request_for(client: ClientView, payload: Seq<char>) -> RequestView {
    RequestView {
        method: "POST"@,
        uri: client.uri,
        headers: seq![
            ("Content-Length"@, decimal_text(encode_utf8(payload).len())),
            ("Content-Type"@, "application/json"@),
            ("Authorization"@, client.authorization),
            ("X-FaunaDB-API-Version"@, "2.1"@),
        ],
        body: payload,
    }
}

impl Client {
    /// A builder with the secret, the address `https://db.fauna.com` and a
    /// deadline of 60 seconds.
    pub fn builder(secret: &str) -> (r: ClientBuilder)
        ensures
            r@ == (ClientBuilderView {
                uri: "https://db.fauna.com"@,
                secret: secret@,
                timeout: whole_seconds(60),
            }),
    {
        ClientBuilder {
            uri: String::from_str("https://db.fauna.com"),
            secret: String::from_str(secret),
            timeout: duration_of_seconds(60),
        }
    }

    /// The address of the database.
    pub fn uri(&self) -> (r: &str)
        ensures
            r@ == self@.uri,
    {
        self.uri.as_str()
    }

    /// The deadline of a query.
    pub fn timeout(&self) -> (r: Duration)
        ensures
            r == self@.timeout,
    {
        self.timeout
    }

    /// The value of the `Authorization` header.
    pub fn authorization(&self) -> (r: &str)
        ensures
            r@ == self@.authorization,
    {
        self.authorization.as_str()
    }

    /// The request that carries `payload`.
    pub fn build_request(&self, payload: String) -> (request: Request)
        ensures
            request@ == request_for(self@, payload@),
    {
        let length = write_unsigned(payload.as_str().as_bytes().len() as u64);
        let mut headers: Vec<(String, String)> = Vec::new();
        headers.push((String::from_str("Content-Length"), length));
        headers.push((String::from_str("Content-Type"), String::from_str("application/json")));
        headers.push((String::from_str("Authorization"), self.authorization.clone()));
        headers.push((String::from_str("X-FaunaDB-API-Version"), String::from_str("2.1")));
        let request = Request {
            method: String::from_str("POST"),
            uri: self.uri.clone(),
            headers,
            body: payload,
        };
        assert(request@.headers =~= request_for(self@, payload@).headers);
        request
    }

    /// The request that sends `query`: its body is the JSON text of the
    /// query.
    pub fn query(&self, query: &Query) -> (request: Request)
        ensures
            request@ == request_for(self@, expr_text(query_expr(query@))),
    {
        self.build_request(query.to_json())
    }
}

} // verus!
