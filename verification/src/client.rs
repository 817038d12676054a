//! The client: credentials, the token store, and what follows from them
//! without any exchange with the service.

use crate::decode::{decode_as, decoded_as};
use crate::error::{Failure, ZuoraError};
use crate::headers::{
    authorization, content_type, header_fields, header_value, insert_header, is_header_text,
    new_header_map, printable_text_is_header_text, HeaderFields,
};
use crate::json::{json_model, json_object, json_string, json_text, render_json, Json};
use crate::request::{Method, Payload, PayloadView, RequestSpec, RequestSpecView};
use crate::retry::RetryPolicy;
use crate::token::{
    AccessToken, AccessTokenView, Grant, TokenDecision, TokenStore, TokenStoreView,
};
use reqwest::header::HeaderMap;
use serde_json::Value;
use vstd::prelude::*;
use vstd::string::StringExecFns;

verus! {

/// A client of one tenant of the billing service.
#[derive(Debug)]
pub struct Zuora {
    client_id: String,
    client_secret: String,
    domain: String,
    version: String,
    policy: RetryPolicy,
    tokens: TokenStore,
}

pub struct ZuoraView {
    pub client_id: Seq<char>,
    pub client_secret: Seq<char>,
    /// The root of the service, such as `https://rest.zuora.com`.
    pub domain: Seq<char>,
    /// The path of the API version, such as `/v1`.
    pub version: Seq<char>,
    pub policy: RetryPolicy,
    pub tokens: TokenStoreView,
}

impl View for Zuora {
    type V = ZuoraView;

    closed spec fn view(&self) -> ZuoraView {
        ZuoraView {
            client_id: self.client_id@,
            client_secret: self.client_secret@,
            domain: self.domain@,
            version: self.version@,
            policy: self.policy,
            tokens: self.tokens@,
        }
    }
}

/// The bytes of a text as they are written into a header.
pub open spec fn header_bytes(text: Seq<char>) -> Seq<u8> {
    vstd::utf8::encode_utf8(text)
}

impl ZuoraView {
    /// The prefix of every resource URL: domain and version.
    pub open spec fn endpoint(self) -> Seq<char> {
        self.domain + self.version
    }

    /// The value of the `authorization` header for a token.
    pub open spec fn bearer(token: AccessTokenView) -> Seq<char> {
        "Bearer "@ + token.grant.access_token
    }

    /// The headers that authenticate a request: none without a token, the
    /// bearer credential with one. `None` where the token cannot be written
    /// into a header.
    pub open spec fn auth_headers(self) -> Option<HeaderFields> {
        match self.tokens.token {
            None => Some(HeaderFields::empty()),
            Some(token) => if is_header_text(header_bytes(Self::bearer(token))) {
                Some(
                    HeaderFields::empty().insert(
                        "authorization"@,
                        header_bytes(Self::bearer(token)),
                    ),
                )
            } else {
                None
            },
        }
    }

    /// The request for a resource: the URL is endpoint and path, the headers
    /// authenticate, and a payload is carried as JSON under its content type.
    pub open spec fn request(self, method: Method, path: Seq<char>, payload: Option<Json>) -> Result<
        RequestSpecView,
        Failure,
    > {
        match (self.auth_headers(), payload) {
            (None, _) => Err(Failure::Auth(Box::new(Failure::Serialization))),
            (Some(headers), None) => Ok(
                RequestSpecView {
                    method,
                    url: self.endpoint() + path,
                    headers,
                    payload: PayloadView::Empty,
                },
            ),
            (Some(headers), Some(doc)) => match json_text(doc) {
                None => Err(Failure::Serialization),
                Some(text) => Ok(
                    RequestSpecView {
                        method,
                        url: self.endpoint() + path,
                        headers: headers.insert(
                            "content-type"@,
                            header_bytes("application/json"@),
                        ),
                        payload: PayloadView::Json(text),
                    },
                ),
            },
        }
    }

    /// The document that carries a query.
    pub open spec fn query_document(query_string: Seq<char>) -> Json {
        Json::Object(Map::empty().insert("queryString"@, Json::Text(query_string)))
    }

    /// The request that asks the token endpoint for a token.
    pub open spec fn token_request(self) -> RequestSpecView {
        RequestSpecView {
            method: Method::Post,
            url: self.domain + "/oauth/token"@,
            headers: HeaderFields::empty(),
            payload: PayloadView::Form(
                seq![
                    ("client_id"@, self.client_id),
                    ("client_secret"@, self.client_secret),
                    ("grant_type"@, "client_credentials"@),
                ],
            ),
        }
    }

    /// The client after the token endpoint's answer has been taken in at
    /// `now`: a grant becomes the stored token, anything else leaves the
    /// stored token as it was. Either way the acquisition is over.
    pub open spec fn after_token_answer(self, status: u16, body: Seq<char>, now: u64) -> ZuoraView {
        match decoded_as::<Grant>(status, body) {
            Ok(grant) => ZuoraView {
                tokens: TokenStoreView {
                    token: Some(AccessTokenView { grant, issued_at: now }),
                    refreshing: false,
                },
                ..self
            },
            Err(_) => ZuoraView {
                tokens: TokenStoreView { refreshing: false, ..self.tokens },
                ..self
            },
        }
    }

    /// What taking in the token endpoint's answer reports.
    pub open spec fn token_answer_result(status: u16, body: Seq<char>) -> Result<(), Failure> {
        match decoded_as::<Grant>(status, body) {
            Ok(_) => Ok(()),
            Err(failure) => Err(Failure::Auth(Box::new(failure))),
        }
    }
}

/// The operations of a client.
pub trait ZuoraTrait: Sized {
    /// The client as a mathematical value.
    spec fn state(&self) -> ZuoraView;

    /// The prefix of every resource URL.
    fn endpoint(&self) -> (r: String)
        ensures
            r@ == self.state().endpoint(),
    ;

    /// The headers that authenticate a request. Fails where the stored token
    /// cannot be written into a header.
    fn construct_headers(&self) -> (r: Result<HeaderMap, ZuoraError>)
        ensures
            match r {
                Ok(headers) => self.state().auth_headers() == Some(header_fields(headers)),
                Err(e) => self.state().auth_headers() is None && e@ == Failure::Auth(
                    Box::new(Failure::Serialization),
                ),
            },
    ;

    /// Takes in the answer of the token endpoint, received at `now`. A grant
    /// is stored as the current token, with every member as the answer gave
    /// it. Any other answer is an authentication failure that holds the
    /// cause, and leaves the stored token untouched.
    fn generate_token(&mut self, status: u16, body: &str, now: u64) -> (r: Result<(), ZuoraError>)
        ensures
            final(self).state() == old(self).state().after_token_answer(status, body@, now),
            match r {
                Ok(_) => ZuoraView::token_answer_result(status, body@) is Ok,
                Err(e) => ZuoraView::token_answer_result(status, body@) == Err::<(), Failure>(e@),
            },
    ;

    /// The request that reads a resource. The payload travels as a JSON
    /// body, as it does with the other verbs.
    fn get(&self, path: &str, payload: Value) -> (r: Result<RequestSpec, ZuoraError>)
        ensures
            match r {
                Ok(request) => self.state().request(
                    Method::Get,
                    path@,
                    Some(json_model(payload)),
                ) == Ok::<RequestSpecView, Failure>(request@),
                Err(e) => self.state().request(Method::Get, path@, Some(json_model(payload)))
                    == Err::<RequestSpecView, Failure>(e@),
            },
    ;

    /// The request that creates a resource or starts an action.
    fn post(&self, path: &str, payload: Value) -> (r: Result<RequestSpec, ZuoraError>)
        ensures
            match r {
                Ok(request) => self.state().request(
                    Method::Post,
                    path@,
                    Some(json_model(payload)),
                ) == Ok::<RequestSpecView, Failure>(request@),
                Err(e) => self.state().request(Method::Post, path@, Some(json_model(payload)))
                    == Err::<RequestSpecView, Failure>(e@),
            },
    ;

    /// The request that replaces a resource.
    fn put(&self, path: &str, payload: Value) -> (r: Result<RequestSpec, ZuoraError>)
        ensures
            match r {
                Ok(request) => self.state().request(
                    Method::Put,
                    path@,
                    Some(json_model(payload)),
                ) == Ok::<RequestSpecView, Failure>(request@),
                Err(e) => self.state().request(Method::Put, path@, Some(json_model(payload)))
                    == Err::<RequestSpecView, Failure>(e@),
            },
    ;

    /// The request that runs a query. The query string is carried as it is,
    /// as the one member of a JSON object.
    fn query(&self, query_string: &str) -> (r: Result<RequestSpec, ZuoraError>)
        ensures
            match r {
                Ok(request) => self.state().request(
                    Method::Post,
                    "/action/query"@,
                    Some(ZuoraView::query_document(query_string@)),
                ) == Ok::<RequestSpecView, Failure>(request@),
                Err(e) => self.state().request(
                    Method::Post,
                    "/action/query"@,
                    Some(ZuoraView::query_document(query_string@)),
                ) == Err::<RequestSpecView, Failure>(e@),
            },
    ;
}

impl Zuora {
    /// A client without a token.
    pub fn new(
        client_id: String,
        client_secret: String,
        domain: String,
        version: String,
        retry_attempts: usize,
    ) -> (r: Zuora)
        ensures
            r@ == (ZuoraView {
                client_id: client_id@,
                client_secret: client_secret@,
                domain: domain@,
                version: version@,
                policy: RetryPolicy {
                    max_attempts: retry_attempts,
                    base_delay: crate::retry::DEFAULT_BASE_DELAY,
                    max_delay: crate::retry::DEFAULT_MAX_DELAY,
                },
                tokens: TokenStoreView { token: None, refreshing: false },
            }),
    {
        Zuora {
            client_id,
            client_secret,
            domain,
            version,
            policy: RetryPolicy::new(retry_attempts),
            tokens: TokenStore::new(),
        }
    }

    /// The same client with other waits between attempts.
    pub fn with_backoff(self, base_delay: u64, max_delay: u64) -> (r: Zuora)
        ensures
            r@ == (ZuoraView {
                policy: RetryPolicy { base_delay, max_delay, ..self@.policy },
                ..self@
            }),
    {
        let policy = RetryPolicy {
            max_attempts: self.policy.max_attempts,
            base_delay,
            max_delay,
        };
        Zuora { policy, ..self }
    }

    pub fn domain(&self) -> (r: &str)
        ensures
            r@ == self@.domain,
    {
        self.domain.as_str()
    }

    pub fn version(&self) -> (r: &str)
        ensures
            r@ == self@.version,
    {
        self.version.as_str()
    }

    pub fn retry_attempts(&self) -> (r: usize)
        ensures
            r == self@.policy.max_attempts,
    {
        self.policy.max_attempts
    }

    pub fn policy(&self) -> (r: RetryPolicy)
        ensures
            r == self@.policy,
    {
        self.policy
    }

    /// The stored token, usable or not.
    pub fn token(&self) -> (r: Option<&AccessToken>)
        ensures
            match r {
                Some(t) => self@.tokens.token == Some(t@),
                None => self@.tokens.token is None,
            },
    {
        self.tokens.token()
    }

    /// Stores a token that was had elsewhere.
    pub fn set_token(&mut self, token: AccessToken)
        ensures
            final(self)@ == (ZuoraView {
                tokens: TokenStoreView { token: Some(token@), ..old(self)@.tokens },
                ..old(self)@
            }),
    {
        self.tokens.replace(token);
    }

    /// Tells a caller that needs a token at `now` what to do; see
    /// [`TokenStore::ensure_token`].
    pub fn ensure_token(&mut self, now: u64) -> (r: TokenDecision)
        ensures
            r == old(self)@.tokens.decision(now),
            final(self)@ == (ZuoraView { tokens: old(self)@.tokens.after_decision(now), ..old(self)@ }),
    {
        self.tokens.ensure_token(now)
    }

    /// Tells a caller that wants a new token in any case what to do; see
    /// [`TokenStore::force_refresh`].
    pub fn force_refresh(&mut self) -> (r: TokenDecision)
        ensures
            r == old(self)@.tokens.forced_decision(),
            final(self)@ == (ZuoraView {
                tokens: TokenStoreView { refreshing: true, ..old(self)@.tokens },
                ..old(self)@
            }),
    {
        self.tokens.force_refresh()
    }

    /// Ends an acquisition that brought no token.
    pub fn abandon_refresh(&mut self)
        ensures
            final(self)@ == (ZuoraView {
                tokens: TokenStoreView { refreshing: false, ..old(self)@.tokens },
                ..old(self)@
            }),
    {
        self.tokens.abandon();
    }

    /// Discards the stored token, as after the service has refused it.
    pub fn invalidate_token(&mut self)
        ensures
            final(self)@ == (ZuoraView {
                tokens: TokenStoreView { token: None, ..old(self)@.tokens },
                ..old(self)@
            }),
    {
        self.tokens.invalidate();
    }

    /// The request for a resource, with or without a payload.
    pub fn build(&self, method: Method, path: &str, payload: Option<&Value>) -> (r: Result<
        RequestSpec,
        ZuoraError,
    >)
        ensures
            match r {
                Ok(request) => self@.request(
                    method,
                    path@,
                    match payload {
                        Some(v) => Some(json_model(*v)),
                        None => None,
                    },
                ) == Ok::<RequestSpecView, Failure>(request@),
                Err(e) => self@.request(
                    method,
                    path@,
                    match payload {
                        Some(v) => Some(json_model(*v)),
                        None => None,
                    },
                ) == Err::<RequestSpecView, Failure>(e@),
            },
    {
        let mut headers = match self.construct_headers() {
            Ok(headers) => headers,
            Err(e) => { return Err(e); },
        };
        let mut url = self.endpoint();
        url.append(path);
        match payload {
            None => Ok(RequestSpec { method, url, headers, payload: Payload::Empty }),
            Some(v) => {
                let text = match render_json(v) {
                    Ok(text) => text,
                    Err(_) => { return Err(ZuoraError::Serialization); },
                };
                proof {
                    reveal_strlit("application/json");
                    printable_text_is_header_text("application/json"@);
                }
                let kind = header_value("application/json").unwrap();
                insert_header(&mut headers, content_type(), kind);
                Ok(RequestSpec { method, url, headers, payload: Payload::Json(text) })
            },
        }
    }

    /// The request that asks the token endpoint for a token: the client's
    /// identifier and secret and the grant type, form-encoded, with no
    /// authentication.
    pub fn token_request(&self) -> (r: RequestSpec)
        ensures
            r@ == self@.token_request(),
    {
        let mut url = self.domain.clone();
        url.append("/oauth/token");
        let mut pairs: Vec<(String, String)> = Vec::new();
        pairs.push(("client_id".to_owned(), self.client_id.clone()));
        pairs.push(("client_secret".to_owned(), self.client_secret.clone()));
        pairs.push(("grant_type".to_owned(), "client_credentials".to_owned()));
        let r = RequestSpec {
            method: Method::Post,
            url,
            headers: new_header_map(),
            payload: Payload::Form(pairs),
        };
        proof {
            assert(r.payload@->Form_0 =~= self@.token_request().payload->Form_0);
        }
        r
    }
}

impl ZuoraTrait for Zuora {
    open spec fn state(&self) -> ZuoraView {
        self@
    }

    fn endpoint(&self) -> (r: String) {
        let mut r = self.domain.clone();
        r.append(self.version.as_str());
        r
    }

    fn construct_headers(&self) -> (r: Result<HeaderMap, ZuoraError>) {
        let mut headers = new_header_map();
        match self.tokens.token() {
            Some(token) => {
                let mut bearer = "Bearer ".to_owned();
                bearer.append(token.access_token());
                match header_value(bearer.as_str()) {
                    Ok(value) => {
                        insert_header(&mut headers, authorization(), value);
                    },
                    Err(_) => {
                        return Err(ZuoraError::auth(ZuoraError::Serialization));
                    },
                }
            },
            None => {},
        }
        Ok(headers)
    }

    fn generate_token(&mut self, status: u16, body: &str, now: u64) -> (r: Result<(), ZuoraError>) {
        match decode_as::<Grant>(status, body) {
            Ok(grant) => {
                self.tokens.complete(AccessToken::new(grant, now));
                Ok(())
            },
            Err(e) => {
                self.tokens.abandon();
                Err(ZuoraError::auth(e))
            },
        }
    }

    fn get(&self, path: &str, payload: Value) -> (r: Result<RequestSpec, ZuoraError>) {
        self.build(Method::Get, path, Some(&payload))
    }

    fn post(&self, path: &str, payload: Value) -> (r: Result<RequestSpec, ZuoraError>) {
        self.build(Method::Post, path, Some(&payload))
    }

    fn put(&self, path: &str, payload: Value) -> (r: Result<RequestSpec, ZuoraError>) {
        self.build(Method::Put, path, Some(&payload))
    }

    fn query(&self, query_string: &str) -> (r: Result<RequestSpec, ZuoraError>) {
        let payload = json_object("queryString", json_string(query_string));
        self.build(Method::Post, "/action/query", Some(&payload))
    }
}

} // verus!
