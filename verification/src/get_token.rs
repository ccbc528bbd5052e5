//! The acquisition of an access token in three steps: a request token is
//! asked for, the user grants access in a browser, and the request token is
//! exchanged for an access token once the provider has redirected the browser
//! to the loopback endpoint.
//!
//! The flow decides; it performs nothing. Whoever drives it binds the
//! endpoint, sends the requests, shows the URL and waits, and tells the flow
//! what happened. Each event yields the next state and what to do next.

use crate::callback::{callback_url, callback_url_text, CallbackQuery, CallbackQueryText};
use crate::canonical::ParamText;
use crate::form::{
    form_pairs, form_parse, occurrences, url_text, value_of, write_url, written_url,
};
use crate::oauth::{
    grants_token, lemma_signed_parameters_hold, make_nonce, names_problem, nonce_text,
    protocol_parameters, random_number, sign_request, signed_parameters, unix_seconds, ApiKey,
    ApiKeyText, OauthAccessAnswer, OauthTokenAnswer, RequestTarget, Token, TokenText,
};
use crate::signature::{base64_text, hmac_sha1_digest, signature_base_string, signing_key};
use crate::text::{decimal, same_text};
use crate::{URL_ACCESS, URL_AUTHORIZE, URL_REQUEST};
use vstd::prelude::*;
use vstd::string::StringExecFns;

verus! {

/// The access that the user is asked to grant.
pub const PERMISSION: &'static str = "write";

/// Why a flow failed.
#[derive(Debug)]
pub enum FlowError {
    /// A request could not be written, or an answer held neither a grant
    /// nor a problem.
    EncodingError,
    /// The loopback endpoint could not be bound.
    PortUnavailable,
    /// No redirect came within the time allowed.
    AuthorizationTimeout,
    /// The provider refused, and named this problem.
    ProviderRejected(String),
    /// The provider could not be reached.
    TransportError,
    /// The redirect echoed another token than the one in flight.
    CallbackMismatch,
    /// The caller gave the attempt up.
    Cancelled,
}

/// A failure as text.
pub enum FlowErrorText {
    EncodingError,
    PortUnavailable,
    AuthorizationTimeout,
    ProviderRejected(Seq<char>),
    TransportError,
    CallbackMismatch,
    Cancelled,
}

impl View for FlowError {
    type V = FlowErrorText;

    open spec fn view(&self) -> FlowErrorText {
        match self {
            FlowError::EncodingError => FlowErrorText::EncodingError,
            FlowError::PortUnavailable => FlowErrorText::PortUnavailable,
            FlowError::AuthorizationTimeout => FlowErrorText::AuthorizationTimeout,
            FlowError::ProviderRejected(problem) => FlowErrorText::ProviderRejected(problem@),
            FlowError::TransportError => FlowErrorText::TransportError,
            FlowError::CallbackMismatch => FlowErrorText::CallbackMismatch,
            FlowError::Cancelled => FlowErrorText::Cancelled,
        }
    }
}

impl Clone for FlowError {
    fn clone(&self) -> (r: Self)
        ensures
            r@ == self@,
    {
        match self {
            FlowError::EncodingError => FlowError::EncodingError,
            FlowError::PortUnavailable => FlowError::PortUnavailable,
            FlowError::AuthorizationTimeout => FlowError::AuthorizationTimeout,
            FlowError::ProviderRejected(problem) => FlowError::ProviderRejected(problem.clone()),
            FlowError::TransportError => FlowError::TransportError,
            FlowError::CallbackMismatch => FlowError::CallbackMismatch,
            FlowError::Cancelled => FlowError::Cancelled,
        }
    }
}

/// The line of text that describes a failure. The provider's problem is
/// given word for word.
pub open spec fn failure_text(error: FlowErrorText) -> Seq<char> {
    match error {
        FlowErrorText::EncodingError => "a request or an answer could not be encoded"@,
        FlowErrorText::PortUnavailable => "the callback port is unavailable"@,
        FlowErrorText::AuthorizationTimeout => "no authorization arrived in time"@,
        FlowErrorText::ProviderRejected(problem) => "the provider rejected the request: "@
            + problem,
        FlowErrorText::TransportError => "the provider could not be reached"@,
        FlowErrorText::CallbackMismatch => "the callback echoed another token"@,
        FlowErrorText::Cancelled => "the attempt was cancelled"@,
    }
}

impl FlowError {
    /// The failure as one line of text.
    pub fn to_text(&self) -> (line: String)
        ensures
            line@ == failure_text(self@),
    {
        match self {
            FlowError::EncodingError => String::from_str(
                "a request or an answer could not be encoded",
            ),
            FlowError::PortUnavailable => String::from_str("the callback port is unavailable"),
            FlowError::AuthorizationTimeout => String::from_str("no authorization arrived in time"),
            FlowError::ProviderRejected(problem) => {
                let mut line = String::from_str("the provider rejected the request: ");
                line.append(problem.as_str());
                line
            },
            FlowError::TransportError => String::from_str("the provider could not be reached"),
            FlowError::CallbackMismatch => String::from_str("the callback echoed another token"),
            FlowError::Cancelled => String::from_str("the attempt was cancelled"),
        }
    }
}

/// Where a flow stands.
#[derive(Debug)]
pub enum FlowState {
    /// Nothing was done yet; the endpoint is to be bound.
    Idle,
    /// The request for a request token was handed out.
    AwaitingRequestToken,
    /// The request token is here; the authorization URL was handed out.
    AwaitingUserAuthorization { request_token: Token },
    /// The user was shown the URL; the redirect is awaited.
    AwaitingCallback { request_token: Token },
    /// The redirect came; the exchange was handed out.
    ExchangingAccessToken { request_token: Token },
    /// The access token is here.
    Complete { access_token: Token },
    /// The flow failed.
    Failed { error: FlowError },
}

/// A state as text.
pub enum FlowStateText {
    Idle,
    AwaitingRequestToken,
    AwaitingUserAuthorization { request_token: TokenText },
    AwaitingCallback { request_token: TokenText },
    ExchangingAccessToken { request_token: TokenText },
    Complete { access_token: TokenText },
    Failed { error: FlowErrorText },
}

impl View for FlowState {
    type V = FlowStateText;

    open spec fn view(&self) -> FlowStateText {
        match self {
            FlowState::Idle => FlowStateText::Idle,
            FlowState::AwaitingRequestToken => FlowStateText::AwaitingRequestToken,
            FlowState::AwaitingUserAuthorization { request_token } => {
                FlowStateText::AwaitingUserAuthorization { request_token: request_token@ }
            },
            FlowState::AwaitingCallback { request_token } => FlowStateText::AwaitingCallback {
                request_token: request_token@,
            },
            FlowState::ExchangingAccessToken { request_token } => {
                FlowStateText::ExchangingAccessToken { request_token: request_token@ }
            },
            FlowState::Complete { access_token } => FlowStateText::Complete {
                access_token: access_token@,
            },
            FlowState::Failed { error } => FlowStateText::Failed { error: error@ },
        }
    }
}

impl Clone for FlowState {
    fn clone(&self) -> (r: Self)
        ensures
            r@ == self@,
    {
        match self {
            FlowState::Idle => FlowState::Idle,
            FlowState::AwaitingRequestToken => FlowState::AwaitingRequestToken,
            FlowState::AwaitingUserAuthorization { request_token } => {
                FlowState::AwaitingUserAuthorization { request_token: request_token.clone() }
            },
            FlowState::AwaitingCallback { request_token } => FlowState::AwaitingCallback {
                request_token: request_token.clone(),
            },
            FlowState::ExchangingAccessToken { request_token } => {
                FlowState::ExchangingAccessToken { request_token: request_token.clone() }
            },
            FlowState::Complete { access_token } => FlowState::Complete {
                access_token: access_token.clone(),
            },
            FlowState::Failed { error } => FlowState::Failed { error: error.clone() },
        }
    }
}

/// What happened outside the flow.
#[derive(Debug)]
pub enum FlowEvent {
    /// The endpoint is bound to this port.
    ListenerStarted { port: u32 },
    /// The endpoint could not be bound.
    ListenerFailed,
    /// The provider answered the request handed out last with this body.
    Response { body: String },
    /// The request handed out last did not reach the provider.
    TransportFailed,
    /// The authorization URL was shown to the user.
    AuthorizationPresented,
    /// The endpoint handed over the payload of a redirect.
    Callback { payload: CallbackQuery },
    /// The time allowed for the redirect ran out.
    TimedOut,
    /// The caller gives the attempt up. A flow that has ended takes no
    /// notice, as of every event.
    Cancelled,
}

/// An event as text.
pub enum FlowEventText {
    ListenerStarted { port: u32 },
    ListenerFailed,
    Response { body: Seq<char> },
    TransportFailed,
    AuthorizationPresented,
    Callback { payload: CallbackQueryText },
    TimedOut,
    Cancelled,
}

impl View for FlowEvent {
    type V = FlowEventText;

    open spec fn view(&self) -> FlowEventText {
        match self {
            FlowEvent::ListenerStarted { port } => FlowEventText::ListenerStarted { port: *port },
            FlowEvent::ListenerFailed => FlowEventText::ListenerFailed,
            FlowEvent::Response { body } => FlowEventText::Response { body: body@ },
            FlowEvent::TransportFailed => FlowEventText::TransportFailed,
            FlowEvent::AuthorizationPresented => FlowEventText::AuthorizationPresented,
            FlowEvent::Callback { payload } => FlowEventText::Callback { payload: payload@ },
            FlowEvent::TimedOut => FlowEventText::TimedOut,
            FlowEvent::Cancelled => FlowEventText::Cancelled,
        }
    }
}

/// What is to be done next.
#[derive(Debug)]
pub enum FlowAction {
    /// Send a GET request to this URL and report the answer.
    SendRequest { url: String },
    /// Show this URL to the user, then report that it was shown.
    PresentAuthorization { url: String },
    /// Wait for the endpoint's payload, for this many seconds at most.
    AwaitCallback { timeout_seconds: u64 },
    /// The flow has ended, in `Complete` or in `Failed`: stop the endpoint
    /// and release its port.
    Finish,
    /// The event does not fit the state: nothing changed, nothing to do.
    Ignore,
}

/// An action as text.
pub enum FlowActionText {
    SendRequest { url: Seq<char> },
    PresentAuthorization { url: Seq<char> },
    AwaitCallback { timeout_seconds: u64 },
    Finish,
    Ignore,
}

impl View for FlowAction {
    type V = FlowActionText;

    open spec fn view(&self) -> FlowActionText {
        match self {
            FlowAction::SendRequest { url } => FlowActionText::SendRequest { url: url@ },
            FlowAction::PresentAuthorization { url } => FlowActionText::PresentAuthorization {
                url: url@,
            },
            FlowAction::AwaitCallback { timeout_seconds } => FlowActionText::AwaitCallback {
                timeout_seconds: *timeout_seconds,
            },
            FlowAction::Finish => FlowActionText::Finish,
            FlowAction::Ignore => FlowActionText::Ignore,
        }
    }
}

/// The URL of the signed request for a request token, which names the
/// endpoint on `port` as the callback.
pub open spec fn request_token_call(
    api: ApiKeyText,
    port: u32,
    timestamp: Seq<char>,
    nonce: Seq<char>,
) -> Option<Seq<char>> {
    written_url(
        URL_REQUEST@,
        signed_parameters(
            "GET"@,
            URL_REQUEST@,
            seq![("oauth_callback"@, callback_url_text(port))],
            api,
            None,
            timestamp,
            nonce,
        ),
    )
}

/// The URL on which the user grants access to the holder of a request token.
pub open spec fn authorization_call(request_token: Seq<char>) -> Option<Seq<char>> {
    written_url(URL_AUTHORIZE@, seq![("oauth_token"@, request_token), ("perms"@, PERMISSION@)])
}

/// The signed parameters of the request that exchanges a request token and
/// a verifier for an access token: the verifier is the caller's parameter,
/// and the request token is the token of the request.
pub open spec fn exchange_parameters(
    api: ApiKeyText,
    request_token: TokenText,
    verifier: Seq<char>,
    timestamp: Seq<char>,
    nonce: Seq<char>,
) -> Seq<ParamText> {
    signed_parameters(
        "GET"@,
        URL_ACCESS@,
        seq![("oauth_verifier"@, verifier)],
        api,
        Some(request_token),
        timestamp,
        nonce,
    )
}

/// The URL of the signed request that exchanges a request token and a
/// verifier for an access token.
pub open spec fn access_token_call(
    api: ApiKeyText,
    request_token: TokenText,
    verifier: Seq<char>,
    timestamp: Seq<char>,
    nonce: Seq<char>,
) -> Option<Seq<char>> {
    written_url(URL_ACCESS@, exchange_parameters(api, request_token, verifier, timestamp, nonce))
}

/// The failure of a flow, with the action that ends it.
pub open spec fn failed(error: FlowErrorText) -> (FlowStateText, FlowActionText) {
    (FlowStateText::Failed { error }, FlowActionText::Finish)
}

/// The token that an answer grants.
pub open spec fn granted_token(pairs: Seq<ParamText>) -> TokenText {
    TokenText {
        token: value_of(pairs, "oauth_token"@),
        secret: value_of(pairs, "oauth_token_secret"@),
    }
}

/// What follows the answer to the request for a request token.
pub open spec fn after_request_token_answer(pairs: Seq<ParamText>) -> (
    FlowStateText,
    FlowActionText,
) {
    if grants_token(pairs) {
        match authorization_call(granted_token(pairs).token) {
            Some(url) => (
                FlowStateText::AwaitingUserAuthorization { request_token: granted_token(pairs) },
                FlowActionText::PresentAuthorization { url },
            ),
            None => failed(FlowErrorText::EncodingError),
        }
    } else if names_problem(pairs) {
        failed(FlowErrorText::ProviderRejected(value_of(pairs, "oauth_problem"@)))
    } else {
        failed(FlowErrorText::EncodingError)
    }
}

/// What follows the answer to the exchange.
pub open spec fn after_access_token_answer(pairs: Seq<ParamText>) -> (
    FlowStateText,
    FlowActionText,
) {
    if grants_token(pairs) {
        (FlowStateText::Complete { access_token: granted_token(pairs) }, FlowActionText::Finish)
    } else if names_problem(pairs) {
        failed(FlowErrorText::ProviderRejected(value_of(pairs, "oauth_problem"@)))
    } else {
        failed(FlowErrorText::EncodingError)
    }
}

/// What follows a redirect: the exchange, if the redirect echoes the request
/// token in flight.
pub open spec fn after_callback(
    api: ApiKeyText,
    request_token: TokenText,
    payload: CallbackQueryText,
    timestamp: Seq<char>,
    nonce: Seq<char>,
) -> (FlowStateText, FlowActionText) {
    if payload.oauth_token != request_token.token {
        failed(FlowErrorText::CallbackMismatch)
    } else {
        match access_token_call(api, request_token, payload.oauth_verifier, timestamp, nonce) {
            Some(url) => (
                FlowStateText::ExchangingAccessToken { request_token },
                FlowActionText::SendRequest { url },
            ),
            None => failed(FlowErrorText::EncodingError),
        }
    }
}

/// Whether a flow has ended.
pub open spec fn is_terminal(state: FlowStateText) -> bool {
    state is Complete || state is Failed
}

/// One step of a flow: the state and the action that follow an event. A
/// request that is signed in this step carries the given timestamp and nonce.
pub open spec fn step(
    api: ApiKeyText,
    timeout_seconds: u64,
    state: FlowStateText,
    event: FlowEventText,
    timestamp: Seq<char>,
    nonce: Seq<char>,
) -> (FlowStateText, FlowActionText) {
    if is_terminal(state) {
        (state, FlowActionText::Ignore)
    } else if event is Cancelled {
        failed(FlowErrorText::Cancelled)
    } else {
        match state {
            FlowStateText::Idle => match event {
                FlowEventText::ListenerStarted { port } => match request_token_call(
                    api,
                    port,
                    timestamp,
                    nonce,
                ) {
                    Some(url) => (
                        FlowStateText::AwaitingRequestToken,
                        FlowActionText::SendRequest { url },
                    ),
                    None => failed(FlowErrorText::EncodingError),
                },
                FlowEventText::ListenerFailed => failed(FlowErrorText::PortUnavailable),
                _ => (state, FlowActionText::Ignore),
            },
            FlowStateText::AwaitingRequestToken => match event {
                FlowEventText::Response { body } => after_request_token_answer(form_pairs(body)),
                FlowEventText::TransportFailed => failed(FlowErrorText::TransportError),
                _ => (state, FlowActionText::Ignore),
            },
            FlowStateText::AwaitingUserAuthorization { request_token } => match event {
                FlowEventText::AuthorizationPresented => (
                    FlowStateText::AwaitingCallback { request_token },
                    FlowActionText::AwaitCallback { timeout_seconds },
                ),
                _ => (state, FlowActionText::Ignore),
            },
            FlowStateText::AwaitingCallback { request_token } => match event {
                FlowEventText::Callback { payload } => after_callback(
                    api,
                    request_token,
                    payload,
                    timestamp,
                    nonce,
                ),
                FlowEventText::TimedOut => failed(FlowErrorText::AuthorizationTimeout),
                _ => (state, FlowActionText::Ignore),
            },
            FlowStateText::ExchangingAccessToken { request_token } => match event {
                FlowEventText::Response { body } => after_access_token_answer(form_pairs(body)),
                FlowEventText::TransportFailed => failed(FlowErrorText::TransportError),
                _ => (state, FlowActionText::Ignore),
            },
            _ => (state, FlowActionText::Ignore),
        }
    }
}

/// The URL of the signed request for a request token; nothing where it
/// cannot be written.
pub fn request_token_url(api: &ApiKey, port: u32, timestamp: u64, nonce: &str) -> (url: Option<
    String,
>)
    ensures
        url_text(url) == request_token_call(api@, port, decimal(timestamp as nat), nonce@),
{
    let mut params: Vec<(&'static str, String)> = Vec::new();
    params.push(("oauth_callback", callback_url(port)));
    proof {
        assert(params.deep_view() =~= seq![("oauth_callback"@, callback_url_text(port))]);
    }
    sign_request(&RequestTarget::Get(URL_REQUEST), &mut params, api, None, timestamp, nonce);
    write_url(URL_REQUEST, &params)
}

/// The URL on which the user grants access; nothing where it cannot be
/// written.
pub fn authorization_url(request_token: &Token) -> (url: Option<String>)
    ensures
        url_text(url) == authorization_call(request_token@.token),
{
    let mut params: Vec<(&'static str, String)> = Vec::new();
    params.push(("oauth_token", request_token.token.clone()));
    params.push(("perms", String::from_str(PERMISSION)));
    proof {
        assert(params.deep_view() =~= seq![
            ("oauth_token"@, request_token@.token),
            ("perms"@, PERMISSION@),
        ]);
    }
    write_url(URL_AUTHORIZE, &params)
}

/// The URL of the signed exchange of a request token and a verifier for an
/// access token; nothing where it cannot be written.
pub fn access_token_url(
    api: &ApiKey,
    request_token: &Token,
    verifier: &str,
    timestamp: u64,
    nonce: &str,
) -> (url: Option<String>)
    ensures
        url_text(url) == access_token_call(
            api@,
            request_token@,
            verifier@,
            decimal(timestamp as nat),
            nonce@,
        ),
{
    let mut params: Vec<(&'static str, String)> = Vec::new();
    params.push(("oauth_verifier", String::from_str(verifier)));
    proof {
        assert(params.deep_view() =~= seq![("oauth_verifier"@, verifier@)]);
    }
    sign_request(
        &RequestTarget::Get(URL_ACCESS),
        &mut params,
        api,
        Some(request_token),
        timestamp,
        nonce,
    );
    write_url(URL_ACCESS, &params)
}

/// The step that ends the flow with a failure.
fn fail(error: FlowError) -> (r: (FlowState, FlowAction))
    ensures
        (r.0@, r.1@) == failed(error@),
{
    (FlowState::Failed { error }, FlowAction::Finish)
}

/// The step that hands out a request: to the next state with the request's
/// URL, or to the failure where the URL could not be written.
pub fn send_or_fail(url: Option<String>, next: FlowState) -> (r: (FlowState, FlowAction))
    ensures
        (r.0@, r.1@) == match url_text(url) {
            Some(text) => (next@, FlowActionText::SendRequest { url: text }),
            None => failed(FlowErrorText::EncodingError),
        },
{
    match url {
        Some(url) => (next, FlowAction::SendRequest { url }),
        None => fail(FlowError::EncodingError),
    }
}

/// What follows the answer to the request for a request token, given the
/// pairs that the answer holds: the user's authorization where they grant a
/// token, else the failure.
pub fn on_request_token_pairs(pairs: &Vec<(String, String)>) -> (r: (FlowState, FlowAction))
    ensures
        (r.0@, r.1@) == after_request_token_answer(pairs.deep_view()),
{
    match OauthTokenAnswer::from_pairs(pairs) {
        Some(OauthTokenAnswer::Success(granted)) => {
            let request_token = Token {
                token: granted.oauth_token,
                secret: granted.oauth_token_secret,
            };
            match authorization_url(&request_token) {
                Some(url) => (
                    FlowState::AwaitingUserAuthorization { request_token },
                    FlowAction::PresentAuthorization { url },
                ),
                None => fail(FlowError::EncodingError),
            }
        },
        Some(OauthTokenAnswer::Failure(problem)) => fail(
            FlowError::ProviderRejected(problem.oauth_problem),
        ),
        None => fail(FlowError::EncodingError),
    }
}

/// What follows the answer to the request for a request token.
pub fn on_request_token_answer(body: &str) -> (r: (FlowState, FlowAction))
    ensures
        (r.0@, r.1@) == after_request_token_answer(form_pairs(body@)),
{
    let pairs = form_parse(body);
    on_request_token_pairs(&pairs)
}

/// What follows the answer to the exchange, given the pairs that the answer
/// holds: the end of the flow with the access token where they grant one,
/// else the failure.
pub fn on_access_token_pairs(pairs: &Vec<(String, String)>) -> (r: (FlowState, FlowAction))
    ensures
        (r.0@, r.1@) == after_access_token_answer(pairs.deep_view()),
{
    match OauthAccessAnswer::from_pairs(pairs) {
        Some(OauthAccessAnswer::Success(granted)) => (
            FlowState::Complete {
                access_token: Token {
                    token: granted.oauth_token,
                    secret: granted.oauth_token_secret,
                },
            },
            FlowAction::Finish,
        ),
        Some(OauthAccessAnswer::Failure(problem)) => fail(
            FlowError::ProviderRejected(problem.oauth_problem),
        ),
        None => fail(FlowError::EncodingError),
    }
}

/// What follows the answer to the exchange.
pub fn on_access_token_answer(body: &str) -> (r: (FlowState, FlowAction))
    ensures
        (r.0@, r.1@) == after_access_token_answer(form_pairs(body@)),
{
    let pairs = form_parse(body);
    on_access_token_pairs(&pairs)
}

/// What follows a redirect.
pub fn on_callback(
    api: &ApiKey,
    request_token: &Token,
    payload: &CallbackQuery,
    timestamp: u64,
    nonce: &str,
) -> (r: (FlowState, FlowAction))
    ensures
        (r.0@, r.1@) == after_callback(
            api@,
            request_token@,
            payload@,
            decimal(timestamp as nat),
            nonce@,
        ),
{
    if !same_text(payload.oauth_token.as_str(), request_token.token.as_str()) {
        fail(FlowError::CallbackMismatch)
    } else {
        let url = access_token_url(
            api,
            request_token,
            payload.oauth_verifier.as_str(),
            timestamp,
            nonce,
        );
        send_or_fail(url, FlowState::ExchangingAccessToken { request_token: request_token.clone() })
    }
}

/// One attempt to acquire an access token.
#[derive(Debug)]
pub struct TokenExchangeFlow {
    api: ApiKey,
    timeout_seconds: u64,
    state: FlowState,
}

/// A flow as text.
pub struct FlowText {
    pub api: ApiKeyText,
    pub timeout_seconds: u64,
    pub state: FlowStateText,
}

impl View for TokenExchangeFlow {
    type V = FlowText;

    closed spec fn view(&self) -> FlowText {
        FlowText { api: self.api@, timeout_seconds: self.timeout_seconds, state: self.state@ }
    }
}

impl TokenExchangeFlow {
    /// A new attempt for a consumer, which waits for the redirect for
    /// `timeout_seconds` at most. It is idle: the endpoint is to be bound
    /// next, and the flow told of it.
    pub fn new(api: ApiKey, timeout_seconds: u64) -> (flow: Self)
        ensures
            flow@ == (FlowText { api: api@, timeout_seconds, state: FlowStateText::Idle }),
    {
        TokenExchangeFlow { api, timeout_seconds, state: FlowState::Idle }
    }

    /// Where the flow stands.
    pub fn state(&self) -> (state: &FlowState)
        ensures
            state@ == self@.state,
    {
        &self.state
    }

    /// The access token, once the flow is complete.
    pub fn access_token(&self) -> (token: Option<Token>)
        ensures
            match token {
                Some(t) => self@.state == (FlowStateText::Complete { access_token: t@ }),
                None => !(self@.state is Complete),
            },
    {
        match &self.state {
            FlowState::Complete { access_token } => Some(access_token.clone()),
            _ => None,
        }
    }

    /// The failure, once the flow has failed.
    pub fn failure(&self) -> (error: Option<FlowError>)
        ensures
            match error {
                Some(e) => self@.state == (FlowStateText::Failed { error: e@ }),
                None => !(self@.state is Failed),
            },
    {
        match &self.state {
            FlowState::Failed { error } => Some(error.clone()),
            _ => None,
        }
    }

    /// Takes one event, with the timestamp and the nonce for a request that
    /// this step may sign: the flow moves to the next state, and the action
    /// says what is to be done.
    pub fn advance_with(&mut self, event: FlowEvent, timestamp: u64, nonce: &str) -> (action:
        FlowAction)
        ensures
            final(self)@.api == old(self)@.api,
            final(self)@.timeout_seconds == old(self)@.timeout_seconds,
            (final(self)@.state, action@) == step(
                old(self)@.api,
                old(self)@.timeout_seconds,
                old(self)@.state,
                event@,
                decimal(timestamp as nat),
                nonce@,
            ),
    {
        let (next, action) = self.decide(event, timestamp, nonce);
        match next {
            Some(state) => {
                self.state = state;
            },
            None => {},
        }
        action
    }

    /// Takes one event: reads the clock and draws a nonce, and takes the
    /// step with them. Whatever the clock and the generator gave, the step is
    /// the one for that second and those two numbers. A clock that stands
    /// before the epoch counts as second 0.
    pub fn advance(&mut self, event: FlowEvent) -> (action: FlowAction)
        ensures
            final(self)@.api == old(self)@.api,
            final(self)@.timeout_seconds == old(self)@.timeout_seconds,
            exists|seconds: u64, high: u64, low: u64|
                (final(self)@.state, action@) == #[trigger] step_at(
                    old(self)@,
                    event@,
                    seconds,
                    high,
                    low,
                ),
    {
        let seconds: u64 = unix_seconds();
        let high = random_number();
        let low = random_number();
        let nonce = make_nonce(high, low);
        let ghost before = self@;
        let ghost happened = event@;
        let action = self.advance_with(event, seconds, nonce.as_str());
        proof {
            assert((self@.state, action@) == step_at(before, happened, seconds, high, low));
        }
        action
    }

    /// The action that an event yields, and the next state where the state
    /// changes.
    fn decide(&self, event: FlowEvent, timestamp: u64, nonce: &str) -> (r: (
        Option<FlowState>,
        FlowAction,
    ))
        ensures
            (
                match r.0 {
                    Some(state) => state@,
                    None => self@.state,
                },
                r.1@,
            ) == step(
                self@.api,
                self@.timeout_seconds,
                self@.state,
                event@,
                decimal(timestamp as nat),
                nonce@,
            ),
    {
        match &self.state {
            FlowState::Complete { .. } => {
                return (None, FlowAction::Ignore);
            },
            FlowState::Failed { .. } => {
                return (None, FlowAction::Ignore);
            },
            _ => {},
        }
        match event {
            FlowEvent::Cancelled => {
                let (state, action) = fail(FlowError::Cancelled);
                return (Some(state), action);
            },
            _ => {},
        }
        let (state, action) = match &self.state {
            FlowState::Idle => match event {
                FlowEvent::ListenerStarted { port } => {
                    let url = request_token_url(&self.api, port, timestamp, nonce);
                    send_or_fail(url, FlowState::AwaitingRequestToken)
                },
                FlowEvent::ListenerFailed => fail(FlowError::PortUnavailable),
                _ => {
                    return (None, FlowAction::Ignore);
                },
            },
            FlowState::AwaitingRequestToken => match event {
                FlowEvent::Response { body } => on_request_token_answer(body.as_str()),
                FlowEvent::TransportFailed => fail(FlowError::TransportError),
                _ => {
                    return (None, FlowAction::Ignore);
                },
            },
            FlowState::AwaitingUserAuthorization { request_token } => match event {
                FlowEvent::AuthorizationPresented => (
                    FlowState::AwaitingCallback { request_token: request_token.clone() },
                    FlowAction::AwaitCallback { timeout_seconds: self.timeout_seconds },
                ),
                _ => {
                    return (None, FlowAction::Ignore);
                },
            },
            FlowState::AwaitingCallback { request_token } => match event {
                FlowEvent::Callback { payload } => on_callback(
                    &self.api,
                    request_token,
                    &payload,
                    timestamp,
                    nonce,
                ),
                FlowEvent::TimedOut => fail(FlowError::AuthorizationTimeout),
                _ => {
                    return (None, FlowAction::Ignore);
                },
            },
            FlowState::ExchangingAccessToken { request_token: _ } => match event {
                FlowEvent::Response { body } => on_access_token_answer(body.as_str()),
                FlowEvent::TransportFailed => fail(FlowError::TransportError),
                _ => {
                    return (None, FlowAction::Ignore);
                },
            },
            _ => {
                return (None, FlowAction::Ignore);
            },
        };
        (Some(state), action)
    }
}

/// The step of a flow at `seconds` after the epoch, with the nonce of two
/// random numbers.
pub open spec fn step_at(
    flow: FlowText,
    event: FlowEventText,
    seconds: u64,
    high: u64,
    low: u64,
) -> (FlowStateText, FlowActionText) {
    step(
        flow.api,
        flow.timeout_seconds,
        flow.state,
        event,
        decimal(seconds as nat),
        nonce_text(high, low),
    )
}

/// An event together with the timestamp and the nonce of its step.
pub struct FlowInput {
    pub event: FlowEventText,
    pub timestamp: Seq<char>,
    pub nonce: Seq<char>,
}

/// The state of a flow that started in `start` and took the given inputs,
/// one after the other.
pub open spec fn state_after(
    api: ApiKeyText,
    timeout_seconds: u64,
    start: FlowStateText,
    inputs: Seq<FlowInput>,
) -> FlowStateText
    decreases inputs.len(),
{
    if inputs.len() == 0 {
        start
    } else {
        step(
            api,
            timeout_seconds,
            state_after(api, timeout_seconds, start, inputs.drop_last()),
            inputs.last().event,
            inputs.last().timestamp,
            inputs.last().nonce,
        ).0
    }
}

/// The action that the input at `index` yields in a flow that started in
/// `start`.
pub open spec fn action_at(
    api: ApiKeyText,
    timeout_seconds: u64,
    start: FlowStateText,
    inputs: Seq<FlowInput>,
    index: int,
) -> FlowActionText {
    step(
        api,
        timeout_seconds,
        state_after(api, timeout_seconds, start, inputs.take(index)),
        inputs[index].event,
        inputs[index].timestamp,
        inputs[index].nonce,
    ).1
}

/// Whether a state lies before the exchange: no redirect was taken yet.
pub open spec fn before_exchange(state: FlowStateText) -> bool {
    state is Idle || state is AwaitingRequestToken || state is AwaitingUserAuthorization
        || state is AwaitingCallback
}

/// The exchange is handed out by one kind of step only: a redirect that
/// arrives while the flow awaits it, and that echoes the request token in
/// flight. No other step enters the exchange, and none sends a request
/// from a state in which a request token is held.
pub proof fn lemma_exchange_needs_callback(
    api: ApiKeyText,
    timeout_seconds: u64,
    state: FlowStateText,
    event: FlowEventText,
    timestamp: Seq<char>,
    nonce: Seq<char>,
)
    ensures
        ({
            let next = step(api, timeout_seconds, state, event, timestamp, nonce);
            &&& (next.0 is ExchangingAccessToken && !(state is ExchangingAccessToken)) ==> (state
                matches FlowStateText::AwaitingCallback { request_token } && event
                matches FlowEventText::Callback { payload } && payload.oauth_token
                == request_token.token && next.1 == (FlowActionText::SendRequest {
                url: access_token_call(
                    api,
                    request_token,
                    payload.oauth_verifier,
                    timestamp,
                    nonce,
                )->0,
            }))
            &&& (next.1 is SendRequest && !(state is Idle)) ==> (state is AwaitingCallback
                && event is Callback && next.0 is ExchangingAccessToken)
            &&& (next.0 is Complete && !(state is Complete)) ==> state is ExchangingAccessToken
        }),
{
}

/// A flow that was handed no redirect has not handed out the exchange: it
/// stands before the exchange, or it has failed.
pub proof fn lemma_no_exchange_before_callback(
    api: ApiKeyText,
    timeout_seconds: u64,
    inputs: Seq<FlowInput>,
)
    requires
        forall|i: int| 0 <= i < inputs.len() ==> !(#[trigger] inputs[i].event is Callback),
    ensures
        ({
            let state = state_after(api, timeout_seconds, FlowStateText::Idle, inputs);
            before_exchange(state) || state is Failed
        }),
        forall|i: int|
            0 <= i < inputs.len() ==> !(#[trigger] state_after(
                api,
                timeout_seconds,
                FlowStateText::Idle,
                inputs.take(i + 1),
            ) is ExchangingAccessToken),
    decreases inputs.len(),
{
    if inputs.len() > 0 {
        let shorter = inputs.drop_last();
        lemma_no_exchange_before_callback(api, timeout_seconds, shorter);
        assert forall|i: int| 0 <= i < inputs.len() implies !(#[trigger] state_after(
            api,
            timeout_seconds,
            FlowStateText::Idle,
            inputs.take(i + 1),
        ) is ExchangingAccessToken) by {
            if i < inputs.len() - 1 {
                assert(inputs.take(i + 1) == shorter.take(i + 1));
            } else {
                assert(inputs.take(i + 1) == inputs);
            }
        }
    }
}

/// When the time allowed for the redirect runs out, the flow fails with
/// `AuthorizationTimeout`, and the action is to stop the endpoint and release
/// its port.
pub proof fn lemma_timeout_fails_the_flow(
    api: ApiKeyText,
    timeout_seconds: u64,
    request_token: TokenText,
    timestamp: Seq<char>,
    nonce: Seq<char>,
)
    ensures
        step(
            api,
            timeout_seconds,
            FlowStateText::AwaitingCallback { request_token },
            FlowEventText::TimedOut,
            timestamp,
            nonce,
        ) == (
            FlowStateText::Failed { error: FlowErrorText::AuthorizationTimeout },
            FlowActionText::Finish,
        ),
{
}

/// The wait for the redirect is bounded by the time that the flow was made
/// with, and begins in one kind of step only: when the authorization URL was
/// shown for a request token that the provider granted.
pub proof fn lemma_wait_is_bounded(
    api: ApiKeyText,
    timeout_seconds: u64,
    state: FlowStateText,
    event: FlowEventText,
    timestamp: Seq<char>,
    nonce: Seq<char>,
)
    requires
        step(api, timeout_seconds, state, event, timestamp, nonce).1 is AwaitCallback,
    ensures
        step(api, timeout_seconds, state, event, timestamp, nonce).1 == (
            FlowActionText::AwaitCallback { timeout_seconds }
        ),
        state is AwaitingUserAuthorization,
        event is AuthorizationPresented,
{
}

/// A flow that has ended stays as it is, whatever happens: every event is
/// ignored. A failed flow sends nothing more and waits for nothing.
pub proof fn lemma_ended_flow_stays(
    api: ApiKeyText,
    timeout_seconds: u64,
    state: FlowStateText,
    inputs: Seq<FlowInput>,
)
    requires
        is_terminal(state),
    ensures
        state_after(api, timeout_seconds, state, inputs) == state,
        forall|i: int|
            0 <= i < inputs.len() ==> #[trigger] action_at(api, timeout_seconds, state, inputs, i)
                == FlowActionText::Ignore,
    decreases inputs.len(),
{
    if inputs.len() > 0 {
        lemma_ended_flow_stays(api, timeout_seconds, state, inputs.drop_last());
        assert forall|i: int| 0 <= i < inputs.len() implies #[trigger] action_at(
            api,
            timeout_seconds,
            state,
            inputs,
            i,
        ) == FlowActionText::Ignore by {
            lemma_ended_flow_stays(api, timeout_seconds, state, inputs.take(i));
        }
    }
}

/// A flow takes one redirect at most: after the step that took one, the flow
/// is in the exchange or has failed, and a further redirect is ignored.
pub proof fn lemma_second_callback_is_ignored(
    api: ApiKeyText,
    timeout_seconds: u64,
    request_token: TokenText,
    first: FlowInput,
    second: FlowInput,
)
    requires
        first.event is Callback,
        second.event is Callback,
    ensures
        ({
            let taken = step(
                api,
                timeout_seconds,
                FlowStateText::AwaitingCallback { request_token },
                first.event,
                first.timestamp,
                first.nonce,
            );
            step(api, timeout_seconds, taken.0, second.event, second.timestamp, second.nonce)
                == (taken.0, FlowActionText::Ignore)
        }),
{
}

/// An answer that grants a request token leads to the user's authorization:
/// the flow holds the granted token and its secret and hands out the
/// authorization URL for that token. Where that URL cannot be written, the
/// flow fails with `EncodingError`; it does nothing else.
pub proof fn lemma_grant_leads_to_authorization(pairs: Seq<ParamText>)
    requires
        grants_token(pairs),
    ensures
        after_request_token_answer(pairs) == match authorization_call(
            value_of(pairs, "oauth_token"@),
        ) {
            Some(url) => (
                FlowStateText::AwaitingUserAuthorization {
                    request_token: TokenText {
                        token: value_of(pairs, "oauth_token"@),
                        secret: value_of(pairs, "oauth_token_secret"@),
                    },
                },
                FlowActionText::PresentAuthorization { url },
            ),
            None => failed(FlowErrorText::EncodingError),
        },
{
}

/// An answer that holds the confirmation, the token and the secret, in this
/// order, grants that token with that secret.
pub proof fn lemma_pairs_of_a_grant(confirmed: Seq<char>, token: Seq<char>, secret: Seq<char>)
    ensures
        ({
            let pairs = seq![
                ("oauth_callback_confirmed"@, confirmed),
                ("oauth_token"@, token),
                ("oauth_token_secret"@, secret),
            ];
            grants_token(pairs) && granted_token(pairs) == (TokenText { token, secret })
        }),
{
    let pairs = seq![
        ("oauth_callback_confirmed"@, confirmed),
        ("oauth_token"@, token),
        ("oauth_token_secret"@, secret),
    ];
    reveal_strlit("oauth_callback_confirmed");
    reveal_strlit("oauth_token");
    reveal_strlit("oauth_token_secret");
    assert("oauth_callback_confirmed"@.len() == 24);
    assert("oauth_token"@.len() == 11);
    assert("oauth_token_secret"@.len() == 18);
    assert(pairs.drop_last() =~= seq![
        ("oauth_callback_confirmed"@, confirmed),
        ("oauth_token"@, token),
    ]);
    assert(pairs.drop_last().drop_last() =~= seq![("oauth_callback_confirmed"@, confirmed)]);
    assert(pairs.drop_last().drop_last().drop_last() =~= Seq::<ParamText>::empty());
    reveal_with_fuel(occurrences, 4);
    reveal_with_fuel(value_of, 4);
}

/// A redirect that echoes the request token in flight starts the exchange,
/// and starts nothing else: the request that is handed out holds the
/// redirect's verifier and the request token, and its last parameter is the
/// signature under the key made of the consumer secret and the request
/// token's secret. Where its URL cannot be written, the flow fails with
/// `EncodingError`.
pub proof fn lemma_callback_starts_the_exchange(
    api: ApiKeyText,
    request_token: TokenText,
    payload: CallbackQueryText,
    timestamp: Seq<char>,
    nonce: Seq<char>,
)
    requires
        payload.oauth_token == request_token.token,
    ensures
        ({
            let signed = exchange_parameters(
                api,
                request_token,
                payload.oauth_verifier,
                timestamp,
                nonce,
            );
            &&& after_callback(api, request_token, payload, timestamp, nonce) == match written_url(
                URL_ACCESS@,
                signed,
            ) {
                Some(url) => (
                    FlowStateText::ExchangingAccessToken { request_token },
                    FlowActionText::SendRequest { url },
                ),
                None => failed(FlowErrorText::EncodingError),
            }
            &&& signed.contains(("oauth_verifier"@, payload.oauth_verifier))
            &&& signed.contains(("oauth_token"@, request_token.token))
            &&& signed.last() == (
                "oauth_signature"@,
                base64_text(
                    hmac_sha1_digest(
                        signing_key(api.secret, Some(request_token.secret)),
                        signature_base_string("GET"@, URL_ACCESS@, signed.drop_last()),
                    ),
                ),
            )
        }),
{
    let caller = seq![("oauth_verifier"@, payload.oauth_verifier)];
    let protocol = protocol_parameters(api.key, Some(request_token), timestamp, nonce);
    let given = caller + protocol;
    lemma_signed_parameters_hold(
        "GET"@,
        URL_ACCESS@,
        caller,
        api,
        Some(request_token),
        timestamp,
        nonce,
    );
    assert(given[0] == ("oauth_verifier"@, payload.oauth_verifier));
    assert(given[6] == ("oauth_token"@, request_token.token));
}

/// A flow that has not ended fails with `Cancelled` when the caller gives
/// the attempt up, whatever its state, and the action is to stop the
/// endpoint.
pub proof fn lemma_cancel_fails_a_running_flow(
    api: ApiKeyText,
    timeout_seconds: u64,
    state: FlowStateText,
    timestamp: Seq<char>,
    nonce: Seq<char>,
)
    requires
        !is_terminal(state),
    ensures
        step(api, timeout_seconds, state, FlowEventText::Cancelled, timestamp, nonce) == failed(
            FlowErrorText::Cancelled,
        ),
{
}

} // verus!
