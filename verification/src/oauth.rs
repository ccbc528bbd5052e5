//! The credentials of OAuth 1.0a, the provider's answers to the two token
//! requests, and the signing of one request.

use crate::canonical::{
    canonical_order, lemma_canonical_order_idempotent, lemma_canonical_order_keeps, sort_params,
    ParamText,
};
use crate::form::{
    form_pairs, form_parse, last_value, occurrences, required_value, url_text, value_of,
    write_url, written_url,
};
use crate::signature::{sign_sorted, signature};
use crate::text::{
    decimal, decimal_text, hexadecimal, hexadecimal_text, lemma_hexadecimal_len,
};
use vstd::prelude::*;
use vstd::string::StringExecFns;

verus! {

/// A token and its secret: a request token during the handshake, an access
/// token after it.
#[derive(Debug)]
pub struct Token {
    pub token: String,
    pub secret: String,
}

/// The consumer key and secret that the provider issued to the application.
#[derive(Debug)]
pub struct ApiKey {
    pub key: String,
    pub secret: String,
}

/// A token as text.
pub struct TokenText {
    pub token: Seq<char>,
    pub secret: Seq<char>,
}

/// A consumer credential as text.
pub struct ApiKeyText {
    pub key: Seq<char>,
    pub secret: Seq<char>,
}

impl View for Token {
    type V = TokenText;

    open spec fn view(&self) -> TokenText {
        TokenText { token: self.token@, secret: self.secret@ }
    }
}

impl View for ApiKey {
    type V = ApiKeyText;

    open spec fn view(&self) -> ApiKeyText {
        ApiKeyText { key: self.key@, secret: self.secret@ }
    }
}

impl Clone for Token {
    fn clone(&self) -> (r: Self)
        ensures
            r@ == self@,
    {
        Token { token: self.token.clone(), secret: self.secret.clone() }
    }
}

impl Clone for ApiKey {
    fn clone(&self) -> (r: Self)
        ensures
            r@ == self@,
    {
        ApiKey { key: self.key.clone(), secret: self.secret.clone() }
    }
}

impl Default for Token {
    fn default() -> (r: Self)
        ensures
            r@ == (TokenText { token: Seq::empty(), secret: Seq::empty() }),
    {
        Token { token: String::new(), secret: String::new() }
    }
}

impl Default for ApiKey {
    fn default() -> (r: Self)
        ensures
            r@ == (ApiKeyText { key: Seq::empty(), secret: Seq::empty() }),
    {
        ApiKey { key: String::new(), secret: String::new() }
    }
}

/// An answer of the provider that is either a value or an error.
pub trait Resultable<T, E>: Sized {
    /// Whether `r` is what this answer becomes.
    spec fn becomes(self, r: Result<T, E>) -> bool;

    /// The value, or the error.
    fn to_result(self) -> (r: Result<T, E>)
        ensures
            self.becomes(r),
    ;
}

/// What the provider answers when it grants an access token.
#[derive(Debug)]
pub struct OauthAccessGranted {
    pub fullname: String,
    pub username: String,
    pub user_nsid: String,
    pub oauth_token: String,
    pub oauth_token_secret: String,
}

/// What the provider answers when it grants a request token.
#[derive(Debug)]
pub struct OauthTokenGranted {
    pub oauth_callback_confirmed: String,
    pub oauth_token: String,
    pub oauth_token_secret: String,
}

/// What the provider answers when it refuses: the problem, and where it
/// sends one, the base string that it computed.
#[derive(Debug)]
pub struct OauthErrorDescription {
    pub oauth_problem: String,
    pub debug_sbs: String,
}

impl Default for OauthAccessGranted {
    fn default() -> (r: Self)
        ensures
            r.fullname@.len() == 0,
            r.username@.len() == 0,
            r.user_nsid@.len() == 0,
            r.oauth_token@.len() == 0,
            r.oauth_token_secret@.len() == 0,
    {
        OauthAccessGranted {
            fullname: String::new(),
            username: String::new(),
            user_nsid: String::new(),
            oauth_token: String::new(),
            oauth_token_secret: String::new(),
        }
    }
}

impl Default for OauthTokenGranted {
    fn default() -> (r: Self)
        ensures
            r.oauth_callback_confirmed@.len() == 0,
            r.oauth_token@.len() == 0,
            r.oauth_token_secret@.len() == 0,
    {
        OauthTokenGranted {
            oauth_callback_confirmed: String::new(),
            oauth_token: String::new(),
            oauth_token_secret: String::new(),
        }
    }
}

impl Default for OauthErrorDescription {
    fn default() -> (r: Self)
        ensures
            r.oauth_problem@.len() == 0,
            r.debug_sbs@.len() == 0,
    {
        OauthErrorDescription { oauth_problem: String::new(), debug_sbs: String::new() }
    }
}

/// The answer to the exchange of a request token for an access token.
#[derive(Debug)]
pub enum OauthAccessAnswer {
    Success(OauthAccessGranted),
    Failure(OauthErrorDescription),
}

/// The answer to the request for a request token.
#[derive(Debug)]
pub enum OauthTokenAnswer {
    Success(OauthTokenGranted),
    Failure(OauthErrorDescription),
}

impl Resultable<OauthAccessGranted, String> for OauthAccessAnswer {
    /// The grant, or the problem that the provider named.
    open spec fn becomes(self, r: Result<OauthAccessGranted, String>) -> bool {
        r == match self {
            OauthAccessAnswer::Success(granted) => Ok::<OauthAccessGranted, String>(granted),
            OauthAccessAnswer::Failure(e) => Err::<OauthAccessGranted, String>(e.oauth_problem),
        }
    }

    fn to_result(self) -> Result<OauthAccessGranted, String> {
        match self {
            OauthAccessAnswer::Success(k) => Ok(k),
            OauthAccessAnswer::Failure(e) => Err(e.oauth_problem),
        }
    }
}

impl Resultable<Token, String> for OauthAccessAnswer {
    /// The access token of the grant, or the problem that the provider named.
    open spec fn becomes(self, r: Result<Token, String>) -> bool {
        r == match self {
            OauthAccessAnswer::Success(granted) => Ok::<Token, String>(
                Token { token: granted.oauth_token, secret: granted.oauth_token_secret },
            ),
            OauthAccessAnswer::Failure(e) => Err::<Token, String>(e.oauth_problem),
        }
    }

    fn to_result(self) -> Result<Token, String> {
        match self {
            OauthAccessAnswer::Success(
                OauthAccessGranted {
                    fullname: _,
                    username: _,
                    user_nsid: _,
                    oauth_token: token,
                    oauth_token_secret: secret,
                },
            ) => Ok(Token { token, secret }),
            OauthAccessAnswer::Failure(e) => Err(e.oauth_problem),
        }
    }
}

impl Resultable<Token, String> for OauthTokenAnswer {
    /// The request token of the grant, or the problem that the provider named.
    open spec fn becomes(self, r: Result<Token, String>) -> bool {
        r == match self {
            OauthTokenAnswer::Success(granted) => Ok::<Token, String>(
                Token { token: granted.oauth_token, secret: granted.oauth_token_secret },
            ),
            OauthTokenAnswer::Failure(e) => Err::<Token, String>(e.oauth_problem),
        }
    }

    fn to_result(self) -> Result<Token, String> {
        match self {
            OauthTokenAnswer::Success(
                OauthTokenGranted {
                    oauth_callback_confirmed: _,
                    oauth_token: token,
                    oauth_token_secret: secret,
                },
            ) => Ok(Token { token, secret }),
            OauthTokenAnswer::Failure(e) => Err(e.oauth_problem),
        }
    }
}

/// Whether an answer grants a token: it holds the token and its secret,
/// each once. What else it holds or lacks does not count.
pub open spec fn grants_token(pairs: Seq<ParamText>) -> bool {
    occurrences(pairs, "oauth_token"@) == 1 && occurrences(pairs, "oauth_token_secret"@) == 1
}

/// Whether an answer names a problem: it holds the problem once.
pub open spec fn names_problem(pairs: Seq<ParamText>) -> bool {
    occurrences(pairs, "oauth_problem"@) == 1
}

impl OauthErrorDescription {
    /// Whether this is the problem that `pairs` name.
    pub open spec fn is_problem_in(self, pairs: Seq<ParamText>) -> bool {
        &&& self.oauth_problem@ == value_of(pairs, "oauth_problem"@)
        &&& self.debug_sbs@ == value_of(pairs, "debug_sbs"@)
    }

    /// The problem that an answer names, with the provider's base string
    /// where it sends one. Fields that the answer holds besides are ignored.
    pub fn from_pairs(pairs: &Vec<(String, String)>) -> (r: Option<OauthErrorDescription>)
        ensures
            match r {
                Some(problem) => names_problem(pairs.deep_view()) && problem.is_problem_in(
                    pairs.deep_view(),
                ),
                None => !names_problem(pairs.deep_view()),
            },
    {
        let oauth_problem = required_value(pairs, "oauth_problem")?;
        let debug_sbs = last_value(pairs, "debug_sbs");
        Some(OauthErrorDescription { oauth_problem, debug_sbs })
    }
}

impl OauthTokenGranted {
    /// Whether this is the grant that `pairs` hold.
    pub open spec fn is_grant_in(self, pairs: Seq<ParamText>) -> bool {
        &&& self.oauth_callback_confirmed@ == value_of(pairs, "oauth_callback_confirmed"@)
        &&& self.oauth_token@ == value_of(pairs, "oauth_token"@)
        &&& self.oauth_token_secret@ == value_of(pairs, "oauth_token_secret"@)
    }

    /// The grant of a request token that an answer holds: the token and its
    /// secret decide, and the confirmation is empty where the answer lacks
    /// it. Fields that the answer holds besides are ignored.
    pub fn from_pairs(pairs: &Vec<(String, String)>) -> (r: Option<OauthTokenGranted>)
        ensures
            match r {
                Some(granted) => grants_token(pairs.deep_view()) && granted.is_grant_in(
                    pairs.deep_view(),
                ),
                None => !grants_token(pairs.deep_view()),
            },
    {
        let oauth_token = required_value(pairs, "oauth_token")?;
        let oauth_token_secret = required_value(pairs, "oauth_token_secret")?;
        let oauth_callback_confirmed = last_value(pairs, "oauth_callback_confirmed");
        Some(OauthTokenGranted { oauth_callback_confirmed, oauth_token, oauth_token_secret })
    }
}

impl OauthAccessGranted {
    /// Whether this is the grant that `pairs` hold.
    pub open spec fn is_grant_in(self, pairs: Seq<ParamText>) -> bool {
        &&& self.fullname@ == value_of(pairs, "fullname"@)
        &&& self.username@ == value_of(pairs, "username"@)
        &&& self.user_nsid@ == value_of(pairs, "user_nsid"@)
        &&& self.oauth_token@ == value_of(pairs, "oauth_token"@)
        &&& self.oauth_token_secret@ == value_of(pairs, "oauth_token_secret"@)
    }

    /// The grant of an access token that an answer holds: the token and its
    /// secret decide, and what the answer lacks of the user is empty. Fields
    /// that the answer holds besides are ignored.
    pub fn from_pairs(pairs: &Vec<(String, String)>) -> (r: Option<OauthAccessGranted>)
        ensures
            match r {
                Some(granted) => grants_token(pairs.deep_view()) && granted.is_grant_in(
                    pairs.deep_view(),
                ),
                None => !grants_token(pairs.deep_view()),
            },
    {
        let oauth_token = required_value(pairs, "oauth_token")?;
        let oauth_token_secret = required_value(pairs, "oauth_token_secret")?;
        let fullname = last_value(pairs, "fullname");
        let username = last_value(pairs, "username");
        let user_nsid = last_value(pairs, "user_nsid");
        Some(OauthAccessGranted { fullname, username, user_nsid, oauth_token, oauth_token_secret })
    }
}

impl OauthTokenAnswer {
    /// Whether this is the answer that `pairs` hold: the grant where they
    /// grant a token, else the problem that they name.
    pub open spec fn is_answer_in(self, pairs: Seq<ParamText>) -> bool {
        match self {
            OauthTokenAnswer::Success(granted) => {
                grants_token(pairs) && granted.is_grant_in(pairs)
            },
            OauthTokenAnswer::Failure(problem) => {
                !grants_token(pairs) && names_problem(pairs) && problem.is_problem_in(
                    pairs,
                )
            },
        }
    }

    /// The answer that the pairs of a message hold, the grant tried first;
    /// nothing where they hold neither a grant nor a problem.
    pub fn from_pairs(pairs: &Vec<(String, String)>) -> (r: Option<OauthTokenAnswer>)
        ensures
            match r {
                Some(answer) => answer.is_answer_in(pairs.deep_view()),
                None => !grants_token(pairs.deep_view()) && !names_problem(
                    pairs.deep_view(),
                ),
            },
    {
        match OauthTokenGranted::from_pairs(pairs) {
            Some(granted) => Some(OauthTokenAnswer::Success(granted)),
            None => match OauthErrorDescription::from_pairs(pairs) {
                Some(problem) => Some(OauthTokenAnswer::Failure(problem)),
                None => None,
            },
        }
    }

    /// The answer that a message in form syntax holds.
    pub fn parse(body: &str) -> (r: Option<OauthTokenAnswer>)
        ensures
            match r {
                Some(answer) => answer.is_answer_in(form_pairs(body@)),
                None => !grants_token(form_pairs(body@)) && !names_problem(
                    form_pairs(body@),
                ),
            },
    {
        let pairs = form_parse(body);
        OauthTokenAnswer::from_pairs(&pairs)
    }
}

impl OauthAccessAnswer {
    /// Whether this is the answer that `pairs` hold: the grant where they
    /// grant a token, else the problem that they name.
    pub open spec fn is_answer_in(self, pairs: Seq<ParamText>) -> bool {
        match self {
            OauthAccessAnswer::Success(granted) => {
                grants_token(pairs) && granted.is_grant_in(pairs)
            },
            OauthAccessAnswer::Failure(problem) => {
                !grants_token(pairs) && names_problem(pairs) && problem.is_problem_in(
                    pairs,
                )
            },
        }
    }

    /// The answer that the pairs of a message hold, the grant tried first;
    /// nothing where they hold neither a grant nor a problem.
    pub fn from_pairs(pairs: &Vec<(String, String)>) -> (r: Option<OauthAccessAnswer>)
        ensures
            match r {
                Some(answer) => answer.is_answer_in(pairs.deep_view()),
                None => !grants_token(pairs.deep_view()) && !names_problem(
                    pairs.deep_view(),
                ),
            },
    {
        match OauthAccessGranted::from_pairs(pairs) {
            Some(granted) => Some(OauthAccessAnswer::Success(granted)),
            None => match OauthErrorDescription::from_pairs(pairs) {
                Some(problem) => Some(OauthAccessAnswer::Failure(problem)),
                None => None,
            },
        }
    }

    /// The answer that a message in form syntax holds.
    pub fn parse(body: &str) -> (r: Option<OauthAccessAnswer>)
        ensures
            match r {
                Some(answer) => answer.is_answer_in(form_pairs(body@)),
                None => !grants_token(form_pairs(body@)) && !names_problem(
                    form_pairs(body@),
                ),
            },
    {
        let pairs = form_parse(body);
        OauthAccessAnswer::from_pairs(&pairs)
    }
}

/// Where a request goes, and by which HTTP method.
pub enum RequestTarget<'a> {
    Get(&'a str),
    Post(&'a str),
}

impl<'a> RequestTarget<'a> {
    /// The target URI as text.
    pub open spec fn uri_text(&self) -> Seq<char> {
        match self {
            RequestTarget::Get(uri) => uri@,
            RequestTarget::Post(uri) => uri@,
        }
    }

    /// The HTTP method in upper case, as text.
    pub open spec fn method_text(&self) -> Seq<char> {
        match self {
            RequestTarget::Get(_) => "GET"@,
            RequestTarget::Post(_) => "POST"@,
        }
    }

    /// The target URI: scheme, host and path, without a query.
    pub fn uri(&'a self) -> (r: &'a str)
        ensures
            r@ == self.uri_text(),
    {
        match self {
            RequestTarget::Get(val) => val,
            RequestTarget::Post(val) => val,
        }
    }

    /// The HTTP method in upper case.
    pub fn method(&self) -> (r: &'static str)
        ensures
            r@ == self.method_text(),
    {
        match self {
            RequestTarget::Get(_) => "GET",
            RequestTarget::Post(_) => "POST",
        }
    }
}

/// The text of an optional token.
pub open spec fn token_text(oauth: Option<&Token>) -> Option<TokenText> {
    match oauth {
        Some(token) => Some(token@),
        None => None,
    }
}

/// The secret of an optional token.
pub open spec fn token_secret(oauth: Option<TokenText>) -> Option<Seq<char>> {
    match oauth {
        Some(token) => Some(token.secret),
        None => None,
    }
}

/// The parameters that the protocol adds to every signed request: consumer
/// key, nonce, signature method, timestamp and version, and the token where
/// there is one.
pub open spec fn protocol_parameters(
    consumer_key: Seq<char>,
    oauth: Option<TokenText>,
    timestamp: Seq<char>,
    nonce: Seq<char>,
) -> Seq<ParamText> {
    let fixed = seq![
        ("oauth_consumer_key"@, consumer_key),
        ("oauth_nonce"@, nonce),
        ("oauth_signature_method"@, "HMAC-SHA1"@),
        ("oauth_timestamp"@, timestamp),
        ("oauth_version"@, "1.0"@),
    ];
    match oauth {
        Some(token) => fixed.push(("oauth_token"@, token.token)),
        None => fixed,
    }
}

/// The signed parameter set of a request: the caller's parameters and the
/// protocol's, in canonical order, and after them the signature over all of
/// them.
pub open spec fn signed_parameters(
    method: Seq<char>,
    uri: Seq<char>,
    params: Seq<ParamText>,
    api: ApiKeyText,
    oauth: Option<TokenText>,
    timestamp: Seq<char>,
    nonce: Seq<char>,
) -> Seq<ParamText> {
    let all = canonical_order(params + protocol_parameters(api.key, oauth, timestamp, nonce));
    all.push(("oauth_signature"@, signature(method, uri, all, api.secret, token_secret(oauth))))
}

/// What a signed parameter set holds: every parameter of the caller and of
/// the protocol, and last the signature over all of them under the consumer
/// secret and the token's secret.
pub proof fn lemma_signed_parameters_hold(
    method: Seq<char>,
    uri: Seq<char>,
    params: Seq<ParamText>,
    api: ApiKeyText,
    oauth: Option<TokenText>,
    timestamp: Seq<char>,
    nonce: Seq<char>,
)
    ensures
        ({
            let given = params + protocol_parameters(api.key, oauth, timestamp, nonce);
            let signed = signed_parameters(method, uri, params, api, oauth, timestamp, nonce);
            &&& signed.len() == given.len() + 1
            &&& forall|p: ParamText| given.contains(p) ==> #[trigger] signed.contains(p)
            &&& signed.last() == (
                "oauth_signature"@,
                signature(method, uri, signed.drop_last(), api.secret, token_secret(oauth)),
            )
        }),
{
    let given = params + protocol_parameters(api.key, oauth, timestamp, nonce);
    let all = canonical_order(given);
    let signed = signed_parameters(method, uri, params, api, oauth, timestamp, nonce);
    assert(signed.drop_last() =~= all);
    lemma_canonical_order_keeps(given, signed.last());
    assert forall|p: ParamText| given.contains(p) implies #[trigger] signed.contains(p) by {
        lemma_canonical_order_keeps(given, p);
        let i = choose|i: int| 0 <= i < all.len() && all[i] == p;
        assert(signed[i] == p);
    }
}

/// The nonce made of two random numbers: 32 hexadecimal digits.
pub open spec fn nonce_text(high: u64, low: u64) -> Seq<char> {
    hexadecimal(high as nat, 16) + hexadecimal(low as nat, 16)
}

/// The signed parameter set of a request made at `seconds` after the epoch,
/// with the nonce of two random numbers.
pub open spec fn signed_at(
    method: Seq<char>,
    uri: Seq<char>,
    params: Seq<ParamText>,
    api: ApiKeyText,
    oauth: Option<TokenText>,
    seconds: u64,
    high: u64,
    low: u64,
) -> Seq<ParamText> {
    signed_parameters(
        method,
        uri,
        params,
        api,
        oauth,
        decimal(seconds as nat),
        nonce_text(high, low),
    )
}

/// `std::time::SystemTime`: a reading of the system clock.
#[verifier::external_type_specification]
#[verifier::external_body]
pub struct ExSystemTime(std::time::SystemTime);

/// `std::time::SystemTimeError`: what `duration_since` gives for a reading
/// that lies before the other.
#[verifier::external_type_specification]
#[verifier::external_body]
pub struct ExSystemTimeError(std::time::SystemTimeError);

/// `SystemTime::now` of std: the present reading of the clock. Nothing is
/// claimed of it.
pub assume_specification[ std::time::SystemTime::now ]() -> std::time::SystemTime;

/// `SystemTime::duration_since` of std: the time between two readings, or an
/// error where the second is the later one. Nothing is claimed of it.
pub assume_specification[ std::time::SystemTime::duration_since ](
    time: &std::time::SystemTime,
    earlier: std::time::SystemTime,
) -> Result<std::time::Duration, std::time::SystemTimeError>;

/// `Duration::as_secs` of std: the whole seconds of a duration. Nothing is
/// claimed of the number.
pub assume_specification[ std::time::Duration::as_secs ](duration: &std::time::Duration) -> u64;

/// `std::time::UNIX_EPOCH`: the reading at the start of 1970.
#[verifier::external_body]
fn unix_epoch() -> std::time::SystemTime {
    std::time::UNIX_EPOCH
}

/// The whole seconds since the epoch; 0 where the clock stands before it.
pub(crate) fn unix_seconds() -> u64 {
    let reading = match std::time::SystemTime::now().duration_since(unix_epoch()) {
        Ok(elapsed) => Some(elapsed.as_secs()),
        Err(_) => None,
    };
    timestamp_of(reading)
}

/// The timestamp for a reading of the clock: its seconds since the epoch, or
/// 0 for a clock that stands before the epoch and so gives no seconds.
pub fn timestamp_of(reading: Option<u64>) -> (seconds: u64)
    ensures
        seconds == match reading {
            Some(elapsed) => elapsed,
            None => 0,
        },
{
    match reading {
        Some(elapsed) => elapsed,
        None => 0,
    }
}

/// `rand::random` of the rand crate: a number from the thread's generator.
/// Nothing is claimed of the number. The generator panics where the
/// operating system gives it no entropy at the thread's first draw; no
/// argument decides that.
#[verifier::external_body]
pub(crate) fn random_number() -> u64 {
    rand::random::<u64>()
}

/// Writes the nonce of two numbers: 32 hexadecimal digits.
pub fn make_nonce(high: u64, low: u64) -> (nonce: String)
    ensures
        nonce@ == nonce_text(high, low),
        nonce@.len() == 32,
{
    proof {
        lemma_hexadecimal_len(high as nat, 16);
        lemma_hexadecimal_len(low as nat, 16);
    }
    let mut nonce = hexadecimal_text(high, 16);
    let tail = hexadecimal_text(low, 16);
    nonce.append(tail.as_str());
    nonce
}

/// Signs a request with a given timestamp and nonce: adds the protocol's
/// parameters to the caller's, puts all of them into canonical order, and
/// appends the signature.
pub fn sign_request(
    target: &RequestTarget,
    params: &mut Vec<(&'static str, String)>,
    api: &ApiKey,
    oauth: Option<&Token>,
    timestamp: u64,
    nonce: &str,
)
    ensures
        final(params).deep_view() == signed_parameters(
            target.method_text(),
            target.uri_text(),
            old(params).deep_view(),
            api@,
            token_text(oauth),
            decimal(timestamp as nat),
            nonce@,
        ),
{
    let ghost given = params.deep_view();
    let ghost added = protocol_parameters(
        api@.key,
        token_text(oauth),
        decimal(timestamp as nat),
        nonce@,
    );
    params.push(("oauth_consumer_key", api.key.clone()));
    params.push(("oauth_nonce", String::from_str(nonce)));
    params.push(("oauth_signature_method", String::from_str("HMAC-SHA1")));
    params.push(("oauth_timestamp", decimal_text(timestamp)));
    params.push(("oauth_version", String::from_str("1.0")));
    let secret: Option<&str> = match oauth {
        Some(token) => {
            params.push(("oauth_token", token.token.clone()));
            Some(token.secret.as_str())
        },
        None => None,
    };
    proof {
        assert(params.deep_view() =~= given + added);
    }
    sort_params(params);
    let ghost all = params.deep_view();
    proof {
        lemma_canonical_order_idempotent(given + added);
    }
    let text = sign_sorted(target, params, api.secret.as_str(), secret);
    params.push(("oauth_signature", text));
    proof {
        assert(params.deep_view() =~= all.push(
            (
                "oauth_signature"@,
                signature(
                    target.method_text(),
                    target.uri_text(),
                    all,
                    api@.secret,
                    token_secret(token_text(oauth)),
                ),
            ),
        ));
    }
}

/// Signs a request: reads the clock, draws a fresh nonce, and signs with
/// them. Whatever the clock and the generator gave, the result is the signed
/// parameter set for that second and those two numbers. A clock that stands
/// before the epoch counts as second 0.
pub fn build_request(
    target: RequestTarget,
    params: &mut Vec<(&'static str, String)>,
    api: &ApiKey,
    oauth: Option<&Token>,
)
    ensures
        exists|seconds: u64, high: u64, low: u64|
            final(params).deep_view() == #[trigger] signed_at(
                target.method_text(),
                target.uri_text(),
                old(params).deep_view(),
                api@,
                token_text(oauth),
                seconds,
                high,
                low,
            ),
{
    let seconds: u64 = unix_seconds();
    let high = random_number();
    let low = random_number();
    let nonce = make_nonce(high, low);
    sign_request(&target, params, api, oauth, seconds, nonce.as_str());
    proof {
        assert(params.deep_view() == signed_at(
            target.method_text(),
            target.uri_text(),
            old(params).deep_view(),
            api@,
            token_text(oauth),
            seconds,
            high,
            low,
        ));
    }
}

/// The URL of a signed request: signs the parameters as `build_request`
/// does, and writes them as the query of the target URI. Nothing comes back
/// where the URL cannot be written.
pub fn signed_url(
    target: RequestTarget,
    params: Vec<(&'static str, String)>,
    api: &ApiKey,
    oauth: Option<&Token>,
) -> (url: Option<String>)
    ensures
        exists|seconds: u64, high: u64, low: u64|
            url_text(url) == written_url(
                target.uri_text(),
                #[trigger] signed_at(
                    target.method_text(),
                    target.uri_text(),
                    params.deep_view(),
                    api@,
                    token_text(oauth),
                    seconds,
                    high,
                    low,
                ),
            ),
{
    let mut signed = params;
    let uri = match target {
        RequestTarget::Get(uri) => uri,
        RequestTarget::Post(uri) => uri,
    };
    build_request(target, &mut signed, api, oauth);
    write_url(uri, &signed)
}

} // verus!
