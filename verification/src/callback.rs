//! The loopback endpoint to which the provider redirects the user's browser
//! once access is granted: what it answers to a request, and which one
//! request hands its payload to the waiting flow.

use crate::canonical::ParamText;
use crate::form::{form_pairs, form_parse, occurrences, optional_value, value_of};
use crate::text::{decimal, decimal_text, same_text};
use vstd::prelude::*;
use vstd::string::StringExecFns;

verus! {

/// The loopback port on which the endpoint listens.
pub const CALLBACK_PORT: u32 = 8200;

/// The path of the endpoint.
pub const CALLBACK_PATH: &'static str = "/authorization";

/// The page that tells the user that the window may be closed.
pub const CONFIRMATION_PAGE: &'static str =
    "<!DOCTYPE html><html><head>Authentication succeeded. You may close this window.<script>window.close();</script></head><body></body></html>";

/// The content type of every reply.
pub const REPLY_CONTENT_TYPE: &'static str = "text/html";

/// What a redirect carries: the request token that it echoes, and the
/// verifier.
#[derive(Debug)]
pub struct CallbackQuery {
    pub oauth_token: String,
    pub oauth_verifier: String,
}

/// The payload of a redirect as text.
pub struct CallbackQueryText {
    pub oauth_token: Seq<char>,
    pub oauth_verifier: Seq<char>,
}

impl View for CallbackQuery {
    type V = CallbackQueryText;

    open spec fn view(&self) -> CallbackQueryText {
        CallbackQueryText { oauth_token: self.oauth_token@, oauth_verifier: self.oauth_verifier@ }
    }
}

impl Clone for CallbackQuery {
    fn clone(&self) -> (r: Self)
        ensures
            r@ == self@,
    {
        CallbackQuery {
            oauth_token: self.oauth_token.clone(),
            oauth_verifier: self.oauth_verifier.clone(),
        }
    }
}

impl Default for CallbackQuery {
    fn default() -> (r: Self)
        ensures
            r@ == (CallbackQueryText { oauth_token: Seq::empty(), oauth_verifier: Seq::empty() }),
    {
        CallbackQuery { oauth_token: String::new(), oauth_verifier: String::new() }
    }
}

/// The URL of the endpoint on a port, which the provider is asked to
/// redirect to.
pub open spec fn callback_url_text(port: u32) -> Seq<char> {
    "http://localhost:"@ + decimal(port as nat) + CALLBACK_PATH@
}

/// The URL of the endpoint on a port.
pub fn callback_url(port: u32) -> (url: String)
    ensures
        url@ == callback_url_text(port),
{
    let mut url = String::from_str("http://localhost:");
    let number = decimal_text(port as u64);
    url.append(number.as_str());
    url.append(CALLBACK_PATH);
    url
}

/// Whether the pairs of a query are a payload: the token and the verifier
/// occur at most once each.
pub open spec fn is_payload(pairs: Seq<ParamText>) -> bool {
    occurrences(pairs, "oauth_token"@) <= 1 && occurrences(pairs, "oauth_verifier"@) <= 1
}

/// The payload that the pairs of a query hold; a field that is missing is
/// empty.
pub open spec fn payload_of(pairs: Seq<ParamText>) -> CallbackQueryText {
    CallbackQueryText {
        oauth_token: value_of(pairs, "oauth_token"@),
        oauth_verifier: value_of(pairs, "oauth_verifier"@),
    }
}

impl CallbackQuery {
    /// The payload that the pairs of a query hold; nothing where a field
    /// occurs twice. Fields that the query holds besides are ignored.
    pub fn from_pairs(pairs: &Vec<(String, String)>) -> (r: Option<CallbackQuery>)
        ensures
            match r {
                Some(query) => is_payload(pairs.deep_view()) && query@ == payload_of(
                    pairs.deep_view(),
                ),
                None => !is_payload(pairs.deep_view()),
            },
    {
        let oauth_token = optional_value(pairs, "oauth_token")?;
        let oauth_verifier = optional_value(pairs, "oauth_verifier")?;
        Some(CallbackQuery { oauth_token, oauth_verifier })
    }

    /// The payload that a query string holds.
    pub fn parse(query: &str) -> (r: Option<CallbackQuery>)
        ensures
            match r {
                Some(payload) => is_payload(form_pairs(query@)) && payload@ == payload_of(
                    form_pairs(query@),
                ),
                None => !is_payload(form_pairs(query@)),
            },
    {
        let pairs = form_parse(query);
        CallbackQuery::from_pairs(&pairs)
    }
}

/// What the endpoint answers to a request.
#[derive(Debug, Clone, Copy, PartialEq, Eq)]
pub enum ListenerReply {
    /// The confirmation page: the request was a redirect with a payload.
    Confirmation,
    /// The path is not the endpoint's.
    NotFound,
    /// The method is not GET.
    MethodNotAllowed,
    /// The query is no payload.
    BadRequest,
}

impl ListenerReply {
    /// The HTTP status of the reply.
    pub open spec fn status_code(self) -> u16 {
        match self {
            ListenerReply::Confirmation => 200,
            ListenerReply::NotFound => 404,
            ListenerReply::MethodNotAllowed => 405,
            ListenerReply::BadRequest => 400,
        }
    }

    /// The HTTP status of the reply.
    pub fn status(&self) -> (code: u16)
        ensures
            code == self.status_code(),
    {
        match self {
            ListenerReply::Confirmation => 200,
            ListenerReply::NotFound => 404,
            ListenerReply::MethodNotAllowed => 405,
            ListenerReply::BadRequest => 400,
        }
    }

    /// The body of the reply: the confirmation page, or nothing.
    pub fn body(&self) -> (page: &'static str)
        ensures
            page@ == if self is Confirmation {
                CONFIRMATION_PAGE@
            } else {
                ""@
            },
    {
        match self {
            ListenerReply::Confirmation => CONFIRMATION_PAGE,
            _ => "",
        }
    }
}

/// A request as the endpoint sees it.
pub struct CallbackRequest {
    pub method: Seq<char>,
    pub path: Seq<char>,
    pub query: Seq<char>,
}

/// The reply to a request: the path is tested first, then the method, then
/// the query.
pub open spec fn reply_to(request: CallbackRequest) -> ListenerReply {
    if request.path != CALLBACK_PATH@ {
        ListenerReply::NotFound
    } else if request.method != "GET"@ {
        ListenerReply::MethodNotAllowed
    } else if !is_payload(form_pairs(request.query)) {
        ListenerReply::BadRequest
    } else {
        ListenerReply::Confirmation
    }
}

/// What a request hands over to the waiting flow: its payload, if it is a
/// redirect with a payload and nothing was handed over before.
pub open spec fn handed_over(delivered: bool, request: CallbackRequest) -> Option<
    CallbackQueryText,
> {
    if !delivered && reply_to(request) is Confirmation {
        Some(payload_of(form_pairs(request.query)))
    } else {
        None
    }
}

/// What each of a series of requests hands over, one after the other.
pub open spec fn deliveries(delivered: bool, requests: Seq<CallbackRequest>) -> Seq<
    Option<CallbackQueryText>,
>
    decreases requests.len(),
{
    if requests.len() == 0 {
        Seq::empty()
    } else {
        seq![handed_over(delivered, requests[0])] + deliveries(
            delivered || reply_to(requests[0]) is Confirmation,
            requests.drop_first(),
        )
    }
}

/// The endpoint's memory: whether a payload was handed over.
pub struct CallbackListener {
    delivered: bool,
}

impl View for CallbackListener {
    type V = bool;

    closed spec fn view(&self) -> bool {
        self.delivered
    }
}

impl CallbackListener {
    /// An endpoint that has handed over nothing yet.
    pub fn new() -> (listener: Self)
        ensures
            !listener@,
    {
        CallbackListener { delivered: false }
    }

    /// Whether the endpoint still takes connections: it does until a
    /// payload was handed over.
    pub fn is_accepting(&self) -> (r: bool)
        ensures
            r == !self@,
    {
        !self.delivered
    }

    /// Answers one request. The first redirect with a payload hands its
    /// payload over; a later one still gets the confirmation page, and hands
    /// over nothing.
    pub fn handle(&mut self, method: &str, path: &str, query: &str) -> (r: (
        ListenerReply,
        Option<CallbackQuery>,
    ))
        ensures
            r.0 == reply_to(CallbackRequest { method: method@, path: path@, query: query@ }),
            final(self)@ == (old(self)@ || r.0 is Confirmation),
            match r.1 {
                Some(payload) => Some(payload@) == handed_over(
                    old(self)@,
                    CallbackRequest { method: method@, path: path@, query: query@ },
                ),
                None => handed_over(
                    old(self)@,
                    CallbackRequest { method: method@, path: path@, query: query@ },
                ) is None,
            },
    {
        if !same_text(path, CALLBACK_PATH) {
            return (ListenerReply::NotFound, None);
        }
        if !same_text(method, "GET") {
            return (ListenerReply::MethodNotAllowed, None);
        }
        match CallbackQuery::parse(query) {
            None => (ListenerReply::BadRequest, None),
            Some(payload) => {
                if self.delivered {
                    (ListenerReply::Confirmation, None)
                } else {
                    self.delivered = true;
                    (ListenerReply::Confirmation, Some(payload))
                }
            },
        }
    }
}

/// Once a payload was handed over, no request hands over another.
pub proof fn lemma_nothing_after_delivery(requests: Seq<CallbackRequest>, i: int)
    requires
        0 <= i < requests.len(),
    ensures
        deliveries(true, requests).len() == requests.len(),
        deliveries(true, requests)[i] is None,
    decreases requests.len(),
{
    lemma_deliveries_len(true, requests);
    if i > 0 {
        lemma_nothing_after_delivery(requests.drop_first(), i - 1);
    }
}

/// Every request has its entry in the deliveries.
pub proof fn lemma_deliveries_len(delivered: bool, requests: Seq<CallbackRequest>)
    ensures
        deliveries(delivered, requests).len() == requests.len(),
    decreases requests.len(),
{
    if requests.len() > 0 {
        lemma_deliveries_len(
            delivered || reply_to(requests[0]) is Confirmation,
            requests.drop_first(),
        );
    }
}

/// Of all the requests that reach a fresh endpoint, at most one hands over a
/// payload: no two do.
pub proof fn lemma_at_most_one_delivery(requests: Seq<CallbackRequest>, i: int, j: int)
    requires
        0 <= i < j < requests.len(),
    ensures
        !(deliveries(false, requests)[i] is Some && deliveries(false, requests)[j] is Some),
{
    lemma_one_delivery_from(false, requests, i, j);
}

proof fn lemma_one_delivery_from(delivered: bool, requests: Seq<CallbackRequest>, i: int, j: int)
    requires
        0 <= i < j < requests.len(),
    ensures
        !(deliveries(delivered, requests)[i] is Some && deliveries(delivered, requests)[j]
            is Some),
    decreases requests.len(),
{
    let next = delivered || reply_to(requests[0]) is Confirmation;
    let rest = requests.drop_first();
    lemma_deliveries_len(next, rest);
    if i == 0 {
        if deliveries(delivered, requests)[0] is Some {
            lemma_nothing_after_delivery(rest, j - 1);
        }
    } else {
        lemma_one_delivery_from(next, rest, i - 1, j - 1);
    }
}

/// Whether the request at `index` is a redirect with a payload, and the
/// first of them.
pub open spec fn is_first_redirect(requests: Seq<CallbackRequest>, index: int) -> bool {
    &&& reply_to(requests[index]) is Confirmation
    &&& forall|k: int| 0 <= k < index ==> !(#[trigger] reply_to(requests[k]) is Confirmation)
}

/// The payload that a fresh endpoint hands over is that of the first
/// redirect with a payload: a request hands over its payload exactly if it is
/// such a redirect and none came before it.
pub proof fn lemma_first_redirect_delivers(requests: Seq<CallbackRequest>, i: int)
    requires
        0 <= i < requests.len(),
    ensures
        deliveries(false, requests)[i] == if is_first_redirect(requests, i) {
            Some(payload_of(form_pairs(requests[i].query)))
        } else {
            None
        },
    decreases requests.len(),
{
    let next = reply_to(requests[0]) is Confirmation;
    let rest = requests.drop_first();
    lemma_deliveries_len(next, rest);
    if i > 0 {
        if next {
            lemma_nothing_after_delivery(rest, i - 1);
        } else {
            lemma_first_redirect_delivers(rest, i - 1);
            assert forall|k: int| 0 <= k < i - 1 implies rest[k] == requests[k + 1] by {}
            if forall|k: int| 0 <= k < i ==> !(#[trigger] reply_to(requests[k]) is Confirmation) {
                assert forall|k: int| 0 <= k < i - 1 implies !(#[trigger] reply_to(rest[k])
                    is Confirmation) by {
                    assert(rest[k] == requests[k + 1]);
                }
            } else {
                let k = choose|k: int|
                    0 <= k < i && (#[trigger] reply_to(requests[k]) is Confirmation);
                assert(k > 0);
                assert(rest[k - 1] == requests[k]);
                assert(reply_to(rest[k - 1]) is Confirmation);
            }
        }
    }
}

/// Whether a payload was handed over once a series of requests has reached
/// the endpoint.
pub open spec fn delivered_after(delivered: bool, requests: Seq<CallbackRequest>) -> bool
    decreases requests.len(),
{
    if requests.len() == 0 {
        delivered
    } else {
        delivered_after(delivered, requests.drop_last()) || reply_to(requests.last())
            is Confirmation
    }
}

/// Of two redirects with a payload that reach a fresh endpoint one after the
/// other, the first hands over its payload and the second hands over
/// nothing; the endpoint has then delivered, and takes no more connections.
pub proof fn lemma_second_redirect_delivers_nothing(
    first: CallbackRequest,
    second: CallbackRequest,
)
    requires
        reply_to(first) is Confirmation,
        reply_to(second) is Confirmation,
    ensures
        deliveries(false, seq![first, second]) == seq![
            Some(payload_of(form_pairs(first.query))),
            None::<CallbackQueryText>,
        ],
        delivered_after(false, seq![first]),
        delivered_after(false, seq![first, second]),
{
    let both = seq![first, second];
    lemma_deliveries_len(false, both);
    lemma_first_redirect_delivers(both, 0);
    lemma_first_redirect_delivers(both, 1);
    assert(deliveries(false, both) =~= seq![
        Some(payload_of(form_pairs(first.query))),
        None::<CallbackQueryText>,
    ]);
    assert(both.drop_last() =~= seq![first]);
    assert(seq![first].drop_last() =~= Seq::<CallbackRequest>::empty());
}

/// A query that holds the verifier and then the token is a payload, and its
/// payload is that token and that verifier.
pub proof fn lemma_payload_of_a_redirect(verifier: Seq<char>, token: Seq<char>)
    ensures
        is_payload(seq![("oauth_verifier"@, verifier), ("oauth_token"@, token)]),
        payload_of(seq![("oauth_verifier"@, verifier), ("oauth_token"@, token)]) == (
            CallbackQueryText { oauth_token: token, oauth_verifier: verifier }
        ),
{
    let pairs = seq![("oauth_verifier"@, verifier), ("oauth_token"@, token)];
    reveal_strlit("oauth_verifier");
    reveal_strlit("oauth_token");
    assert("oauth_verifier"@.len() == 14 && "oauth_token"@.len() == 11);
    assert(pairs.drop_last() =~= seq![("oauth_verifier"@, verifier)]);
    assert(pairs.drop_last().drop_last() =~= Seq::<ParamText>::empty());
    reveal_with_fuel(occurrences, 3);
    reveal_with_fuel(value_of, 3);
}

} // verus!
