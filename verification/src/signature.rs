//! The signature of a request: HMAC-SHA1 over the signature base string,
//! written in base64.
//!
//! The base string is the method, the encoded target URI and the encoded
//! normalized parameters, joined by `&`. The normalized parameters are the
//! signable parameters in canonical order, each written as `name=value` with
//! both parts percent-encoded, joined by `&`. The key is the encoded consumer
//! secret, `&`, and the encoded token secret (empty where there is no token).

use crate::canonical::{
    canonical_order, lemma_canonical_order_idempotent, lemma_canonical_order_of_permutation,
    sort_params, utf8, ParamText,
};
use crate::encoding::{
    is_strict_text, lemma_encoded_is_strict, lemma_encoding_injective, percent_encode_into,
    percent_encoded,
};
use crate::oauth::RequestTarget;
use crate::text::same_text;
use hmac::Mac;
use vstd::prelude::*;

verus! {

/// The byte `&`, which separates the parts of a base string and of a key.
pub const AMPERSAND: u8 = 0x26;

/// The byte `=`, which separates a name from its value.
pub const EQUALS: u8 = 0x3D;

/// The HMAC-SHA1 code of `message` under `key`: 20 bytes.
pub uninterp spec fn hmac_sha1_digest(key: Seq<u8>, message: Seq<u8>) -> Seq<u8>;

/// The character that stands for a value below 64 in base64: `A` to `Z`,
/// `a` to `z`, `0` to `9`, `+` and `/`.
pub open spec fn base64_symbol(value: int) -> char {
    if value < 26 {
        ((0x41 + value) as u8) as char
    } else if value < 52 {
        ((0x47 + value) as u8) as char
    } else if value < 62 {
        ((value - 4) as u8) as char
    } else if value == 62 {
        '+'
    } else {
        '/'
    }
}

/// The padded base64 text (RFC 4648, section 4) of a byte string: every
/// three bytes give four characters of six bits each, the first bits first;
/// one or two bytes left over give two or three characters, filled up with
/// `=`.
pub open spec fn base64_text(bytes: Seq<u8>) -> Seq<char>
    decreases bytes.len(),
{
    if bytes.len() == 0 {
        Seq::empty()
    } else {
        let a = bytes[0] as int;
        let b = bytes[1] as int;
        let c = bytes[2] as int;
        if bytes.len() == 1 {
            seq![base64_symbol(a / 4), base64_symbol(a % 4 * 16), '=', '=']
        } else if bytes.len() == 2 {
            seq![
                base64_symbol(a / 4),
                base64_symbol(a % 4 * 16 + b / 16),
                base64_symbol(b % 16 * 4),
                '=',
            ]
        } else {
            seq![
                base64_symbol(a / 4),
                base64_symbol(a % 4 * 16 + b / 16),
                base64_symbol(b % 16 * 4 + c / 64),
                base64_symbol(c % 64),
            ] + base64_text(bytes.skip(3))
        }
    }
}

/// The base64 text of a byte string has four characters for every three
/// bytes, begun ones counted.
pub proof fn lemma_base64_len(bytes: Seq<u8>)
    ensures
        base64_text(bytes).len() == (bytes.len() + 2) / 3 * 4,
    decreases bytes.len(),
{
    if bytes.len() >= 3 {
        lemma_base64_len(bytes.skip(3));
    }
}

/// Names of parameters that carry a request body or binary payload. They
/// travel with the request and are never part of the signature.
pub open spec fn is_excluded(name: Seq<char>) -> bool {
    name == "photo"@
}

/// The parameters that enter the signature, in the order given.
pub open spec fn signable(params: Seq<ParamText>) -> Seq<ParamText>
    decreases params.len(),
{
    if params.len() == 0 {
        Seq::empty()
    } else if is_excluded(params.last().0) {
        signable(params.drop_last())
    } else {
        signable(params.drop_last()).push(params.last())
    }
}

/// One parameter as `name=value`, both parts encoded.
pub open spec fn pair_text(p: ParamText) -> Seq<u8> {
    percent_encoded(utf8(p.0)) + seq![EQUALS] + percent_encoded(utf8(p.1))
}

/// The parameters as `name=value` pairs joined by `&`, in the order given.
pub open spec fn joined(params: Seq<ParamText>) -> Seq<u8>
    decreases params.len(),
{
    if params.len() == 0 {
        Seq::empty()
    } else if params.len() == 1 {
        pair_text(params[0])
    } else {
        joined(params.drop_last()) + seq![AMPERSAND] + pair_text(params.last())
    }
}

/// The normalized parameter string.
pub open spec fn normalized_parameters(params: Seq<ParamText>) -> Seq<u8> {
    joined(signable(canonical_order(params)))
}

/// The signature base string.
pub open spec fn signature_base_string(
    method: Seq<char>,
    uri: Seq<char>,
    params: Seq<ParamText>,
) -> Seq<u8> {
    utf8(method) + seq![AMPERSAND] + percent_encoded(utf8(uri)) + seq![AMPERSAND]
        + percent_encoded(normalized_parameters(params))
}

/// The signing key.
pub open spec fn signing_key(consumer_secret: Seq<char>, token_secret: Option<Seq<char>>) -> Seq<
    u8,
> {
    percent_encoded(utf8(consumer_secret)) + seq![AMPERSAND] + match token_secret {
        Some(secret) => percent_encoded(utf8(secret)),
        None => Seq::empty(),
    }
}

/// The signature of a request.
pub open spec fn signature(
    method: Seq<char>,
    uri: Seq<char>,
    params: Seq<ParamText>,
    consumer_secret: Seq<char>,
    token_secret: Option<Seq<char>>,
) -> Seq<char> {
    base64_text(
        hmac_sha1_digest(
            signing_key(consumer_secret, token_secret),
            signature_base_string(method, uri, params),
        ),
    )
}

/// The text of an optional text.
pub open spec fn optional_text(text: Option<&str>) -> Option<Seq<char>> {
    match text {
        Some(t) => Some(t@),
        None => None,
    }
}

/// `Hmac::<Sha1>::new_from_slice`, `Mac::update` and `Mac::finalize` of the
/// hmac crate, on one key and one message. The code that they give is named
/// `hmac_sha1_digest`; it has the 20 bytes of a SHA-1 output. The crate's
/// HMAC takes a key of any length, so a code always comes back.
#[verifier::external_body]
fn hmac_sha1(key: &[u8], message: &[u8]) -> (code: Option<Vec<u8>>)
    ensures
        code is Some,
        code->0@ == hmac_sha1_digest(key@, message@),
        code->0@.len() == 20,
{
    match hmac::Hmac::<sha1::Sha1>::new_from_slice(key) {
        Ok(mut mac) => {
            mac.update(message);
            Some(mac.finalize().into_bytes().to_vec())
        },
        Err(_) => None,
    }
}

/// `BASE64.encode` of the data_encoding crate: the padded base64 text of the
/// bytes by RFC 4648, section 4, which `base64_text` writes out. The crate
/// may panic on an input longer than a 512th of the address space.
#[verifier::external_body]
fn base64_encode(bytes: &[u8]) -> (text: String)
    requires
        bytes@.len() <= usize::MAX / 512,
    ensures
        text@ == base64_text(bytes@),
{
    data_encoding::BASE64.encode(bytes)
}

/// Whether a parameter of this name is left out of the signature.
pub fn excluded_from_signature(name: &str) -> (r: bool)
    ensures
        r == is_excluded(name@),
{
    same_text(name, "photo")
}

/// The normalized parameter string of parameters that are in canonical order.
fn join_signable(params: &Vec<(&'static str, String)>) -> (out: Vec<u8>)
    ensures
        out@ == joined(signable(params.deep_view())),
{
    let ghost texts = params.deep_view();
    let mut out: Vec<u8> = Vec::new();
    let mut first = true;
    let mut i: usize = 0;
    proof {
        assert(texts.take(0) =~= Seq::<ParamText>::empty());
    }
    while i < params.len()
        invariant
            i <= params.len(),
            texts == params.deep_view(),
            first == (signable(texts.take(i as int)).len() == 0),
            out@ == joined(signable(texts.take(i as int))),
        decreases params.len() - i,
    {
        let name: &'static str = params[i].0;
        let ghost done = signable(texts.take(i as int));
        proof {
            assert(texts.take(i + 1).drop_last() =~= texts.take(i as int));
            assert(texts.take(i + 1).last() == texts[i as int]);
            assert(texts[i as int] == (name@, params@[i as int].1@));
        }
        if !excluded_from_signature(name) {
            if !first {
                out.push(AMPERSAND);
            }
            percent_encode_into(name.as_bytes(), &mut out);
            out.push(EQUALS);
            percent_encode_into(params[i].1.as_str().as_bytes(), &mut out);
            first = false;
            proof {
                let now = done.push(texts[i as int]);
                assert(signable(texts.take(i + 1)) == now);
                assert(now.drop_last() =~= done);
                assert(now.last() == texts[i as int]);
                assert(out@ =~= joined(now));
            }
        }
        i += 1;
    }
    proof {
        assert(texts.take(params.len() as int) =~= texts);
    }
    out
}

/// The signature base string of a request whose parameters are in canonical
/// order.
fn base_string_of_sorted(target: &RequestTarget, sorted: &Vec<(&'static str, String)>) -> (out:
    Vec<u8>)
    requires
        canonical_order(sorted.deep_view()) == sorted.deep_view(),
    ensures
        out@ == signature_base_string(
            target.method_text(),
            target.uri_text(),
            sorted.deep_view(),
        ),
{
    let normalized = join_signable(sorted);
    let mut out: Vec<u8> = Vec::new();
    out.extend_from_slice(target.method().as_bytes());
    out.push(AMPERSAND);
    percent_encode_into(target.uri().as_bytes(), &mut out);
    out.push(AMPERSAND);
    percent_encode_into(normalized.as_slice(), &mut out);
    proof {
        assert(out@ =~= signature_base_string(
            target.method_text(),
            target.uri_text(),
            sorted.deep_view(),
        ));
    }
    out
}

/// The signing key for a consumer secret and, where there is a token, its
/// secret.
pub fn make_signing_key(consumer_secret: &str, token_secret: Option<&str>) -> (key: Vec<u8>)
    ensures
        key@ == signing_key(consumer_secret@, optional_text(token_secret)),
{
    let mut key: Vec<u8> = Vec::new();
    percent_encode_into(consumer_secret.as_bytes(), &mut key);
    key.push(AMPERSAND);
    match token_secret {
        Some(secret) => {
            percent_encode_into(secret.as_bytes(), &mut key);
        },
        None => {},
    }
    proof {
        assert(key@ =~= signing_key(consumer_secret@, optional_text(token_secret)));
    }
    key
}

/// The signature of a request whose parameters are in canonical order.
pub(crate) fn sign_sorted(
    target: &RequestTarget,
    sorted: &Vec<(&'static str, String)>,
    consumer_secret: &str,
    token_secret: Option<&str>,
) -> (text: String)
    requires
        canonical_order(sorted.deep_view()) == sorted.deep_view(),
    ensures
        text@ == signature(
            target.method_text(),
            target.uri_text(),
            sorted.deep_view(),
            consumer_secret@,
            optional_text(token_secret),
        ),
        text@.len() == 28,
{
    let base = base_string_of_sorted(target, sorted);
    let key = make_signing_key(consumer_secret, token_secret);
    match hmac_sha1(key.as_slice(), base.as_slice()) {
        Some(code) => {
            proof {
                lemma_base64_len(code@);
            }
            base64_encode(code.as_slice())
        },
        // HMAC takes a key of any length: this arm is never taken.
        None => String::new(),
    }
}

/// The signature base string of a request.
pub fn base_string(target: &RequestTarget, params: &Vec<(&'static str, String)>) -> (out: Vec<u8>)
    ensures
        out@ == signature_base_string(
            target.method_text(),
            target.uri_text(),
            params.deep_view(),
        ),
{
    let mut sorted = clone_params(params);
    sort_params(&mut sorted);
    proof {
        lemma_canonical_order_idempotent(params.deep_view());
    }
    base_string_of_sorted(target, &sorted)
}

/// The signature of a request: of its method, its target URI and its
/// parameters, under the consumer secret and the token secret.
pub fn compute_signature(
    target: &RequestTarget,
    params: &Vec<(&'static str, String)>,
    consumer_secret: &str,
    token_secret: Option<&str>,
) -> (text: String)
    ensures
        text@ == signature(
            target.method_text(),
            target.uri_text(),
            params.deep_view(),
            consumer_secret@,
            optional_text(token_secret),
        ),
        text@.len() == 28,
{
    let mut sorted = clone_params(params);
    sort_params(&mut sorted);
    proof {
        lemma_canonical_order_idempotent(params.deep_view());
    }
    sign_sorted(target, &sorted, consumer_secret, token_secret)
}

/// A copy of the parameters.
pub fn clone_params(params: &Vec<(&'static str, String)>) -> (copy: Vec<(&'static str, String)>)
    ensures
        copy.deep_view() == params.deep_view(),
{
    let mut copy: Vec<(&'static str, String)> = Vec::new();
    let mut i: usize = 0;
    while i < params.len()
        invariant
            i <= params.len(),
            copy.deep_view() == params.deep_view().take(i as int),
        decreases params.len() - i,
    {
        let ghost before = copy.deep_view();
        copy.push((params[i].0, params[i].1.clone()));
        proof {
            assert(copy.deep_view() =~= before.push(params.deep_view()[i as int]));
            assert(params.deep_view().take(i + 1) =~= before.push(params.deep_view()[i as int]));
        }
        i += 1;
    }
    proof {
        assert(params.deep_view().take(params.len() as int) =~= params.deep_view());
    }
    copy
}

/// The same request, with its parameters given in another order, has the same
/// normalized parameters, the same base string and the same signature.
pub proof fn lemma_signature_ignores_parameter_order(
    method: Seq<char>,
    uri: Seq<char>,
    a: Seq<ParamText>,
    b: Seq<ParamText>,
    consumer_secret: Seq<char>,
    token_secret: Option<Seq<char>>,
)
    requires
        a.to_multiset() == b.to_multiset(),
    ensures
        normalized_parameters(a) == normalized_parameters(b),
        signature_base_string(method, uri, a) == signature_base_string(method, uri, b),
        signature(method, uri, a, consumer_secret, token_secret) == signature(
            method,
            uri,
            b,
            consumer_secret,
            token_secret,
        ),
{
    lemma_canonical_order_of_permutation(a, b);
}

/// The signature is a function of the method, the target URI, the parameters
/// and the two secrets: equal inputs give equal signatures.
pub proof fn lemma_signature_deterministic(
    method_a: Seq<char>,
    uri_a: Seq<char>,
    params_a: Seq<ParamText>,
    consumer_secret_a: Seq<char>,
    token_secret_a: Option<Seq<char>>,
    method_b: Seq<char>,
    uri_b: Seq<char>,
    params_b: Seq<ParamText>,
    consumer_secret_b: Seq<char>,
    token_secret_b: Option<Seq<char>>,
)
    requires
        method_a == method_b,
        uri_a == uri_b,
        params_a == params_b,
        consumer_secret_a == consumer_secret_b,
        token_secret_a == token_secret_b,
    ensures
        signature(method_a, uri_a, params_a, consumer_secret_a, token_secret_a) == signature(
            method_b,
            uri_b,
            params_b,
            consumer_secret_b,
            token_secret_b,
        ),
{
}

/// A string that ends in a part without the mark splits at its last mark in
/// one way only.
proof fn lemma_split_at_last(a: Seq<u8>, s: Seq<u8>, b: Seq<u8>, t: Seq<u8>, mark: u8)
    requires
        a + seq![mark] + s == b + seq![mark] + t,
        forall|i: int| 0 <= i < s.len() ==> s[i] != mark,
        forall|i: int| 0 <= i < t.len() ==> t[i] != mark,
    ensures
        a == b,
        s == t,
{
    let left = a + seq![mark] + s;
    let right = b + seq![mark] + t;
    assert(left.len() == right.len());
    assert(left[a.len() as int] == mark);
    assert(right[b.len() as int] == mark);
    if a.len() > b.len() {
        assert(right[a.len() as int] == t[a.len() - b.len() - 1]);
    } else if a.len() < b.len() {
        assert(left[b.len() as int] == s[b.len() - a.len() - 1]);
    }
    assert(a =~= left.take(a.len() as int));
    assert(b =~= right.take(b.len() as int));
    assert(s =~= left.skip(a.len() as int + 1));
    assert(t =~= right.skip(b.len() as int + 1));
}

/// A string that starts with a part without the mark splits at its first
/// mark in one way only.
proof fn lemma_split_at_first(a: Seq<u8>, s: Seq<u8>, b: Seq<u8>, t: Seq<u8>, mark: u8)
    requires
        a + seq![mark] + s == b + seq![mark] + t,
        forall|i: int| 0 <= i < a.len() ==> a[i] != mark,
        forall|i: int| 0 <= i < b.len() ==> b[i] != mark,
    ensures
        a == b,
        s == t,
{
    let left = a + seq![mark] + s;
    let right = b + seq![mark] + t;
    assert(left.len() == right.len());
    assert(left[a.len() as int] == mark);
    assert(right[b.len() as int] == mark);
    if a.len() > b.len() {
        assert(left[b.len() as int] == a[b.len() as int]);
    } else if a.len() < b.len() {
        assert(right[a.len() as int] == b[a.len() as int]);
    }
    assert(a =~= left.take(a.len() as int));
    assert(b =~= right.take(b.len() as int));
    assert(s =~= left.skip(a.len() as int + 1));
    assert(t =~= right.skip(b.len() as int + 1));
}

/// A strict text holds neither `&` nor `=`.
proof fn lemma_strict_text_has_no_mark(text: Seq<u8>)
    requires
        is_strict_text(text),
    ensures
        forall|i: int| 0 <= i < text.len() ==> text[i] != AMPERSAND && text[i] != EQUALS,
{
    assert forall|i: int| 0 <= i < text.len() implies text[i] != AMPERSAND && text[i]
        != EQUALS by {
        assert(crate::encoding::is_unreserved(text[i]) || text[i] == crate::encoding::PERCENT);
    }
}

/// A written parameter is not empty and holds no `&`.
proof fn lemma_pair_text_has_no_ampersand(p: ParamText)
    ensures
        forall|i: int| 0 <= i < pair_text(p).len() ==> pair_text(p)[i] != AMPERSAND,
        pair_text(p).len() > 0,
{
    let name = percent_encoded(utf8(p.0));
    let value = percent_encoded(utf8(p.1));
    lemma_encoded_is_strict(utf8(p.0));
    lemma_encoded_is_strict(utf8(p.1));
    lemma_strict_text_has_no_mark(name);
    lemma_strict_text_has_no_mark(value);
    assert forall|i: int| 0 <= i < pair_text(p).len() implies pair_text(p)[i] != AMPERSAND by {
        if i < name.len() {
            assert(pair_text(p)[i] == name[i]);
        } else if i == name.len() {
            assert(pair_text(p)[i] == EQUALS);
        } else {
            assert(pair_text(p)[i] == value[i - name.len() - 1]);
        }
    }
}

/// Different parameters are written differently.
pub proof fn lemma_pair_text_injective(p: ParamText, q: ParamText)
    requires
        pair_text(p) == pair_text(q),
    ensures
        p == q,
{
    lemma_encoded_is_strict(utf8(p.0));
    lemma_encoded_is_strict(utf8(q.0));
    lemma_strict_text_has_no_mark(percent_encoded(utf8(p.0)));
    lemma_strict_text_has_no_mark(percent_encoded(utf8(q.0)));
    lemma_split_at_first(
        percent_encoded(utf8(p.0)),
        percent_encoded(utf8(p.1)),
        percent_encoded(utf8(q.0)),
        percent_encoded(utf8(q.1)),
        EQUALS,
    );
    crate::canonical::lemma_param_key_injective(p, q);
}

/// Where the joined parameters hold their `&`: none for one parameter, and
/// for more one before the last parameter.
proof fn lemma_joined_shape(params: Seq<ParamText>)
    ensures
        params.len() == 0 ==> joined(params).len() == 0,
        params.len() > 0 ==> joined(params).len() > 0,
        params.len() == 1 ==> forall|i: int|
            0 <= i < joined(params).len() ==> joined(params)[i] != AMPERSAND,
        params.len() >= 2 ==> joined(params)[joined(params.drop_last()).len() as int]
            == AMPERSAND,
{
    if params.len() > 0 {
        lemma_pair_text_has_no_ampersand(params.last());
        lemma_pair_text_has_no_ampersand(params[0]);
    }
}

/// Different sequences of parameters are joined to different strings.
pub proof fn lemma_joined_injective(a: Seq<ParamText>, b: Seq<ParamText>)
    requires
        joined(a) == joined(b),
    ensures
        a == b,
    decreases a.len(),
{
    lemma_joined_shape(a);
    lemma_joined_shape(b);
    if a.len() == 0 || b.len() == 0 {
        assert(a =~= b);
    } else if a.len() == 1 || b.len() == 1 {
        if a.len() >= 2 {
            assert(false);
        }
        if b.len() >= 2 {
            assert(false);
        }
        lemma_pair_text_injective(a[0], b[0]);
        assert(a =~= b);
    } else {
        lemma_pair_text_has_no_ampersand(a.last());
        lemma_pair_text_has_no_ampersand(b.last());
        lemma_split_at_last(
            joined(a.drop_last()),
            pair_text(a.last()),
            joined(b.drop_last()),
            pair_text(b.last()),
            AMPERSAND,
        );
        lemma_pair_text_injective(a.last(), b.last());
        lemma_joined_injective(a.drop_last(), b.drop_last());
        assert(a =~= a.drop_last().push(a.last()));
        assert(b =~= b.drop_last().push(b.last()));
    }
}

/// The base string tells the signed parameters: two requests with the same
/// method and target whose base strings are equal have the same signable
/// parameters. So a request in which a signable parameter is changed, added
/// or removed has another base string.
pub proof fn lemma_base_string_tells_parameters(
    method: Seq<char>,
    uri: Seq<char>,
    a: Seq<ParamText>,
    b: Seq<ParamText>,
)
    requires
        signature_base_string(method, uri, a) == signature_base_string(method, uri, b),
    ensures
        signable(canonical_order(a)) == signable(canonical_order(b)),
{
    let head = utf8(method) + seq![AMPERSAND] + percent_encoded(utf8(uri)) + seq![AMPERSAND];
    let left = percent_encoded(normalized_parameters(a));
    let right = percent_encoded(normalized_parameters(b));
    assert(signature_base_string(method, uri, a) == head + left);
    assert(signature_base_string(method, uri, b) == head + right);
    assert(left =~= (head + left).skip(head.len() as int));
    assert(right =~= (head + right).skip(head.len() as int));
    lemma_encoding_injective(normalized_parameters(a), normalized_parameters(b));
    lemma_joined_injective(signable(canonical_order(a)), signable(canonical_order(b)));
}

/// The secret of an optional token; empty where there is no token.
pub open spec fn secret_or_empty(token_secret: Option<Seq<char>>) -> Seq<char> {
    match token_secret {
        Some(secret) => secret,
        None => Seq::empty(),
    }
}

/// The signing key tells the secrets: equal keys are made of the same
/// consumer secret and the same token secret, where no token counts as an
/// empty secret. So another secret gives another key.
pub proof fn lemma_signing_key_tells_secrets(
    consumer_a: Seq<char>,
    token_a: Option<Seq<char>>,
    consumer_b: Seq<char>,
    token_b: Option<Seq<char>>,
)
    requires
        signing_key(consumer_a, token_a) == signing_key(consumer_b, token_b),
    ensures
        consumer_a == consumer_b,
        secret_or_empty(token_a) == secret_or_empty(token_b),
{
    let a = (consumer_a, secret_or_empty(token_a));
    let b = (consumer_b, secret_or_empty(token_b));
    assert(utf8(Seq::<char>::empty()) == Seq::<u8>::empty());
    assert(percent_encoded(Seq::<u8>::empty()) == Seq::<u8>::empty());
    assert(signing_key(consumer_a, token_a) == percent_encoded(utf8(a.0)) + seq![AMPERSAND]
        + percent_encoded(utf8(a.1)));
    assert(signing_key(consumer_b, token_b) == percent_encoded(utf8(b.0)) + seq![AMPERSAND]
        + percent_encoded(utf8(b.1)));
    lemma_encoded_is_strict(utf8(a.0));
    lemma_encoded_is_strict(utf8(b.0));
    lemma_strict_text_has_no_mark(percent_encoded(utf8(a.0)));
    lemma_strict_text_has_no_mark(percent_encoded(utf8(b.0)));
    lemma_split_at_first(
        percent_encoded(utf8(a.0)),
        percent_encoded(utf8(a.1)),
        percent_encoded(utf8(b.0)),
        percent_encoded(utf8(b.1)),
        AMPERSAND,
    );
    crate::canonical::lemma_param_key_injective(a, b);
}

} // verus!
