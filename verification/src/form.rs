//! Messages in the `application/x-www-form-urlencoded` syntax: the
//! provider's answers and the query of the callback are read as name and
//! value pairs, and requests are written as a URL with a query.

use crate::canonical::{utf8, ParamText};
use crate::text::same_text;
use vstd::prelude::*;

verus! {

/// The pairs that a message in form syntax holds, in the order in which it
/// holds them, names and values decoded.
pub uninterp spec fn form_pairs(input: Seq<char>) -> Seq<ParamText>;

/// The URL made of a base URL and the given pairs as its query; nothing
/// where the base is no absolute URL.
pub uninterp spec fn request_url(base: Seq<char>, pairs: Seq<ParamText>) -> Option<Seq<char>>;

/// The byte `#`, which starts the fragment of a URL.
pub const HASH: u8 = 0x23;

/// The longest base URL, in bytes, that a request is written for.
pub const MAX_BASE_LENGTH: usize = 65536;

/// Whether a request can be written for a base URL: it is no longer than
/// `MAX_BASE_LENGTH` and has no fragment.
pub open spec fn is_plain_base(base: Seq<char>) -> bool {
    utf8(base).len() <= MAX_BASE_LENGTH && !utf8(base).contains(HASH)
}

/// The URL of a request: the base URL with the pairs as its query. Nothing
/// is written for a base that is too long or has a fragment, nor for one
/// that is no absolute URL.
pub open spec fn written_url(base: Seq<char>, pairs: Seq<ParamText>) -> Option<Seq<char>> {
    if is_plain_base(base) {
        request_url(base, pairs)
    } else {
        None
    }
}

/// `form_urlencoded::parse` of the url crate, on the bytes of the message:
/// the pairs that it yields, named `form_pairs`.
#[verifier::external_body]
pub(crate) fn form_parse(input: &str) -> (pairs: Vec<(String, String)>)
    ensures
        pairs.deep_view() == form_pairs(input@),
{
    url::form_urlencoded::parse(input.as_bytes()).into_owned().collect()
}

/// `Url::parse_with_params` of the url crate: the URL as text, named
/// `request_url`, or nothing where the crate reports a parse error. The
/// crate keeps positions in 32 bits and panics where one does not fit: when
/// it puts a fragment back behind a query that has grown past that, and when
/// it starts a query behind a base that is longer than that. A short base
/// without a fragment reaches neither place.
#[verifier::external_body]
fn url_parse_with_params(base: &str, pairs: &Vec<(&'static str, String)>) -> (url: Option<String>)
    requires
        is_plain_base(base@),
    ensures
        match url {
            Some(text) => request_url(base@, pairs.deep_view()) == Some(text@),
            None => request_url(base@, pairs.deep_view()) is None,
        },
{
    match url::Url::parse_with_params(base, pairs) {
        Ok(parsed) => Some(String::from(parsed)),
        Err(_) => None,
    }
}

/// The text of an optional URL.
pub open spec fn url_text(url: Option<String>) -> Option<Seq<char>> {
    match url {
        Some(text) => Some(text@),
        None => None,
    }
}

/// Whether a byte occurs among the bytes.
fn holds_byte(bytes: &[u8], byte: u8) -> (r: bool)
    ensures
        r == bytes@.contains(byte),
{
    let mut i: usize = 0;
    while i < bytes.len()
        invariant
            i <= bytes.len(),
            forall|k: int| 0 <= k < i ==> bytes@[k] != byte,
        decreases bytes.len() - i,
    {
        if bytes[i] == byte {
            return true;
        }
        i += 1;
    }
    false
}

/// Writes the URL of a request: the base URL with the pairs as its query.
pub fn write_url(base: &str, pairs: &Vec<(&'static str, String)>) -> (url: Option<String>)
    ensures
        url_text(url) == written_url(base@, pairs.deep_view()),
{
    let bytes = base.as_bytes();
    if bytes.len() > MAX_BASE_LENGTH || holds_byte(bytes, HASH) {
        None
    } else {
        url_parse_with_params(base, pairs)
    }
}

/// How often a name occurs among the pairs.
pub open spec fn occurrences(pairs: Seq<ParamText>, name: Seq<char>) -> nat
    decreases pairs.len(),
{
    if pairs.len() == 0 {
        0
    } else if pairs.last().0 == name {
        occurrences(pairs.drop_last(), name) + 1
    } else {
        occurrences(pairs.drop_last(), name)
    }
}

/// The value of the last pair of the given name; the empty text where there
/// is none.
pub open spec fn value_of(pairs: Seq<ParamText>, name: Seq<char>) -> Seq<char>
    decreases pairs.len(),
{
    if pairs.len() == 0 {
        Seq::empty()
    } else if pairs.last().0 == name {
        pairs.last().1
    } else {
        value_of(pairs.drop_last(), name)
    }
}

/// What a message holds under one name.
pub enum Field {
    /// No pair has the name.
    Missing,
    /// One pair has the name, with this value.
    Single(String),
    /// Several pairs have the name.
    Repeated,
}

impl Field {
    /// Whether this is what `pairs` hold under `name`.
    pub open spec fn is_field_of(self, pairs: Seq<ParamText>, name: Seq<char>) -> bool {
        match self {
            Field::Missing => occurrences(pairs, name) == 0,
            Field::Single(value) => occurrences(pairs, name) == 1 && value@ == value_of(
                pairs,
                name,
            ),
            Field::Repeated => occurrences(pairs, name) >= 2,
        }
    }
}

/// What the pairs hold under a name.
pub fn field(pairs: &Vec<(String, String)>, name: &str) -> (found: Field)
    ensures
        found.is_field_of(pairs.deep_view(), name@),
{
    let ghost texts = pairs.deep_view();
    let mut found = Field::Missing;
    let mut i: usize = 0;
    proof {
        assert(texts.take(0) =~= Seq::<ParamText>::empty());
    }
    while i < pairs.len()
        invariant
            i <= pairs.len(),
            texts == pairs.deep_view(),
            found.is_field_of(texts.take(i as int), name@),
        decreases pairs.len() - i,
    {
        proof {
            assert(texts.take(i + 1).drop_last() =~= texts.take(i as int));
            assert(texts.take(i + 1).last() == texts[i as int]);
            assert(texts[i as int] == (pairs@[i as int].0@, pairs@[i as int].1@));
        }
        if same_text(pairs[i].0.as_str(), name) {
            found =
            match found {
                Field::Missing => Field::Single(pairs[i].1.clone()),
                Field::Single(_) => Field::Repeated,
                Field::Repeated => Field::Repeated,
            };
        }
        i += 1;
    }
    proof {
        assert(texts.take(pairs.len() as int) =~= texts);
    }
    found
}

/// A name that does not occur has the empty value.
pub proof fn lemma_absent_value(pairs: Seq<ParamText>, name: Seq<char>)
    requires
        occurrences(pairs, name) == 0,
    ensures
        value_of(pairs, name) == Seq::<char>::empty(),
    decreases pairs.len(),
{
    if pairs.len() > 0 {
        lemma_absent_value(pairs.drop_last(), name);
    }
}

/// The value under a name that occurs once; nothing where the name is
/// missing or repeated.
pub fn required_value(pairs: &Vec<(String, String)>, name: &str) -> (r: Option<String>)
    ensures
        match r {
            Some(value) => occurrences(pairs.deep_view(), name@) == 1 && value@ == value_of(
                pairs.deep_view(),
                name@,
            ),
            None => occurrences(pairs.deep_view(), name@) != 1,
        },
{
    match field(pairs, name) {
        Field::Single(value) => Some(value),
        _ => None,
    }
}

/// The value under a name that occurs at most once, empty where the name is
/// missing; nothing where the name is repeated.
pub fn optional_value(pairs: &Vec<(String, String)>, name: &str) -> (r: Option<String>)
    ensures
        match r {
            Some(value) => occurrences(pairs.deep_view(), name@) <= 1 && value@ == value_of(
                pairs.deep_view(),
                name@,
            ),
            None => occurrences(pairs.deep_view(), name@) >= 2,
        },
{
    match field(pairs, name) {
        Field::Missing => {
            proof {
                lemma_absent_value(pairs.deep_view(), name@);
            }
            Some(String::new())
        },
        Field::Single(value) => Some(value),
        Field::Repeated => None,
    }
}

/// The value of the last pair of a name; the empty text where the name is
/// missing.
pub fn last_value(pairs: &Vec<(String, String)>, name: &str) -> (value: String)
    ensures
        value@ == value_of(pairs.deep_view(), name@),
{
    let ghost texts = pairs.deep_view();
    let mut value = String::new();
    let mut i: usize = 0;
    proof {
        assert(texts.take(0) =~= Seq::<ParamText>::empty());
    }
    while i < pairs.len()
        invariant
            i <= pairs.len(),
            texts == pairs.deep_view(),
            value@ == value_of(texts.take(i as int), name@),
        decreases pairs.len() - i,
    {
        proof {
            assert(texts.take(i + 1).drop_last() =~= texts.take(i as int));
            assert(texts.take(i + 1).last() == texts[i as int]);
            assert(texts[i as int] == (pairs@[i as int].0@, pairs@[i as int].1@));
        }
        if same_text(pairs[i].0.as_str(), name) {
            value = pairs[i].1.clone();
        }
        i += 1;
    }
    proof {
        assert(texts.take(pairs.len() as int) =~= texts);
    }
    value
}

} // verus!
