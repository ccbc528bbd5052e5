//! The canonical order of request parameters: by percent-encoded name, then
//! by percent-encoded value, each compared byte by byte.

use crate::encoding::{lemma_encoding_injective, percent_encode, percent_encoded};
use vstd::prelude::*;
use vstd::relations::{sorted_by, total_ordering};
use vstd::seq_lib::{lemma_multiset_commutative, lemma_sorted_unique};

verus! {

/// A request parameter as text: its name and its value.
pub type ParamText = (Seq<char>, Seq<char>);

/// The two encoded byte strings by which a parameter is ordered.
pub type ParamKey = (Seq<u8>, Seq<u8>);

/// The bytes of a text in UTF-8.
pub open spec fn utf8(text: Seq<char>) -> Seq<u8> {
    vstd::utf8::encode_utf8(text)
}

/// `a` comes no later than `b` in the lexicographic order of byte strings.
pub open spec fn bytes_le(a: Seq<u8>, b: Seq<u8>) -> bool
    decreases a.len(),
{
    if a.len() == 0 {
        true
    } else if b.len() == 0 {
        false
    } else if a[0] == b[0] {
        bytes_le(a.drop_first(), b.drop_first())
    } else {
        a[0] < b[0]
    }
}

/// The order of keys: by the first byte string, then by the second.
pub open spec fn key_le(a: ParamKey, b: ParamKey) -> bool {
    if a.0 == b.0 {
        bytes_le(a.1, b.1)
    } else {
        bytes_le(a.0, b.0)
    }
}

/// The key of a parameter: its encoded name and its encoded value.
pub open spec fn param_key(p: ParamText) -> ParamKey {
    (percent_encoded(utf8(p.0)), percent_encoded(utf8(p.1)))
}

/// `a` comes no later than `b` in the canonical order of parameters.
pub open spec fn precedes(a: ParamText, b: ParamText) -> bool {
    key_le(param_key(a), param_key(b))
}

/// The canonical order as a relation.
pub open spec fn param_order() -> spec_fn(ParamText, ParamText) -> bool {
    |a: ParamText, b: ParamText| precedes(a, b)
}

/// The parameters in canonical order.
pub open spec fn canonical_order(params: Seq<ParamText>) -> Seq<ParamText> {
    params.sort_by(param_order())
}

/// Every byte string comes no later than itself.
pub proof fn lemma_bytes_le_reflexive(a: Seq<u8>)
    ensures
        bytes_le(a, a),
    decreases a.len(),
{
    if a.len() > 0 {
        lemma_bytes_le_reflexive(a.drop_first());
    }
}

/// Of two byte strings, one comes no later than the other.
pub proof fn lemma_bytes_le_total(a: Seq<u8>, b: Seq<u8>)
    ensures
        bytes_le(a, b) || bytes_le(b, a),
    decreases a.len(),
{
    if a.len() > 0 && b.len() > 0 && a[0] == b[0] {
        lemma_bytes_le_total(a.drop_first(), b.drop_first());
    }
}

/// Two byte strings of which each comes no later than the other are equal.
pub proof fn lemma_bytes_le_antisymmetric(a: Seq<u8>, b: Seq<u8>)
    requires
        bytes_le(a, b),
        bytes_le(b, a),
    ensures
        a == b,
    decreases a.len(),
{
    if a.len() == 0 || b.len() == 0 {
        assert(a =~= b);
    } else {
        lemma_bytes_le_antisymmetric(a.drop_first(), b.drop_first());
        assert(a =~= seq![a[0]] + a.drop_first());
        assert(b =~= seq![b[0]] + b.drop_first());
    }
}

/// The order of byte strings is transitive.
pub proof fn lemma_bytes_le_transitive(a: Seq<u8>, b: Seq<u8>, c: Seq<u8>)
    requires
        bytes_le(a, b),
        bytes_le(b, c),
    ensures
        bytes_le(a, c),
    decreases a.len(),
{
    if a.len() > 0 && b.len() > 0 && c.len() > 0 && a[0] == b[0] && b[0] == c[0] {
        lemma_bytes_le_transitive(a.drop_first(), b.drop_first(), c.drop_first());
    }
}

/// Of two keys, one comes no later than the other.
pub proof fn lemma_key_le_total(a: ParamKey, b: ParamKey)
    ensures
        key_le(a, b) || key_le(b, a),
{
    lemma_bytes_le_total(a.0, b.0);
    lemma_bytes_le_total(a.1, b.1);
}

/// Two keys of which each comes no later than the other are equal.
pub proof fn lemma_key_le_antisymmetric(a: ParamKey, b: ParamKey)
    requires
        key_le(a, b),
        key_le(b, a),
    ensures
        a == b,
{
    if a.0 == b.0 {
        lemma_bytes_le_antisymmetric(a.1, b.1);
    } else {
        lemma_bytes_le_antisymmetric(a.0, b.0);
    }
}

/// The order of keys is transitive.
pub proof fn lemma_key_le_transitive(a: ParamKey, b: ParamKey, c: ParamKey)
    requires
        key_le(a, b),
        key_le(b, c),
    ensures
        key_le(a, c),
{
    if a.0 == b.0 {
        if b.0 == c.0 {
            lemma_bytes_le_transitive(a.1, b.1, c.1);
        }
    } else if b.0 == c.0 {
    } else {
        lemma_bytes_le_transitive(a.0, b.0, c.0);
        if a.0 == c.0 {
            lemma_bytes_le_antisymmetric(a.0, b.0);
        }
    }
}

/// Different parameters have different keys.
pub proof fn lemma_param_key_injective(a: ParamText, b: ParamText)
    requires
        param_key(a) == param_key(b),
    ensures
        a == b,
{
    lemma_encoding_injective(utf8(a.0), utf8(b.0));
    lemma_encoding_injective(utf8(a.1), utf8(b.1));
    vstd::utf8::encode_utf8_decode_utf8(a.0);
    vstd::utf8::encode_utf8_decode_utf8(b.0);
    vstd::utf8::encode_utf8_decode_utf8(a.1);
    vstd::utf8::encode_utf8_decode_utf8(b.1);
}

/// The canonical order is a total order: any two parameters compare, and
/// only equal parameters compare both ways.
pub proof fn lemma_param_order_total()
    ensures
        total_ordering(param_order()),
{
    let r = param_order();
    assert forall|x: ParamText| #[trigger] r(x, x) by {
        lemma_bytes_le_reflexive(param_key(x).1);
    }
    assert forall|x: ParamText, y: ParamText| #[trigger] r(x, y) && #[trigger] r(y, x) implies x
        == y by {
        lemma_key_le_antisymmetric(param_key(x), param_key(y));
        lemma_param_key_injective(x, y);
    }
    assert forall|x: ParamText, y: ParamText, z: ParamText| #[trigger]
        r(x, y) && #[trigger] r(y, z) implies r(x, z) by {
        lemma_key_le_transitive(param_key(x), param_key(y), param_key(z));
    }
    assert forall|x: ParamText, y: ParamText| #[trigger] r(x, y) || #[trigger] r(y, x) by {
        lemma_key_le_total(param_key(x), param_key(y));
    }
}

/// A sequence in canonical order that holds the same parameters as `params`,
/// each as often, is the canonical order of `params`.
pub proof fn lemma_canonical_order_unique(sorted: Seq<ParamText>, params: Seq<ParamText>)
    requires
        sorted_by(sorted, param_order()),
        sorted.to_multiset() == params.to_multiset(),
    ensures
        sorted == canonical_order(params),
{
    lemma_param_order_total();
    params.lemma_sort_by_ensures(param_order());
    lemma_sorted_unique(sorted, canonical_order(params), param_order());
}

/// The canonical order does not depend on the order in which the parameters
/// were given: two sequences that hold the same parameters, each as often,
/// have the same canonical order.
pub proof fn lemma_canonical_order_of_permutation(a: Seq<ParamText>, b: Seq<ParamText>)
    requires
        a.to_multiset() == b.to_multiset(),
    ensures
        canonical_order(a) == canonical_order(b),
{
    lemma_param_order_total();
    a.lemma_sort_by_ensures(param_order());
    lemma_canonical_order_unique(canonical_order(a), b);
}

/// Putting parameters that are in canonical order into canonical order
/// changes nothing.
pub proof fn lemma_canonical_order_idempotent(params: Seq<ParamText>)
    ensures
        canonical_order(canonical_order(params)) == canonical_order(params),
{
    lemma_param_order_total();
    params.lemma_sort_by_ensures(param_order());
    lemma_canonical_order_unique(canonical_order(params), canonical_order(params));
}

/// The canonical order holds the parameters that were given, and as many.
pub proof fn lemma_canonical_order_keeps(params: Seq<ParamText>, p: ParamText)
    ensures
        canonical_order(params).contains(p) == params.contains(p),
        canonical_order(params).len() == params.len(),
{
    lemma_param_order_total();
    params.lemma_sort_by_ensures(param_order());
    params.to_multiset_ensures();
    canonical_order(params).to_multiset_ensures();
    assert(params.contains(p) <==> params.to_multiset().count(p) > 0);
    assert(canonical_order(params).contains(p) <==> canonical_order(params).to_multiset().count(p)
        > 0);
}

/// Inserting an element anywhere adds it to the elements once.
proof fn lemma_insert_to_multiset<A>(s: Seq<A>, pos: int, x: A)
    requires
        0 <= pos <= s.len(),
    ensures
        s.insert(pos, x).to_multiset() == s.to_multiset().insert(x),
{
    broadcast use vstd::seq_lib::group_to_multiset_ensures;

    let left = s.subrange(0, pos);
    let right = s.subrange(pos, s.len() as int);
    assert(s == left + right);
    lemma_multiset_commutative(left, right);
    lemma_multiset_commutative(left.push(x), right);
    assert(s.insert(pos, x).to_multiset() =~= s.to_multiset().insert(x));
}

/// Whether `a` comes no later than `b` in the lexicographic order.
fn bytes_no_later(a: &[u8], b: &[u8]) -> (r: bool)
    ensures
        r == bytes_le(a@, b@),
{
    let mut i: usize = 0;
    proof {
        assert(a@.skip(0) == a@);
        assert(b@.skip(0) == b@);
    }
    while i < a.len() && i < b.len() && a[i] == b[i]
        invariant
            i <= a.len(),
            i <= b.len(),
            bytes_le(a@, b@) == bytes_le(a@.skip(i as int), b@.skip(i as int)),
        decreases a.len() - i,
    {
        proof {
            assert(a@.skip(i as int).drop_first() == a@.skip(i + 1));
            assert(b@.skip(i as int).drop_first() == b@.skip(i + 1));
        }
        i += 1;
    }
    if i >= a.len() {
        true
    } else if i >= b.len() {
        false
    } else {
        a[i] < b[i]
    }
}

/// Whether the key `a` comes no later than the key `b`.
fn key_no_later(a: &(Vec<u8>, Vec<u8>), b: &(Vec<u8>, Vec<u8>)) -> (r: bool)
    ensures
        r == key_le((a.0@, a.1@), (b.0@, b.1@)),
{
    if bytes_no_later(a.0.as_slice(), b.0.as_slice()) {
        if bytes_no_later(b.0.as_slice(), a.0.as_slice()) {
            proof {
                lemma_bytes_le_antisymmetric(a.0@, b.0@);
            }
            bytes_no_later(a.1.as_slice(), b.1.as_slice())
        } else {
            proof {
                if a.0@ == b.0@ {
                    lemma_bytes_le_reflexive(a.0@);
                }
            }
            true
        }
    } else {
        proof {
            if a.0@ == b.0@ {
                lemma_bytes_le_reflexive(a.0@);
            }
        }
        false
    }
}

/// Puts the parameters into canonical order.
pub fn sort_params(params: &mut Vec<(&'static str, String)>)
    ensures
        final(params).deep_view() == canonical_order(old(params).deep_view()),
{
    let ghost given = params.deep_view();
    let mut sorted: Vec<(&'static str, String)> = Vec::new();
    let mut keys: Vec<(Vec<u8>, Vec<u8>)> = Vec::new();
    let mut i: usize = 0;
    proof {
        assert(given.take(0) =~= sorted.deep_view());
    }
    while i < params.len()
        invariant
            i <= params.len(),
            params.deep_view() == given,
            keys.len() == sorted.len(),
            forall|j: int|
                0 <= j < keys.len() ==> (#[trigger] keys@[j].0@, keys@[j].1@) == param_key(
                    sorted.deep_view()[j],
                ),
            sorted_by(sorted.deep_view(), param_order()),
            sorted.deep_view().to_multiset() == given.take(i as int).to_multiset(),
        decreases params.len() - i,
    {
        let name: &'static str = params[i].0;
        let value: String = params[i].1.clone();
        let key = (percent_encode(name.as_bytes()), percent_encode(value.as_str().as_bytes()));
        let ghost item: ParamText = (name@, value@);
        let ghost before = sorted.deep_view();
        proof {
            assert(item == given[i as int]);
            assert((key.0@, key.1@) == param_key(item));
        }
        let mut pos: usize = 0;
        while pos < keys.len() && key_no_later(&keys[pos], &key)
            invariant
                pos <= keys.len(),
                keys.len() == sorted.len(),
                before == sorted.deep_view(),
                (key.0@, key.1@) == param_key(item),
                forall|j: int|
                    0 <= j < keys.len() ==> (#[trigger] keys@[j].0@, keys@[j].1@) == param_key(
                        before[j],
                    ),
                forall|j: int| 0 <= j < pos ==> precedes(#[trigger] before[j], item),
            decreases keys.len() - pos,
        {
            pos += 1;
        }
        proof {
            lemma_param_order_total();
            assert forall|j: int| pos <= j < before.len() implies precedes(
                item,
                #[trigger] before[j],
            ) by {
                lemma_key_le_total(param_key(before[pos as int]), param_key(item));
                assert(precedes(item, before[pos as int]));
                if j > pos {
                    assert(param_order()(before[pos as int], before[j]));
                    lemma_key_le_transitive(
                        param_key(item),
                        param_key(before[pos as int]),
                        param_key(before[j]),
                    );
                }
            }
        }
        let ghost keys_before = keys@;
        let ghost key_view = key;
        sorted.insert(pos, (name, value));
        keys.insert(pos, key);
        proof {
            let after = sorted.deep_view();
            assert(after =~= before.insert(pos as int, item));
            assert forall|a: int, b: int| 0 <= a < b < after.len() implies #[trigger] param_order()(
                after[a],
                after[b],
            ) by {
                if b < pos {
                    assert(param_order()(before[a], before[b]));
                } else if b == pos {
                    assert(precedes(before[a], item));
                } else if a < pos {
                    assert(param_order()(before[a], before[b - 1]));
                } else if a == pos {
                    assert(precedes(item, before[b - 1]));
                } else {
                    assert(param_order()(before[a - 1], before[b - 1]));
                }
            }
            lemma_insert_to_multiset(before, pos as int, item);
            assert(given.take(i + 1) =~= given.take(i as int).push(item));
            vstd::seq_lib::to_multiset_build(given.take(i as int), item);
            assert forall|j: int| 0 <= j < keys.len() implies (#[trigger] keys@[j].0@, keys@[j].1@)
                == param_key(after[j]) by {
                if j < pos {
                    assert(keys@[j] == keys_before[j]);
                } else if j == pos {
                    assert(keys@[j] == key_view);
                } else {
                    assert(keys@[j] == keys_before[j - 1]);
                }
            }
        }
        i += 1;
    }
    proof {
        assert(given.take(params.len() as int) =~= given);
        lemma_canonical_order_unique(sorted.deep_view(), given);
    }
    *params = sorted;
}

} // verus!
