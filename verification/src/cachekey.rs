//! Deterministic cache keys for GET responses.
//!
//! A key is the SHA-256 digest, in lowercase hex, of the request method,
//! path, and query parameters — the parameters canonicalized by sorting
//! them lexicographically by (name, value), so that equivalent requests
//! issued with parameters in different orders share one cache entry.

use vstd::prelude::*;

use sha2::Digest;

verus! {

use vstd::relations::total_ordering;
use vstd::seq_lib::lemma_sorted_unique;
use vstd::seq_lib::lemma_multiset_commutative;
use vstd::relations::sorted_by;
use vstd::multiset::Multiset;

/// Lexicographic order on character sequences, by code point.
pub open spec fn spec_lex_le(a: Seq<char>, b: Seq<char>) -> bool
    decreases a.len(),
{
    if a.len() == 0 {
        true
    } else if b.len() == 0 {
        false
    } else if a[0] == b[0] {
        spec_lex_le(a.drop_first(), b.drop_first())
    } else {
        (a[0] as int) < (b[0] as int)
    }
}

/// A query parameter as a pair of character sequences.
pub type PairView = (Seq<char>, Seq<char>);

/// Order on query parameters: by name, then by value.
pub open spec fn spec_pair_le(x: PairView, y: PairView) -> bool {
    if x.0 == y.0 {
        spec_lex_le(x.1, y.1)
    } else {
        spec_lex_le(x.0, y.0)
    }
}

/// The parameter order, as a relation value.
pub open spec fn pair_leq() -> spec_fn(PairView, PairView) -> bool {
    |x: PairView, y: PairView| spec_pair_le(x, y)
}

pub proof fn lemma_lex_le_refl(a: Seq<char>)
    ensures
        spec_lex_le(a, a),
    decreases a.len(),
{
    if a.len() > 0 {
        lemma_lex_le_refl(a.drop_first());
    }
}

pub proof fn lemma_lex_le_antisym(a: Seq<char>, b: Seq<char>)
    requires
        spec_lex_le(a, b),
        spec_lex_le(b, a),
    ensures
        a == b,
    decreases a.len(),
{
    if a.len() == 0 {
        assert(b.len() == 0);
        assert(a =~= b);
    } else {
        assert(b.len() > 0);
        assert(a[0] == b[0]);
        lemma_lex_le_antisym(a.drop_first(), b.drop_first());
        assert forall|i: int| 0 <= i < a.len() implies a[i] == b[i] by {
            if i > 0 {
                assert(a[i] == a.drop_first()[i - 1]);
                assert(b[i] == b.drop_first()[i - 1]);
            }
        }
        assert(a =~= b);
    }
}

pub proof fn lemma_lex_le_total(a: Seq<char>, b: Seq<char>)
    ensures
        spec_lex_le(a, b) || spec_lex_le(b, a),
    decreases a.len(),
{
    if a.len() > 0 && b.len() > 0 {
        if a[0] == b[0] {
            lemma_lex_le_total(a.drop_first(), b.drop_first());
        } else {
            assert((a[0] as int) != (b[0] as int));
        }
    }
}

pub proof fn lemma_lex_le_trans(a: Seq<char>, b: Seq<char>, c: Seq<char>)
    requires
        spec_lex_le(a, b),
        spec_lex_le(b, c),
    ensures
        spec_lex_le(a, c),
    decreases a.len(),
{
    if a.len() == 0 {
    } else {
        assert(b.len() > 0);
        if b.len() > 0 && c.len() > 0 {
            if a[0] == b[0] && b[0] == c[0] {
                lemma_lex_le_trans(a.drop_first(), b.drop_first(), c.drop_first());
            }
        }
    }
}

proof fn lemma_pair_le_total_ordering()
    ensures
        total_ordering(pair_leq()),
{
    let leq = pair_leq();
    assert forall|x: PairView| #[trigger] leq(x, x) by {
        lemma_lex_le_refl(x.0);
        lemma_lex_le_refl(x.1);
    }
    assert forall|x: PairView, y: PairView| #[trigger] leq(x, y) && #[trigger] leq(y, x) implies x
        == y by {
        if x.0 == y.0 {
            lemma_lex_le_antisym(x.1, y.1);
        } else {
            lemma_lex_le_antisym(x.0, y.0);
        }
    }
    assert forall|x: PairView, y: PairView, z: PairView|
        #[trigger] leq(x, y) && #[trigger] leq(y, z) implies leq(x, z) by {
        if x.0 == y.0 && y.0 == z.0 {
            lemma_lex_le_trans(x.1, y.1, z.1);
        } else if x.0 == y.0 {
            // key order decided between y and z
        } else if y.0 == z.0 {
        } else {
            lemma_lex_le_trans(x.0, y.0, z.0);
            if x.0 == z.0 {
                lemma_lex_le_antisym(x.0, y.0);
            }
        }
    }
    assert forall|x: PairView, y: PairView| #[trigger] leq(x, y) || #[trigger] leq(y, x) by {
        if x.0 == y.0 {
            lemma_lex_le_total(x.1, y.1);
        } else {
            lemma_lex_le_total(x.0, y.0);
        }
    }
}

/// The parameter order is a total order.
pub proof fn lemma_pair_le_total_ordering_pub()
    ensures
        total_ordering(pair_leq()),
{
    lemma_pair_le_total_ordering();
}

/// The views of a list of owned query parameters.
pub open spec fn pairs_view(q: Seq<(String, String)>) -> Seq<PairView> {
    Seq::new(q.len(), |i: int| (q[i].0@, q[i].1@))
}

proof fn lemma_lex_le_prefix(a: Seq<char>, b: Seq<char>, i: int)
    requires
        0 <= i <= a.len(),
        i <= b.len(),
        forall|j: int| 0 <= j < i ==> a[j] == b[j],
    ensures
        spec_lex_le(a, b) == spec_lex_le(a.skip(i), b.skip(i)),
    decreases i,
{
    if i > 0 {
        assert(a.len() > 0 && b.len() > 0);
        assert(a[0] == b[0]);
        assert forall|j: int| 0 <= j < i - 1 implies a.drop_first()[j] == b.drop_first()[j] by {
            assert(a.drop_first()[j] == a[j + 1]);
            assert(b.drop_first()[j] == b[j + 1]);
        }
        lemma_lex_le_prefix(a.drop_first(), b.drop_first(), i - 1);
        assert(a.drop_first().skip(i - 1) =~= a.skip(i));
        assert(b.drop_first().skip(i - 1) =~= b.skip(i));
    } else {
        assert(a.skip(0) =~= a);
        assert(b.skip(0) =~= b);
    }
}

/// Compare two strings in the lexicographic order.
pub fn lex_le(a: &str, b: &str) -> (r: bool)
    ensures
        r == spec_lex_le(a@, b@),
{
    let av = crate::text::str_to_chars(a);
    let bv = crate::text::str_to_chars(b);
    let alen = av.len();
    let blen = bv.len();
    let mut i: usize = 0;
    loop
        invariant
            av@ == a@,
            bv@ == b@,
            0 <= i <= av@.len(),
            i <= bv@.len(),
            av@.len() <= usize::MAX,
            bv@.len() <= usize::MAX,
            forall|j: int| 0 <= j < i ==> av@[j] == bv@[j],
        decreases av@.len() - i,
    {
        proof {
            lemma_lex_le_prefix(a@, b@, i as int);
        }
        if i == av.len() {
            assert(a@.skip(i as int).len() == 0);
            return true;
        }
        if i == bv.len() {
            assert(b@.skip(i as int).len() == 0);
            assert(a@.skip(i as int).len() > 0);
            return false;
        }
        let ca = av[i];
        let cb = bv[i];
        if ca != cb {
            proof {
                assert(a@.skip(i as int)[0] == a@[i as int]);
                assert(b@.skip(i as int)[0] == b@[i as int]);
            }
            return ca < cb;
        }
        i = i + 1;
    }
}

/// Compare two query parameters: by name, then by value.
pub fn pair_le(x: &(String, String), y: &(String, String)) -> (r: bool)
    ensures
        r == spec_pair_le((x.0@, x.1@), (y.0@, y.1@)),
{
    if x.0.eq(&y.0) {
        lex_le(x.1.as_str(), y.1.as_str())
    } else {
        lex_le(x.0.as_str(), y.0.as_str())
    }
}

/// Sort query parameters into the canonical (name, value) order.
pub fn sort_query_pairs(q: &Vec<(String, String)>) -> (r: Vec<(String, String)>)
    ensures
        pairs_view(r@) == pairs_view(q@).sort_by(pair_leq()),
{
    proof {
        lemma_pair_le_total_ordering();
    }
    let mut r: Vec<(String, String)> = Vec::new();
    let qlen = q.len();
    proof {
        assert(pairs_view(r@) =~= pairs_view(q@.take(0)));
    }
    let mut i: usize = 0;
    while i < q.len()
        invariant
            0 <= i <= q@.len(),
            q@.len() <= usize::MAX,
            r@.len() == i,
            sorted_by(pairs_view(r@), pair_leq()),
            pairs_view(r@).to_multiset() == pairs_view(q@.take(i as int)).to_multiset(),
        decreases q@.len() - i,
    {
        let k = q[i].0.clone();
        let v = q[i].1.clone();
        let ghost before = pairs_view(r@);
        let x = (k, v);
        let ghost xv = (x.0@, x.1@);
        // find the insertion point
        let mut idx: usize = 0;
        while idx < r.len() && !pair_le(&x, &r[idx])
            invariant
                0 <= idx <= r@.len(),
                r@.len() <= usize::MAX,
                pairs_view(r@) == before,
                xv == (x.0@, x.1@),
                forall|j: int| 0 <= j < idx ==> !spec_pair_le(xv, before[j]),
            decreases r@.len() - idx,
        {
            assert(before[idx as int] == (r@[idx as int].0@, r@[idx as int].1@));
            idx = idx + 1;
        }
        proof {
            if idx < r@.len() {
                assert(before[idx as int] == (r@[idx as int].0@, r@[idx as int].1@));
                assert(spec_pair_le(xv, before[idx as int]));
            }
        }
        r.insert(idx, x);
        proof {
            let after = pairs_view(r@);
            assert(after =~= before.take(idx as int) + seq![xv] + before.skip(idx as int));
            lemma_insert_preserves_sorted(before, xv, idx as int);
            lemma_insert_multiset(before, xv, idx as int);
            assert(pairs_view(q@.take(i + 1)) =~= pairs_view(q@.take(i as int)).push(xv));
            vstd::seq_lib::to_multiset_build(pairs_view(q@.take(i as int)), xv);
            assert(after.to_multiset() =~= pairs_view(q@.take(i + 1)).to_multiset());
        }
        i = i + 1;
    }
    proof {
        assert(q@.take(i as int) =~= q@);
        pairs_view(q@).lemma_sort_by_ensures(pair_leq());
        lemma_sorted_unique(pairs_view(r@), pairs_view(q@).sort_by(pair_leq()), pair_leq());
    }
    r
}

proof fn lemma_insert_preserves_sorted(t: Seq<PairView>, x: PairView, idx: int)
    requires
        sorted_by(t, pair_leq()),
        0 <= idx <= t.len(),
        forall|j: int| 0 <= j < idx ==> !spec_pair_le(x, t[j]),
        idx < t.len() ==> spec_pair_le(x, t[idx]),
    ensures
        sorted_by(t.take(idx) + seq![x] + t.skip(idx), pair_leq()),
{
    lemma_pair_le_total_ordering();
    let s = t.take(idx) + seq![x] + t.skip(idx);
    let leq = pair_leq();
    assert forall|a: int, b: int| 0 <= a < b < s.len() implies #[trigger] leq(s[a], s[b]) by {
        if a < idx {
            assert(s[a] == t[a]);
            if b < idx {
                assert(s[b] == t[b]);
                assert(leq(t[a], t[b]));
            } else if b == idx {
                assert(s[b] == x);
                assert(!spec_pair_le(x, t[a]));
                assert(leq(t[a], x) || leq(x, t[a]));
                assert(leq(x, t[a]) == spec_pair_le(x, t[a]));
                assert(leq(t[a], x));
            } else {
                assert(s[b] == t[b - 1]);
                assert(a < b - 1);
                assert(leq(t[a], t[b - 1]));
            }
        } else if a == idx {
            assert(s[a] == x);
            assert(b > idx);
            assert(s[b] == t[b - 1]);
            assert(idx <= b - 1 < t.len());
            assert(spec_pair_le(x, t[idx]));
            assert(leq(x, t[idx]));
            if b - 1 > idx {
                assert(leq(t[idx], t[b - 1]));
                assert(leq(x, t[b - 1]));
            }
        } else {
            assert(s[a] == t[a - 1]);
            assert(s[b] == t[b - 1]);
            assert(idx <= a - 1 < b - 1 < t.len());
            assert(leq(t[a - 1], t[b - 1]));
        }
    }
}

proof fn lemma_insert_multiset(t: Seq<PairView>, x: PairView, idx: int)
    requires
        0 <= idx <= t.len(),
    ensures
        (t.take(idx) + seq![x] + t.skip(idx)).to_multiset() =~= t.to_multiset().insert(x),
{
    let left = t.take(idx);
    let right = t.skip(idx);
    lemma_multiset_commutative(left + seq![x], right);
    lemma_multiset_commutative(left, seq![x]);
    lemma_multiset_commutative(left, right);
    assert(left + right =~= t);
    assert(seq![x] =~= Seq::<PairView>::empty().push(x));
    vstd::seq_lib::to_multiset_build(Seq::<PairView>::empty(), x);
    assert(Seq::<PairView>::empty().to_multiset() =~= Multiset::<PairView>::empty()) by {
        Seq::<PairView>::empty().to_multiset_ensures();
        assert forall|a: PairView| Seq::<PairView>::empty().to_multiset().count(a) == 0 by {
            assert(!Seq::<PairView>::empty().contains(a));
            Seq::<PairView>::empty().to_multiset_ensures();
        }
    }
}

} // verus!

verus! {

use vstd::utf8::encode_utf8;
use crate::num::spec_decimal;

/// The character for one hexadecimal digit, lowercase.
pub open spec fn spec_hex_digit(d: int) -> char {
    if d == 0 {
        '0'
    } else if d == 1 {
        '1'
    } else if d == 2 {
        '2'
    } else if d == 3 {
        '3'
    } else if d == 4 {
        '4'
    } else if d == 5 {
        '5'
    } else if d == 6 {
        '6'
    } else if d == 7 {
        '7'
    } else if d == 8 {
        '8'
    } else if d == 9 {
        '9'
    } else if d == 10 {
        'a'
    } else if d == 11 {
        'b'
    } else if d == 12 {
        'c'
    } else if d == 13 {
        'd'
    } else if d == 14 {
        'e'
    } else {
        'f'
    }
}

fn hex_digit(d: u8) -> (c: char)
    requires
        d < 16,
    ensures
        c == spec_hex_digit(d as int),
{
    if d == 0 {
        '0'
    } else if d == 1 {
        '1'
    } else if d == 2 {
        '2'
    } else if d == 3 {
        '3'
    } else if d == 4 {
        '4'
    } else if d == 5 {
        '5'
    } else if d == 6 {
        '6'
    } else if d == 7 {
        '7'
    } else if d == 8 {
        '8'
    } else if d == 9 {
        '9'
    } else if d == 10 {
        'a'
    } else if d == 11 {
        'b'
    } else if d == 12 {
        'c'
    } else if d == 13 {
        'd'
    } else if d == 14 {
        'e'
    } else {
        'f'
    }
}

/// The lowercase hex rendering of a byte string, two digits per byte.
pub open spec fn spec_hex_lower(data: Seq<u8>) -> Seq<char>
    decreases data.len(),
{
    if data.len() == 0 {
        Seq::empty()
    } else {
        seq![
            spec_hex_digit((data.first() / 16) as int),
            spec_hex_digit((data.first() % 16) as int),
        ] + spec_hex_lower(data.drop_first())
    }
}

/// Render bytes as lowercase hex.
pub fn to_hex_lower(data: &Vec<u8>) -> (r: Vec<char>)
    ensures
        r@ == spec_hex_lower(data@),
{
    let mut r: Vec<char> = Vec::new();
    let mut i: usize = 0;
    proof {
        assert(data@.skip(0) =~= data@);
    }
    while i < data.len()
        invariant
            0 <= i <= data@.len(),
            spec_hex_lower(data@) == r@ + spec_hex_lower(data@.skip(i as int)),
        decreases data@.len() - i,
    {
        let b = data[i];
        r.push(hex_digit(b / 16));
        r.push(hex_digit(b % 16));
        proof {
            assert(data@.skip(i as int).first() == data@[i as int]);
            assert(data@.skip(i as int).drop_first() =~= data@.skip(i + 1));
        }
        i = i + 1;
    }
    proof {
        assert(data@.skip(i as int).len() == 0);
        assert(r@ =~= spec_hex_lower(data@));
    }
    r
}

/// The SHA-256 digest of a byte string.
pub uninterp spec fn sha256_of(b: Seq<u8>) -> Seq<u8>;

/// Relies on `sha2::Sha256` through the `Digest` interface: the SHA-256
/// digest of the input — 32 bytes, a function of the input alone.
#[verifier::external_body]
fn sha256_digest(b: &[u8]) -> (r: Vec<u8>)
    ensures
        r@ == sha256_of(b@),
        r@.len() == 32,
{
    sha2::Sha256::digest(b).to_vec()
}

/// One parameter in the hashed key material: each component is preceded by
/// its character count, which makes the rendering injective.
pub open spec fn spec_encode_pair(p: PairView) -> Seq<char> {
    spec_decimal(p.0.len()) + seq![':'] + p.0 + spec_decimal(p.1.len()) + seq![':'] + p.1
}

/// The rendering of a parameter list in the hashed key material.
pub open spec fn spec_encode_pairs(pairs: Seq<PairView>) -> Seq<char>
    decreases pairs.len(),
{
    if pairs.len() == 0 {
        Seq::empty()
    } else {
        spec_encode_pair(pairs.first()) + spec_encode_pairs(pairs.drop_first())
    }
}

/// The text hashed to form a cache key: method, path, and the already
/// canonicalized parameter list, joined with `::` separators.
pub open spec fn spec_key_material(m: Seq<char>, p: Seq<char>, sorted: Seq<PairView>) -> Seq<
    char,
> {
    m + "::"@ + p + "::"@ + spec_encode_pairs(sorted)
}

fn push_encoded_pair(out: &mut Vec<char>, pair: &(String, String))
    ensures
        final(out)@ == old(out)@ + spec_encode_pair((pair.0@, pair.1@)),
{
    let k = crate::text::str_to_chars(pair.0.as_str());
    let v = crate::text::str_to_chars(pair.1.as_str());
    let mut klen = crate::num::u64_to_dec_chars(k.len() as u64);
    out.append(&mut klen);
    out.push(':');
    let mut kc = k;
    out.append(&mut kc);
    let mut vlen = crate::num::u64_to_dec_chars(v.len() as u64);
    out.append(&mut vlen);
    out.push(':');
    let mut vc = v;
    out.append(&mut vc);
    assert(out@ =~= old(out)@ + spec_encode_pair((pair.0@, pair.1@)));
}

/// Assemble the key material for an already sorted parameter list.
fn build_key_material(method: &str, path: &str, sorted: &Vec<(String, String)>) -> (r: String)
    ensures
        r@ == spec_key_material(method@, path@, pairs_view(sorted@)),
{
    let mut out: Vec<char> = crate::text::str_to_chars(method);
    let mut sep1 = crate::text::str_to_chars("::");
    out.append(&mut sep1);
    let mut pc = crate::text::str_to_chars(path);
    out.append(&mut pc);
    let mut sep2 = crate::text::str_to_chars("::");
    out.append(&mut sep2);
    let ghost prefix = method@ + "::"@ + path@ + "::"@;
    proof {
        assert(out@ =~= prefix);
        assert(pairs_view(sorted@).skip(0) =~= pairs_view(sorted@));
    }
    let mut i: usize = 0;
    while i < sorted.len()
        invariant
            0 <= i <= sorted@.len(),
            prefix == method@ + "::"@ + path@ + "::"@,
            prefix + spec_encode_pairs(pairs_view(sorted@)) == out@ + spec_encode_pairs(
                pairs_view(sorted@).skip(i as int),
            ),
        decreases sorted@.len() - i,
    {
        proof {
            let pv = pairs_view(sorted@);
            assert(pv.skip(i as int).first() == pv[i as int]);
            assert(pv.skip(i as int).drop_first() =~= pv.skip(i + 1));
        }
        push_encoded_pair(&mut out, &sorted[i]);
        proof {
            assert(prefix + spec_encode_pairs(pairs_view(sorted@)) =~= out@ + spec_encode_pairs(
                pairs_view(sorted@).skip(i + 1),
            ));
        }
        i = i + 1;
    }
    proof {
        assert(pairs_view(sorted@).skip(i as int).len() == 0);
        assert(out@ =~= spec_key_material(method@, path@, pairs_view(sorted@)));
    }
    crate::text::chars_to_string(&out)
}

/// The cache key for a request: lowercase hex of the SHA-256 digest of the
/// key material over the canonically sorted parameters.
pub open spec fn spec_cache_key(m: Seq<char>, p: Seq<char>, pairs: Seq<PairView>) -> Seq<char> {
    spec_hex_lower(
        sha256_of(encode_utf8(spec_key_material(m, p, pairs.sort_by(pair_leq())))),
    )
}

/// Derive the cache key for a request.
pub fn build_cache_key(method: &str, path: &str, query: &Vec<(String, String)>) -> (r: String)
    ensures
        r@ == spec_cache_key(method@, path@, pairs_view(query@)),
{
    let sorted = sort_query_pairs(query);
    let material = build_key_material(method, path, &sorted);
    let digest = sha256_digest(material.as_str().as_bytes());
    let hex = to_hex_lower(&digest);
    crate::text::chars_to_string(&hex)
}

/// Cache key determinism: any two parameter lists that hold the same
/// parameters — however ordered — derive the same cache key for the same
/// method and path.
pub proof fn lemma_cache_key_permutation(
    m: Seq<char>,
    p: Seq<char>,
    q1: Seq<PairView>,
    q2: Seq<PairView>,
)
    requires
        q1.to_multiset() == q2.to_multiset(),
    ensures
        spec_cache_key(m, p, q1) == spec_cache_key(m, p, q2),
{
    lemma_pair_le_total_ordering();
    q1.lemma_sort_by_ensures(pair_leq());
    q2.lemma_sort_by_ensures(pair_leq());
    lemma_sorted_unique(q1.sort_by(pair_leq()), q2.sort_by(pair_leq()), pair_leq());
}

} // verus!
