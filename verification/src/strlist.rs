//! Helpers over lists of strings: canonical sorting with deduplication,
//! and comma-joining — what the request builders and query renderers use.

use vstd::prelude::*;

verus! {

use vstd::relations::sorted_by;
use vstd::relations::total_ordering;
use vstd::seq_lib::lemma_sorted_unique;
use crate::cachekey::spec_lex_le;
use crate::cachekey::lex_le;

/// The string order, as a relation value.
pub open spec fn str_leq() -> spec_fn(Seq<char>, Seq<char>) -> bool {
    |a: Seq<char>, b: Seq<char>| spec_lex_le(a, b)
}

/// The lexicographic order is a total order on strings.
pub proof fn lemma_str_leq_total_ordering()
    ensures
        total_ordering(str_leq()),
{
    let leq = str_leq();
    assert forall|x: Seq<char>| #[trigger] leq(x, x) by {
        crate::cachekey::lemma_lex_le_refl(x);
    }
    assert forall|x: Seq<char>, y: Seq<char>| #[trigger] leq(x, y) && #[trigger] leq(y, x) implies
        x == y by {
        crate::cachekey::lemma_lex_le_antisym(x, y);
    }
    assert forall|x: Seq<char>, y: Seq<char>, z: Seq<char>|
        #[trigger] leq(x, y) && #[trigger] leq(y, z) implies leq(x, z) by {
        crate::cachekey::lemma_lex_le_trans(x, y, z);
    }
    assert forall|x: Seq<char>, y: Seq<char>| #[trigger] leq(x, y) || #[trigger] leq(y, x) by {
        crate::cachekey::lemma_lex_le_total(x, y);
    }
}

/// Remove adjacent duplicates (full deduplication on a sorted sequence).
pub open spec fn spec_dedup_adjacent(s: Seq<Seq<char>>) -> Seq<Seq<char>>
    decreases s.len(),
{
    if s.len() == 0 {
        Seq::empty()
    } else if s.len() == 1 {
        s
    } else if s[0] == s[1] {
        spec_dedup_adjacent(s.drop_first())
    } else {
        seq![s[0]] + spec_dedup_adjacent(s.drop_first())
    }
}

/// Sort strings and remove duplicates, as request builders canonicalize
/// follower, tag and project lists.
pub fn sort_dedup_strings(values: Vec<String>) -> (r: Vec<String>)
    ensures
        r.deep_view() == spec_dedup_adjacent(values.deep_view().sort_by(str_leq())),
{
    proof {
        lemma_str_leq_total_ordering();
    }
    // insertion sort
    let mut sorted: Vec<String> = Vec::new();
    proof {
        assert(sorted.deep_view() =~= values.deep_view().take(0));
    }
    let mut i: usize = 0;
    while i < values.len()
        invariant
            0 <= i <= values@.len(),
            sorted_by(sorted.deep_view(), str_leq()),
            sorted.deep_view().to_multiset() == values.deep_view().take(i as int).to_multiset(),
        decreases values@.len() - i,
    {
        let x = crate::text::chars_to_string(&crate::text::str_to_chars(values[i].as_str()));
        let ghost xv = x@;
        let ghost before = sorted.deep_view();
        let mut idx: usize = 0;
        while idx < sorted.len() && !lex_le(x.as_str(), sorted[idx].as_str())
            invariant
                0 <= idx <= sorted@.len(),
                sorted.deep_view() == before,
                xv == x@,
                forall|j: int| 0 <= j < idx ==> !spec_lex_le(xv, before[j]),
            decreases sorted@.len() - idx,
        {
            proof {
                assert(before[idx as int] == sorted@[idx as int]@);
            }
            idx = idx + 1;
        }
        proof {
            if idx < sorted@.len() {
                assert(before[idx as int] == sorted@[idx as int]@);
                assert(spec_lex_le(xv, before[idx as int]));
            }
        }
        sorted.insert(idx, x);
        proof {
            let after = sorted.deep_view();
            assert(after =~= before.take(idx as int) + seq![xv] + before.skip(idx as int));
            lemma_str_insert_sorted(before, xv, idx as int);
            lemma_str_insert_multiset(before, xv, idx as int);
            assert(values.deep_view().take(i + 1) =~= values.deep_view().take(i as int).push(xv));
            vstd::seq_lib::to_multiset_build(values.deep_view().take(i as int), xv);
            assert(after.to_multiset() =~= values.deep_view().take(i + 1).to_multiset());
        }
        i = i + 1;
    }
    proof {
        assert(values.deep_view().take(i as int) =~= values.deep_view());
        values.deep_view().lemma_sort_by_ensures(str_leq());
        lemma_sorted_unique(
            sorted.deep_view(),
            values.deep_view().sort_by(str_leq()),
            str_leq(),
        );
    }
    // drop adjacent duplicates
    let mut out: Vec<String> = Vec::new();
    let ghost whole = sorted.deep_view();
    let mut k: usize = 0;
    proof {
        assert(whole.skip(0) =~= whole);
    }
    while k < sorted.len()
        invariant
            0 <= k <= sorted@.len(),
            sorted.deep_view() == whole,
            spec_dedup_adjacent(whole) == out.deep_view() + spec_dedup_adjacent(
                whole.skip(k as int),
            ),
        decreases sorted@.len() - k,
    {
        proof {
            let rest = whole.skip(k as int);
            assert(rest[0] == whole[k as int]);
            assert(rest.drop_first() =~= whole.skip(k + 1));
            if k + 1 < whole.len() {
                assert(rest[1] == whole[k + 1]);
            }
        }
        if k + 1 < sorted.len() && crate::text::str_eq(sorted[k].as_str(), sorted[k + 1].as_str()) {
            // skip the duplicate
        } else {
            let c = crate::text::chars_to_string(&crate::text::str_to_chars(sorted[k].as_str()));
            out.push(c);
            proof {
                assert(out.deep_view() =~= out.deep_view().drop_last().push(whole[k as int]));
                assert(out.deep_view() + spec_dedup_adjacent(whole.skip(k + 1))
                    =~= spec_dedup_adjacent(whole));
            }
        }
        k = k + 1;
    }
    proof {
        assert(whole.skip(k as int).len() == 0);
        assert(out.deep_view() =~= spec_dedup_adjacent(whole));
    }
    out
}

proof fn lemma_str_insert_sorted(t: Seq<Seq<char>>, x: Seq<char>, idx: int)
    requires
        sorted_by(t, str_leq()),
        0 <= idx <= t.len(),
        forall|j: int| 0 <= j < idx ==> !spec_lex_le(x, t[j]),
        idx < t.len() ==> spec_lex_le(x, t[idx]),
    ensures
        sorted_by(t.take(idx) + seq![x] + t.skip(idx), str_leq()),
{
    lemma_str_leq_total_ordering();
    let s = t.take(idx) + seq![x] + t.skip(idx);
    let leq = str_leq();
    assert forall|a: int, b: int| 0 <= a < b < s.len() implies #[trigger] leq(s[a], s[b]) by {
        if a < idx {
            assert(s[a] == t[a]);
            if b < idx {
                assert(s[b] == t[b]);
                assert(leq(t[a], t[b]));
            } else if b == idx {
                assert(s[b] == x);
                assert(!spec_lex_le(x, t[a]));
                assert(leq(t[a], x) || leq(x, t[a]));
                assert(leq(x, t[a]) == spec_lex_le(x, t[a]));
                assert(leq(t[a], x));
            } else {
                assert(s[b] == t[b - 1]);
                assert(a < b - 1);
                assert(leq(t[a], t[b - 1]));
            }
        } else if a == idx {
            assert(s[a] == x);
            assert(b > idx);
            assert(s[b] == t[b - 1]);
            assert(idx <= b - 1 < t.len());
            assert(spec_lex_le(x, t[idx]));
            assert(leq(x, t[idx]));
            if b - 1 > idx {
                assert(leq(t[idx], t[b - 1]));
                assert(leq(x, t[b - 1]));
            }
        } else {
            assert(s[a] == t[a - 1]);
            assert(s[b] == t[b - 1]);
            assert(idx <= a - 1 < b - 1 < t.len());
            assert(leq(t[a - 1], t[b - 1]));
        }
    }
}

proof fn lemma_str_insert_multiset(t: Seq<Seq<char>>, x: Seq<char>, idx: int)
    requires
        0 <= idx <= t.len(),
    ensures
        (t.take(idx) + seq![x] + t.skip(idx)).to_multiset() =~= t.to_multiset().insert(x),
{
    let left = t.take(idx);
    let right = t.skip(idx);
    vstd::seq_lib::lemma_multiset_commutative(left + seq![x], right);
    vstd::seq_lib::lemma_multiset_commutative(left, seq![x]);
    vstd::seq_lib::lemma_multiset_commutative(left, right);
    assert(left + right =~= t);
    assert(seq![x] =~= Seq::<Seq<char>>::empty().push(x));
    vstd::seq_lib::to_multiset_build(Seq::<Seq<char>>::empty(), x);
    assert(Seq::<Seq<char>>::empty().to_multiset() =~= vstd::multiset::Multiset::<
        Seq<char>,
    >::empty()) by {
        Seq::<Seq<char>>::empty().to_multiset_ensures();
        assert forall|a: Seq<char>| Seq::<Seq<char>>::empty().to_multiset().count(a) == 0 by {
            assert(!Seq::<Seq<char>>::empty().contains(a));
            Seq::<Seq<char>>::empty().to_multiset_ensures();
        }
    }
}

/// Strings joined with a comma between consecutive items.
pub open spec fn spec_join_comma(s: Seq<Seq<char>>) -> Seq<char>
    decreases s.len(),
{
    if s.len() == 0 {
        Seq::empty()
    } else if s.len() == 1 {
        s[0]
    } else {
        s[0] + seq![','] + spec_join_comma(s.drop_first())
    }
}

/// Join strings with commas.
pub fn join_comma(items: &Vec<String>) -> (r: String)
    ensures
        r@ == spec_join_comma(items.deep_view()),
{
    let mut out: Vec<char> = Vec::new();
    let ghost whole = items.deep_view();
    let mut i: usize = 0;
    proof {
        assert(whole.skip(0) =~= whole);
    }
    while i < items.len()
        invariant
            0 <= i <= items@.len(),
            items.deep_view() == whole,
            spec_join_comma(whole) == out@ + spec_join_comma(whole.skip(i as int)) || (i
                == items@.len() && out@ == spec_join_comma(whole)),
            i < items@.len() && i > 0 ==> out@ + spec_join_comma(whole.skip(i as int))
                == spec_join_comma(whole) && out@.last() == ',',
        decreases items@.len() - i,
    {
        proof {
            let rest = whole.skip(i as int);
            assert(rest[0] == whole[i as int]);
            assert(rest.drop_first() =~= whole.skip(i + 1));
        }
        let mut c = crate::text::str_to_chars(items[i].as_str());
        out.append(&mut c);
        if i + 1 < items.len() {
            out.push(',');
            proof {
                assert(out@ + spec_join_comma(whole.skip(i + 1)) =~= spec_join_comma(whole));
            }
        } else {
            proof {
                assert(whole.skip(i + 1).len() == 0);
                assert(out@ =~= spec_join_comma(whole));
            }
        }
        i = i + 1;
    }
    proof {
        if whole.len() == 0 {
            assert(out@ =~= spec_join_comma(whole));
        }
    }
    crate::text::chars_to_string(&out)
}

/// A string occurs in a list.
pub open spec fn spec_contains_str(s: Seq<Seq<char>>, x: Seq<char>) -> bool {
    exists|i: int| 0 <= i < s.len() && s[i] == x
}

/// Whether a list of strings contains the given string.
pub fn contains_string(items: &Vec<String>, x: &str) -> (r: bool)
    ensures
        r == spec_contains_str(items.deep_view(), x@),
{
    let mut i: usize = 0;
    while i < items.len()
        invariant
            0 <= i <= items@.len(),
            forall|j: int| 0 <= j < i ==> items.deep_view()[j] != x@,
        decreases items@.len() - i,
    {
        proof {
            assert(items.deep_view()[i as int] == items@[i as int]@);
        }
        if crate::text::str_eq(items[i].as_str(), x) {
            return true;
        }
        i = i + 1;
    }
    false
}

/// Append a string to a list unless it is already present, as builders
/// accumulate follower and tag identifiers.
pub fn push_unique(items: &mut Vec<String>, x: String)
    ensures
        spec_contains_str(old(items).deep_view(), x@) ==> final(items).deep_view() == old(
            items,
        ).deep_view(),
        !spec_contains_str(old(items).deep_view(), x@) ==> final(items).deep_view() == old(
            items,
        ).deep_view().push(x@),
{
    if !contains_string(items, x.as_str()) {
        items.push(x);
        proof {
            assert(items.deep_view() =~= old(items).deep_view().push(x@));
        }
    }
}

} // verus!

verus! {

use crate::cachekey::pairs_view;

/// Append one query pair.
pub fn push_pair(pairs: &mut Vec<(String, String)>, k: &str, v: String)
    ensures
        pairs_view(final(pairs)@) == pairs_view(old(pairs)@).push((k@, v@)),
{
    let kc = crate::text::str_to_chars(k);
    let ks = crate::text::chars_to_string(&kc);
    pairs.push((ks, v));
    proof {
        assert(pairs_view(pairs@) =~= pairs_view(old(pairs)@).push((k@, v@)));
    }
}

/// Copy a string.
pub fn copy_string(s: &str) -> (r: String)
    ensures
        r@ == s@,
{
    let c = crate::text::str_to_chars(s);
    crate::text::chars_to_string(&c)
}

/// Render a boolean the way query parameters carry it.
pub fn bool_string(b: bool) -> (r: String)
    ensures
        b ==> r@ == "true"@,
        !b ==> r@ == "false"@,
{
    if b {
        copy_string("true")
    } else {
        copy_string("false")
    }
}

/// Turn borrowed query parameters into owned pairs.
pub fn build_query_pairs(query: &[(&str, &str)]) -> (r: Vec<(String, String)>)
    ensures
        pairs_view(r@).len() == query@.len(),
        forall|i: int|
            0 <= i < query@.len() ==> pairs_view(r@)[i] == (query@[i].0@, query@[i].1@),
{
    let mut r: Vec<(String, String)> = Vec::new();
    let mut i: usize = 0;
    while i < query.len()
        invariant
            0 <= i <= query@.len(),
            pairs_view(r@).len() == i,
            forall|j: int|
                0 <= j < i ==> pairs_view(r@)[j] == (query@[j].0@, query@[j].1@),
        decreases query@.len() - i,
    {
        let (k, v) = query[i];
        push_pair(&mut r, k, copy_string(v));
        i = i + 1;
    }
    r
}

} // verus!

verus! {

/// The view of an optional string.
pub open spec fn opt_view(o: Option<String>) -> Option<Seq<char>> {
    match o {
        Some(s) => Some(s@),
        None => None,
    }
}

/// The query segment an optional parameter contributes.
pub open spec fn spec_opt_pair(k: Seq<char>, v: Option<Seq<char>>) -> Seq<(Seq<char>, Seq<char>)> {
    match v {
        Some(x) => seq![(k, x)],
        None => Seq::empty(),
    }
}

/// Append an optional query pair.
pub fn push_opt_pair(pairs: &mut Vec<(String, String)>, k: &str, v: &Option<String>)
    ensures
        pairs_view(final(pairs)@) == pairs_view(old(pairs)@) + spec_opt_pair(k@, opt_view(*v)),
{
    match v {
        Some(s) => {
            push_pair(pairs, k, copy_string(s.as_str()));
            proof {
                assert(pairs_view(pairs@) =~= pairs_view(old(pairs)@) + spec_opt_pair(
                    k@,
                    opt_view(*v),
                ));
            }
        },
        None => {
            proof {
                assert(pairs_view(pairs@) =~= pairs_view(old(pairs)@) + spec_opt_pair(
                    k@,
                    opt_view(*v),
                ));
            }
        },
    }
}

/// The query segment an optional boolean parameter contributes.
pub open spec fn spec_opt_bool_pair(k: Seq<char>, v: Option<bool>) -> Seq<(Seq<char>, Seq<char>)> {
    match v {
        Some(b) => seq![(k, if b { "true"@ } else { "false"@ })],
        None => Seq::empty(),
    }
}

/// Append an optional boolean query pair.
pub fn push_opt_bool_pair(pairs: &mut Vec<(String, String)>, k: &str, v: &Option<bool>)
    ensures
        pairs_view(final(pairs)@) == pairs_view(old(pairs)@) + spec_opt_bool_pair(k@, *v),
{
    match v {
        Some(b) => {
            push_pair(pairs, k, bool_string(*b));
            proof {
                assert(pairs_view(pairs@) =~= pairs_view(old(pairs)@) + spec_opt_bool_pair(
                    k@,
                    *v,
                ));
            }
        },
        None => {
            proof {
                assert(pairs_view(pairs@) =~= pairs_view(old(pairs)@) + spec_opt_bool_pair(
                    k@,
                    *v,
                ));
            }
        },
    }
}

/// The query segment a repeated parameter contributes: one pair per value.
pub open spec fn spec_each_pair(k: Seq<char>, vs: Seq<Seq<char>>) -> Seq<(Seq<char>, Seq<char>)> {
    Seq::new(vs.len(), |i: int| (k, vs[i]))
}

/// Append one query pair per value.
pub fn push_each_pair(pairs: &mut Vec<(String, String)>, k: &str, vs: &Vec<String>)
    ensures
        pairs_view(final(pairs)@) == pairs_view(old(pairs)@) + spec_each_pair(
            k@,
            vs.deep_view(),
        ),
{
    let mut i: usize = 0;
    while i < vs.len()
        invariant
            0 <= i <= vs@.len(),
            pairs_view(pairs@) == pairs_view(old(pairs)@) + spec_each_pair(
                k@,
                vs.deep_view().take(i as int),
            ),
        decreases vs@.len() - i,
    {
        proof {
            assert(vs.deep_view()[i as int] == vs@[i as int]@);
        }
        push_pair(pairs, k, copy_string(vs[i].as_str()));
        proof {
            assert(pairs_view(pairs@) =~= pairs_view(old(pairs)@) + spec_each_pair(
                k@,
                vs.deep_view().take(i + 1),
            ));
        }
        i = i + 1;
    }
    proof {
        assert(vs.deep_view().take(i as int) =~= vs.deep_view());
    }
}

/// The query segment the field list contributes: nothing when empty, else
/// one `opt_fields` pair holding the canonically sorted, deduplicated,
/// comma-joined fields.
pub open spec fn spec_fields_pair(fields: Seq<Seq<char>>) -> Seq<(Seq<char>, Seq<char>)> {
    if fields.len() == 0 {
        Seq::empty()
    } else {
        seq![
            (
                "opt_fields"@,
                spec_join_comma(spec_dedup_adjacent(fields.sort_by(str_leq()))),
            ),
        ]
    }
}

/// Append the `opt_fields` pair for a field list, when nonempty.
pub fn push_fields_pair(pairs: &mut Vec<(String, String)>, fields: &Vec<String>)
    ensures
        pairs_view(final(pairs)@) == pairs_view(old(pairs)@) + spec_fields_pair(
            fields.deep_view(),
        ),
{
    if fields.len() == 0 {
        proof {
            assert(pairs_view(pairs@) =~= pairs_view(old(pairs)@) + spec_fields_pair(
                fields.deep_view(),
            ));
        }
        return ;
    }
    let mut copies: Vec<String> = Vec::new();
    let mut i: usize = 0;
    while i < fields.len()
        invariant
            0 <= i <= fields@.len(),
            copies.deep_view() == fields.deep_view().take(i as int),
        decreases fields@.len() - i,
    {
        proof {
            assert(fields.deep_view()[i as int] == fields@[i as int]@);
        }
        let ghost prev = copies.deep_view();
        copies.push(copy_string(fields[i].as_str()));
        proof {
            assert(copies.deep_view() =~= prev.push(fields.deep_view()[i as int]));
            assert(copies.deep_view() =~= fields.deep_view().take(i + 1));
        }
        i = i + 1;
    }
    proof {
        assert(copies.deep_view() =~= fields.deep_view());
    }
    let canonical = sort_dedup_strings(copies);
    let joined = join_comma(&canonical);
    push_pair(pairs, "opt_fields", joined);
    proof {
        assert(pairs_view(pairs@) =~= pairs_view(old(pairs)@) + spec_fields_pair(
            fields.deep_view(),
        ));
    }
}

} // verus!
