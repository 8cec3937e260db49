//! Character-level text helpers shared across the library.
//!
//! All logic here works on `Vec<char>` / `Seq<char>`, the same view that
//! `String` and `&str` carry, so contracts compose directly with string
//! fields elsewhere in the crate.

use vstd::prelude::*;

verus! {

/// Relies on `String::push`: appends one character to the string.
#[verifier::external_body]
pub(crate) fn push_char(s: &mut String, c: char)
    ensures
        final(s)@ == old(s)@.push(c),
{
    s.push(c);
}

/// Collect the characters of a string slice into a vector.
pub fn str_to_chars(s: &str) -> (v: Vec<char>)
    ensures
        v@ == s@,
{
    broadcast use vstd::string::group_string_axioms;

    let mut v: Vec<char> = Vec::new();
    for c in it: s.chars()
        invariant
            it.seq() == s@,
            v@.len() == it.index(),
            forall|j: int| 0 <= j < v@.len() ==> v@[j] == it.seq()[j],
    {
        v.push(c);
    }
    assert(v@ =~= s@);
    v
}

/// Build a string from a vector of characters.
pub fn chars_to_string(v: &Vec<char>) -> (s: String)
    ensures
        s@ == v@,
{
    let mut s = String::new();
    let mut i: usize = 0;
    while i < v.len()
        invariant
            0 <= i <= v.len(),
            s@ == v@.subrange(0, i as int),
        decreases v.len() - i,
    {
        push_char(&mut s, v[i]);
        i = i + 1;
        assert(s@ =~= v@.subrange(0, i as int));
    }
    assert(s@ =~= v@);
    s
}

/// ASCII whitespace, the characters stripped by trimming.
pub open spec fn is_ws_char(c: char) -> bool {
    c == ' ' || c == '\t' || c == '\n' || c == '\r'
}

/// Check one character for ASCII whitespace.
pub fn is_ws(c: char) -> (r: bool)
    ensures
        r == is_ws_char(c),
{
    c == ' ' || c == '\t' || c == '\n' || c == '\r'
}

/// A string is blank when every character is ASCII whitespace.
pub open spec fn spec_is_blank(s: Seq<char>) -> bool {
    forall|i: int| 0 <= i < s.len() ==> is_ws_char(#[trigger] s[i])
}

/// Whether the string consists only of whitespace (or is empty).
pub fn is_blank(s: &str) -> (r: bool)
    ensures
        r == spec_is_blank(s@),
{
    let v = str_to_chars(s);
    let mut i: usize = 0;
    while i < v.len()
        invariant
            0 <= i <= v.len(),
            v@ == s@,
            forall|j: int| 0 <= j < i ==> is_ws_char(#[trigger] s@[j]),
        decreases v.len() - i,
    {
        if !is_ws(v[i]) {
            return false;
        }
        i = i + 1;
    }
    true
}

/// ASCII lower-casing of one character; other characters are unchanged.
pub open spec fn spec_lower_char(c: char) -> char {
    if 65 <= c as u32 && c as u32 <= 90 {
        (((c as u8) + 32) as char)
    } else {
        c
    }
}

/// Lower-case one character (ASCII range only).
pub fn lower_char(c: char) -> (r: char)
    ensures
        r == spec_lower_char(c),
{
    let u = c as u32;
    if 65 <= u && u <= 90 {
        ((c as u8) + 32) as char
    } else {
        c
    }
}

/// ASCII lower-casing of a whole sequence.
pub open spec fn spec_lower(s: Seq<char>) -> Seq<char> {
    s.map_values(|c: char| spec_lower_char(c))
}

/// Lower-case every character of a vector (ASCII range only).
pub fn lower_chars(v: &Vec<char>) -> (r: Vec<char>)
    ensures
        r@ == spec_lower(v@),
{
    let mut r: Vec<char> = Vec::new();
    let mut i: usize = 0;
    while i < v.len()
        invariant
            0 <= i <= v.len(),
            r@.len() == i,
            forall|j: int| 0 <= j < i ==> r@[j] == spec_lower_char(#[trigger] v@[j]),
        decreases v.len() - i,
    {
        r.push(lower_char(v[i]));
        i = i + 1;
    }
    assert(r@ =~= spec_lower(v@));
    r
}

/// ASCII lower-casing of a string.
pub fn to_ascii_lower(s: &str) -> (r: String)
    ensures
        r@ == spec_lower(s@),
{
    let v = str_to_chars(s);
    let low = lower_chars(&v);
    chars_to_string(&low)
}

/// The index of the first non-whitespace character, or the length when blank.
pub open spec fn spec_trim_start(s: Seq<char>) -> int
    decreases s.len(),
{
    if s.len() == 0 {
        0
    } else if is_ws_char(s[0]) {
        1 + spec_trim_start(s.drop_first())
    } else {
        0
    }
}

/// One past the index of the last non-whitespace character, or 0 when blank.
pub open spec fn spec_trim_end(s: Seq<char>) -> int
    decreases s.len(),
{
    if s.len() == 0 {
        0
    } else if is_ws_char(s[s.len() - 1]) {
        spec_trim_end(s.drop_last())
    } else {
        s.len() as int
    }
}

/// The string with leading and trailing ASCII whitespace removed.
pub open spec fn spec_trim(s: Seq<char>) -> Seq<char> {
    if spec_trim_start(s) <= spec_trim_end(s) {
        s.subrange(spec_trim_start(s), spec_trim_end(s))
    } else {
        Seq::empty()
    }
}

proof fn lemma_trim_start_bounds(s: Seq<char>)
    ensures
        0 <= spec_trim_start(s) <= s.len(),
        forall|j: int| 0 <= j < spec_trim_start(s) ==> is_ws_char(#[trigger] s[j]),
        spec_trim_start(s) < s.len() ==> !is_ws_char(s[spec_trim_start(s)]),
    decreases s.len(),
{
    if s.len() > 0 && is_ws_char(s[0]) {
        lemma_trim_start_bounds(s.drop_first());
        assert forall|j: int| 0 <= j < spec_trim_start(s) implies is_ws_char(#[trigger] s[j]) by {
            if j > 0 {
                assert(s[j] == s.drop_first()[j - 1]);
            }
        }
    }
}

proof fn lemma_trim_end_bounds(s: Seq<char>)
    ensures
        0 <= spec_trim_end(s) <= s.len(),
        forall|j: int| spec_trim_end(s) <= j < s.len() ==> is_ws_char(#[trigger] s[j]),
        spec_trim_end(s) > 0 ==> !is_ws_char(s[spec_trim_end(s) - 1]),
    decreases s.len(),
{
    if s.len() > 0 && is_ws_char(s[s.len() - 1]) {
        lemma_trim_end_bounds(s.drop_last());
        assert forall|j: int| spec_trim_end(s) <= j < s.len() implies is_ws_char(
            #[trigger] s[j],
        ) by {
            if j < s.len() - 1 {
                assert(s[j] == s.drop_last()[j]);
            }
        }
    }
}

/// Remove leading and trailing ASCII whitespace from a character vector.
pub fn trim_chars(v: &Vec<char>) -> (r: Vec<char>)
    ensures
        r@ == spec_trim(v@),
{
    proof {
        lemma_trim_start_bounds(v@);
        lemma_trim_end_bounds(v@);
    }
    let mut start: usize = 0;
    while start < v.len() && is_ws(v[start])
        invariant
            0 <= start <= v.len(),
            forall|j: int| 0 <= j < start ==> is_ws_char(#[trigger] v@[j]),
            start <= spec_trim_start(v@),
        decreases v.len() - start,
    {
        proof {
            lemma_trim_start_prefix(v@, start as int + 1);
        }
        start = start + 1;
    }
    proof {
        if start < v.len() {
            assert(start == spec_trim_start(v@));
        } else {
            assert(start == v.len());
            assert(spec_trim_start(v@) <= v@.len());
            assert(start <= spec_trim_start(v@));
            assert(start == spec_trim_start(v@));
        }
    }
    let mut end: usize = v.len();
    while end > start && is_ws(v[end - 1])
        invariant
            start <= end <= v.len(),
            start == spec_trim_start(v@),
            forall|j: int| end <= j < v.len() ==> is_ws_char(#[trigger] v@[j]),
            spec_trim_end(v@) <= end,
        decreases end,
    {
        proof {
            lemma_trim_end_suffix(v@, end as int - 1);
        }
        end = end - 1;
    }
    proof {
        if end > start {
            assert(!is_ws_char(v@[end - 1]));
            assert(end == spec_trim_end(v@)) by {
                lemma_trim_end_bounds(v@);
                if spec_trim_end(v@) < end {
                    assert(is_ws_char(v@[end - 1]));
                }
            }
        } else {
            // everything from start on is whitespace, and everything before
            // start is whitespace, so the whole string is blank
            assert(spec_trim_end(v@) <= end);
            if spec_trim_end(v@) < end {
                assert(end == start);
                assert(spec_trim_end(v@) < spec_trim_start(v@));
            }
        }
    }
    let mut r: Vec<char> = Vec::new();
    let mut i: usize = start;
    while i < end
        invariant
            start <= i <= end <= v.len(),
            r@ == v@.subrange(start as int, i as int),
        decreases end - i,
    {
        r.push(v[i]);
        i = i + 1;
        assert(r@ =~= v@.subrange(start as int, i as int));
    }
    proof {
        if spec_trim_start(v@) <= spec_trim_end(v@) {
            assert(end >= start);
            if end > start {
                assert(r@ =~= spec_trim(v@));
            } else {
                assert(spec_trim_end(v@) <= start);
                assert(r@ =~= spec_trim(v@));
            }
        } else {
            assert(end == start);
            assert(r@ =~= spec_trim(v@));
        }
    }
    r
}

proof fn lemma_trim_start_prefix(s: Seq<char>, k: int)
    requires
        0 <= k <= s.len(),
        forall|j: int| 0 <= j < k ==> is_ws_char(#[trigger] s[j]),
    ensures
        k <= spec_trim_start(s),
    decreases k,
{
    if k > 0 {
        assert(is_ws_char(s[0]));
        assert forall|j: int| 0 <= j < k - 1 implies is_ws_char(#[trigger] s.drop_first()[j]) by {
            assert(s.drop_first()[j] == s[j + 1]);
        }
        lemma_trim_start_prefix(s.drop_first(), k - 1);
    } else {
        lemma_trim_start_bounds(s);
    }
}

proof fn lemma_trim_end_suffix(s: Seq<char>, k: int)
    requires
        0 <= k <= s.len(),
        forall|j: int| k <= j < s.len() ==> is_ws_char(#[trigger] s[j]),
    ensures
        spec_trim_end(s) <= k,
    decreases s.len() - k,
{
    if k < s.len() {
        assert(is_ws_char(s[s.len() - 1]));
        assert forall|j: int| k <= j < s.len() - 1 implies is_ws_char(
            #[trigger] s.drop_last()[j],
        ) by {
            assert(s.drop_last()[j] == s[j]);
        }
        lemma_trim_end_suffix(s.drop_last(), k);
    } else {
        lemma_trim_end_bounds(s);
    }
}

/// Remove leading and trailing ASCII whitespace from a string.
pub fn trim_str(s: &str) -> (r: String)
    ensures
        r@ == spec_trim(s@),
{
    let v = str_to_chars(s);
    let t = trim_chars(&v);
    chars_to_string(&t)
}

} // verus!

verus! {

/// The needle `n` occurs in `h` starting at index `i`.
pub open spec fn match_at(h: Seq<char>, n: Seq<char>, i: int) -> bool {
    0 <= i && i + n.len() <= h.len() && h.subrange(i, i + n.len()) == n
}

/// The needle occurs somewhere in the haystack.
pub open spec fn spec_contains_seq(h: Seq<char>, n: Seq<char>) -> bool {
    exists|i: int| match_at(h, n, i)
}

fn match_at_exec(h: &Vec<char>, n: &Vec<char>, i: usize) -> (r: bool)
    requires
        i + n@.len() <= h@.len(),
    ensures
        r == match_at(h@, n@, i as int),
{
    let hl = h.len();
    assert(h@.len() <= usize::MAX);
    let mut j: usize = 0;
    while j < n.len()
        invariant
            i + n@.len() <= h@.len(),
            h@.len() <= usize::MAX,
            0 <= j <= n@.len(),
            forall|k: int| 0 <= k < j ==> h@[i + k] == n@[k],
        decreases n@.len() - j,
    {
        if h[i + j] != n[j] {
            proof {
                assert(h@.subrange(i as int, i + n@.len())[j as int] == h@[i + j]);
            }
            return false;
        }
        j = j + 1;
    }
    proof {
        assert(h@.subrange(i as int, i + n@.len()) =~= n@);
    }
    true
}

/// Find the first occurrence of `n` in `h`, if any.
pub fn find_sub(h: &Vec<char>, n: &Vec<char>) -> (r: Option<usize>)
    ensures
        match r {
            Some(i) => match_at(h@, n@, i as int) && forall|j: int|
                0 <= j < i ==> !match_at(h@, n@, j),
            None => !spec_contains_seq(h@, n@),
        },
{
    if n.len() > h.len() {
        return None;
    }
    let last = h.len() - n.len();
    let mut i: usize = 0;
    while i < last
        invariant
            n@.len() <= h@.len(),
            h@.len() <= usize::MAX,
            last == h@.len() - n@.len(),
            0 <= i <= last,
            forall|j: int| 0 <= j < i ==> !match_at(h@, n@, j),
        decreases last - i,
    {
        if match_at_exec(h, n, i) {
            return Some(i);
        }
        i = i + 1;
    }
    if match_at_exec(h, n, last) {
        return Some(last);
    }
    assert forall|j: int| true implies !match_at(h@, n@, j) by {
        if 0 <= j <= last {
            assert(!match_at(h@, n@, j));
        }
    }
    None
}

/// Whether `n` occurs in `h`.
pub fn contains_sub(h: &Vec<char>, n: &Vec<char>) -> (r: bool)
    ensures
        r == spec_contains_seq(h@, n@),
{
    match find_sub(h, n) {
        Some(_) => true,
        None => false,
    }
}

/// Element-wise equality of two character vectors.
pub fn chars_eq(a: &Vec<char>, b: &Vec<char>) -> (r: bool)
    ensures
        r == (a@ == b@),
{
    if a.len() != b.len() {
        return false;
    }
    let mut i: usize = 0;
    while i < a.len()
        invariant
            a@.len() == b@.len(),
            0 <= i <= a@.len(),
            forall|j: int| 0 <= j < i ==> a@[j] == b@[j],
        decreases a@.len() - i,
    {
        if a[i] != b[i] {
            return false;
        }
        i = i + 1;
    }
    proof {
        assert(a@ =~= b@);
    }
    true
}

} // verus!

verus! {

/// String equality at the character level.
pub fn str_eq(a: &str, b: &str) -> (r: bool)
    ensures
        r == (a@ == b@),
{
    let av = str_to_chars(a);
    let bv = str_to_chars(b);
    chars_eq(&av, &bv)
}

} // verus!
