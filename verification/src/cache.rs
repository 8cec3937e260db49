//! The two-tier response cache.
//!
//! The memory tier is a key/value store of response bodies with absolute
//! expiry instants, owned here in full. The disk tier is a file per key
//! whose content is a small JSON record, `{"expires_at":N,"body":"…"}`,
//! with the body base64-encoded; this module produces and reads those
//! records, while the file reads, writes and deletions themselves belong
//! to the driver around the library. A stale or corrupt record is reported
//! as such so the driver deletes the file and treats the lookup as a miss.

use vstd::prelude::*;

use base64::Engine;

verus! {

use crate::num::spec_decimal;
use crate::num::spec_digits_val;
use crate::num::spec_parse_u64;
use crate::num::all_digits;
use crate::num::is_digit_char;

/// One memory-tier entry: expiry instant (milliseconds on the driver's
/// clock) and the cached body.
#[derive(Debug)]
pub struct MemEntry {
    /// When the entry stops being served.
    pub expires_at_ms: u64,
    /// The cached response body.
    pub body: Vec<u8>,
}

/// The in-memory cache tier.
#[derive(Debug)]
pub struct MemoryCache {
    entries: Vec<(String, MemEntry)>,
}

/// The first entry under a key, if any.
pub open spec fn spec_find(c: Seq<(Seq<char>, u64, Seq<u8>)>, k: Seq<char>) -> Option<
    (u64, Seq<u8>),
>
    decreases c.len(),
{
    if c.len() == 0 {
        None
    } else if c.first().0 == k {
        Some((c.first().1, c.first().2))
    } else {
        spec_find(c.drop_first(), k)
    }
}

/// What a lookup at time `now` yields: the body, while the entry has not
/// expired.
pub open spec fn spec_lookup(
    c: Seq<(Seq<char>, u64, Seq<u8>)>,
    k: Seq<char>,
    now_ms: u64,
) -> Option<Seq<u8>> {
    match spec_find(c, k) {
        Some((exp, body)) => if now_ms < exp {
            Some(body)
        } else {
            None
        },
        None => None,
    }
}

impl MemoryCache {
    /// The stored entries: key, expiry, body.
    pub closed spec fn contents(&self) -> Seq<(Seq<char>, u64, Seq<u8>)> {
        Seq::new(self.entries@.len(), |i: int| (self.entries@[i].0@, self.entries@[i].1.expires_at_ms, self.entries@[i].1.body@))
    }

    /// An empty cache.
    pub fn new() -> (r: MemoryCache)
        ensures
            r.contents() =~= Seq::<(Seq<char>, u64, Seq<u8>)>::empty(),
    {
        MemoryCache { entries: Vec::new() }
    }

    /// Look a key up at time `now`: its body when present and not expired.
    pub fn lookup(&self, key: &str, now_ms: u64) -> (r: Option<Vec<u8>>)
        ensures
            match r {
                Some(v) => spec_lookup(self.contents(), key@, now_ms) == Some(v@),
                None => spec_lookup(self.contents(), key@, now_ms) is None,
            },
    {
        proof {
            assert(self.contents().skip(0) =~= self.contents());
        }
        let mut i: usize = 0;
        while i < self.entries.len()
            invariant
                0 <= i <= self.entries@.len(),
                spec_find(self.contents(), key@) == spec_find(
                    self.contents().skip(i as int),
                    key@,
                ),
            decreases self.entries@.len() - i,
        {
            proof {
                assert(self.contents().skip(i as int).first() == self.contents()[i as int]);
                assert(self.contents().skip(i as int).drop_first() =~= self.contents().skip(
                    i + 1,
                ));
            }
            if crate::text::str_eq(self.entries[i].0.as_str(), key) {
                let e = &self.entries[i].1;
                if now_ms < e.expires_at_ms {
                    let mut out: Vec<u8> = Vec::new();
                    out.extend_from_slice(e.body.as_slice());
                    proof {
                        assert(out@ =~= self.contents()[i as int].2);
                    }
                    return Some(out);
                } else {
                    return None;
                }
            }
            i = i + 1;
        }
        proof {
            assert(self.contents().skip(i as int).len() == 0);
        }
        None
    }

    /// Store a body under a key with an absolute expiry instant, replacing
    /// any previous entry under that key.
    pub fn store(&mut self, key: &str, expires_at_ms: u64, body: Vec<u8>)
        ensures
            spec_find(final(self).contents(), key@) == Some((expires_at_ms, body@)),
            forall|k2: Seq<char>|
                k2 != key@ ==> #[trigger] spec_find(final(self).contents(), k2) == spec_find(
                    old(self).contents(),
                    k2,
                ),
    {
        let ghost before = self.contents();
        let mut i: usize = 0;
        while i < self.entries.len()
            invariant
                0 <= i <= self.entries@.len(),
                before == old(self).contents(),
                self.contents() == before,
                forall|j: int| 0 <= j < i ==> before[j].0 != key@,
            decreases self.entries@.len() - i,
        {
            proof {
                assert(before[i as int] == (self.entries@[i as int].0@, self.entries@[i as int].1.expires_at_ms, self.entries@[i as int].1.body@));
            }
            if crate::text::str_eq(self.entries[i].0.as_str(), key) {
                let k = crate::text::str_to_chars(key);
                let ks = crate::text::chars_to_string(&k);
                self.entries.set(i, (ks, MemEntry { expires_at_ms, body }));
                proof {
                    let after = self.contents();
                    assert(after.len() == before.len());
                    assert forall|j: int| 0 <= j < before.len() && j != i implies after[j]
                        == before[j] by {
                        assert(after[j] == (self.entries@[j].0@, self.entries@[j].1.expires_at_ms, self.entries@[j].1.body@));
                    }
                    assert(after[i as int].0 == key@);
                    assert(after[i as int].1 == expires_at_ms);
                    assert(after[i as int].2 == body@);
                    lemma_find_prefix_mismatch(before, after, key@, i as int);
                }
                return ;
            }
            i = i + 1;
        }
        let k = crate::text::str_to_chars(key);
        let ks = crate::text::chars_to_string(&k);
        self.entries.push((ks, MemEntry { expires_at_ms, body }));
        proof {
            assert(self.contents() =~= before.push((key@, expires_at_ms, body@)));
            lemma_find_push(before, key@, expires_at_ms, body@);
        }
    }
}

proof fn lemma_find_push(c: Seq<(Seq<char>, u64, Seq<u8>)>, k: Seq<char>, exp: u64, body: Seq<u8>)
    requires
        forall|j: int| 0 <= j < c.len() ==> c[j].0 != k,
    ensures
        spec_find(c.push((k, exp, body)), k) == Some((exp, body)),
        forall|k2: Seq<char>|
            k2 != k ==> #[trigger] spec_find(c.push((k, exp, body)), k2) == spec_find(c, k2),
    decreases c.len(),
{
    let x = (k, exp, body);
    if c.len() == 0 {
        assert(c.push(x).first() == x);
        assert forall|k2: Seq<char>| k2 != k implies #[trigger] spec_find(c.push(x), k2)
            == spec_find(c, k2) by {
            assert(c.push(x).drop_first() =~= c);
            assert(spec_find(c.push(x), k2) == spec_find(c.push(x).drop_first(), k2));
        }
    } else {
        assert(c.push(x).first() == c.first());
        assert(c.first().0 != k);
        assert(c.push(x).drop_first() =~= c.drop_first().push(x));
        assert forall|j: int| 0 <= j < c.drop_first().len() implies c.drop_first()[j].0 != k by {
            assert(c.drop_first()[j] == c[j + 1]);
        }
        lemma_find_push(c.drop_first(), k, exp, body);
        assert(spec_find(c.push(x), k) == spec_find(c.drop_first().push(x), k));
        assert forall|k2: Seq<char>| k2 != k implies #[trigger] spec_find(c.push(x), k2)
            == spec_find(c, k2) by {
            if c.first().0 != k2 {
                assert(spec_find(c.push(x), k2) == spec_find(c.drop_first().push(x), k2));
                assert(spec_find(c.drop_first().push(x), k2) == spec_find(c.drop_first(), k2));
                assert(spec_find(c, k2) == spec_find(c.drop_first(), k2));
            }
        }
    }
}

proof fn lemma_find_prefix_mismatch(
    before: Seq<(Seq<char>, u64, Seq<u8>)>,
    after: Seq<(Seq<char>, u64, Seq<u8>)>,
    k: Seq<char>,
    i: int,
)
    requires
        0 <= i < before.len(),
        after.len() == before.len(),
        forall|j: int| 0 <= j < before.len() && j != i ==> after[j] == before[j],
        forall|j: int| 0 <= j < i ==> before[j].0 != k,
        after[i].0 == k,
        before[i].0 == k,
    ensures
        spec_find(after, k) == Some((after[i].1, after[i].2)),
        forall|k2: Seq<char>| k2 != k ==> #[trigger] spec_find(after, k2) == spec_find(before, k2),
    decreases i,
{
    if i == 0 {
        assert(after.first() == after[0]);
        assert(before.first() == before[0]);
        assert forall|k2: Seq<char>| k2 != k implies #[trigger] spec_find(after, k2) == spec_find(
            before,
            k2,
        ) by {
            assert(after.first().0 == k);
            assert(before.first().0 == k);
            assert(spec_find(after, k2) == spec_find(after.drop_first(), k2));
            assert(spec_find(before, k2) == spec_find(before.drop_first(), k2));
            assert(after.drop_first() =~= before.drop_first());
        }
    } else {
        assert(after.first() == after[0]);
        assert(before.first() == before[0]);
        assert(after[0] == before[0]);
        assert(after.first().0 != k);
        let at = after.drop_first();
        let bt = before.drop_first();
        assert forall|j: int| 0 <= j < bt.len() && j != i - 1 implies at[j] == bt[j] by {
            assert(at[j] == after[j + 1]);
            assert(bt[j] == before[j + 1]);
        }
        assert forall|j: int| 0 <= j < i - 1 implies bt[j].0 != k by {
            assert(bt[j] == before[j + 1]);
        }
        assert(at[i - 1] == after[i]);
        assert(bt[i - 1] == before[i]);
        lemma_find_prefix_mismatch(bt, at, k, i - 1);
        assert(spec_find(after, k) == spec_find(at, k));
        assert forall|k2: Seq<char>| k2 != k implies #[trigger] spec_find(after, k2) == spec_find(
            before,
            k2,
        ) by {
            if after.first().0 != k2 {
                assert(spec_find(after, k2) == spec_find(at, k2));
                assert(spec_find(before, k2) == spec_find(bt, k2));
                assert(spec_find(at, k2) == spec_find(bt, k2));
            }
        }
    }
}

/// Round trip of the memory tier: looking up a key right after storing a
/// body under it yields that very body, at any instant before the expiry.
pub proof fn lemma_memory_round_trip(
    c: Seq<(Seq<char>, u64, Seq<u8>)>,
    k: Seq<char>,
    exp: u64,
    body: Seq<u8>,
    now_ms: u64,
)
    requires
        spec_find(c, k) == Some((exp, body)),
        now_ms < exp,
    ensures
        spec_lookup(c, k, now_ms) == Some(body),
{
}

} // verus!

verus! {

/// The base64 rendering (standard alphabet, padded) of a byte string.
pub uninterp spec fn b64_of(b: Seq<u8>) -> Seq<char>;

/// Relies on base64's `STANDARD` engine: encoding renders the bytes in the
/// RFC 4648 standard alphabet with padding, a function of the input alone.
#[verifier::external_body]
fn b64_encode(b: &[u8]) -> (r: String)
    requires
        b@.len() <= usize::MAX / 4,
    ensures
        r@ == b64_of(b@),
{
    base64::engine::general_purpose::STANDARD.encode(b)
}

/// Relies on base64's `STANDARD` engine: decoding the canonical rendering
/// of any byte string yields exactly that byte string.
#[verifier::external_body]
fn b64_decode(s: &str) -> (r: Option<Vec<u8>>)
    ensures
        match r {
            Some(v) => forall|b: Seq<u8>| s@ == b64_of(b) ==> v@ == b,
            None => forall|b: Seq<u8>| s@ != b64_of(b),
        },
{
    base64::engine::general_purpose::STANDARD.decode(s.as_bytes()).ok()
}

/// The disk-tier record for one cache entry: expiry in epoch seconds and
/// the body, base64-encoded, framed as a small JSON object.
pub open spec fn spec_frame(expires_at: u64, b64: Seq<char>) -> Seq<char> {
    "{\"expires_at\":"@ + spec_decimal(expires_at as nat) + ",\"body\":\""@ + b64 + "\"}"@
}

proof fn lemma_decimal_digits(n: nat)
    ensures
        all_digits(spec_decimal(n)),
        spec_decimal(n).len() >= 1,
        spec_digits_val(spec_decimal(n)) == n,
    decreases n,
{
    if n < 10 {
        assert(spec_decimal(n) == seq![crate::num::spec_digit_char(n as int)]);
        assert(is_digit_char(crate::num::spec_digit_char(n as int)));
        assert(spec_decimal(n).drop_last() =~= Seq::<char>::empty());
        assert(spec_digits_val(Seq::<char>::empty()) == 0);
        assert(crate::num::digit_val(crate::num::spec_digit_char(n as int)) == n);
        assert(spec_decimal(n).last() == crate::num::spec_digit_char(n as int));
    } else {
        lemma_decimal_digits(n / 10);
        let d = crate::num::spec_digit_char((n % 10) as int);
        assert(is_digit_char(d));
        let s = spec_decimal(n);
        assert(s == spec_decimal(n / 10).push(d));
        assert forall|i: int| 0 <= i < s.len() implies is_digit_char(#[trigger] s[i]) by {
            if i < s.len() - 1 {
                assert(s[i] == spec_decimal(n / 10)[i]);
            }
        }
        assert(s.drop_last() =~= spec_decimal(n / 10));
        assert(s.last() == d);
        assert(crate::num::digit_val(d) == n % 10);
    }
}

/// The end of the run of digit characters starting at `i`.
pub open spec fn spec_digit_run(s: Seq<char>, i: int) -> int
    decreases s.len() - i,
{
    if i < 0 || i >= s.len() {
        i
    } else if is_digit_char(s[i]) {
        spec_digit_run(s, i + 1)
    } else {
        i
    }
}

proof fn lemma_digit_run_exact(s: Seq<char>, i: int, j: int)
    requires
        0 <= i <= j <= s.len(),
        forall|k: int| i <= k < j ==> is_digit_char(#[trigger] s[k]),
        j < s.len() ==> !is_digit_char(s[j]),
    ensures
        spec_digit_run(s, i) == j,
    decreases j - i,
{
    if i < j {
        assert(is_digit_char(s[i]));
        lemma_digit_run_exact(s, i + 1, j);
    }
}

/// Parse the disk-record frame: the expiry seconds and the base64 region.
pub open spec fn spec_parse_frame(s: Seq<char>) -> Option<(u64, Seq<char>)> {
    let p1 = "{\"expires_at\":"@;
    let p2 = ",\"body\":\""@;
    let p3 = "\"}"@;
    if s.len() < 14 || s.take(14) != p1 {
        None
    } else {
        let d_end = spec_digit_run(s, 14);
        if d_end == 14 || s.len() < 2 || d_end + 9 > s.len() - 2 {
            None
        } else if s.subrange(d_end, d_end + 9) != p2 {
            None
        } else if s.subrange(s.len() - 2, s.len() as int) != p3 {
            None
        } else {
            match spec_parse_u64(s.subrange(14, d_end)) {
                None => None,
                Some(t) => Some((t, s.subrange(d_end + 9, s.len() - 2))),
            }
        }
    }
}

/// Round trip of the disk-record frame: parsing the frame written for any
/// expiry instant and base64 text recovers both exactly.
pub proof fn lemma_frame_round_trip(expires_at: u64, b64: Seq<char>)
    ensures
        spec_parse_frame(spec_frame(expires_at, b64)) == Some((expires_at, b64)),
{
    reveal_strlit("{\"expires_at\":");
    reveal_strlit(",\"body\":\"");
    reveal_strlit("\"}");
    let p1 = "{\"expires_at\":"@;
    let p2 = ",\"body\":\""@;
    let p3 = "\"}"@;
    let dec = spec_decimal(expires_at as nat);
    let dl = dec.len() as int;
    lemma_decimal_digits(expires_at as nat);
    let s = spec_frame(expires_at, b64);
    assert(p1.len() == 14);
    assert(p2.len() == 9);
    assert(p3.len() == 2);
    assert(s.len() == 14 + dl + 9 + b64.len() + 2);
    assert(s.take(14) =~= p1);
    assert forall|k: int| 14 <= k < 14 + dl implies is_digit_char(#[trigger] s[k]) by {
        assert(s[k] == dec[k - 14]);
    }
    assert(s[14 + dl] == p2[0]);
    assert(!is_digit_char(p2[0]));
    lemma_digit_run_exact(s, 14, 14 + dl);
    assert(s.subrange(14 + dl, 14 + dl + 9) =~= p2);
    assert(s.subrange(s.len() - 2, s.len() as int) =~= p3);
    assert(s.subrange(14, 14 + dl) =~= dec);
    assert(spec_parse_u64(dec) == Some(expires_at));
    assert(s.subrange(14 + dl + 9, s.len() - 2) =~= b64);
}

/// The expiry instant written to disk: `now + ttl` in epoch seconds,
/// falling back to `now` when the sum cannot be represented.
pub open spec fn spec_expires_at(now_s: u64, ttl_s: u64) -> u64 {
    if now_s + ttl_s <= u64::MAX {
        (now_s + ttl_s) as u64
    } else {
        now_s
    }
}

/// Compute the disk expiry instant.
pub fn compute_expires_at(now_s: u64, ttl_s: u64) -> (r: u64)
    ensures
        r == spec_expires_at(now_s, ttl_s),
{
    match now_s.checked_add(ttl_s) {
        Some(v) => v,
        None => now_s,
    }
}

/// Render the disk-tier record for a response body.
pub fn encode_disk_entry(expires_at: u64, body: &[u8]) -> (r: String)
    requires
        body@.len() <= usize::MAX / 4,
    ensures
        r@ == spec_frame(expires_at, b64_of(body@)),
{
    let b64 = b64_encode(body);
    let mut out = crate::text::str_to_chars("{\"expires_at\":");
    let mut d = crate::num::u64_to_dec_chars(expires_at);
    out.append(&mut d);
    let mut mid = crate::text::str_to_chars(",\"body\":\"");
    out.append(&mut mid);
    let mut bc = crate::text::str_to_chars(b64.as_str());
    out.append(&mut bc);
    let mut suf = crate::text::str_to_chars("\"}");
    out.append(&mut suf);
    proof {
        assert(out@ =~= spec_frame(expires_at, b64_of(body@)));
    }
    crate::text::chars_to_string(&out)
}

/// What reading a disk record at time `now` concludes.
#[derive(Debug)]
pub enum DiskRead {
    /// A live entry: serve this body and promote it to the memory tier.
    Hit(Vec<u8>),
    /// The entry's expiry is past: delete the file, treat as a miss.
    Stale,
    /// The record cannot be read: delete the file, treat as a miss.
    Corrupt,
}

/// Read a disk-tier record: a well-formed, unexpired record yields its
/// body; an expired record is stale; anything else is corrupt. Stale and
/// corrupt records are misses, and the caller deletes their files.
pub fn read_disk_entry(file: &str, now_epoch_s: u64) -> (r: DiskRead)
    ensures
        match spec_parse_frame(file@) {
            None => r is Corrupt,
            Some(p) => if now_epoch_s <= p.0 {
                (forall|b: Seq<u8>| p.1 == b64_of(b) ==> (r matches DiskRead::Hit(v) && v@ == b))
                    && (r is Hit || r is Corrupt)
            } else {
                r is Stale
            },
        },
{
    let v = crate::text::str_to_chars(file);
    let p1 = crate::text::str_to_chars("{\"expires_at\":");
    let p2 = crate::text::str_to_chars(",\"body\":\"");
    let p3 = crate::text::str_to_chars("\"}");
    proof {
        reveal_strlit("{\"expires_at\":");
        reveal_strlit(",\"body\":\"");
        reveal_strlit("\"}");
    }
    if v.len() < 14 {
        return DiskRead::Corrupt;
    }
    let head = crate::num::slice_chars(&v, 0, 14);
    proof {
        assert(head@ =~= file@.take(14));
    }
    if !crate::text::chars_eq(&head, &p1) {
        return DiskRead::Corrupt;
    }
    // scan the digit run
    let mut d_end: usize = 14;
    while d_end < v.len() && crate::num::is_digit(v[d_end])
        invariant
            14 <= d_end <= v@.len(),
            v@ == file@,
            forall|k: int| 14 <= k < d_end ==> is_digit_char(#[trigger] file@[k]),
        decreases v@.len() - d_end,
    {
        d_end = d_end + 1;
    }
    proof {
        lemma_digit_run_exact(file@, 14, d_end as int);
    }
    if d_end == 14 {
        return DiskRead::Corrupt;
    }
    if v.len() < 2 || d_end > v.len() - 2 || v.len() - 2 - d_end < 9 {
        return DiskRead::Corrupt;
    }
    let mid = crate::num::slice_chars(&v, d_end, d_end + 9);
    proof {
        assert(mid@ =~= file@.subrange(d_end as int, d_end + 9));
    }
    if !crate::text::chars_eq(&mid, &p2) {
        return DiskRead::Corrupt;
    }
    let suf = crate::num::slice_chars(&v, v.len() - 2, v.len());
    proof {
        assert(suf@ =~= file@.subrange(file@.len() - 2, file@.len() as int));
    }
    if !crate::text::chars_eq(&suf, &p3) {
        return DiskRead::Corrupt;
    }
    let digits = crate::num::slice_chars(&v, 14, d_end);
    proof {
        assert(digits@ =~= file@.subrange(14, d_end as int));
    }
    let t = match crate::num::parse_u64_chars(&digits) {
        Some(t) => t,
        None => {
            return DiskRead::Corrupt;
        },
    };
    if !(now_epoch_s <= t) {
        return DiskRead::Stale;
    }
    let region = crate::num::slice_chars(&v, d_end + 9, v.len() - 2);
    proof {
        assert(region@ =~= file@.subrange(d_end + 9, file@.len() - 2));
    }
    let region_s = crate::text::chars_to_string(&region);
    match b64_decode(region_s.as_str()) {
        Some(body) => DiskRead::Hit(body),
        None => DiskRead::Corrupt,
    }
}

} // verus!
