//! The client core: the verified state a client carries between requests.
//!
//! It owns the configuration, the bearer token, the memory cache tier, the
//! rate-limit tracker, and the runtime offline flag. The driver around the
//! library wraps one core in its synchronization of choice and performs
//! the HTTP, sleeping and file I/O that the executor's decisions call for.

use vstd::prelude::*;

verus! {

use crate::auth::AuthToken;
use crate::cache::MemoryCache;
use crate::cache::spec_lookup;
use crate::cache::spec_find;
use crate::errors::RateLimitInfo;
use crate::options::ApiClientOptions;
use crate::ratelimit::RateLimitTracker;

/// A base URL with its trailing slashes removed.
pub open spec fn spec_rtrim_slash(s: Seq<char>) -> Seq<char>
    decreases s.len(),
{
    if s.len() > 0 && s.last() == '/' {
        spec_rtrim_slash(s.drop_last())
    } else {
        s
    }
}

/// A path with its leading slashes removed.
pub open spec fn spec_ltrim_slash(s: Seq<char>) -> Seq<char>
    decreases s.len(),
{
    if s.len() > 0 && s.first() == '/' {
        spec_ltrim_slash(s.drop_first())
    } else {
        s
    }
}

/// The URL for a request: trimmed base, one slash, trimmed path.
pub open spec fn spec_build_url(base: Seq<char>, path: Seq<char>) -> Seq<char> {
    spec_rtrim_slash(base) + seq!['/'] + spec_ltrim_slash(path)
}

proof fn lemma_ltrim_skip(s: Seq<char>, k: int)
    requires
        0 <= k <= s.len(),
        forall|j: int| 0 <= j < k ==> s[j] == '/',
        k < s.len() ==> s[k] != '/',
    ensures
        spec_ltrim_slash(s) == s.skip(k),
    decreases k,
{
    if k == 0 {
        assert(s.skip(0) =~= s);
    } else {
        assert(s.first() == '/');
        assert forall|j: int| 0 <= j < k - 1 implies s.drop_first()[j] == '/' by {
            assert(s.drop_first()[j] == s[j + 1]);
        }
        if k - 1 < s.drop_first().len() {
            assert(s.drop_first()[k - 1] == s[k]);
        }
        lemma_ltrim_skip(s.drop_first(), k - 1);
        assert(s.drop_first().skip(k - 1) =~= s.skip(k));
    }
}

proof fn lemma_rtrim_take(s: Seq<char>, k: int)
    requires
        0 <= k <= s.len(),
        forall|j: int| k <= j < s.len() ==> s[j] == '/',
        k > 0 ==> s[k - 1] != '/',
    ensures
        spec_rtrim_slash(s) == s.take(k),
    decreases s.len() - k,
{
    if k == s.len() {
        assert(s.take(k) =~= s);
    } else {
        assert(s.last() == '/');
        assert forall|j: int| k <= j < s.drop_last().len() implies s.drop_last()[j] == '/' by {
            assert(s.drop_last()[j] == s[j]);
        }
        if k > 0 {
            assert(s.drop_last()[k - 1] == s[k - 1]);
        }
        lemma_rtrim_take(s.drop_last(), k);
        assert(s.drop_last().take(k) =~= s.take(k));
    }
}

/// Join a base URL and a request path with exactly one slash.
pub fn build_url(base: &str, path: &str) -> (r: String)
    ensures
        r@ == spec_build_url(base@, path@),
{
    let bv = crate::text::str_to_chars(base);
    let pv = crate::text::str_to_chars(path);
    let mut end: usize = bv.len();
    while end > 0 && bv[end - 1] == '/'
        invariant
            0 <= end <= bv@.len(),
            bv@ == base@,
            forall|j: int| end <= j < bv@.len() ==> bv@[j] == '/',
        decreases end,
    {
        end = end - 1;
    }
    proof {
        lemma_rtrim_take(base@, end as int);
    }
    let mut start: usize = 0;
    while start < pv.len() && pv[start] == '/'
        invariant
            0 <= start <= pv@.len(),
            pv@ == path@,
            forall|j: int| 0 <= j < start ==> pv@[j] == '/',
        decreases pv@.len() - start,
    {
        start = start + 1;
    }
    proof {
        lemma_ltrim_skip(path@, start as int);
    }
    let mut out = crate::num::slice_chars(&bv, 0, end);
    out.push('/');
    let mut tail = crate::num::slice_chars(&pv, start, pv.len());
    out.append(&mut tail);
    proof {
        assert(out@ =~= spec_build_url(base@, path@));
    }
    crate::text::chars_to_string(&out)
}

/// The verified state of one API client.
pub struct ClientCore {
    token: AuthToken,
    options: ApiClientOptions,
    memory: MemoryCache,
    tracker: RateLimitTracker,
    offline: bool,
}

impl ClientCore {
    /// The configuration the core was built with.
    pub closed spec fn spec_options(&self) -> ApiClientOptions {
        self.options
    }

    /// The runtime offline flag.
    pub closed spec fn spec_offline(&self) -> bool {
        self.offline
    }

    /// The memory cache tier's contents.
    pub closed spec fn spec_memory_contents(&self) -> Seq<(Seq<char>, u64, Seq<u8>)> {
        self.memory.contents()
    }

    /// The retained rate-limit snapshot.
    pub closed spec fn spec_rate_limit(&self) -> Option<RateLimitInfo> {
        self.tracker.spec_current()
    }

    /// The bearer secret.
    pub closed spec fn spec_token_secret(&self) -> Seq<char> {
        self.token.spec_secret()
    }

    /// Construct a core from a token and options.
    pub fn new(token: AuthToken, options: ApiClientOptions) -> (r: ClientCore)
        ensures
            r.spec_options() == options,
            r.spec_offline() == options.offline,
            r.spec_memory_contents() =~= Seq::<(Seq<char>, u64, Seq<u8>)>::empty(),
            r.spec_rate_limit() is None,
            r.spec_token_secret() == token.spec_secret(),
    {
        let offline = options.offline;
        ClientCore {
            token,
            options,
            memory: MemoryCache::new(),
            tracker: RateLimitTracker::new(),
            offline,
        }
    }

    /// Update offline mode at runtime.
    pub fn set_offline(&mut self, offline: bool)
        ensures
            final(self).spec_offline() == offline,
            final(self).spec_options() == old(self).spec_options(),
            final(self).spec_memory_contents() == old(self).spec_memory_contents(),
            final(self).spec_rate_limit() == old(self).spec_rate_limit(),
            final(self).spec_token_secret() == old(self).spec_token_secret(),
    {
        self.offline = offline;
    }

    /// Determine if offline mode is active.
    pub fn is_offline(&self) -> (r: bool)
        ensures
            r == self.spec_offline(),
    {
        self.offline
    }

    /// The most recent rate-limit snapshot captured from the API.
    pub fn rate_limit_info(&self) -> (r: Option<RateLimitInfo>)
        ensures
            r == self.spec_rate_limit(),
    {
        self.tracker.current()
    }

    /// Record a rate-limit snapshot, overwriting the last.
    pub fn record_rate_limit(&mut self, info: RateLimitInfo)
        ensures
            final(self).spec_rate_limit() == Some(info),
            final(self).spec_offline() == old(self).spec_offline(),
            final(self).spec_options() == old(self).spec_options(),
            final(self).spec_memory_contents() == old(self).spec_memory_contents(),
            final(self).spec_token_secret() == old(self).spec_token_secret(),
    {
        self.tracker.record(info);
    }

    /// The configuration, for the driver around the library.
    pub fn options(&self) -> (r: &ApiClientOptions)
        ensures
            *r == self.spec_options(),
    {
        &self.options
    }

    /// The base URL currently configured.
    pub fn base_url(&self) -> (r: &str)
        ensures
            r@ == self.spec_options().base_url@,
    {
        self.options.base_url.as_str()
    }

    /// The `Authorization` header value for every request.
    pub fn authorization_value(&self) -> (r: String)
        ensures
            r@ == "Bearer "@ + self.spec_token_secret(),
    {
        self.token.authorization_value()
    }

    /// Look a key up in the memory tier at time `now`.
    pub fn memory_lookup(&self, key: &str, now_ms: u64) -> (r: Option<Vec<u8>>)
        ensures
            match r {
                Some(v) => spec_lookup(self.spec_memory_contents(), key@, now_ms) == Some(v@),
                None => spec_lookup(self.spec_memory_contents(), key@, now_ms) is None,
            },
    {
        self.memory.lookup(key, now_ms)
    }

    /// Store a body in the memory tier at time `now`, expiring one cache
    /// TTL later (saturating).
    pub fn memory_store(&mut self, key: &str, now_ms: u64, body: Vec<u8>)
        ensures
            spec_find(final(self).spec_memory_contents(), key@) == Some(
                (crate::cache::spec_expires_at(now_ms, old(self).spec_options().cache_ttl_ms), body@),
            ),
            forall|k2: Seq<char>|
                k2 != key@ ==> #[trigger] spec_find(final(self).spec_memory_contents(), k2)
                    == spec_find(old(self).spec_memory_contents(), k2),
            final(self).spec_offline() == old(self).spec_offline(),
            final(self).spec_options() == old(self).spec_options(),
            final(self).spec_rate_limit() == old(self).spec_rate_limit(),
            final(self).spec_token_secret() == old(self).spec_token_secret(),
    {
        let expires = crate::cache::compute_expires_at(now_ms, self.options.cache_ttl_ms);
        self.memory.store(key, expires, body);
    }
}

} // verus!
