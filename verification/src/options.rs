//! Client configuration: immutable once a client is built, except the
//! offline flag, which the client core keeps mutable at runtime.
//!
//! All durations are whole milliseconds; the cache directory is carried as
//! a plain path string for the driver that owns the file system.

use vstd::prelude::*;

verus! {

use crate::auth::AuthToken;

/// Configurable options for the API client.
#[derive(Debug, Clone)]
pub struct ApiClientOptions {
    /// Base URL for the API.
    pub base_url: String,
    /// User agent string sent with every request.
    pub user_agent: String,
    /// Total request timeout applied to HTTP calls, in milliseconds.
    pub timeout_ms: u64,
    /// Maximum number of retry attempts for transient failures.
    pub max_retries: usize,
    /// Initial backoff delay applied between retries, in milliseconds.
    pub retry_base_delay_ms: u64,
    /// Time-to-live for cached responses, in milliseconds.
    pub cache_ttl_ms: u64,
    /// Directory used to persist cached responses across runs.
    pub cache_dir: String,
    /// Whether the client should avoid network calls and use cached data
    /// only.
    pub offline: bool,
}

/// The defaults every option set starts from: 30 s timeout, 3 retries,
/// 500 ms base backoff, 5 min cache TTL, online, no cache directory.
pub open spec fn spec_default_options(opts: ApiClientOptions, base_url: Seq<char>) -> bool {
    &&& opts.base_url@ == base_url
    &&& opts.user_agent@ == "asana-cli"@
    &&& opts.timeout_ms == 30000
    &&& opts.max_retries == 3
    &&& opts.retry_base_delay_ms == 500
    &&& opts.cache_ttl_ms == 300000
    &&& opts.cache_dir@ == Seq::<char>::empty()
    &&& opts.offline == false
}

impl ApiClientOptions {
    /// Construct options with a specific base URL and the defaults.
    pub fn new(base_url: String) -> (r: ApiClientOptions)
        ensures
            spec_default_options(r, base_url@),
    {
        let ua = crate::text::str_to_chars("asana-cli");
        ApiClientOptions {
            base_url,
            user_agent: crate::text::chars_to_string(&ua),
            timeout_ms: 30000,
            max_retries: 3,
            retry_base_delay_ms: 500,
            cache_ttl_ms: 300000,
            cache_dir: String::new(),
            offline: false,
        }
    }

    /// Override the cache directory used for disk persistence.
    pub fn with_cache_dir(self, cache_dir: String) -> (r: ApiClientOptions)
        ensures
            r == (ApiClientOptions { cache_dir, ..self }),
    {
        ApiClientOptions { cache_dir, ..self }
    }

    /// Override the request timeout.
    pub fn with_timeout(self, timeout_ms: u64) -> (r: ApiClientOptions)
        ensures
            r == (ApiClientOptions { timeout_ms, ..self }),
    {
        ApiClientOptions { timeout_ms, ..self }
    }

    /// Override retry attempts.
    pub fn with_max_retries(self, retries: usize) -> (r: ApiClientOptions)
        ensures
            r == (ApiClientOptions { max_retries: retries, ..self }),
    {
        ApiClientOptions { max_retries: retries, ..self }
    }

    /// Override retry backoff base delay.
    pub fn with_retry_base_delay(self, delay_ms: u64) -> (r: ApiClientOptions)
        ensures
            r == (ApiClientOptions { retry_base_delay_ms: delay_ms, ..self }),
    {
        ApiClientOptions { retry_base_delay_ms: delay_ms, ..self }
    }

    /// Override cache TTL.
    pub fn with_cache_ttl(self, ttl_ms: u64) -> (r: ApiClientOptions)
        ensures
            r == (ApiClientOptions { cache_ttl_ms: ttl_ms, ..self }),
    {
        ApiClientOptions { cache_ttl_ms: ttl_ms, ..self }
    }

    /// Start the client in offline mode.
    pub fn with_offline(self, offline: bool) -> (r: ApiClientOptions)
        ensures
            r == (ApiClientOptions { offline, ..self }),
    {
        ApiClientOptions { offline, ..self }
    }
}

/// Builder for the client core.
pub struct ApiClientBuilder {
    /// The bearer token the built client will send.
    pub token: AuthToken,
    /// The options accumulated so far.
    pub options: ApiClientOptions,
}

impl ApiClientBuilder {
    /// Create a new builder with a placeholder base URL to override.
    pub fn new(token: AuthToken, base_url: String) -> (r: ApiClientBuilder)
        ensures
            r.token.spec_secret() == token.spec_secret(),
            spec_default_options(r.options, base_url@),
    {
        ApiClientBuilder { token, options: ApiClientOptions::new(base_url) }
    }

    /// Set the base URL.
    pub fn base_url(self, base_url: String) -> (r: ApiClientBuilder)
        ensures
            r.options == (ApiClientOptions { base_url, ..self.options }),
            r.token == self.token,
    {
        ApiClientBuilder {
            token: self.token,
            options: ApiClientOptions { base_url, ..self.options },
        }
    }

    /// Override the user agent.
    pub fn user_agent(self, user_agent: String) -> (r: ApiClientBuilder)
        ensures
            r.options == (ApiClientOptions { user_agent, ..self.options }),
            r.token == self.token,
    {
        ApiClientBuilder {
            token: self.token,
            options: ApiClientOptions { user_agent, ..self.options },
        }
    }

    /// Override the cache directory.
    pub fn cache_dir(self, cache_dir: String) -> (r: ApiClientBuilder)
        ensures
            r.options == (ApiClientOptions { cache_dir, ..self.options }),
            r.token == self.token,
    {
        ApiClientBuilder {
            token: self.token,
            options: ApiClientOptions { cache_dir, ..self.options },
        }
    }

    /// Override timeout.
    pub fn timeout(self, timeout_ms: u64) -> (r: ApiClientBuilder)
        ensures
            r.options == (ApiClientOptions { timeout_ms, ..self.options }),
            r.token == self.token,
    {
        ApiClientBuilder {
            token: self.token,
            options: ApiClientOptions { timeout_ms, ..self.options },
        }
    }

    /// Override retry attempts.
    pub fn max_retries(self, retries: usize) -> (r: ApiClientBuilder)
        ensures
            r.options == (ApiClientOptions { max_retries: retries, ..self.options }),
            r.token == self.token,
    {
        ApiClientBuilder {
            token: self.token,
            options: ApiClientOptions { max_retries: retries, ..self.options },
        }
    }

    /// Override retry base delay.
    pub fn retry_base_delay(self, delay_ms: u64) -> (r: ApiClientBuilder)
        ensures
            r.options == (ApiClientOptions { retry_base_delay_ms: delay_ms, ..self.options }),
            r.token == self.token,
    {
        ApiClientBuilder {
            token: self.token,
            options: ApiClientOptions { retry_base_delay_ms: delay_ms, ..self.options },
        }
    }

    /// Override cache TTL.
    pub fn cache_ttl(self, ttl_ms: u64) -> (r: ApiClientBuilder)
        ensures
            r.options == (ApiClientOptions { cache_ttl_ms: ttl_ms, ..self.options }),
            r.token == self.token,
    {
        ApiClientBuilder {
            token: self.token,
            options: ApiClientOptions { cache_ttl_ms: ttl_ms, ..self.options },
        }
    }

    /// Configure offline mode.
    pub fn offline(self, offline: bool) -> (r: ApiClientBuilder)
        ensures
            r.options == (ApiClientOptions { offline, ..self.options }),
            r.token == self.token,
    {
        ApiClientBuilder { token: self.token, options: ApiClientOptions { offline, ..self.options } }
    }

    /// Finalise the builder, creating a client core.
    pub fn build(self) -> (r: crate::client::ClientCore)
        ensures
            r.spec_options() == self.options,
            r.spec_offline() == self.options.offline,
            r.spec_memory_contents() =~= Seq::<(Seq<char>, u64, Seq<u8>)>::empty(),
            r.spec_rate_limit() is None,
            r.spec_token_secret() == self.token.spec_secret(),
    {
        crate::client::ClientCore::new(self.token, self.options)
    }
}

} // verus!
