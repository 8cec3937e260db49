//! Persisted configuration values and how the effective base URL is
//! chosen. Reading and writing the configuration file, and the
//! environment, belong to the driver around the library.

use vstd::prelude::*;

verus! {

/// The default API base URL.
pub fn default_api_base_url() -> (r: &'static str)
    ensures
        r@ == "https://app.asana.com/api/1.0"@,
{
    "https://app.asana.com/api/1.0"
}

/// Values persisted in the configuration file.
#[derive(Debug, Clone, PartialEq, Eq)]
pub struct FileConfig {
    /// Optional custom API base URL for private deployments.
    pub api_base_url: Option<String>,
    /// Preferred default workspace identifier.
    pub default_workspace: Option<String>,
    /// Preferred default assignee identifier (email or gid).
    pub default_assignee: Option<String>,
    /// Preferred default project identifier.
    pub default_project: Option<String>,
    /// Stored Personal Access Token (if persisted on disk).
    pub personal_access_token: Option<String>,
}

impl FileConfig {
    /// A configuration with nothing set.
    pub fn empty() -> (r: FileConfig)
        ensures
            r.api_base_url is None,
            r.default_workspace is None,
            r.default_assignee is None,
            r.default_project is None,
            r.personal_access_token is None,
    {
        FileConfig {
            api_base_url: None,
            default_workspace: None,
            default_assignee: None,
            default_project: None,
            personal_access_token: None,
        }
    }
}

/// The base URL a client uses: an environment override wins, then the
/// configuration file, then the built-in default.
pub open spec fn spec_effective_api_base_url(
    env_override: Option<String>,
    file: FileConfig,
) -> Seq<char> {
    match env_override {
        Some(e) => e@,
        None => match file.api_base_url {
            Some(f) => f@,
            None => "https://app.asana.com/api/1.0"@,
        },
    }
}

/// Choose the effective base URL.
pub fn effective_api_base_url(env_override: &Option<String>, file: &FileConfig) -> (r: String)
    ensures
        r@ == spec_effective_api_base_url(*env_override, *file),
{
    match env_override {
        Some(e) => crate::strlist::copy_string(e.as_str()),
        None => match &file.api_base_url {
            Some(f) => crate::strlist::copy_string(f.as_str()),
            None => crate::strlist::copy_string(default_api_base_url()),
        },
    }
}

} // verus!
