//! The configuration handed to API-calling code, and the options of a load.
use vstd::prelude::*;
use vstd::string::StringExecFns;

verus! {

/// reqwest::Client, the configured HTTP client; carried, never read.
#[verifier::external_type_specification]
#[verifier::external_body]
pub struct ExClient(reqwest::Client);

/// The base path of the API server and a client configured for it.
pub struct Configuration {
    pub base_path: String,
    pub client: reqwest::Client,
    /// The current default namespace: "default" outside a cluster, the pod's
    /// namespace inside one.
    pub default_ns: String,
}

impl Configuration {
    /// A configuration whose default namespace is "default".
    pub fn new(base_path: String, client: reqwest::Client) -> (r: Self)
        ensures
            r.base_path == base_path,
            r.client == client,
            r.default_ns@ == "default"@,
    {
        Self::with_default_ns(base_path, client, String::from_str("default"))
    }

    pub fn with_default_ns(base_path: String, client: reqwest::Client, default_ns: String) -> (r:
        Self)
        ensures
            r.base_path == base_path,
            r.client == client,
            r.default_ns == default_ns,
    {
        Configuration { base_path, client, default_ns }
    }
}

/// Overrides of the context, cluster and user that a load selects.
pub struct ConfigOptions {
    pub context: Option<String>,
    pub cluster: Option<String>,
    pub user: Option<String>,
}

impl Default for ConfigOptions {
    fn default() -> (r: Self)
        ensures
            r.context is None,
            r.cluster is None,
            r.user is None,
    {
        ConfigOptions { context: None, cluster: None, user: None }
    }
}

} // verus!
