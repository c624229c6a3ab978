//! Settings for a process that runs inside the cluster, from the service
//! environment variables and the mounted service-account files.
use vstd::prelude::*;
use vstd::string::StringExecFns;
use crate::codec::header_text_ok;
use crate::error::ConfigError;
use crate::plan::ClientPlan;
use crate::resolve::bearer_text;

verus! {

/// Variable that holds the API server's host.
pub const SERVICE_HOSTENV: &'static str = "KUBERNETES_SERVICE_HOST";

/// Variable that holds the API server's port.
pub const SERVICE_PORTENV: &'static str = "KUBERNETES_SERVICE_PORT";

/// Mounted bearer token of the service account.
pub const SERVICE_TOKENFILE: &'static str = "/var/run/secrets/kubernetes.io/serviceaccount/token";

/// Mounted CA certificate of the cluster.
pub const SERVICE_CERTFILE: &'static str = "/var/run/secrets/kubernetes.io/serviceaccount/ca.crt";

/// Mounted namespace of the pod.
pub const SERVICE_DEFAULT_NS: &'static str =
    "/var/run/secrets/kubernetes.io/serviceaccount/namespace";

/// The message for a missing service variable, which names both.
pub open spec fn missing_env_text() -> Seq<char> {
    "Unable to load incluster config, "@ + SERVICE_HOSTENV@ + " and "@ + SERVICE_PORTENV@
        + " must be defined"@
}

/// The server URL from the two service variables' values, where both are set.
pub fn kube_server(host: Option<String>, port: Option<String>) -> (r: Result<String, ConfigError>)
    ensures
        match (host, port) {
            (Some(h), Some(p)) => r matches Ok(s) && s@ == "https://"@ + h@ + ":"@ + p@,
            _ => r matches Err(ConfigError::InClusterConfig(m)) && m@ == missing_env_text(),
        },
{
    match (host, port) {
        (Some(h), Some(p)) => Ok(String::from_str("https://").concat(h.as_str()).concat(":").concat(
            p.as_str(),
        )),
        _ => Err(
            ConfigError::InClusterConfig(
                String::from_str("Unable to load incluster config, ").concat(SERVICE_HOSTENV).concat(
                    " and ",
                ).concat(SERVICE_PORTENV).concat(" must be defined"),
            ),
        ),
    }
}

/// The in-cluster base path, namespace and transport plan.
pub struct InClusterSettings {
    pub base_path: String,
    pub default_ns: String,
    pub plan: ClientPlan,
}

/// Builds the in-cluster settings from the two variables' values and what
/// was read from the three mounted files (`None`: missing or unreadable).
/// Each missing piece is an error of its own that names it, checked in the
/// order: variables, CA certificate, token, namespace.
pub fn incluster_settings(
    host: Option<String>,
    port: Option<String>,
    ca: Option<Vec<u8>>,
    token: Option<String>,
    namespace: Option<String>,
) -> (r: Result<InClusterSettings, ConfigError>)
    ensures
        (host is None || port is None) ==> (r matches Err(ConfigError::InClusterConfig(m))
            && m@ == missing_env_text()),
        host is Some && port is Some && ca is None ==> (r matches Err(
            ConfigError::InClusterConfig(m),
        ) && m@ == SERVICE_CERTFILE@),
        host is Some && port is Some && ca is Some && token is None ==> (r matches Err(
            ConfigError::InClusterConfig(m),
        ) && m@ == SERVICE_TOKENFILE@),
        host is Some && port is Some && ca is Some && token is Some && namespace is None ==> (r matches Err(
            ConfigError::InClusterConfig(m),
        ) && m@ == SERVICE_DEFAULT_NS@),
        host is Some && port is Some && ca is Some && token is Some && namespace is Some && !header_text_ok(
            bearer_text(token->Some_0@),
        ) ==> (r matches Err(ConfigError::InvalidCredential(_))),
        r is Ok <==> (host is Some && port is Some && ca is Some && token is Some && namespace is Some
            && header_text_ok(bearer_text(token->Some_0@))),
        r matches Ok(s) ==> {
            &&& s.base_path@ == "https://"@ + host->Some_0@ + ":"@ + port->Some_0@
            &&& s.default_ns == namespace->Some_0
            &&& s.plan.ca_bundle == ca
            &&& s.plan.identity is None
            &&& !s.plan.accept_invalid_certs
            &&& s.plan.authorization matches Some(a) && a@ == bearer_text(token->Some_0@)
        },
{
    let server = match kube_server(host, port) {
        Ok(s) => s,
        Err(e) => return Err(e),
    };
    if ca.is_none() {
        return Err(ConfigError::InClusterConfig(String::from_str(SERVICE_CERTFILE)));
    }
    let t = match token {
        Some(t) => t,
        None => return Err(ConfigError::InClusterConfig(String::from_str(SERVICE_TOKENFILE))),
    };
    let ns = match namespace {
        Some(n) => n,
        None => return Err(ConfigError::InClusterConfig(String::from_str(SERVICE_DEFAULT_NS))),
    };
    let text = String::from_str("Bearer ").concat(t.as_str());
    match crate::codec::header_value(text.as_str()) {
        Ok(_) => {},
        Err(_) => {
            return Err(ConfigError::InvalidCredential(String::from_str("invalid bearer token")));
        },
    }
    Ok(
        InClusterSettings {
            base_path: server,
            default_ns: ns,
            plan: ClientPlan {
                ca_bundle: ca,
                identity: None,
                accept_invalid_certs: false,
                authorization: Some(text),
            },
        },
    )
}

} // verus!
