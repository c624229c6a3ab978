use vstd::prelude::*;

verus! {

/// Every way in which resolving a client configuration can fail. Each variant
/// carries the name, file or variable that it concerns.
pub enum ConfigError {
    /// No kubeconfig file could be located.
    ConfigNotFound(String),
    /// The document does not parse as a kubeconfig.
    ConfigParse(String),
    /// The selected context name has no entry.
    ContextNotFound(String),
    /// The selected cluster name has no entry.
    ClusterNotFound(String),
    /// The selected user name has no entry.
    UserNotFound(String),
    /// CA or client material is present but malformed or unreadable.
    TlsMaterial(String),
    /// A resolved header value cannot be carried as an HTTP header.
    InvalidCredential(String),
    /// The exec credential plugin failed or returned nothing usable.
    ExecPlugin(String),
    /// A variable or mounted file of the in-cluster environment is missing.
    InClusterConfig(String),
    /// The transport builder rejected the assembled configuration.
    ClientBuild(String),
}

impl ConfigError {
    /// The diagnostic text carried by the error.
    pub fn message(&self) -> (r: &String)
        ensures
            r == self.detail(),
    {
        match self {
            ConfigError::ConfigNotFound(m) => m,
            ConfigError::ConfigParse(m) => m,
            ConfigError::ContextNotFound(m) => m,
            ConfigError::ClusterNotFound(m) => m,
            ConfigError::UserNotFound(m) => m,
            ConfigError::TlsMaterial(m) => m,
            ConfigError::InvalidCredential(m) => m,
            ConfigError::ExecPlugin(m) => m,
            ConfigError::InClusterConfig(m) => m,
            ConfigError::ClientBuild(m) => m,
        }
    }

    pub open spec fn detail(&self) -> &String {
        match self {
            ConfigError::ConfigNotFound(m) => m,
            ConfigError::ConfigParse(m) => m,
            ConfigError::ContextNotFound(m) => m,
            ConfigError::ClusterNotFound(m) => m,
            ConfigError::UserNotFound(m) => m,
            ConfigError::TlsMaterial(m) => m,
            ConfigError::InvalidCredential(m) => m,
            ConfigError::ExecPlugin(m) => m,
            ConfigError::InClusterConfig(m) => m,
            ConfigError::ClientBuild(m) => m,
        }
    }
}

} // verus!
