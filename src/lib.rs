//! Resolution of the credentials and transport settings needed to reach a
//! cluster's API server, from a kubeconfig document or from the in-cluster
//! service-account environment.

pub mod apis;
pub mod codec;
pub mod configuration;
pub mod error;
pub mod exec;
pub mod incluster;
pub mod loader;
pub mod plan;
pub mod resolve;

pub use apis::{AuthInfo, Cluster, Config, Context, ExecConfig, NamedAuthInfo, NamedCluster, NamedContext, Preferences};
pub use configuration::{ConfigOptions, Configuration};
pub use error::ConfigError;
pub use loader::KubeConfigLoader;
