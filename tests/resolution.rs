use kube::exec::{exec_token, with_exec_identity, ExecCredential, ExecCredentialStatus};
use kube::incluster::{incluster_settings, kube_server, SERVICE_TOKENFILE};
use kube::plan::{client_plan, MaterialFiles};
use kube::resolve::{
    auth_header, ca_source, resolve_material, resolve_token, wants_exec, wants_token_file,
    MaterialSource,
};
use kube::{
    AuthInfo, Cluster, Config, ConfigError, ConfigOptions, Configuration, Context, ExecConfig,
    KubeConfigLoader, NamedAuthInfo, NamedCluster, NamedContext, Preferences,
};

const CERT_C: &str = "-----BEGIN CERTIFICATE-----\nMIIBCERTC\n-----END CERTIFICATE-----\n";
const CERT_D: &str = "-----BEGIN CERTIFICATE-----\nMIIBCERTD\n-----END CERTIFICATE-----\n";

fn s(x: &str) -> String {
    x.to_string()
}

fn cluster(server: &str) -> Cluster {
    Cluster {
        server: s(server),
        insecure_skip_tls_verify: None,
        certificate_authority: None,
        certificate_authority_data: None,
    }
}

fn user() -> AuthInfo {
    AuthInfo {
        username: None,
        password: None,
        token: None,
        token_file: None,
        client_certificate: None,
        client_certificate_data: None,
        client_key: None,
        client_key_data: None,
        exec_config: None,
    }
}

fn exec_config() -> ExecConfig {
    ExecConfig { api_version: None, command: s("plugin"), args: vec![], env: vec![] }
}

fn context(cluster: &str, user: &str) -> Context {
    Context { cluster: s(cluster), user: s(user), namespace: None }
}

fn document() -> Config {
    let mut alice = user();
    alice.token = Some(s("alice-token"));
    let mut bob = user();
    bob.username = Some(s("bob"));
    bob.password = Some(s("pw"));
    Config {
        current_context: s("dev"),
        clusters: vec![
            NamedCluster { name: s("dev-cluster"), cluster: cluster("https://dev.example") },
            NamedCluster { name: s("prod-cluster"), cluster: cluster("https://prod.example") },
        ],
        users: vec![
            NamedAuthInfo { name: s("alice"), user: alice },
            NamedAuthInfo { name: s("bob"), user: bob },
        ],
        contexts: vec![
            NamedContext { name: s("dev"), context: context("dev-cluster", "alice") },
            NamedContext { name: s("prod"), context: context("prod-cluster", "bob") },
        ],
        preferences: Preferences { colors: None },
    }
}

fn no_files() -> MaterialFiles {
    MaterialFiles { ca: None, certificate: None, key: None }
}

#[test]
fn load_selects_current_context() {
    let l = KubeConfigLoader::load(document(), None, None, None).ok().unwrap();
    assert_eq!(l.cluster.server, "https://dev.example");
    assert_eq!(l.user.token, Some(s("alice-token")));
    assert_eq!(l.current_context.user, "alice");
    assert_eq!(l.namespace(), "default");
}

#[test]
fn load_honours_overrides() {
    let l = KubeConfigLoader::load(document(), Some(s("prod")), None, None).ok().unwrap();
    assert_eq!(l.cluster.server, "https://prod.example");
    assert_eq!(l.user.username, Some(s("bob")));
    let l = KubeConfigLoader::load(document(), None, Some(s("prod-cluster")), Some(s("bob")))
        .ok()
        .unwrap();
    assert_eq!(l.cluster.server, "https://prod.example");
    assert_eq!(l.user.password, Some(s("pw")));
    assert_eq!(l.current_context.cluster, "dev-cluster");
}

#[test]
fn load_first_entry_of_a_name_wins() {
    let mut doc = document();
    doc.clusters.push(NamedCluster { name: s("dev-cluster"), cluster: cluster("https://other") });
    let l = KubeConfigLoader::load(doc, None, None, None).ok().unwrap();
    assert_eq!(l.cluster.server, "https://dev.example");
}

#[test]
fn load_reports_missing_context() {
    match KubeConfigLoader::load(document(), Some(s("nope")), None, None) {
        Err(ConfigError::ContextNotFound(n)) => assert_eq!(n, "nope"),
        _ => panic!("expected ContextNotFound"),
    }
}

#[test]
fn load_reports_missing_cluster_and_user() {
    let mut doc = document();
    doc.contexts[0].context.cluster = s("gone");
    match KubeConfigLoader::load(doc, None, None, None) {
        Err(ConfigError::ClusterNotFound(n)) => assert_eq!(n, "gone"),
        _ => panic!("expected ClusterNotFound"),
    }
    match KubeConfigLoader::load(document(), None, None, Some(s("carol"))) {
        Err(ConfigError::UserNotFound(n)) => assert_eq!(n, "carol"),
        _ => panic!("expected UserNotFound"),
    }
}

#[test]
fn namespace_of_context() {
    let mut doc = document();
    doc.contexts[0].context.namespace = Some(s("team-a"));
    let l = KubeConfigLoader::load(doc, None, None, None).ok().unwrap();
    assert_eq!(l.namespace(), "team-a");
}

#[test]
fn inline_ca_wins_over_file() {
    let mut c = cluster("https://10.0.0.1");
    c.certificate_authority_data = Some(base64::encode(CERT_C));
    c.certificate_authority = Some(s("/tmp/ca-d.pem"));
    assert!(matches!(ca_source(&c), MaterialSource::Inline(_)));
    let loader = KubeConfigLoader { current_context: context("c", "u"), cluster: c, user: user() };
    let files = MaterialFiles { ca: Some(CERT_D.as_bytes().to_vec()), certificate: None, key: None };
    let plan = client_plan(&loader, files, None).ok().unwrap();
    assert_eq!(plan.ca_bundle, Some(CERT_C.as_bytes().to_vec()));
}

#[test]
fn ca_file_used_without_inline_data() {
    let mut c = cluster("https://10.0.0.1");
    c.certificate_authority = Some(s("/tmp/ca-d.pem"));
    let src = ca_source(&c);
    match resolve_material(&src, Some(CERT_D.as_bytes().to_vec())) {
        Ok(Some(b)) => assert_eq!(b, CERT_D.as_bytes().to_vec()),
        _ => panic!("expected the file's bytes"),
    }
    match resolve_material(&src, None) {
        Err(ConfigError::TlsMaterial(m)) => assert_eq!(m, "/tmp/ca-d.pem"),
        _ => panic!("expected TlsMaterial"),
    }
}

#[test]
fn no_ca_leaves_system_trust() {
    let c = cluster("https://10.0.0.1");
    assert!(matches!(ca_source(&c), MaterialSource::Absent));
    assert!(matches!(resolve_material(&ca_source(&c), None), Ok(None)));
}

#[test]
fn malformed_ca_data_is_an_error() {
    let mut c = cluster("https://10.0.0.1");
    c.certificate_authority_data = Some(s("not base64!!"));
    let loader = KubeConfigLoader { current_context: context("c", "u"), cluster: c, user: user() };
    assert!(matches!(client_plan(&loader, no_files(), None), Err(ConfigError::TlsMaterial(_))));
}

#[test]
fn token_precedence() {
    let mut u = user();
    u.token = Some(s("direct"));
    u.token_file = Some(s("/tmp/token"));
    u.exec_config = Some(exec_config());
    assert!(!wants_token_file(&u));
    assert!(!wants_exec(&u, &None));
    assert_eq!(resolve_token(&u, Some(s("from-file")), Some(s("from-exec"))), Some(s("direct")));
    u.token = None;
    assert!(wants_token_file(&u));
    assert!(!wants_exec(&u, &Some(s("from-file"))));
    assert_eq!(resolve_token(&u, Some(s("from-file")), Some(s("from-exec"))), Some(s("from-file")));
    u.token_file = None;
    assert!(wants_exec(&u, &None));
    assert_eq!(resolve_token(&u, None, Some(s("from-exec"))), Some(s("from-exec")));
    u.exec_config = None;
    assert_eq!(resolve_token(&u, None, Some(s("from-exec"))), None);
}

#[test]
fn empty_inline_token_falls_through() {
    let mut u = user();
    u.token = Some(s(""));
    u.token_file = Some(s("/tmp/token"));
    assert_eq!(resolve_token(&u, Some(s("from-file")), None), Some(s("from-file")));
}

#[test]
fn bearer_header_for_token() {
    let h = auth_header(Some(s("abc123")), &user()).ok().unwrap();
    assert_eq!(h, Some(s("Bearer abc123")));
}

#[test]
fn basic_header_without_token() {
    let mut u = user();
    u.username = Some(s("user"));
    u.password = Some(s("pass"));
    assert_eq!(auth_header(None, &u).ok().unwrap(), Some(s("Basic dXNlcjpwYXNz")));
    assert_eq!(auth_header(Some(s("t")), &u).ok().unwrap(), Some(s("Bearer t")));
    u.password = None;
    assert_eq!(auth_header(None, &u).ok().unwrap(), None);
}

#[test]
fn invalid_header_value_is_reported() {
    assert!(matches!(
        auth_header(Some(s("bad\ntoken")), &user()),
        Err(ConfigError::InvalidCredential(_))
    ));
}

#[test]
fn identity_takes_precedence_over_insecure() {
    let mut c = cluster("https://10.0.0.1");
    c.insecure_skip_tls_verify = Some(true);
    let mut u = user();
    u.client_certificate_data = Some(base64::encode("CERT"));
    u.client_key = Some(s("/tmp/key.pem"));
    let loader = KubeConfigLoader { current_context: context("c", "u"), cluster: c, user: u };
    let files = MaterialFiles { ca: None, certificate: None, key: Some(b"KEY".to_vec()) };
    let plan = client_plan(&loader, files, None).ok().unwrap();
    assert!(!plan.accept_invalid_certs);
    let id = plan.identity.unwrap();
    assert_eq!(id.certificate, b"CERT".to_vec());
    assert_eq!(id.key, b"KEY".to_vec());
    let plan = client_plan(&loader, no_files(), None).ok().unwrap();
    assert!(plan.identity.is_none());
    assert!(plan.accept_invalid_certs);
}

#[test]
fn insecure_needs_explicit_flag() {
    let loader = KubeConfigLoader {
        current_context: context("c", "u"),
        cluster: cluster("https://10.0.0.1"),
        user: user(),
    };
    let plan = client_plan(&loader, no_files(), None).ok().unwrap();
    assert!(!plan.accept_invalid_certs);
    assert!(plan.ca_bundle.is_none());
    assert!(plan.authorization.is_none());
}

#[test]
fn exec_without_status_is_an_error() {
    let creds = ExecCredential { kind: None, api_version: None, status: None };
    assert!(matches!(exec_token(creds), Err(ConfigError::ExecPlugin(_))));
    let status = ExecCredentialStatus {
        token: Some(s("plugin-token")),
        client_certificate_data: None,
        client_key_data: None,
    };
    let creds = ExecCredential { kind: None, api_version: None, status: Some(status) };
    assert_eq!(exec_token(creds).ok().unwrap(), Some(s("plugin-token")));
}

#[test]
fn incluster_missing_variable() {
    match kube_server(None, Some(s("443"))) {
        Err(ConfigError::InClusterConfig(m)) => {
            assert!(m.contains("KUBERNETES_SERVICE_HOST"));
            assert!(m.contains("KUBERNETES_SERVICE_PORT"));
        }
        _ => panic!("expected InClusterConfig"),
    }
    assert_eq!(kube_server(Some(s("10.0.0.1")), Some(s("443"))).ok().unwrap(), "https://10.0.0.1:443");
}

#[test]
fn incluster_missing_token_names_its_path() {
    let r = incluster_settings(
        Some(s("10.0.0.1")),
        Some(s("443")),
        Some(CERT_C.as_bytes().to_vec()),
        None,
        Some(s("ns")),
    );
    match r {
        Err(ConfigError::InClusterConfig(m)) => assert_eq!(m, SERVICE_TOKENFILE),
        _ => panic!("expected InClusterConfig"),
    }
    let r = incluster_settings(Some(s("10.0.0.1")), Some(s("443")), None, Some(s("t")), Some(s("ns")));
    match r {
        Err(ConfigError::InClusterConfig(m)) => assert!(m.ends_with("ca.crt")),
        _ => panic!("expected InClusterConfig"),
    }
}

#[test]
fn incluster_settings_complete() {
    let r = incluster_settings(
        Some(s("10.0.0.1")),
        Some(s("443")),
        Some(CERT_C.as_bytes().to_vec()),
        Some(s("tok")),
        Some(s("kube-system")),
    )
    .ok()
    .unwrap();
    assert_eq!(r.base_path, "https://10.0.0.1:443");
    assert_eq!(r.default_ns, "kube-system");
    assert_eq!(r.plan.authorization, Some(s("Bearer tok")));
    assert_eq!(r.plan.ca_bundle, Some(CERT_C.as_bytes().to_vec()));
}

#[test]
fn scenario_token_and_inline_ca() {
    let mut c = cluster("https://10.0.0.1");
    c.certificate_authority_data = Some(base64::encode(CERT_C));
    let mut u = user();
    u.token = Some(s("abc123"));
    let doc = Config {
        current_context: s("ctx"),
        clusters: vec![NamedCluster { name: s("cl"), cluster: c }],
        users: vec![NamedAuthInfo { name: s("me"), user: u }],
        contexts: vec![NamedContext { name: s("ctx"), context: context("cl", "me") }],
        preferences: Preferences { colors: None },
    };
    let loader = KubeConfigLoader::load(doc, None, None, None).ok().unwrap();
    assert!(!wants_token_file(&loader.user));
    let token = resolve_token(&loader.user, None, None);
    let plan = client_plan(&loader, no_files(), token).ok().unwrap();
    assert_eq!(loader.cluster.server, "https://10.0.0.1");
    assert_eq!(plan.ca_bundle, Some(CERT_C.as_bytes().to_vec()));
    assert_eq!(plan.authorization, Some(s("Bearer abc123")));
}

#[test]
fn configuration_defaults_namespace() {
    let c = Configuration::new(s("https://10.0.0.1"), reqwest::Client::new());
    assert_eq!(c.base_path, "https://10.0.0.1");
    assert_eq!(c.default_ns, "default");
    let c = Configuration::with_default_ns(s("https://x"), reqwest::Client::new(), s("ns"));
    assert_eq!(c.default_ns, "ns");
}

#[test]
fn options_default_to_no_overrides() {
    let o = ConfigOptions::default();
    assert!(o.context.is_none() && o.cluster.is_none() && o.user.is_none());
}

#[test]
fn error_message_is_carried() {
    let e = ConfigError::ExecPlugin(s("boom"));
    assert_eq!(e.message(), "boom");
}

#[test]
fn exec_identity_fills_only_unset_material() {
    let status = ExecCredentialStatus {
        token: None,
        client_certificate_data: Some(s("Q0VSVA==")),
        client_key_data: Some(s("S0VZ")),
    };
    let mut u = user();
    u.client_key = Some(s("/tmp/key.pem"));
    u.token = Some(s("t"));
    let merged = with_exec_identity(u, &status);
    assert_eq!(merged.client_certificate_data, Some(s("Q0VSVA==")));
    assert_eq!(merged.client_key_data, None);
    assert_eq!(merged.client_key, Some(s("/tmp/key.pem")));
    assert_eq!(merged.token, Some(s("t")));
}
