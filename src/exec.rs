//! The response of an exec credential plugin.
use vstd::prelude::*;
use vstd::string::StringExecFns;
use crate::apis::AuthInfo;
use crate::error::ConfigError;

verus! {

/// The credential part of a plugin's response.
pub struct ExecCredentialStatus {
    pub token: Option<String>,
    pub client_certificate_data: Option<String>,
    pub client_key_data: Option<String>,
}

/// A plugin's whole response, as parsed from its standard output.
pub struct ExecCredential {
    pub kind: Option<String>,
    pub api_version: Option<String>,
    pub status: Option<ExecCredentialStatus>,
}

/// The status of a plugin's response; a response without one is an error,
/// not an empty credential.
pub fn exec_status(creds: ExecCredential) -> (r: Result<ExecCredentialStatus, ConfigError>)
    ensures
        match creds.status {
            Some(s) => r == Ok::<ExecCredentialStatus, ConfigError>(s),
            None => r matches Err(ConfigError::ExecPlugin(_)),
        },
{
    match creds.status {
        Some(s) => Ok(s),
        None => Err(
            ConfigError::ExecPlugin(String::from_str("exec-plugin response did not contain a status")),
        ),
    }
}

/// The token of a plugin's response, which may hold none.
pub fn exec_token(creds: ExecCredential) -> (r: Result<Option<String>, ConfigError>)
    ensures
        match creds.status {
            Some(s) => r == Ok::<Option<String>, ConfigError>(s.token),
            None => r matches Err(ConfigError::ExecPlugin(_)),
        },
{
    match exec_status(creds) {
        Ok(s) => Ok(s.token),
        Err(e) => Err(e),
    }
}

fn copy_text(o: &Option<String>) -> (r: Option<String>)
    ensures
        r == *o,
{
    match o {
        Some(t) => Some(t.clone()),
        None => None,
    }
}

/// The user's credentials with the plugin's client certificate and key
/// taken as inline data, each where the user configures neither data nor a
/// file of its own. Every other field is kept.
pub fn with_exec_identity(user: AuthInfo, status: &ExecCredentialStatus) -> (r: AuthInfo)
    ensures
        r.client_certificate_data == if user.client_certificate_data is None
            && user.client_certificate is None {
            status.client_certificate_data
        } else {
            user.client_certificate_data
        },
        r.client_key_data == if user.client_key_data is None && user.client_key is None {
            status.client_key_data
        } else {
            user.client_key_data
        },
        r.client_certificate == user.client_certificate,
        r.client_key == user.client_key,
        r.username == user.username,
        r.password == user.password,
        r.token == user.token,
        r.token_file == user.token_file,
        r.exec_config == user.exec_config,
{
    let mut u = user;
    if u.client_certificate_data.is_none() && u.client_certificate.is_none() {
        u.client_certificate_data = copy_text(&status.client_certificate_data);
    }
    if u.client_key_data.is_none() && u.client_key.is_none() {
        u.client_key_data = copy_text(&status.client_key_data);
    }
    u
}

} // verus!
