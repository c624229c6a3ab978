//! Resolution of TLS material and of the authentication header, under the
//! fixed order of precedence of the user's and cluster's fields.
use vstd::prelude::*;
use vstd::string::StringExecFns;
use crate::apis::{AuthInfo, Cluster};
use crate::codec::{base64_bytes, base64_text, decode_base64, encode_base64, header_text_ok, header_value};
use crate::error::ConfigError;

verus! {

/// Where a piece of material comes from.
pub enum MaterialSource {
    /// Neither inline data nor a file is configured.
    Absent,
    /// Inline base64 data.
    Inline(String),
    /// A file path, to be read by the caller.
    File(String),
}

/// Inline data wins over a file path; with neither the material is absent.
pub open spec fn source_of(data: Option<String>, file: Option<String>) -> MaterialSource {
    match data {
        Some(d) => MaterialSource::Inline(d),
        None => match file {
            Some(f) => MaterialSource::File(f),
            None => MaterialSource::Absent,
        },
    }
}

/// The source of a piece of material given as inline data and as a file.
pub fn data_or_file(data: &Option<String>, file: &Option<String>) -> (r: MaterialSource)
    ensures
        r == source_of(*data, *file),
{
    match data {
        Some(d) => MaterialSource::Inline(d.clone()),
        None => match file {
            Some(f) => MaterialSource::File(f.clone()),
            None => MaterialSource::Absent,
        },
    }
}

/// Source of the cluster's CA bundle: inline data before the file.
pub fn ca_source(cluster: &Cluster) -> (r: MaterialSource)
    ensures
        r == source_of(cluster.certificate_authority_data, cluster.certificate_authority),
{
    data_or_file(&cluster.certificate_authority_data, &cluster.certificate_authority)
}

/// Source of the user's client certificate.
pub fn client_certificate_source(user: &AuthInfo) -> (r: MaterialSource)
    ensures
        r == source_of(user.client_certificate_data, user.client_certificate),
{
    data_or_file(&user.client_certificate_data, &user.client_certificate)
}

/// Source of the user's client key.
pub fn client_key_source(user: &AuthInfo) -> (r: MaterialSource)
    ensures
        r == source_of(user.client_key_data, user.client_key),
{
    data_or_file(&user.client_key_data, &user.client_key)
}

/// The bytes that the caller read from a file, if it could.
pub open spec fn bytes_view(o: Option<Vec<u8>>) -> Option<Seq<u8>> {
    match o {
        Some(v) => Some(v@),
        None => None,
    }
}

/// What a piece of material resolves to: `None` for an error, `Some(None)`
/// for absent material, `Some(Some(b))` for its bytes.
pub open spec fn material_bytes(src: MaterialSource, file_bytes: Option<Seq<u8>>) -> Option<
    Option<Seq<u8>>,
> {
    match src {
        MaterialSource::Absent => Some(None),
        MaterialSource::Inline(d) => match base64_bytes(d@) {
            Some(b) => Some(Some(b)),
            None => None,
        },
        MaterialSource::File(_) => match file_bytes {
            Some(b) => Some(Some(b)),
            None => None,
        },
    }
}

/// The bytes of a piece of material. `file_bytes` is what the caller read
/// from the file of a `File` source (`None`: unreadable); it is not looked
/// at for other sources. Absent material is no error; malformed inline data
/// and an unreadable file are.
pub fn resolve_material(src: &MaterialSource, file_bytes: Option<Vec<u8>>) -> (r: Result<
    Option<Vec<u8>>,
    ConfigError,
>)
    ensures
        match *src {
            MaterialSource::Absent => r matches Ok(None),
            MaterialSource::Inline(d) => match base64_bytes(d@) {
                Some(b) => r matches Ok(Some(v)) && v@ == b,
                None => r matches Err(ConfigError::TlsMaterial(_)),
            },
            MaterialSource::File(p) => match file_bytes {
                Some(b) => r == Ok::<Option<Vec<u8>>, ConfigError>(Some(b)),
                None => r matches Err(ConfigError::TlsMaterial(m)) && m@ == p@,
            },
        },
        r is Ok <==> material_bytes(*src, bytes_view(file_bytes)) is Some,
        r matches Ok(o) ==> Some(bytes_view(o)) == material_bytes(*src, bytes_view(file_bytes)),
{
    match src {
        MaterialSource::Absent => Ok(None),
        MaterialSource::Inline(d) => match decode_base64(d.as_str()) {
            Ok(v) => Ok(Some(v)),
            Err(_) => Err(ConfigError::TlsMaterial(String::from_str("invalid base64 data"))),
        },
        MaterialSource::File(p) => match file_bytes {
            Some(b) => Ok(Some(b)),
            None => Err(ConfigError::TlsMaterial(p.clone())),
        },
    }
}

/// A client certificate and its private key, as resolved.
pub struct IdentityMaterial {
    pub certificate: Vec<u8>,
    pub key: Vec<u8>,
}

/// Pairs a resolved certificate and key. Both must be present: an error of
/// either is passed on (the certificate's first), and a missing one is a
/// `TlsMaterial` error.
pub fn client_identity(
    certificate: Result<Option<Vec<u8>>, ConfigError>,
    key: Result<Option<Vec<u8>>, ConfigError>,
) -> (r: Result<IdentityMaterial, ConfigError>)
    ensures
        r is Ok <==> (certificate matches Ok(Some(_)) && key matches Ok(Some(_))),
        r matches Ok(id) ==> (certificate == Ok::<Option<Vec<u8>>, ConfigError>(
            Some(id.certificate),
        ) && key == Ok::<Option<Vec<u8>>, ConfigError>(Some(id.key))),
        certificate is Err ==> r == Err::<IdentityMaterial, ConfigError>(certificate->Err_0),
        certificate is Ok && key is Err ==> r == Err::<IdentityMaterial, ConfigError>(key->Err_0),
        r is Err && certificate is Ok && key is Ok ==> r matches Err(ConfigError::TlsMaterial(_)),
{
    match certificate {
        Err(e) => Err(e),
        Ok(c) => match key {
            Err(e) => Err(e),
            Ok(k) => match (c, k) {
                (Some(c), Some(k)) => Ok(IdentityMaterial { certificate: c, key: k }),
                _ => Err(
                    ConfigError::TlsMaterial(
                        String::from_str("client certificate and key must both be set"),
                    ),
                ),
            },
        },
    }
}

/// A text that is set and not empty.
pub open spec fn present(o: Option<String>) -> bool {
    o matches Some(s) && s@.len() > 0
}

fn is_present(o: &Option<String>) -> (r: bool)
    ensures
        r == present(*o),
{
    match o {
        Some(s) => !s.as_str().is_empty(),
        None => false,
    }
}

/// The token file has to be read: no inline token, and a file is named.
pub fn wants_token_file(user: &AuthInfo) -> (r: bool)
    ensures
        r == (!present(user.token) && user.token_file is Some),
{
    !is_present(&user.token) && user.token_file.is_some()
}

/// The exec plugin has to run: no inline token, no token from the file
/// (`file_token` is what the file held), and a plugin is configured.
pub fn wants_exec(user: &AuthInfo, file_token: &Option<String>) -> (r: bool)
    ensures
        r == (!present(user.token) && !(user.token_file is Some && present(*file_token))
            && user.exec_config is Some),
{
    !is_present(&user.token) && !(user.token_file.is_some() && is_present(file_token))
        && user.exec_config.is_some()
}

/// The token in effect: the inline token, else the token file's content,
/// else the exec plugin's token; the first one set and not empty.
pub open spec fn token_choice(
    user: AuthInfo,
    file_token: Option<String>,
    exec_token: Option<String>,
) -> Option<String> {
    if present(user.token) {
        user.token
    } else if user.token_file is Some && present(file_token) {
        file_token
    } else if user.exec_config is Some && present(exec_token) {
        exec_token
    } else {
        None
    }
}

/// Picks the token in effect from the user's fields, the content of the
/// token file and the token that the exec plugin returned.
pub fn resolve_token(user: &AuthInfo, file_token: Option<String>, exec_token: Option<String>) -> (r:
    Option<String>)
    ensures
        r == token_choice(*user, file_token, exec_token),
{
    if is_present(&user.token) {
        user.token.clone()
    } else if user.token_file.is_some() && is_present(&file_token) {
        file_token
    } else if user.exec_config.is_some() && is_present(&exec_token) {
        exec_token
    } else {
        None
    }
}

/// The value of an `Authorization` header for a bearer token.
pub open spec fn bearer_text(token: Seq<char>) -> Seq<char> {
    "Bearer "@ + token
}

/// The value of an `Authorization` header for basic authentication.
pub open spec fn basic_text(username: Seq<char>, password: Seq<char>) -> Seq<char> {
    "Basic "@ + base64_text(username + ":"@ + password)
}

/// The `Authorization` value in effect: a bearer header for a token, else a
/// basic header where both username and password are set, else none.
pub open spec fn header_choice(token: Option<String>, user: AuthInfo) -> Option<Seq<char>> {
    match token {
        Some(t) => Some(bearer_text(t@)),
        None => match (user.username, user.password) {
            (Some(u), Some(p)) => Some(basic_text(u@, p@)),
            _ => None,
        },
    }
}

/// A header value, checked against the HTTP rule.
fn checked_header(text: String) -> (r: Result<String, ConfigError>)
    ensures
        header_text_ok(text@) ==> r == Ok::<String, ConfigError>(text),
        !header_text_ok(text@) ==> r matches Err(ConfigError::InvalidCredential(_)),
{
    match header_value(text.as_str()) {
        Ok(_) => Ok(text),
        Err(_) => Err(
            ConfigError::InvalidCredential(String::from_str("invalid authorization header value")),
        ),
    }
}

/// The `Authorization` header for the token in effect and the user's basic
/// credentials; no header is no error, a value that HTTP refuses is.
pub fn auth_header(token: Option<String>, user: &AuthInfo) -> (r: Result<Option<String>, ConfigError>)
    ensures
        match header_choice(token, *user) {
            None => r matches Ok(None),
            Some(h) => if header_text_ok(h) {
                r matches Ok(Some(s)) && s@ == h
            } else {
                r matches Err(ConfigError::InvalidCredential(_))
            },
        },
{
    match token {
        Some(t) => {
            let text = String::from_str("Bearer ").concat(t.as_str());
            match checked_header(text) {
                Ok(s) => Ok(Some(s)),
                Err(e) => Err(e),
            }
        },
        None => match (&user.username, &user.password) {
            (Some(u), Some(p)) => {
                let pair = u.clone().concat(":").concat(p.as_str());
                let encoded = encode_base64(pair.as_str());
                let text = String::from_str("Basic ").concat(encoded.as_str());
                match checked_header(text) {
                    Ok(s) => Ok(Some(s)),
                    Err(e) => Err(e),
                }
            },
            _ => Ok(None),
        },
    }
}

/// Inline CA data wins over a CA file: with both set, the bundle is the
/// decoding of the inline data, whatever the file holds.
pub proof fn lemma_inline_ca_wins(cluster: Cluster, file_bytes: Option<Seq<u8>>)
    requires
        cluster.certificate_authority_data is Some,
        cluster.certificate_authority is Some,
    ensures
        material_bytes(
            source_of(cluster.certificate_authority_data, cluster.certificate_authority),
            file_bytes,
        ) == match base64_bytes(cluster.certificate_authority_data->Some_0@) {
            Some(b) => Some(Some(b)),
            None => None::<Option<Seq<u8>>>,
        },
{
}

/// An inline token wins over the token file and the plugin; without one,
/// the token file's content wins over the plugin's token.
pub proof fn lemma_token_precedence(
    user: AuthInfo,
    file_token: Option<String>,
    exec_token: Option<String>,
)
    ensures
        present(user.token) ==> token_choice(user, file_token, exec_token) == user.token,
        !present(user.token) && user.token_file is Some && present(file_token) ==> token_choice(
            user,
            file_token,
            exec_token,
        ) == file_token,
{
}

} // verus!
