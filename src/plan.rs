//! The transport settings that a build produces, and the order of
//! precedence that decides them.
use vstd::prelude::*;
use crate::codec::header_text_ok;
use crate::error::ConfigError;
use crate::loader::KubeConfigLoader;
use crate::resolve::{
    auth_header, bytes_view, ca_source, client_certificate_source, client_identity,
    client_key_source, header_choice, material_bytes, resolve_material, source_of,
    IdentityMaterial,
};

verus! {

/// The passphrase under which a client identity is packaged for the
/// transport, which takes identities as password-protected bundles.
pub const IDENTITY_PASSPHRASE: &'static str = " ";

/// Everything the transport is to be configured with.
pub struct ClientPlan {
    /// The CA bundle to trust; `None` leaves the system trust store alone.
    pub ca_bundle: Option<Vec<u8>>,
    /// The client identity, where one resolved.
    pub identity: Option<IdentityMaterial>,
    /// Accept invalid server certificates.
    pub accept_invalid_certs: bool,
    /// The value of the default `Authorization` header.
    pub authorization: Option<String>,
}

/// What the caller read from the files that the selected cluster and user
/// name: `None` where a file is not named or could not be read.
pub struct MaterialFiles {
    pub ca: Option<Vec<u8>>,
    pub certificate: Option<Vec<u8>>,
    pub key: Option<Vec<u8>>,
}

/// The `Authorization` text of a plan matches the one in effect.
pub open spec fn header_matches(a: Option<String>, h: Option<Seq<char>>) -> bool {
    match (a, h) {
        (None, None) => true,
        (Some(s), Some(t)) => s@ == t,
        _ => false,
    }
}

/// A header value is in effect and HTTP refuses it.
pub open spec fn header_refused(h: Option<Seq<char>>) -> bool {
    match h {
        Some(t) => !header_text_ok(t),
        None => false,
    }
}

/// The selected user's certificate and key both resolve.
pub open spec fn identity_resolves(loader: KubeConfigLoader, files: MaterialFiles) -> bool {
    &&& material_bytes(
        source_of(loader.user.client_certificate_data, loader.user.client_certificate),
        bytes_view(files.certificate),
    ) matches Some(Some(_))
    &&& material_bytes(
        source_of(loader.user.client_key_data, loader.user.client_key),
        bytes_view(files.key),
    ) matches Some(Some(_))
}

/// Builds the plan for a selection, the files that it names and the token
/// in effect. The CA bundle prefers inline data; a malformed or unreadable
/// one fails the build. A client identity is used where it resolves; only
/// where it does not, and the cluster asks for it, are invalid certificates
/// accepted. The header is a bearer one for a token, else a basic one.
pub fn client_plan(loader: &KubeConfigLoader, files: MaterialFiles, token: Option<String>) -> (r:
    Result<ClientPlan, ConfigError>)
    ensures
        ({
            let ca = material_bytes(
                source_of(
                    loader.cluster.certificate_authority_data,
                    loader.cluster.certificate_authority,
                ),
                bytes_view(files.ca),
            );
            let h = header_choice(token, loader.user);
            &&& ca is None ==> (r matches Err(ConfigError::TlsMaterial(_)))
            &&& ca is Some && header_refused(h) ==> (r matches Err(
                ConfigError::InvalidCredential(_),
            ))
            &&& r is Ok <==> (ca is Some && !header_refused(h))
            &&& (r matches Ok(p) ==> {
                &&& Some(bytes_view(p.ca_bundle)) == ca
                &&& p.identity is Some <==> identity_resolves(*loader, files)
                &&& (p.identity matches Some(id) ==> {
                    &&& Some(Some(id.certificate@)) == material_bytes(
                        source_of(
                            loader.user.client_certificate_data,
                            loader.user.client_certificate,
                        ),
                        bytes_view(files.certificate),
                    )
                    &&& Some(Some(id.key@)) == material_bytes(
                        source_of(loader.user.client_key_data, loader.user.client_key),
                        bytes_view(files.key),
                    )
                })
                &&& p.accept_invalid_certs == (!identity_resolves(*loader, files)
                    && loader.cluster.insecure_skip_tls_verify == Some(true))
                &&& header_matches(p.authorization, h)
            })
        }),
{
    let ca = match resolve_material(&ca_source(&loader.cluster), files.ca) {
        Ok(b) => b,
        Err(e) => return Err(e),
    };
    let certificate = resolve_material(&client_certificate_source(&loader.user), files.certificate);
    let key = resolve_material(&client_key_source(&loader.user), files.key);
    let (identity, accept_invalid_certs) = match client_identity(certificate, key) {
        Ok(id) => (Some(id), false),
        Err(_) => (None, loader.cluster.insecure_skip_tls_verify == Some(true)),
    };
    let authorization = match auth_header(token, &loader.user) {
        Ok(a) => a,
        Err(e) => return Err(e),
    };
    Ok(ClientPlan { ca_bundle: ca, identity, accept_invalid_certs, authorization })
}

} // verus!
