//! Keycloak, shared by the applications: where it lives, how its realm
//! imports are named, and how a failure to apply its resources is reported.
use crate::error::{ApiFailure, Error};
use vstd::prelude::*;
use vstd::string::*;

verus! {

pub const KEYCLOAK_API_GROUP: &'static str = "k8s.keycloak.org";

pub const KEYCLOAK_API_VERSION: &'static str = "v2alpha1";

pub const KEYCLOAK_NAMESPACE: &'static str = "keycloak";

pub const KEYCLOAK_NAME: &'static str = "keycloak";

/// What the operator reports when the Keycloak resources are unknown to the
/// cluster.
pub const KEYCLOAK_INSTALL_HINT: &'static str = "Keycloak operator is not installed. Run `nails-cli init` or apply the manifests in `crates/nails-cli/config` before reconciling.";

/// The `apiVersion` of the Keycloak resources.
pub fn keycloak_api_version() -> (v: String)
    ensures
        v@ == KEYCLOAK_API_GROUP@ + "/"@ + KEYCLOAK_API_VERSION@,
{
    String::from_str(KEYCLOAK_API_GROUP).concat("/").concat(KEYCLOAK_API_VERSION)
}

/// The name of the realm import for a realm: `keycloak-realm-` followed by the
/// realm's name, or by `realm` when the realm document names none.
pub fn realm_resource_name(realm: Option<&str>) -> (name: String)
    ensures
        name@ == "keycloak-realm-"@ + match realm {
            Some(r) => r@,
            None => "realm"@,
        },
{
    match realm {
        Some(r) => String::from_str("keycloak-realm-").concat(r),
        None => String::from_str("keycloak-realm-").concat("realm"),
    }
}

/// The Keycloak server that the platform runs: one instance on the
/// PostgreSQL cluster `keycloak-db-cluster-rw`, behind an edge proxy that
/// forwards `X-Forwarded-*` headers.
pub struct KeycloakResource {
    pub api_version: String,
    pub kind: String,
    pub name: String,
    pub namespace: String,
    /// The value of the `app` label.
    pub app_label: String,
    pub instances: u32,
    pub db_vendor: String,
    pub db_host: String,
    pub db_port: u16,
    pub db_database: String,
    /// The secret and key holding the database user name.
    pub db_username_secret: String,
    pub db_username_key: String,
    /// The secret and key holding the database password.
    pub db_password_secret: String,
    pub db_password_key: String,
    pub hostname_strict: bool,
    pub hostname_backchannel_dynamic: bool,
    pub proxy_headers: String,
    /// Environment variables, as name and value.
    pub env: Vec<(String, String)>,
}

pub open spec fn pairs_view(v: Seq<(String, String)>) -> Seq<(Seq<char>, Seq<char>)> {
    v.map_values(|p: (String, String)| (p.0@, p.1@))
}

/// The Keycloak resource that the bootstrap applies.
pub fn keycloak_resource() -> (k: KeycloakResource)
    ensures
        k.api_version@ == KEYCLOAK_API_GROUP@ + "/"@ + KEYCLOAK_API_VERSION@,
        k.kind@ == "Keycloak"@,
        k.name@ == KEYCLOAK_NAME@,
        k.namespace@ == KEYCLOAK_NAMESPACE@,
        k.app_label@ == KEYCLOAK_NAME@,
        k.instances == 1,
        k.db_vendor@ == "postgres"@,
        k.db_host@ == "keycloak-db-cluster-rw"@,
        k.db_port == 5432,
        k.db_database@ == "keycloak"@,
        k.db_username_secret@ == "keycloak-db-owner"@,
        k.db_username_key@ == "username"@,
        k.db_password_secret@ == "keycloak-db-owner"@,
        k.db_password_key@ == "password"@,
        !k.hostname_strict,
        !k.hostname_backchannel_dynamic,
        k.proxy_headers@ == "xforwarded"@,
        pairs_view(k.env@) == seq![("KC_HTTP_ENABLED"@, "true"@), ("KC_PROXY"@, "edge"@)],
{
    let mut env: Vec<(String, String)> = Vec::new();
    env.push((String::from_str("KC_HTTP_ENABLED"), String::from_str("true")));
    env.push((String::from_str("KC_PROXY"), String::from_str("edge")));
    assert(pairs_view(env@) =~= seq![("KC_HTTP_ENABLED"@, "true"@), ("KC_PROXY"@, "edge"@)]);
    KeycloakResource {
        api_version: keycloak_api_version(),
        kind: String::from_str("Keycloak"),
        name: String::from_str(KEYCLOAK_NAME),
        namespace: String::from_str(KEYCLOAK_NAMESPACE),
        app_label: String::from_str(KEYCLOAK_NAME),
        instances: 1,
        db_vendor: String::from_str("postgres"),
        db_host: String::from_str("keycloak-db-cluster-rw"),
        db_port: 5432,
        db_database: String::from_str("keycloak"),
        db_username_secret: String::from_str("keycloak-db-owner"),
        db_username_key: String::from_str("username"),
        db_password_secret: String::from_str("keycloak-db-owner"),
        db_password_key: String::from_str("password"),
        hostname_strict: false,
        hostname_backchannel_dynamic: false,
        proxy_headers: String::from_str("xforwarded"),
        env,
    }
}

/// The envelope of a realm import: everything but the realm document, which
/// goes into the spec beside `keycloak_cr_name` unchanged.
pub struct RealmImport {
    pub api_version: String,
    pub kind: String,
    pub name: String,
    pub namespace: String,
    /// The Keycloak server that imports the realm.
    pub keycloak_cr_name: String,
}

/// The realm import for a realm document whose `realm` field is `realm`
/// (when it has one that is text).
pub fn realm_import(realm: Option<&str>) -> (r: RealmImport)
    ensures
        r.api_version@ == KEYCLOAK_API_GROUP@ + "/"@ + KEYCLOAK_API_VERSION@,
        r.kind@ == "KeycloakRealmImport"@,
        r.name@ == "keycloak-realm-"@ + match realm {
            Some(n) => n@,
            None => "realm"@,
        },
        r.namespace@ == KEYCLOAK_NAMESPACE@,
        r.keycloak_cr_name@ == KEYCLOAK_NAME@,
{
    RealmImport {
        api_version: keycloak_api_version(),
        kind: String::from_str("KeycloakRealmImport"),
        name: realm_resource_name(realm),
        namespace: String::from_str(KEYCLOAK_NAMESPACE),
        keycloak_cr_name: String::from_str(KEYCLOAK_NAME),
    }
}

/// How a failed patch of a Keycloak resource is reported: a 404 from the API
/// server means that the Keycloak operator is missing; anything else is a
/// Kubernetes error.
pub fn keycloak_patch_error(failure: ApiFailure) -> (e: Error)
    ensures
        match failure {
            ApiFailure::Api { code, message } => if code == 404 {
                e == Error::DependencyMissing(KEYCLOAK_INSTALL_HINT)
            } else {
                e matches Error::Kube { source } && source@ == message@
            },
            ApiFailure::Other { message } => e matches Error::Kube { source } && source@ == message@,
        },
{
    match failure {
        ApiFailure::Api { code, message } => {
            if code == 404 {
                Error::DependencyMissing(KEYCLOAK_INSTALL_HINT)
            } else {
                Error::Kube { source: message }
            }
        },
        ApiFailure::Other { message } => Error::Kube { source: message },
    }
}

} // verus!
