//! The custom resources that the operators reconcile: `StackApp` (and the
//! older `NailsApp`), as plain values.
use vstd::prelude::*;

verus! {

/// Specification of a `NailsApp` resource.
#[derive(Debug)]
pub struct NailsAppSpec {
    pub replicas: i32,
    pub version: String,
    pub saas: Option<bool>,
    pub disable_ingress: Option<bool>,
    pub pgadmin: Option<bool>,
    pub observability: Option<bool>,
    pub development: Option<bool>,
    pub testing: Option<bool>,
    pub primary_db_disk_size: i32,
    pub keycloak_db_disk_size: i32,
    pub hostname_url: String,
    pub hash_app: Option<String>,
    pub hash_app_pipeline_job: Option<String>,
    pub hash_app_db_migrations: Option<String>,
}

/// Specification of a `StackApp` resource: the web container and, optionally,
/// how users are authenticated.
#[derive(Debug)]
pub struct StackAppSpec {
    pub web: WebContainer,
    pub auth: Option<AuthConfig>,
}

/// The application's container image and the port it listens on.
#[derive(Debug)]
pub struct WebContainer {
    /// Fully-qualified container image reference (e.g. ghcr.io/org/app:tag)
    pub image: String,
    /// Container port exposed by the application (e.g. 7903)
    pub port: u16,
}

/// Optional authentication configuration.
#[derive(Debug)]
pub struct AuthConfig {
    /// Public hostname that Cloudflare/Keycloak should use for redirects.
    pub hostname_url: Option<String>,
    /// Static JWT token forwarded by nginx when OIDC is disabled.
    pub jwt: Option<String>,
}

/// The public hostname of a `StackApp`, when its auth section names one.
pub open spec fn auth_hostname(spec: StackAppSpec) -> Option<Seq<char>> {
    match spec.auth {
        Some(a) => match a.hostname_url {
            Some(h) => Some(h@),
            None => None,
        },
        None => None,
    }
}

/// The static JWT of a `StackApp`, when its auth section names one.
pub open spec fn auth_jwt(spec: StackAppSpec) -> Option<Seq<char>> {
    match spec.auth {
        Some(a) => match a.jwt {
            Some(j) => Some(j@),
            None => None,
        },
        None => None,
    }
}

impl StackAppSpec {
    /// The public hostname named by the auth section.
    pub fn hostname_url(&self) -> (r: Option<String>)
        ensures
            match r {
                Some(h) => auth_hostname(*self) == Some(h@),
                None => auth_hostname(*self) is None,
            },
    {
        match &self.auth {
            Some(a) => match &a.hostname_url {
                Some(h) => Some(h.clone()),
                None => None,
            },
            None => None,
        }
    }

    /// The static JWT named by the auth section.
    pub fn jwt(&self) -> (r: Option<String>)
        ensures
            match r {
                Some(j) => auth_jwt(*self) == Some(j@),
                None => auth_jwt(*self) is None,
            },
    {
        match &self.auth {
            Some(a) => match &a.jwt {
                Some(j) => Some(j.clone()),
                None => None,
            },
            None => None,
        }
    }
}

} // verus!
