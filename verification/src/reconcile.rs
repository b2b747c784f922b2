//! The decisions of the `StackApp` operator: which services a reconciliation
//! deploys or removes, in which order, and when the resource is looked at
//! again. The operator carries the steps out in order and stops at the first
//! that fails.
use crate::crd::{auth_hostname, auth_jwt, StackAppSpec};
use crate::nginx::NginxMode;
use crate::workload::{
    env_view, secret_env, secret_var, value_env, value_var, EnvVar, EnvVarView, ServiceDeployment,
};
use vstd::prelude::*;
use vstd::string::*;

verus! {

pub const DEFAULT_DB_DISK_SIZE_GB: i32 = 20;

pub const WEB_APP_REPLICAS: i32 = 1;

/// When the resource is reconciled next.
#[derive(PartialEq, Eq, Structural, Clone, Copy, Debug)]
pub enum Action {
    /// Only when the resource changes.
    AwaitChange,
    /// After the given number of seconds.
    Requeue { secs: u64 },
}

/// One service call of a reconciliation.
pub enum ReconcileStep {
    DeleteApplicationResources,
    DeleteOauth2Proxy,
    DeleteNginx,
    DeleteKeycloak,
    DeleteCloudflareResources,
    DeleteDatabase,
    RemoveFinalizer,
    AddFinalizer,
    DeployDatabase { disk_size_gb: i32 },
    /// Ensures the OIDC secret for the public hostname; its realm
    /// configuration feeds the next step.
    EnsureOidcSecret { hostname_url: String },
    EnsureRealm,
    DeployOauth2Proxy { hostname_url: String, upstream_port: u16 },
    DeployNginx { mode: NginxMode, upstream_port: u16 },
    DeployWebApp,
    DeployCloudflare,
}

pub enum ModeView {
    Oidc,
    StaticJwt { token: Seq<char> },
}

pub enum StepView {
    DeleteApplicationResources,
    DeleteOauth2Proxy,
    DeleteNginx,
    DeleteKeycloak,
    DeleteCloudflareResources,
    DeleteDatabase,
    RemoveFinalizer,
    AddFinalizer,
    DeployDatabase { disk_size_gb: i32 },
    EnsureOidcSecret { hostname_url: Seq<char> },
    EnsureRealm,
    DeployOauth2Proxy { hostname_url: Seq<char>, upstream_port: u16 },
    DeployNginx { mode: ModeView, upstream_port: u16 },
    DeployWebApp,
    DeployCloudflare,
}

pub open spec fn step_view(s: ReconcileStep) -> StepView {
    match s {
        ReconcileStep::DeleteApplicationResources => StepView::DeleteApplicationResources,
        ReconcileStep::DeleteOauth2Proxy => StepView::DeleteOauth2Proxy,
        ReconcileStep::DeleteNginx => StepView::DeleteNginx,
        ReconcileStep::DeleteKeycloak => StepView::DeleteKeycloak,
        ReconcileStep::DeleteCloudflareResources => StepView::DeleteCloudflareResources,
        ReconcileStep::DeleteDatabase => StepView::DeleteDatabase,
        ReconcileStep::RemoveFinalizer => StepView::RemoveFinalizer,
        ReconcileStep::AddFinalizer => StepView::AddFinalizer,
        ReconcileStep::DeployDatabase { disk_size_gb } => StepView::DeployDatabase { disk_size_gb },
        ReconcileStep::EnsureOidcSecret { hostname_url } => StepView::EnsureOidcSecret {
            hostname_url: hostname_url@,
        },
        ReconcileStep::EnsureRealm => StepView::EnsureRealm,
        ReconcileStep::DeployOauth2Proxy { hostname_url, upstream_port } =>
            StepView::DeployOauth2Proxy { hostname_url: hostname_url@, upstream_port },
        ReconcileStep::DeployNginx { mode, upstream_port } => StepView::DeployNginx {
            mode: match mode {
                NginxMode::Oidc => ModeView::Oidc,
                NginxMode::StaticJwt { token } => ModeView::StaticJwt { token: token@ },
            },
            upstream_port,
        },
        ReconcileStep::DeployWebApp => StepView::DeployWebApp,
        ReconcileStep::DeployCloudflare => StepView::DeployCloudflare,
    }
}

pub open spec fn steps_view(v: Seq<ReconcileStep>) -> Seq<StepView> {
    v.map_values(|s: ReconcileStep| step_view(s))
}

/// The steps of a reconciliation.
pub struct ReconcilePlan {
    pub steps: Vec<ReconcileStep>,
    /// When to reconcile again once every step has succeeded.
    pub next: Action,
}

/// Removing a `StackApp` that is being deleted: every service, then the
/// finalizer.
pub open spec fn deletion_steps() -> Seq<StepView> {
    seq![
        StepView::DeleteApplicationResources,
        StepView::DeleteOauth2Proxy,
        StepView::DeleteNginx,
        StepView::DeleteKeycloak,
        StepView::DeleteCloudflareResources,
        StepView::DeleteDatabase,
        StepView::RemoveFinalizer,
    ]
}

/// Deploying a `StackApp`: the finalizer first, the database, then either
/// OIDC through Keycloak and OAuth2 Proxy (when the auth section names a
/// public hostname) or the removal of both and nginx with a static token
/// (the configured JWT, `1` when none is set), then the application and the
/// tunnel.
pub open spec fn deployment_steps(spec: StackAppSpec) -> Seq<StepView> {
    let port = spec.web.port;
    let auth = match auth_hostname(spec) {
        Some(h) => seq![
            StepView::EnsureOidcSecret { hostname_url: h },
            StepView::EnsureRealm,
            StepView::DeployOauth2Proxy { hostname_url: h, upstream_port: port },
            StepView::DeployNginx { mode: ModeView::Oidc, upstream_port: port },
        ],
        None => seq![
            StepView::DeleteOauth2Proxy,
            StepView::DeleteKeycloak,
            StepView::DeployNginx {
                mode: ModeView::StaticJwt {
                    token: match auth_jwt(spec) {
                        Some(j) => j,
                        None => "1"@,
                    },
                },
                upstream_port: port,
            },
        ],
    };
    seq![
        StepView::AddFinalizer,
        StepView::DeployDatabase { disk_size_gb: DEFAULT_DB_DISK_SIZE_GB },
    ] + auth + seq![StepView::DeployWebApp, StepView::DeployCloudflare]
}

/// Plans the reconciliation of a `StackApp`: its removal when it is being
/// deleted (after which only a change brings it back), its deployment
/// otherwise (looked at again after ten seconds).
pub fn reconcile(spec: &StackAppSpec, deleting: bool) -> (plan: ReconcilePlan)
    ensures
        deleting ==> steps_view(plan.steps@) == deletion_steps() && plan.next == Action::AwaitChange,
        !deleting ==> steps_view(plan.steps@) == deployment_steps(*spec) && plan.next
            == (Action::Requeue { secs: 10 }),
{
    let mut steps: Vec<ReconcileStep> = Vec::new();
    if deleting {
        steps.push(ReconcileStep::DeleteApplicationResources);
        steps.push(ReconcileStep::DeleteOauth2Proxy);
        steps.push(ReconcileStep::DeleteNginx);
        steps.push(ReconcileStep::DeleteKeycloak);
        steps.push(ReconcileStep::DeleteCloudflareResources);
        steps.push(ReconcileStep::DeleteDatabase);
        steps.push(ReconcileStep::RemoveFinalizer);
        assert(steps_view(steps@) =~= deletion_steps());
        return ReconcilePlan { steps, next: Action::AwaitChange };
    }
    let port = spec.web.port;
    steps.push(ReconcileStep::AddFinalizer);
    steps.push(ReconcileStep::DeployDatabase { disk_size_gb: DEFAULT_DB_DISK_SIZE_GB });
    match spec.hostname_url() {
        Some(hostname_url) => {
            steps.push(ReconcileStep::EnsureOidcSecret { hostname_url: hostname_url.clone() });
            steps.push(ReconcileStep::EnsureRealm);
            steps.push(ReconcileStep::DeployOauth2Proxy { hostname_url, upstream_port: port });
            steps.push(ReconcileStep::DeployNginx { mode: NginxMode::Oidc, upstream_port: port });
        },
        None => {
            let token = match spec.jwt() {
                Some(j) => j,
                None => String::from_str("1"),
            };
            steps.push(ReconcileStep::DeleteOauth2Proxy);
            steps.push(ReconcileStep::DeleteKeycloak);
            steps.push(
                ReconcileStep::DeployNginx {
                    mode: NginxMode::StaticJwt { token },
                    upstream_port: port,
                },
            );
        },
    }
    steps.push(ReconcileStep::DeployWebApp);
    steps.push(ReconcileStep::DeployCloudflare);
    assert(steps_view(steps@) =~= deployment_steps(*spec));
    ReconcilePlan { steps, next: Action::Requeue { secs: 10 } }
}

/// A failed reconciliation is retried after five seconds.
pub fn on_error() -> (a: Action)
    ensures
        a == (Action::Requeue { secs: 5 }),
{
    Action::Requeue { secs: 5 }
}

/// The namespace of a resource: its own, or `default`.
pub fn resource_namespace(namespace: Option<String>) -> (ns: String)
    ensures
        ns@ == match namespace {
            Some(n) => n@,
            None => "default"@,
        },
{
    match namespace {
        Some(n) => n,
        None => String::from_str("default"),
    }
}

/// The finalizer is added before anything is deployed and never removed
/// while deploying; removing a resource deletes every service before the
/// finalizer, which goes last.
pub proof fn lemma_finalizer_brackets(spec: StackAppSpec)
    ensures
        deployment_steps(spec)[0] == StepView::AddFinalizer,
        forall|i: int|
            0 <= i < deployment_steps(spec).len() ==> deployment_steps(spec)[i]
                != StepView::RemoveFinalizer,
        deletion_steps().last() == StepView::RemoveFinalizer,
        forall|i: int|
            0 <= i < deletion_steps().len() - 1 ==> deletion_steps()[i]
                != StepView::RemoveFinalizer,
{
    let s = deployment_steps(spec);
    assert forall|i: int| 0 <= i < s.len() implies s[i] != StepView::RemoveFinalizer by {
        if auth_hostname(spec) is Some {
            assert(s.len() == 8);
        } else {
            assert(s.len() == 7);
        }
    }
}

/// Whether a step removes something rather than creating it.
pub open spec fn is_removal(s: StepView) -> bool {
    ||| s is DeleteApplicationResources
    ||| s is DeleteOauth2Proxy
    ||| s is DeleteNginx
    ||| s is DeleteKeycloak
    ||| s is DeleteCloudflareResources
    ||| s is DeleteDatabase
    ||| s is RemoveFinalizer
}

/// The removal step that takes away what a creating step made.
pub open spec fn undoing_step(s: StepView) -> Option<StepView> {
    match s {
        StepView::AddFinalizer => Some(StepView::RemoveFinalizer),
        StepView::DeployDatabase { .. } => Some(StepView::DeleteDatabase),
        StepView::EnsureOidcSecret { .. } => Some(StepView::DeleteOauth2Proxy),
        StepView::EnsureRealm => Some(StepView::DeleteKeycloak),
        StepView::DeployOauth2Proxy { .. } => Some(StepView::DeleteOauth2Proxy),
        StepView::DeployNginx { .. } => Some(StepView::DeleteNginx),
        StepView::DeployWebApp => Some(StepView::DeleteApplicationResources),
        StepView::DeployCloudflare => Some(StepView::DeleteCloudflareResources),
        _ => None,
    }
}

/// Whatever a deployment creates, the removal of the resource takes away
/// again: each creating step of a deployment has its removal step among
/// the deletion steps.
pub proof fn lemma_deletion_undoes_deployment(spec: StackAppSpec)
    ensures
        forall|i: int|
            0 <= i < deployment_steps(spec).len() ==> match undoing_step(
                #[trigger] deployment_steps(spec)[i],
            ) {
                Some(u) => deletion_steps().contains(u),
                None => is_removal(deployment_steps(spec)[i]),
            },
{
    let d = deletion_steps();
    assert(d[0] == StepView::DeleteApplicationResources);
    assert(d[1] == StepView::DeleteOauth2Proxy);
    assert(d[2] == StepView::DeleteNginx);
    assert(d[3] == StepView::DeleteKeycloak);
    assert(d[4] == StepView::DeleteCloudflareResources);
    assert(d[5] == StepView::DeleteDatabase);
    assert(d[6] == StepView::RemoveFinalizer);
    let s = deployment_steps(spec);
    if auth_hostname(spec) is Some {
        assert(s.len() == 8);
    } else {
        assert(s.len() == 7);
    }
}

/// Where a deployment sends traffic: OAuth2 Proxy and nginx both forward to
/// the application's own port; OAuth2 Proxy and the OIDC secret serve the
/// public hostname of the auth section, and are deployed exactly when the auth
/// section names one; nginx is deployed exactly once, in OIDC mode exactly
/// when OAuth2 Proxy is, and otherwise with the auth section's JWT (`1` when
/// none is set); the web app and the tunnel are always deployed.
pub proof fn lemma_deployment_targets(spec: StackAppSpec)
    ensures
        ({
            let d = deployment_steps(spec);
            let hostname = match spec.auth {
                Some(a) => match a.hostname_url {
                    Some(h) => Some(h@),
                    None => None,
                },
                None => None,
            };
            let jwt = match spec.auth {
                Some(a) => match a.jwt {
                    Some(j) => j@,
                    None => "1"@,
                },
                None => "1"@,
            };
            &&& forall|i: int|
                0 <= i < d.len() ==> (#[trigger] d[i] matches StepView::DeployOauth2Proxy {
                    hostname_url,
                    upstream_port,
                } ==> upstream_port == spec.web.port && hostname == Some(hostname_url))
            &&& forall|i: int|
                0 <= i < d.len() ==> (#[trigger] d[i] matches StepView::DeployNginx {
                    mode,
                    upstream_port,
                } ==> upstream_port == spec.web.port && (mode is Oidc <==> hostname is Some) && (
                mode matches ModeView::StaticJwt { token } ==> token == jwt))
            &&& forall|i: int|
                0 <= i < d.len() ==> (#[trigger] d[i] matches StepView::EnsureOidcSecret {
                    hostname_url,
                } ==> hostname == Some(hostname_url))
            &&& (exists|i: int| 0 <= i < d.len() && #[trigger] d[i] is DeployOauth2Proxy)
                <==> hostname is Some
            &&& exists|i: int| 0 <= i < d.len() && #[trigger] d[i] is DeployNginx
            &&& d.contains(StepView::DeployWebApp)
            &&& d.contains(StepView::DeployCloudflare)
        }),
{
    let d = deployment_steps(spec);
    if auth_hostname(spec) is Some {
        assert(d.len() == 8);
        assert(d[4] is DeployOauth2Proxy);
        assert(d[5] is DeployNginx);
        assert(d[6] == StepView::DeployWebApp);
        assert(d[7] == StepView::DeployCloudflare);
    } else {
        assert(d.len() == 7);
        assert(d[4] is DeployNginx);
        assert(d[5] == StepView::DeployWebApp);
        assert(d[6] == StepView::DeployCloudflare);
        assert forall|i: int| 0 <= i < d.len() implies !(#[trigger] d[i] is DeployOauth2Proxy) by {
        }
    }
}

/// The environment of the application container: the database URLs and the
/// owner's credentials from their secrets, the public hostname (empty when
/// none) and the image.
pub open spec fn web_app_env(hostname: Seq<char>, image: Seq<char>) -> Seq<EnvVarView> {
    seq![
        secret_var("DATABASE_URL"@, "database-urls"@, "application-url"@),
        secret_var("DATABASE_READONLY_URL"@, "database-urls"@, "readonly-url"@),
        secret_var("DATABASE_MIGRATIONS_URL"@, "database-urls"@, "migrations-url"@),
        secret_var("DB_OWNER_USERNAME"@, "db-owner"@, "username"@),
        secret_var("DB_OWNER_PASSWORD"@, "db-owner"@, "password"@),
        value_var("HOSTNAME_URL"@, hostname),
        value_var("WEB_IMAGE"@, image),
    ]
}

/// The application's Deployment, named `app_name`.
pub fn web_app_deployment(spec: &StackAppSpec, app_name: &str) -> (d: ServiceDeployment)
    ensures
        d.name@ == app_name@,
        d.image_name@ == spec.web.image@,
        d.replicas == WEB_APP_REPLICAS,
        d.port == spec.web.port,
        env_view(d.env@) == web_app_env(
            match auth_hostname(*spec) {
                Some(h) => h,
                None => Seq::empty(),
            },
            spec.web.image@,
        ),
        d.command is None,
        d.volume_mounts@.len() == 0,
        d.volumes@.len() == 0,
{
    let hostname = match spec.hostname_url() {
        Some(h) => h,
        None => String::new(),
    };
    let mut env: Vec<EnvVar> = Vec::new();
    env.push(secret_env("DATABASE_URL", "database-urls", "application-url"));
    env.push(secret_env("DATABASE_READONLY_URL", "database-urls", "readonly-url"));
    env.push(secret_env("DATABASE_MIGRATIONS_URL", "database-urls", "migrations-url"));
    env.push(secret_env("DB_OWNER_USERNAME", "db-owner", "username"));
    env.push(secret_env("DB_OWNER_PASSWORD", "db-owner", "password"));
    env.push(value_env("HOSTNAME_URL", hostname.as_str()));
    env.push(value_env("WEB_IMAGE", spec.web.image.as_str()));
    assert(env_view(env@) =~= web_app_env(hostname@, spec.web.image@));
    ServiceDeployment {
        name: String::from_str(app_name),
        image_name: spec.web.image.clone(),
        replicas: WEB_APP_REPLICAS,
        port: spec.web.port,
        env,
        command: None,
        volume_mounts: Vec::new(),
        volumes: Vec::new(),
    }
}

} // verus!
