use stack_nails::cleanup::{
    application_resources, cloudflare_resources, keycloak_bootstrap_conflicts, nginx_resources,
    oauth2_proxy_resources, observability_resources, resources_to_delete, ResourceKind, ResourceRef,
};
use stack_nails::cli::Initializer;
use stack_nails::crd::{AuthConfig, StackAppSpec, WebContainer};
use stack_nails::error::{ApiFailure, Error};
use stack_nails::finalizer::{delete_patch, finalizers_with_ours, FINALIZER};
use stack_nails::init::{
    init, is_deployment_available, operator_deployment, operator_image, operator_rbac,
    DeploymentState, DeploymentStatus, InitStep,
};
use stack_nails::keycloak::{
    keycloak_api_version, keycloak_patch_error, keycloak_resource, realm_import, realm_resource_name, KEYCLOAK_INSTALL_HINT,
};
use stack_nails::namespace::{next_namespace_action, CallOutcome, NamespaceAction, NamespaceStep};
use stack_nails::nginx::NginxMode;
use stack_nails::reconcile::{on_error, reconcile, resource_namespace, web_app_deployment, Action, ReconcileStep};
use stack_nails::workload::EnvSource;

fn spec(auth: Option<AuthConfig>) -> StackAppSpec {
    StackAppSpec { web: WebContainer { image: "img:1".to_string(), port: 7903 }, auth }
}

#[test]
fn deleting_plan_removes_everything_then_the_finalizer() {
    let plan = reconcile(&spec(None), true);
    assert_eq!(plan.next, Action::AwaitChange);
    assert_eq!(plan.steps.len(), 7);
    assert!(matches!(plan.steps[0], ReconcileStep::DeleteApplicationResources));
    assert!(matches!(plan.steps[6], ReconcileStep::RemoveFinalizer));
}

#[test]
fn oidc_plan_with_hostname() {
    let auth = AuthConfig { hostname_url: Some("https://h.example.com".to_string()), jwt: None };
    let plan = reconcile(&spec(Some(auth)), false);
    assert_eq!(plan.next, Action::Requeue { secs: 10 });
    assert_eq!(plan.steps.len(), 8);
    assert!(matches!(plan.steps[0], ReconcileStep::AddFinalizer));
    assert!(matches!(plan.steps[1], ReconcileStep::DeployDatabase { disk_size_gb: 20 }));
    match &plan.steps[2] {
        ReconcileStep::EnsureOidcSecret { hostname_url } => assert_eq!(hostname_url, "https://h.example.com"),
        _ => panic!("expected the OIDC secret"),
    }
    assert!(matches!(plan.steps[5], ReconcileStep::DeployNginx { mode: NginxMode::Oidc, upstream_port: 7903 }));
    assert!(matches!(plan.steps[7], ReconcileStep::DeployCloudflare));
}

#[test]
fn static_jwt_plan_defaults_token() {
    let plan = reconcile(&spec(None), false);
    assert_eq!(plan.steps.len(), 7);
    assert!(matches!(plan.steps[2], ReconcileStep::DeleteOauth2Proxy));
    assert!(matches!(plan.steps[3], ReconcileStep::DeleteKeycloak));
    match &plan.steps[4] {
        ReconcileStep::DeployNginx { mode: NginxMode::StaticJwt { token }, upstream_port } => {
            assert_eq!(token, "1");
            assert_eq!(*upstream_port, 7903);
        }
        _ => panic!("expected nginx with a static token"),
    }
    let auth = AuthConfig { hostname_url: None, jwt: Some("tok".to_string()) };
    let plan = reconcile(&spec(Some(auth)), false);
    match &plan.steps[4] {
        ReconcileStep::DeployNginx { mode: NginxMode::StaticJwt { token }, .. } => assert_eq!(token, "tok"),
        _ => panic!("expected nginx with a static token"),
    }
}

#[test]
fn errors_requeue_after_five_seconds() {
    assert_eq!(on_error(), Action::Requeue { secs: 5 });
}

#[test]
fn namespace_defaults() {
    assert_eq!(resource_namespace(None), "default");
    assert_eq!(resource_namespace(Some("x".to_string())), "x");
}

#[test]
fn web_app_deployment_environment() {
    let auth = AuthConfig { hostname_url: Some("https://h".to_string()), jwt: None };
    let d = web_app_deployment(&spec(Some(auth)), "web-app");
    assert_eq!(d.name, "web-app");
    assert_eq!(d.image_name, "img:1");
    assert_eq!(d.port, 7903);
    assert_eq!(d.replicas, 1);
    assert_eq!(d.env.len(), 7);
    assert_eq!(d.env[5].name, "HOSTNAME_URL");
    assert!(matches!(&d.env[5].source, EnvSource::Value(v) if v == "https://h"));
    assert!(matches!(&d.env[6].source, EnvSource::Value(v) if v == "img:1"));
    assert!(matches!(&d.env[0].source, EnvSource::SecretKey { secret, key } if secret == "database-urls" && key == "application-url"));
    let d = web_app_deployment(&spec(None), "web-app");
    assert!(matches!(&d.env[5].source, EnvSource::Value(v) if v.is_empty()));
}

#[test]
fn cleanup_lists() {
    let a = application_resources("web-app");
    assert_eq!(a.len(), 2);
    assert_eq!((a[0].kind, a[0].name.as_str()), (ResourceKind::Deployment, "web-app"));
    assert_eq!((a[1].kind, a[1].name.as_str()), (ResourceKind::Service, "web-app"));
    let c = cloudflare_resources();
    assert_eq!(c.iter().map(|r| r.name.as_str()).collect::<Vec<_>>(), vec!["cloudflared", "cloudflare-credentials", "cloudflared"]);
    assert_eq!(c[1].kind, ResourceKind::Secret);
    assert_eq!(nginx_resources()[2].kind, ResourceKind::ConfigMap);
    assert_eq!(oauth2_proxy_resources()[2].name, "oidc-secret");
    assert_eq!(observability_resources()[0].name, "grafana");
    assert_eq!(observability_resources()[0].kind, ResourceKind::Deployment);
    assert_eq!(keycloak_bootstrap_conflicts()[1].kind, ResourceKind::NetworkPolicy);
}

#[test]
fn error_messages() {
    assert_eq!(Error::Kube { source: "boom".to_string() }.message(), "Kubernetes reported error: boom");
    assert_eq!(Error::Yaml { source: "eof".to_string() }.message(), "Invalid Kubernetes Yaml: eof");
    assert_eq!(Error::Other("x".to_string()).message(), "x");
    assert_eq!(Error::DependencyMissing("hint").message(), "hint");
}

#[test]
fn keycloak_helpers() {
    assert_eq!(keycloak_api_version(), "k8s.keycloak.org/v2alpha1");
    assert_eq!(realm_resource_name(Some("shop")), "keycloak-realm-shop");
    assert_eq!(realm_resource_name(None), "keycloak-realm-realm");
    assert!(matches!(
        keycloak_patch_error(ApiFailure::Api { code: 404, message: "nf".to_string() }),
        Error::DependencyMissing(h) if h == KEYCLOAK_INSTALL_HINT
    ));
    assert!(matches!(
        keycloak_patch_error(ApiFailure::Api { code: 500, message: "ise".to_string() }),
        Error::Kube { source } if source == "ise"
    ));
    assert!(matches!(
        keycloak_patch_error(ApiFailure::Other { message: "io".to_string() }),
        Error::Kube { source } if source == "io"
    ));
}

#[test]
fn namespace_transitions() {
    assert_eq!(next_namespace_action(NamespaceStep::Fetch, CallOutcome::Success), NamespaceAction::Done);
    assert_eq!(next_namespace_action(NamespaceStep::Fetch, CallOutcome::ApiError { code: 404 }), NamespaceAction::Next(NamespaceStep::Create));
    assert_eq!(next_namespace_action(NamespaceStep::Fetch, CallOutcome::ApiError { code: 409 }), NamespaceAction::Fail);
    assert_eq!(next_namespace_action(NamespaceStep::Create, CallOutcome::ApiError { code: 409 }), NamespaceAction::Next(NamespaceStep::Refetch));
    assert_eq!(next_namespace_action(NamespaceStep::Create, CallOutcome::OtherError), NamespaceAction::Fail);
    assert_eq!(next_namespace_action(NamespaceStep::Refetch, CallOutcome::ApiError { code: 404 }), NamespaceAction::Fail);
    assert_eq!(next_namespace_action(NamespaceStep::Refetch, CallOutcome::Success), NamespaceAction::Done);
}

#[test]
fn finalizer_patches() {
    let del: serde_json::Value = serde_json::from_str(&delete_patch()).unwrap();
    assert!(del["metadata"]["finalizers"].is_null());
}

#[test]
fn adding_the_finalizer_keeps_the_others() {
    let current = vec!["other.example/keep".to_string()];
    let added = finalizers_with_ours(&current);
    assert_eq!(added, vec!["other.example/keep".to_string(), FINALIZER.to_string()]);
    assert_eq!(finalizers_with_ours(&added), added);
    assert_eq!(finalizers_with_ours(&Vec::new()), vec![FINALIZER.to_string()]);
    let ours_first = vec![FINALIZER.to_string(), "x".to_string()];
    assert_eq!(finalizers_with_ours(&ours_first), ours_first);
}

fn initializer(disable_ingress: bool, no_operator: bool) -> Initializer {
    Initializer {
        disable_ingress,
        namespace: "nails".to_string(),
        operator_namespace: "nails-system".to_string(),
        no_operator,
    }
}

#[test]
fn init_plan_full() {
    let steps = init(&initializer(false, false));
    assert_eq!(steps.len(), 8);
    assert!(matches!(steps[2], InitStep::InstallNginxOperator));
    assert!(matches!(&steps[6], InitStep::CreateOperator { namespace } if namespace == "nails-system"));
    assert!(matches!(steps[7], InitStep::BootstrapKeycloakNamespace));
}

#[test]
fn init_plan_without_ingress_or_operator() {
    let steps = init(&initializer(true, true));
    assert_eq!(steps.len(), 6);
    assert!(steps.iter().all(|s| !matches!(s, InitStep::InstallNginxOperator | InitStep::CreateOperator { .. })));
}

#[test]
fn deployment_availability() {
    assert!(!is_deployment_available(None));
    assert!(!is_deployment_available(Some(&DeploymentState { status: None })));
    let zero = DeploymentState { status: Some(DeploymentStatus { available_replicas: Some(0) }) };
    assert!(!is_deployment_available(Some(&zero)));
    let none = DeploymentState { status: Some(DeploymentStatus { available_replicas: None }) };
    assert!(!is_deployment_available(Some(&none)));
    let one = DeploymentState { status: Some(DeploymentStatus { available_replicas: Some(1) }) };
    assert!(is_deployment_available(Some(&one)));
}

#[test]
fn operator_resources() {
    assert_eq!(operator_image("1.2.3"), "ghcr.io/nails/manager:1.2.3");
    let d = operator_deployment("nails-system", "1.2.3");
    assert_eq!(d.name, "nails-operator-deployment");
    assert_eq!(d.image, "ghcr.io/nails/manager:1.2.3");
    let r = operator_rbac("nails-system");
    assert_eq!(r.service_account, "nails-operator-service-account");
    assert_eq!(r.namespace, "nails-system");
    assert_eq!(r.verbs, vec!["*".to_string()]);
}

fn removal_of(step: &ReconcileStep) -> Option<&'static str> {
    match step {
        ReconcileStep::AddFinalizer => Some("RemoveFinalizer"),
        ReconcileStep::DeployDatabase { .. } => Some("DeleteDatabase"),
        ReconcileStep::EnsureOidcSecret { .. } | ReconcileStep::DeployOauth2Proxy { .. } => Some("DeleteOauth2Proxy"),
        ReconcileStep::EnsureRealm => Some("DeleteKeycloak"),
        ReconcileStep::DeployNginx { .. } => Some("DeleteNginx"),
        ReconcileStep::DeployWebApp => Some("DeleteApplicationResources"),
        ReconcileStep::DeployCloudflare => Some("DeleteCloudflareResources"),
        _ => None,
    }
}

fn removal_name(step: &ReconcileStep) -> &'static str {
    match step {
        ReconcileStep::DeleteApplicationResources => "DeleteApplicationResources",
        ReconcileStep::DeleteOauth2Proxy => "DeleteOauth2Proxy",
        ReconcileStep::DeleteNginx => "DeleteNginx",
        ReconcileStep::DeleteKeycloak => "DeleteKeycloak",
        ReconcileStep::DeleteCloudflareResources => "DeleteCloudflareResources",
        ReconcileStep::DeleteDatabase => "DeleteDatabase",
        ReconcileStep::RemoveFinalizer => "RemoveFinalizer",
        _ => "",
    }
}

#[test]
fn deletion_removes_what_each_deployment_created() {
    let removals: Vec<&str> = reconcile(&spec(None), true).steps.iter().map(removal_name).collect();
    let oidc = AuthConfig { hostname_url: Some("https://h.example.com".to_string()), jwt: None };
    for s in [spec(None), spec(Some(oidc))] {
        for step in reconcile(&s, false).steps.iter() {
            match removal_of(step) {
                Some(r) => assert!(removals.contains(&r)),
                None => assert_ne!(removal_name(step), ""),
            }
        }
    }
}

#[test]
fn removing_nginx_twice_deletes_nothing_the_second_time() {
    let refs = nginx_resources();
    let present = vec![true, false, true];
    let first = resources_to_delete(&refs, &present);
    let names: Vec<(ResourceKind, String)> = first.iter().map(|r| (r.kind, r.name.clone())).collect();
    assert_eq!(names, vec![(ResourceKind::Deployment, "nginx".to_string()), (ResourceKind::ConfigMap, "nginx".to_string())]);
    let after: Vec<bool> = refs
        .iter()
        .zip(present.iter())
        .map(|(r, p)| *p && !first.iter().any(|d| d.kind == r.kind && d.name == r.name))
        .collect();
    assert!(resources_to_delete(&refs, &after).is_empty());
    let none: Vec<ResourceRef> = Vec::new();
    assert!(resources_to_delete(&none, &Vec::new()).is_empty());
}

#[test]
fn keycloak_resources() {
    let k = keycloak_resource();
    assert_eq!(k.api_version, "k8s.keycloak.org/v2alpha1");
    assert_eq!(k.kind, "Keycloak");
    assert_eq!(k.instances, 1);
    assert_eq!(k.db_host, "keycloak-db-cluster-rw");
    assert_eq!(k.db_port, 5432);
    assert_eq!(k.db_username_secret, "keycloak-db-owner");
    assert_eq!(k.proxy_headers, "xforwarded");
    assert_eq!(k.env, vec![("KC_HTTP_ENABLED".to_string(), "true".to_string()), ("KC_PROXY".to_string(), "edge".to_string())]);
    let r = realm_import(Some("shop"));
    assert_eq!(r.kind, "KeycloakRealmImport");
    assert_eq!(r.name, "keycloak-realm-shop");
    assert_eq!(r.namespace, "keycloak");
    assert_eq!(r.keycloak_cr_name, "keycloak");
    assert_eq!(realm_import(None).name, "keycloak-realm-realm");
}
