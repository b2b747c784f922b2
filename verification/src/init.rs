//! What `init` installs into a cluster, in order, and when the Deployments
//! it waits for count as available.
use crate::cli::Initializer;
use vstd::prelude::*;
use vstd::string::*;

verus! {

/// The field manager of everything the tool applies.
pub const MANAGER: &'static str = "nails-operator";

pub const OPERATOR_IMAGE: &'static str = "ghcr.io/nails/manager";

/// The size of the Keycloak database, in GiB.
pub const KEYCLOAK_DB_SIZE_GIB: i32 = 10;

/// One installation step of `init`.
pub enum InitStep {
    InstallPostgresOperator,
    InstallKeycloakOperator,
    InstallNginxOperator,
    CreateNamespace { namespace: String },
    CreateCrd,
    CreateRoles { namespace: String },
    CreateOperator { namespace: String },
    BootstrapKeycloakNamespace,
}

pub enum InitStepView {
    InstallPostgresOperator,
    InstallKeycloakOperator,
    InstallNginxOperator,
    CreateNamespace { namespace: Seq<char> },
    CreateCrd,
    CreateRoles { namespace: Seq<char> },
    CreateOperator { namespace: Seq<char> },
    BootstrapKeycloakNamespace,
}

pub open spec fn init_step_view(s: InitStep) -> InitStepView {
    match s {
        InitStep::InstallPostgresOperator => InitStepView::InstallPostgresOperator,
        InitStep::InstallKeycloakOperator => InitStepView::InstallKeycloakOperator,
        InitStep::InstallNginxOperator => InitStepView::InstallNginxOperator,
        InitStep::CreateNamespace { namespace } => InitStepView::CreateNamespace {
            namespace: namespace@,
        },
        InitStep::CreateCrd => InitStepView::CreateCrd,
        InitStep::CreateRoles { namespace } => InitStepView::CreateRoles { namespace: namespace@ },
        InitStep::CreateOperator { namespace } => InitStepView::CreateOperator {
            namespace: namespace@,
        },
        InitStep::BootstrapKeycloakNamespace => InitStepView::BootstrapKeycloakNamespace,
    }
}

/// The installation: the Postgres and Keycloak operators, the nginx ingress
/// operator unless ingress is disabled, the operator's namespace, the CRD and
/// the roles, the operator itself unless it is skipped, and finally the
/// Keycloak database and instance.
pub open spec fn init_steps(
    disable_ingress: bool,
    operator_namespace: Seq<char>,
    no_operator: bool,
) -> Seq<InitStepView> {
    seq![InitStepView::InstallPostgresOperator, InitStepView::InstallKeycloakOperator] + (if disable_ingress {
        seq![]
    } else {
        seq![InitStepView::InstallNginxOperator]
    }) + seq![
        InitStepView::CreateNamespace { namespace: operator_namespace },
        InitStepView::CreateCrd,
        InitStepView::CreateRoles { namespace: operator_namespace },
    ] + (if no_operator {
        seq![]
    } else {
        seq![InitStepView::CreateOperator { namespace: operator_namespace }]
    }) + seq![InitStepView::BootstrapKeycloakNamespace]
}

/// Plans `init` for the given options.
pub fn init(initializer: &Initializer) -> (steps: Vec<InitStep>)
    ensures
        steps@.map_values(|s: InitStep| init_step_view(s)) == init_steps(
            initializer.disable_ingress,
            initializer.operator_namespace@,
            initializer.no_operator,
        ),
{
    let ns = &initializer.operator_namespace;
    let mut steps: Vec<InitStep> = Vec::new();
    steps.push(InitStep::InstallPostgresOperator);
    steps.push(InitStep::InstallKeycloakOperator);
    if !initializer.disable_ingress {
        steps.push(InitStep::InstallNginxOperator);
    }
    steps.push(InitStep::CreateNamespace { namespace: ns.clone() });
    steps.push(InitStep::CreateCrd);
    steps.push(InitStep::CreateRoles { namespace: ns.clone() });
    if !initializer.no_operator {
        steps.push(InitStep::CreateOperator { namespace: ns.clone() });
    }
    steps.push(InitStep::BootstrapKeycloakNamespace);
    assert(steps@.map_values(|s: InitStep| init_step_view(s)) =~= init_steps(
        initializer.disable_ingress,
        initializer.operator_namespace@,
        initializer.no_operator,
    ));
    steps
}

/// Each flag removes only its own step: the operator is created, in the
/// operator namespace, exactly when it is not skipped, and the nginx ingress
/// operator is installed exactly when ingress is not disabled, whatever the
/// other flag says. Everything else is always installed: the Postgres and
/// Keycloak operators first, then the operator namespace, the CRD and the
/// roles, and the Keycloak bootstrap last.
pub proof fn lemma_init_flags(disable_ingress: bool, operator_namespace: Seq<char>, no_operator: bool)
    ensures
        ({
            let s = init_steps(disable_ingress, operator_namespace, no_operator);
            &&& (exists|i: int| 0 <= i < s.len() && #[trigger] s[i] is CreateOperator) <==> !no_operator
            &&& forall|i: int|
                0 <= i < s.len() && #[trigger] s[i] is CreateOperator ==> s[i]
                    == InitStepView::CreateOperator { namespace: operator_namespace }
            &&& (exists|i: int| 0 <= i < s.len() && #[trigger] s[i] is InstallNginxOperator)
                <==> !disable_ingress
            &&& s.len() == 6 + (if disable_ingress {
                0int
            } else {
                1int
            }) + (if no_operator {
                0int
            } else {
                1int
            })
            &&& s[0] == InitStepView::InstallPostgresOperator
            &&& s[1] == InitStepView::InstallKeycloakOperator
            &&& s.contains(InitStepView::CreateNamespace { namespace: operator_namespace })
            &&& s.contains(InitStepView::CreateCrd)
            &&& s.contains(InitStepView::CreateRoles { namespace: operator_namespace })
            &&& s.last() == InitStepView::BootstrapKeycloakNamespace
        }),
{
    let s = init_steps(disable_ingress, operator_namespace, no_operator);
    let k: int = if disable_ingress {
        2
    } else {
        3
    };
    assert(s[k] == InitStepView::CreateNamespace { namespace: operator_namespace });
    assert(s[k + 1] == InitStepView::CreateCrd);
    assert(s[k + 2] == InitStepView::CreateRoles { namespace: operator_namespace });
    if !no_operator {
        assert(s[k + 3] is CreateOperator);
    } else {
        assert forall|i: int| 0 <= i < s.len() implies !(#[trigger] s[i] is CreateOperator) by {
            if i >= k + 3 {
                assert(s[i] == InitStepView::BootstrapKeycloakNamespace);
            }
        }
    }
    if !disable_ingress {
        assert(s[2] is InstallNginxOperator);
    } else {
        assert forall|i: int| 0 <= i < s.len() implies !(#[trigger] s[i] is InstallNginxOperator) by {
        }
    }
}

/// The status of a Deployment, as far as waiting for it needs.
pub struct DeploymentStatus {
    pub available_replicas: Option<i32>,
}

/// A Deployment as observed while waiting for it.
pub struct DeploymentState {
    pub status: Option<DeploymentStatus>,
}

/// A Deployment counts as available once it reports at least one available
/// replica; a missing Deployment, status or count does not.
pub fn is_deployment_available(obj: Option<&DeploymentState>) -> (b: bool)
    ensures
        b <==> (obj matches Some(d) && d.status matches Some(s) && s.available_replicas matches Some(
            n,
        ) && n >= 1),
{
    match obj {
        Some(d) => match &d.status {
            Some(s) => match s.available_replicas {
                Some(n) => n >= 1,
                None => false,
            },
            None => false,
        },
        None => false,
    }
}

/// The operator's container image for a release: the image name tagged with
/// the version.
pub fn operator_image(version: &str) -> (image: String)
    ensures
        image@ == OPERATOR_IMAGE@ + ":"@ + version@,
{
    String::from_str(OPERATOR_IMAGE).concat(":").concat(version)
}

/// The name shared by the operator's service account, cluster role, binding
/// and Deployment.
pub const OPERATOR_NAME: &'static str = "nails-operator";

/// The service account, cluster role and binding that let the operator
/// manage every resource in the cluster.
pub struct OperatorRbac {
    pub service_account: String,
    pub namespace: String,
    pub cluster_role: String,
    /// The API groups, resources and verbs the role allows.
    pub api_groups: Vec<String>,
    pub resources: Vec<String>,
    pub verbs: Vec<String>,
    pub binding: String,
    pub role_ref_api_group: String,
    pub role_ref_kind: String,
    pub subject_kind: String,
}

fn everything() -> (v: Vec<String>)
    ensures
        v@.len() == 1,
        v@[0]@ == "*"@,
{
    let mut v = Vec::new();
    v.push(String::from_str("*"));
    v
}

/// The operator's access, for its service account in `operator_namespace`:
/// a cluster role allowing every verb on every resource of every group, bound
/// to the service account.
pub fn operator_rbac(operator_namespace: &str) -> (r: OperatorRbac)
    ensures
        r.service_account@ == "nails-operator-service-account"@,
        r.namespace@ == operator_namespace@,
        r.cluster_role@ == "nails-operator-cluster-role"@,
        r.api_groups@.len() == 1 && r.api_groups@[0]@ == "*"@,
        r.resources@.len() == 1 && r.resources@[0]@ == "*"@,
        r.verbs@.len() == 1 && r.verbs@[0]@ == "*"@,
        r.binding@ == "nails-operator-cluster-role-binding"@,
        r.role_ref_api_group@ == "rbac.authorization.k8s.io"@,
        r.role_ref_kind@ == "ClusterRole"@,
        r.subject_kind@ == "ServiceAccount"@,
{
    OperatorRbac {
        service_account: String::from_str("nails-operator-service-account"),
        namespace: String::from_str(operator_namespace),
        cluster_role: String::from_str("nails-operator-cluster-role"),
        api_groups: everything(),
        resources: everything(),
        verbs: everything(),
        binding: String::from_str("nails-operator-cluster-role-binding"),
        role_ref_api_group: String::from_str("rbac.authorization.k8s.io"),
        role_ref_kind: String::from_str("ClusterRole"),
        subject_kind: String::from_str("ServiceAccount"),
    }
}

/// The operator's Deployment: one replica of the operator image for the
/// release, labelled `app: nails-operator`, running as the operator's
/// service account.
pub struct OperatorDeployment {
    pub name: String,
    pub namespace: String,
    pub app_label: String,
    pub service_account: String,
    pub container: String,
    pub image: String,
    pub replicas: i32,
}

/// The operator's Deployment in `namespace` for release `version`.
pub fn operator_deployment(namespace: &str, version: &str) -> (d: OperatorDeployment)
    ensures
        d.name@ == "nails-operator-deployment"@,
        d.namespace@ == namespace@,
        d.app_label@ == OPERATOR_NAME@,
        d.service_account@ == "nails-operator-service-account"@,
        d.container@ == OPERATOR_NAME@,
        d.image@ == OPERATOR_IMAGE@ + ":"@ + version@,
        d.replicas == 1,
{
    OperatorDeployment {
        name: String::from_str("nails-operator-deployment"),
        namespace: String::from_str(namespace),
        app_label: String::from_str(OPERATOR_NAME),
        service_account: String::from_str("nails-operator-service-account"),
        container: String::from_str(OPERATOR_NAME),
        image: operator_image(version),
        replicas: 1,
    }
}

} // verus!
