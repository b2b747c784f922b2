//! The objects that each service leaves in a namespace, which are deleted
//! when the service is removed. Each object is deleted only if it exists.
use crate::observability::GRAFANA_NAME;
use vstd::prelude::*;
use vstd::string::*;

verus! {

/// The kinds of Kubernetes objects the services create.
#[derive(PartialEq, Eq, Structural, Clone, Copy, Debug)]
pub enum ResourceKind {
    Deployment,
    Service,
    Secret,
    ConfigMap,
    NetworkPolicy,
}

/// A namespaced object, by kind and name.
pub struct ResourceRef {
    pub kind: ResourceKind,
    pub name: String,
}

pub open spec fn refs_view(v: Seq<ResourceRef>) -> Seq<(ResourceKind, Seq<char>)> {
    v.map_values(|r: ResourceRef| (r.kind, r.name@))
}

fn resource(kind: ResourceKind, name: &str) -> (r: ResourceRef)
    ensures
        r.kind == kind,
        r.name@ == name@,
{
    ResourceRef { kind, name: String::from_str(name) }
}

/// The application's Deployment and Service.
pub fn application_resources(app_name: &str) -> (v: Vec<ResourceRef>)
    ensures
        refs_view(v@) == seq![
            (ResourceKind::Deployment, app_name@),
            (ResourceKind::Service, app_name@),
        ],
{
    let mut v = Vec::new();
    v.push(resource(ResourceKind::Deployment, app_name));
    v.push(resource(ResourceKind::Service, app_name));
    assert(refs_view(v@) =~= seq![
        (ResourceKind::Deployment, app_name@),
        (ResourceKind::Service, app_name@),
    ]);
    v
}

/// The tunnel's Deployment, credentials secret and config map.
pub fn cloudflare_resources() -> (v: Vec<ResourceRef>)
    ensures
        refs_view(v@) == seq![
            (ResourceKind::Deployment, "cloudflared"@),
            (ResourceKind::Secret, "cloudflare-credentials"@),
            (ResourceKind::ConfigMap, "cloudflared"@),
        ],
{
    let mut v = Vec::new();
    v.push(resource(ResourceKind::Deployment, "cloudflared"));
    v.push(resource(ResourceKind::Secret, "cloudflare-credentials"));
    v.push(resource(ResourceKind::ConfigMap, "cloudflared"));
    assert(refs_view(v@) =~= seq![
        (ResourceKind::Deployment, "cloudflared"@),
        (ResourceKind::Secret, "cloudflare-credentials"@),
        (ResourceKind::ConfigMap, "cloudflared"@),
    ]);
    v
}

/// nginx's Deployment, Service and configuration.
pub fn nginx_resources() -> (v: Vec<ResourceRef>)
    ensures
        refs_view(v@) == seq![
            (ResourceKind::Deployment, "nginx"@),
            (ResourceKind::Service, "nginx"@),
            (ResourceKind::ConfigMap, "nginx"@),
        ],
{
    let mut v = Vec::new();
    v.push(resource(ResourceKind::Deployment, "nginx"));
    v.push(resource(ResourceKind::Service, "nginx"));
    v.push(resource(ResourceKind::ConfigMap, "nginx"));
    assert(refs_view(v@) =~= seq![
        (ResourceKind::Deployment, "nginx"@),
        (ResourceKind::Service, "nginx"@),
        (ResourceKind::ConfigMap, "nginx"@),
    ]);
    v
}

/// OAuth2 Proxy's Deployment and Service, and the OIDC secret.
pub fn oauth2_proxy_resources() -> (v: Vec<ResourceRef>)
    ensures
        refs_view(v@) == seq![
            (ResourceKind::Deployment, "oauth2-proxy"@),
            (ResourceKind::Service, "oauth2-proxy"@),
            (ResourceKind::Secret, "oidc-secret"@),
        ],
{
    let mut v = Vec::new();
    v.push(resource(ResourceKind::Deployment, "oauth2-proxy"));
    v.push(resource(ResourceKind::Service, "oauth2-proxy"));
    v.push(resource(ResourceKind::Secret, "oidc-secret"));
    assert(refs_view(v@) =~= seq![
        (ResourceKind::Deployment, "oauth2-proxy"@),
        (ResourceKind::Service, "oauth2-proxy"@),
        (ResourceKind::Secret, "oidc-secret"@),
    ]);
    v
}

/// What removing observability deletes: the Grafana Deployment.
pub fn observability_resources() -> (v: Vec<ResourceRef>)
    ensures
        refs_view(v@) == seq![(ResourceKind::Deployment, GRAFANA_NAME@)],
{
    let mut v = Vec::new();
    v.push(resource(ResourceKind::Deployment, GRAFANA_NAME));
    assert(refs_view(v@) =~= seq![(ResourceKind::Deployment, GRAFANA_NAME@)]);
    v
}

/// What a Keycloak bootstrap clears first in the Keycloak namespace: the
/// initial admin secret and the network policy. Failures to delete them are
/// ignored.
pub fn keycloak_bootstrap_conflicts() -> (v: Vec<ResourceRef>)
    ensures
        refs_view(v@) == seq![
            (ResourceKind::Secret, "keycloak-initial-admin"@),
            (ResourceKind::NetworkPolicy, "keycloak-network-policy"@),
        ],
{
    let mut v = Vec::new();
    v.push(resource(ResourceKind::Secret, "keycloak-initial-admin"));
    v.push(resource(ResourceKind::NetworkPolicy, "keycloak-network-policy"));
    assert(refs_view(v@) =~= seq![
        (ResourceKind::Secret, "keycloak-initial-admin"@),
        (ResourceKind::NetworkPolicy, "keycloak-network-policy"@),
    ]);
    v
}

/// The deletions that removing `refs` sends when `present[i]` says whether
/// `refs[i]` exists: those objects that exist, in order.
pub open spec fn deletions(
    refs: Seq<(ResourceKind, Seq<char>)>,
    present: Seq<bool>,
) -> Seq<(ResourceKind, Seq<char>)>
    decreases refs.len(),
{
    if refs.len() == 0 || present.len() != refs.len() {
        Seq::empty()
    } else {
        let rest = deletions(refs.drop_last(), present.drop_last());
        if present.last() {
            rest.push(refs.last())
        } else {
            rest
        }
    }
}

/// Which of `refs` exist once the deletions for `present` have been made.
pub open spec fn present_after(
    refs: Seq<(ResourceKind, Seq<char>)>,
    present: Seq<bool>,
) -> Seq<bool> {
    Seq::new(
        present.len(),
        |i: int| present[i] && !deletions(refs, present).contains(refs[i]),
    )
}

/// The objects of `refs` to delete, given which of them exist.
pub fn resources_to_delete(refs: &Vec<ResourceRef>, present: &Vec<bool>) -> (v: Vec<ResourceRef>)
    requires
        refs.len() == present.len(),
    ensures
        refs_view(v@) == deletions(refs_view(refs@), present@),
{
    let mut v: Vec<ResourceRef> = Vec::new();
    for i in 0..refs.len()
        invariant
            refs.len() == present.len(),
            refs_view(v@) == deletions(refs_view(refs@).take(i as int), present@.take(i as int)),
    {
        let ghost before = v@;
        assert(refs_view(refs@).take(i + 1).drop_last() =~= refs_view(refs@).take(i as int));
        assert(present@.take(i + 1).drop_last() =~= present@.take(i as int));
        if present[i] {
            v.push(ResourceRef { kind: refs[i].kind, name: refs[i].name.clone() });
            assert(refs_view(v@) =~= refs_view(before).push(refs_view(refs@)[i as int]));
        }
    }
    assert(refs_view(refs@).take(refs.len() as int) =~= refs_view(refs@));
    assert(present@.take(refs.len() as int) =~= present@);
    v
}

proof fn lemma_deletions_cover_present(
    refs: Seq<(ResourceKind, Seq<char>)>,
    present: Seq<bool>,
    i: int,
)
    requires
        refs.len() == present.len(),
        0 <= i < refs.len(),
        present[i],
    ensures
        deletions(refs, present).contains(refs[i]),
    decreases refs.len(),
{
    let rest = deletions(refs.drop_last(), present.drop_last());
    if i == refs.len() - 1 {
        assert(deletions(refs, present).last() == refs[i]);
    } else {
        lemma_deletions_cover_present(refs.drop_last(), present.drop_last(), i);
        let k = choose|k: int| 0 <= k < rest.len() && rest[k] == refs[i];
        assert(deletions(refs, present)[k] == refs[i]);
    }
}

proof fn lemma_deletions_none_present(refs: Seq<(ResourceKind, Seq<char>)>, present: Seq<bool>)
    requires
        forall|i: int| 0 <= i < present.len() ==> !present[i],
    ensures
        deletions(refs, present).len() == 0,
    decreases refs.len(),
{
    if refs.len() > 0 && present.len() == refs.len() {
        lemma_deletions_none_present(refs.drop_last(), present.drop_last());
    }
}

/// Removing a service twice sends no second delete: once the objects that
/// existed are deleted, nothing of the service is left to delete.
pub proof fn lemma_second_removal_deletes_nothing(
    refs: Seq<(ResourceKind, Seq<char>)>,
    present: Seq<bool>,
)
    requires
        refs.len() == present.len(),
    ensures
        deletions(refs, present_after(refs, present)).len() == 0,
{
    let after = present_after(refs, present);
    assert forall|i: int| 0 <= i < after.len() implies !after[i] by {
        if present[i] {
            lemma_deletions_cover_present(refs, present, i);
        }
    }
    lemma_deletions_none_present(refs, after);
}

} // verus!
