//! The Cloudflare tunnel that exposes a namespace: either a named tunnel
//! authenticated by a token, or a quick tunnel, both pointed at the entry
//! service of the namespace.
use crate::nginx::{NGINX_NAME, NGINX_PORT};
use crate::oauth2_proxy::OAUTH2_PROXY_PORT;
use crate::text::{decimal, decimal_string, replace_all, replace_all_exec};
use vstd::prelude::*;
use vstd::string::*;

verus! {

/// The quick tunnel Deployment, whose target URL is `$TARGET_URL`.
pub const CLOUDFLARE_QUICK_YAML: &'static str = "---\napiVersion: apps/v1\nkind: Deployment\nmetadata:\n  name: cloudflared\nspec:\n  selector:\n    matchLabels:\n      app: cloudflared\n  replicas: 1\n  template:\n    metadata:\n      labels:\n        app: cloudflared\n    spec:\n      containers:\n      - name: cloudflared\n        image: cloudflare/cloudflared:latest\n        args:\n        - tunnel\n        - --no-autoupdate\n        - --protocol\n        - http2\n        - --url\n        - $TARGET_URL\n";

/// The address of a service in a namespace, as the tunnel reaches it.
pub open spec fn service_url(service: Seq<char>, namespace: Seq<char>, port: u16) -> Seq<char> {
    "http://"@ + service + "."@ + namespace + ".svc.cluster.local:"@ + decimal(port as nat)
}

/// The address of `service` in `namespace` on `port`.
pub fn service_target(service: &str, namespace: &str, port: u16) -> (url: String)
    ensures
        url@ == service_url(service@, namespace@, port),
{
    String::from_str("http://").concat(service).concat(".").concat(namespace).concat(
        ".svc.cluster.local:",
    ).concat(decimal_string(port as u64).as_str())
}

/// The tunnel manifest: with a token, `tunnel_template` with the token, the
/// tunnel's name and the target filled in; without one, the quick tunnel
/// with the target filled in.
pub open spec fn tunnel_manifest_spec(
    tunnel_template: Seq<char>,
    tunnel_name: Seq<char>,
    token: Option<Seq<char>>,
    target: Seq<char>,
) -> Seq<char> {
    match token {
        Some(t) => replace_all(
            replace_all(replace_all(tunnel_template, "$TUNNEL_TOKEN"@, t), "$TUNNEL_NAME"@, tunnel_name),
            "$INGRESS_TARGET"@,
            target,
        ),
        None => replace_all(CLOUDFLARE_QUICK_YAML@, "$TARGET_URL"@, target),
    }
}

pub open spec fn opt_str(o: Option<&str>) -> Option<Seq<char>> {
    match o {
        Some(s) => Some(s@),
        None => None,
    }
}

/// Renders the tunnel manifest for `target`.
pub fn tunnel_manifest(tunnel_template: &str, tunnel_name: &str, token: Option<&str>, target: &str) -> (yaml: String)
    ensures
        yaml@ == tunnel_manifest_spec(tunnel_template@, tunnel_name@, opt_str(token), target@),
{
    match token {
        Some(t) => {
            proof {
                reveal_strlit("$TUNNEL_TOKEN");
                reveal_strlit("$TUNNEL_NAME");
                reveal_strlit("$INGRESS_TARGET");
            }
            let y1 = replace_all_exec(tunnel_template, "$TUNNEL_TOKEN", t);
            let y2 = replace_all_exec(y1.as_str(), "$TUNNEL_NAME", tunnel_name);
            replace_all_exec(y2.as_str(), "$INGRESS_TARGET", target)
        },
        None => {
            proof {
                reveal_strlit("$TARGET_URL");
            }
            replace_all_exec(CLOUDFLARE_QUICK_YAML, "$TARGET_URL", target)
        },
    }
}

/// The tunnel manifest of the `stack` operator: the tunnel points at the
/// nginx service of `namespace`.
pub fn nginx_tunnel_manifest(
    tunnel_template: &str,
    namespace: &str,
    tunnel_name: &str,
    token: Option<&str>,
) -> (yaml: String)
    ensures
        yaml@ == tunnel_manifest_spec(
            tunnel_template@,
            tunnel_name@,
            opt_str(token),
            service_url(NGINX_NAME@, namespace@, NGINX_PORT),
        ),
{
    let target = service_target(NGINX_NAME, namespace, NGINX_PORT);
    tunnel_manifest(tunnel_template, tunnel_name, token, target.as_str())
}

/// The tunnel manifest of the `nails` operator: the tunnel points at the
/// OAuth2 Proxy service of `namespace`.
pub fn oauth2_proxy_tunnel_manifest(
    tunnel_template: &str,
    namespace: &str,
    tunnel_name: &str,
    token: Option<&str>,
) -> (yaml: String)
    ensures
        yaml@ == tunnel_manifest_spec(
            tunnel_template@,
            tunnel_name@,
            opt_str(token),
            service_url("oauth2-proxy"@, namespace@, OAUTH2_PROXY_PORT),
        ),
{
    let target = service_target("oauth2-proxy", namespace, OAUTH2_PROXY_PORT);
    tunnel_manifest(tunnel_template, tunnel_name, token, target.as_str())
}

/// The namespace a tunnel is installed into from a `StackApp` manifest: the
/// manifest's own, which it must name.
pub fn manifest_namespace(namespace: Option<String>) -> (r: Result<String, String>)
    ensures
        match namespace {
            Some(n) => r matches Ok(m) && m@ == n@,
            None => r matches Err(e) && e@ == "StackApp manifest is missing metadata.namespace"@,
        },
{
    match namespace {
        Some(n) => Ok(n),
        None => Err(String::from_str("StackApp manifest is missing metadata.namespace")),
    }
}

} // verus!
