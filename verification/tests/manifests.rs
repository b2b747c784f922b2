use stack_nails::cloudflare::{
    manifest_namespace, nginx_tunnel_manifest, oauth2_proxy_tunnel_manifest, service_target, tunnel_manifest,
    CLOUDFLARE_QUICK_YAML,
};
use stack_nails::crd::{AuthConfig, StackAppSpec, WebContainer};
use stack_nails::nginx::{nginx_config, nginx_deployment, NginxMode, NGINX_PORT, OIDC_CONFIG};
use stack_nails::observability::{grafana_manifest, with_hostname_domain};
use stack_nails::url_host::UrlHost;

const TEMPLATE: &str = "token: $TUNNEL_TOKEN\nname: $TUNNEL_NAME\nservice: $INGRESS_TARGET\n";

#[test]
fn service_target_addresses() {
    assert_eq!(service_target("nginx", "shop", 80), "http://nginx.shop.svc.cluster.local:80");
}

#[test]
fn token_tunnel_fills_the_template() {
    let y = nginx_tunnel_manifest(TEMPLATE, "shop", "my-tunnel", Some("tok"));
    assert_eq!(
        y,
        "token: tok\nname: my-tunnel\nservice: http://nginx.shop.svc.cluster.local:80\n"
    );
}

#[test]
fn quick_tunnel_targets_the_service() {
    let y = oauth2_proxy_tunnel_manifest(TEMPLATE, "shop", "ignored", None);
    assert_eq!(
        y,
        CLOUDFLARE_QUICK_YAML.replace("$TARGET_URL", "http://oauth2-proxy.shop.svc.cluster.local:7900")
    );
    assert!(y.contains("        - http://oauth2-proxy.shop.svc.cluster.local:7900\n"));
}

#[test]
fn tunnel_manifest_replaces_every_placeholder() {
    let y = tunnel_manifest("$TUNNEL_NAME/$TUNNEL_NAME", "n", Some("t"), "x");
    assert_eq!(y, "n/n");
}

#[test]
fn nginx_oidc_config_is_fixed() {
    let c = nginx_config(&NginxMode::Oidc, "web-app", 7903);
    assert_eq!(c, OIDC_CONFIG);
    assert!(c.contains("proxy_pass http://oauth2-proxy:7900;"));
}

#[test]
fn nginx_static_jwt_config_escapes_the_token() {
    let c = nginx_config(&NginxMode::StaticJwt { token: "a\"b".to_string() }, "web-app", 7903);
    assert!(c.contains("        proxy_pass http://web-app:7903;\n"));
    assert!(c.contains("proxy_set_header Authorization \"Bearer a\\\"b\";"));
    assert!(c.contains("proxy_set_header X-Auth-JWT \"a\\\"b\";"));
    assert!(c.starts_with("\nserver {\n    listen 80;\n"));
    assert!(c.ends_with("    }\n}\n"));
}

#[test]
fn nginx_deployment_mounts_its_config() {
    let d = nginx_deployment(NGINX_PORT);
    assert_eq!(d.name, "nginx");
    assert_eq!(d.image_name, "nginx:1.27.2");
    assert_eq!(d.port, 80);
    assert_eq!(d.volume_mounts.len(), 1);
    assert_eq!(d.volume_mounts[0].mount_path, "/etc/nginx/conf.d");
    assert_eq!(d.volumes[0].config_map, "nginx");
    assert!(d.env.is_empty() && d.command.is_none());
}

fn spec(hostname: Option<&str>) -> StackAppSpec {
    StackAppSpec {
        web: WebContainer { image: "ghcr.io/org/app:1".to_string(), port: 7903 },
        auth: Some(AuthConfig { hostname_url: hostname.map(|h| h.to_string()), jwt: None }),
    }
}

const GRAFANA: &str = "pw=$APPLICATION_PASSWORD url=$HOSTNAME_URL admin=$ADMIN_PASSWORD domain=$HOSTNAME_DOMAIN";

#[test]
fn grafana_manifest_with_hostname() {
    let y = grafana_manifest(GRAFANA, Some("p".to_string()), &spec(Some("https://app.example.com")), "adm");
    assert_eq!(y, "pw=p url=https://app.example.com admin=adm domain=app.example.com");
}

#[test]
fn grafana_manifest_defaults_to_localhost() {
    let y = grafana_manifest(GRAFANA, None, &spec(None), "adm");
    assert_eq!(y, "pw= url=http://localhost admin=adm domain=localhost");
}

#[test]
fn grafana_manifest_host_less_and_invalid_urls() {
    let y = grafana_manifest(GRAFANA, None, &spec(Some("mailto:me@example.com")), "a");
    assert_eq!(y, "pw= url=mailto:me@example.com admin=a domain=localhost");
    let y = grafana_manifest(GRAFANA, None, &spec(Some("not a url")), "a");
    assert_eq!(y, "pw= url=not a url admin=a domain=$HOSTNAME_DOMAIN");
}

#[test]
fn hostname_domain_from_parsed_host() {
    let y = "domain: $HOSTNAME_DOMAIN";
    assert_eq!(with_hostname_domain(y, &UrlHost::Host("h.example.com".to_string())), "domain: h.example.com");
    assert_eq!(with_hostname_domain(y, &UrlHost::NoHost), "domain: localhost");
    assert_eq!(with_hostname_domain(y, &UrlHost::Invalid), y);
}

#[test]
fn tunnel_namespace_comes_from_the_manifest() {
    assert_eq!(manifest_namespace(Some("shop".to_string())), Ok("shop".to_string()));
    assert_eq!(manifest_namespace(None), Err("StackApp manifest is missing metadata.namespace".to_string()));
}
