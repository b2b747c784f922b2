use stack_nails::oauth2_proxy::{
    ensure_secret_values, hex_string, oauth2_proxy_deployment, oauth2_proxy_deployment_for_host,
    oidc_secret_from, rand_base64, rand_hex, realm_config,
    redirect_uri_value, secret_from_bytes, OAUTH2_PROXY_IMAGE, OAUTH2_PROXY_PORT,
};
use stack_nails::secret::Secret;
use stack_nails::url_host::UrlHost;
use stack_nails::workload::EnvSource;

#[test]
fn redirect_uri_trims_trailing_slashes() {
    assert_eq!(redirect_uri_value("https://app.example.com"), "https://app.example.com/oauth2/callback");
    assert_eq!(redirect_uri_value("https://app.example.com//"), "https://app.example.com/oauth2/callback");
    assert_eq!(redirect_uri_value(""), "/oauth2/callback");
}

#[test]
fn secret_from_bytes_is_url_safe_base64_without_padding() {
    assert_eq!(secret_from_bytes(&[0xfb, 0xff]), "-_8");
    assert_eq!(secret_from_bytes(b"hello"), "aGVsbG8");
    assert_eq!(secret_from_bytes(&[]), "");
}

#[test]
fn rand_base64_has_43_url_safe_characters() {
    let a = rand_base64().unwrap();
    let b = rand_base64().unwrap();
    assert_eq!(a.len(), 43);
    assert!(a.chars().all(|c| c.is_ascii_alphanumeric() || c == '-' || c == '_'));
    assert_ne!(a, b);
}

#[test]
fn oidc_secret_defaults_without_existing_secret() {
    let s = oidc_secret_from(
        "shop",
        "https://shop.example.com/",
        None,
        "fresh-client".to_string(),
        "fresh-cookie".to_string(),
        "http://keycloak.keycloak.svc.cluster.local:8080",
        "/realms",
    );
    assert_eq!(s.realm, "shop");
    assert_eq!(s.client_id, "shop-client");
    assert_eq!(s.client_secret, "fresh-client");
    assert_eq!(s.cookie_secret, "fresh-cookie");
    assert_eq!(s.redirect_uri, "https://shop.example.com/oauth2/callback");
    assert_eq!(s.issuer_url, "http://keycloak.keycloak.svc.cluster.local:8080/realms/shop");
}

#[test]
fn oidc_secret_keeps_existing_fields() {
    let mut existing = Secret::new();
    existing.set_data("realm".to_string(), b"custom".to_vec());
    existing.set_data("client-id".to_string(), b"id-1".to_vec());
    existing.set_data("client-secret".to_string(), b"kept".to_vec());
    let s = oidc_secret_from(
        "shop",
        "https://shop.example.com",
        Some(&existing),
        "fresh-client".to_string(),
        "fresh-cookie".to_string(),
        "http://kc",
        "/realms",
    );
    assert_eq!(s.realm, "custom");
    assert_eq!(s.client_id, "id-1");
    assert_eq!(s.client_secret, "kept");
    assert_eq!(s.cookie_secret, "fresh-cookie");
    assert_eq!(s.issuer_url, "http://kc/realms/custom");
    let r = realm_config("shop", &s);
    assert_eq!(r.namespace, "shop");
    assert_eq!(r.realm, "custom");
    assert_eq!(r.redirect_uris, vec!["https://shop.example.com/oauth2/callback".to_string()]);
    assert!(r.allow_registration);
}

#[test]
fn ensure_secret_values_draws_fresh_secrets_only_when_missing() {
    let mut existing = Secret::new();
    existing.set_data("cookie-secret".to_string(), b"cookie".to_vec());
    let s = ensure_secret_values("ns", "https://h.example.com", Some(&existing), "http://kc", "/realms").unwrap();
    assert_eq!(s.cookie_secret, "cookie");
    assert_eq!(s.client_secret.len(), 43);
    assert_eq!(s.client_id, "ns-client");
}

fn env_value(d: &stack_nails::workload::ServiceDeployment, name: &str) -> Option<String> {
    d.env.iter().find(|e| e.name == name).and_then(|e| match &e.source {
        EnvSource::Value(v) => Some(v.clone()),
        EnvSource::SecretKey { .. } => None,
    })
}

#[test]
fn oauth2_proxy_deployment_settings() {
    let d = oauth2_proxy_deployment("https://app.example.com:8443/path", "web-app", 7903);
    assert_eq!(d.name, "oauth2-proxy");
    assert_eq!(d.image_name, OAUTH2_PROXY_IMAGE);
    assert_eq!(d.port, OAUTH2_PROXY_PORT);
    assert_eq!(d.replicas, 1);
    assert_eq!(d.env.len(), 20);
    assert_eq!(env_value(&d, "OAUTH2_PROXY_WHITELIST_DOMAINS"), Some("app.example.com".to_string()));
    assert_eq!(env_value(&d, "OAUTH2_PROXY_UPSTREAMS"), Some("http://web-app:7903".to_string()));
    assert_eq!(env_value(&d, "OAUTH2_PROXY_HTTP_ADDRESS"), Some("0.0.0.0:7900".to_string()));
    match &d.env[1].source {
        EnvSource::SecretKey { secret, key } => {
            assert_eq!(secret, "oidc-secret");
            assert_eq!(key, "cookie-secret");
        }
        EnvSource::Value(_) => panic!("cookie secret must come from the secret"),
    }
    let c = d.command.as_ref().unwrap();
    assert!(c.command.is_empty() && c.args.is_empty());
}

#[test]
fn oauth2_proxy_whitelist_empty_for_unparsable_hostname() {
    let d = oauth2_proxy_deployment("not a url", "web-app", 80);
    assert_eq!(env_value(&d, "OAUTH2_PROXY_WHITELIST_DOMAINS"), Some(String::new()));
}

#[test]
fn ensure_secret_values_keeps_both_stored_secrets() {
    let mut existing = Secret::new();
    existing.set_data("cookie-secret".to_string(), b"cookie".to_vec());
    existing.set_data("client-secret".to_string(), b"client".to_vec());
    existing.set_data("realm".to_string(), b"shop".to_vec());
    let s = ensure_secret_values("ns", "https://h.example.com", Some(&existing), "http://kc", "/realms").unwrap();
    assert_eq!(s.client_secret, "client");
    assert_eq!(s.cookie_secret, "cookie");
    assert_eq!(s.issuer_url, "http://kc/realms/shop");
}

#[test]
fn hex_strings() {
    assert_eq!(hex_string(&[0x00, 0x0f, 0xa5, 0xff]), "000fa5ff");
    assert_eq!(hex_string(&[]), "");
    let h = rand_hex().unwrap();
    assert_eq!(h.len(), 64);
    assert!(h.chars().all(|c| c.is_ascii_hexdigit() && !c.is_ascii_uppercase()));
}

#[test]
fn oauth2_proxy_whitelist_from_parsed_host() {
    let d = oauth2_proxy_deployment_for_host(&UrlHost::Host("h.example.com".to_string()), "web-app", 7903);
    assert_eq!(env_value(&d, "OAUTH2_PROXY_WHITELIST_DOMAINS"), Some("h.example.com".to_string()));
    let d = oauth2_proxy_deployment_for_host(&UrlHost::NoHost, "web-app", 7903);
    assert_eq!(env_value(&d, "OAUTH2_PROXY_WHITELIST_DOMAINS"), Some(String::new()));
    let d = oauth2_proxy_deployment_for_host(&UrlHost::Invalid, "web-app", 7903);
    assert_eq!(env_value(&d, "OAUTH2_PROXY_WHITELIST_DOMAINS"), Some(String::new()));
}

#[test]
fn ensuring_stored_settings_again_gives_them_back() {
    let first = ensure_secret_values("ns", "https://h.example.com/", None, "http://kc", "/realms").unwrap();
    let mut stored = Secret::new();
    stored.set_data("client-id".to_string(), first.client_id.clone().into_bytes());
    stored.set_data("client-secret".to_string(), first.client_secret.clone().into_bytes());
    stored.set_data("cookie-secret".to_string(), first.cookie_secret.clone().into_bytes());
    stored.set_data("realm".to_string(), first.realm.clone().into_bytes());
    let second = ensure_secret_values("ns", "https://h.example.com/", Some(&stored), "http://kc", "/realms").unwrap();
    assert_eq!(second.client_id, first.client_id);
    assert_eq!(second.client_secret, first.client_secret);
    assert_eq!(second.cookie_secret, first.cookie_secret);
    assert_eq!(second.realm, first.realm);
    assert_eq!(second.redirect_uri, first.redirect_uri);
    assert_eq!(second.issuer_url, first.issuer_url);
}
