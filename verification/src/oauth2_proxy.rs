//! OAuth2 Proxy, which authenticates users against Keycloak: its client
//! credentials, kept in the `oidc-secret` secret, and its Deployment.
use crate::secret::{data_field, read_secret_field, Secret};
use crate::text::{push_char, chars_of, decimal, decimal_string, string_of, trim_end_char, trim_end_char_exec};
use crate::url_host::{parse_url_host, url_host, url_host_view, UrlHost};
use crate::workload::{
    env_view, secret_env, secret_var, value_env, value_var, Command, EnvVar, EnvVarView,
    ServiceDeployment,
};
use vstd::prelude::*;
use vstd::string::*;
use vstd::utf8::*;

verus! {

pub const OAUTH2_PROXY_IMAGE: &'static str = "quay.io/oauth2-proxy/oauth2-proxy:v7.5.1";

pub const OAUTH2_PROXY_PORT: u16 = 7900;

/// The name of the secret that holds the OIDC client settings.
pub const OIDC_SECRET_NAME: &'static str = "oidc-secret";

/// The URL Keycloak redirects to after login: the public hostname without
/// trailing slashes, followed by `/oauth2/callback`.
pub open spec fn redirect_uri(hostname_url: Seq<char>) -> Seq<char> {
    trim_end_char(hostname_url, '/') + "/oauth2/callback"@
}

/// The redirect URI registered for the application's public hostname.
pub fn redirect_uri_value(hostname_url: &str) -> (r: String)
    ensures
        r@ == redirect_uri(hostname_url@),
{
    let mut v = chars_of(hostname_url);
    trim_end_char_exec(&mut v, '/');
    string_of(&v).concat("/oauth2/callback")
}

/// Trailing slashes of the hostname do not change the redirect URI.
pub proof fn lemma_redirect_uri_ignores_trailing_slash(hostname_url: Seq<char>)
    ensures
        redirect_uri(hostname_url.push('/')) == redirect_uri(hostname_url),
{
    assert(hostname_url.push('/').drop_last() =~= hostname_url);
}

/// The text that `base64::encode_config` with `URL_SAFE_NO_PAD` makes of some
/// bytes.
pub uninterp spec fn base64_url_safe_no_pad(bytes: Seq<u8>) -> Seq<char>;

/// The length of unpadded base64 for `n` bytes.
pub open spec fn unpadded_base64_len(n: nat) -> nat {
    (n / 3) * 4 + if n % 3 == 1 {
        2nat
    } else if n % 3 == 2 {
        3nat
    } else {
        0nat
    }
}

/// A character of the URL-safe base64 alphabet.
pub open spec fn is_url_safe_base64_char(c: char) -> bool {
    ('A' <= c && c <= 'Z') || ('a' <= c && c <= 'z') || ('0' <= c && c <= '9') || c == '-' || c
        == '_'
}

/// `base64::encode_config(bytes, base64::URL_SAFE_NO_PAD)` (base64 0.13): the
/// result is the named encoding of the bytes; its length and alphabet are as
/// `encoded_size` and `URL_SAFE_ENCODE` in the crate's source give them. The
/// crate panics when the output length overflows `usize`, which the bound on
/// the input excludes.
#[verifier::external_body]
fn encode_url_safe_no_pad(bytes: &[u8]) -> (s: String)
    requires
        bytes@.len() <= usize::MAX / 2,
    ensures
        s@ == base64_url_safe_no_pad(bytes@),
        s@.len() == unpadded_base64_len(bytes@.len()),
        forall|k: int| 0 <= k < s@.len() ==> is_url_safe_base64_char(#[trigger] s@[k]),
{
    base64::encode_config(bytes, base64::URL_SAFE_NO_PAD)
}

/// `rand::rngs::OsRng::try_fill_bytes` on 32 bytes: `None` when the operating
/// system cannot supply random bytes, otherwise 32 bytes of which nothing
/// else is known.
#[verifier::external_body]
fn random_bytes_32() -> (r: Option<Vec<u8>>)
    ensures
        r matches Some(b) ==> b@.len() == 32,
{
    let mut bytes = [0u8; 32];
    match rand::RngCore::try_fill_bytes(&mut rand::rngs::OsRng, &mut bytes) {
        Ok(()) => Some(bytes.to_vec()),
        Err(_) => None,
    }
}

/// Encodes secret bytes as URL-safe base64 without padding.
pub fn secret_from_bytes(bytes: &[u8]) -> (s: String)
    requires
        bytes@.len() <= usize::MAX / 2,
    ensures
        s@ == base64_url_safe_no_pad(bytes@),
        s@.len() == unpadded_base64_len(bytes@.len()),
        forall|k: int| 0 <= k < s@.len() ==> is_url_safe_base64_char(#[trigger] s@[k]),
{
    encode_url_safe_no_pad(bytes)
}

/// A fresh random secret: 32 random bytes as URL-safe base64 without
/// padding, or `None` when no random bytes could be had.
pub fn rand_base64() -> (r: Option<String>)
    ensures
        r matches Some(s) ==> {
            &&& exists|b: Seq<u8>| b.len() == 32 && s@ == base64_url_safe_no_pad(b)
            &&& s@.len() == 43
            &&& forall|k: int| 0 <= k < s@.len() ==> is_url_safe_base64_char(#[trigger] s@[k])
        },
{
    match random_bytes_32() {
        Some(bytes) => Some(secret_from_bytes(bytes.as_slice())),
        None => None,
    }
}

/// The lowercase hexadecimal digit of a number below sixteen.
pub open spec fn hex_digit(d: u8) -> char {
    if d < 10 {
        (('0' as u8) + d) as char
    } else {
        (('a' as u8) + d - 10) as char
    }
}

/// Bytes as lowercase hexadecimal, two digits per byte, high nibble first.
pub open spec fn hex_lower(b: Seq<u8>) -> Seq<char>
    decreases b.len(),
{
    if b.len() == 0 {
        Seq::empty()
    } else {
        hex_lower(b.drop_last()) + seq![hex_digit(b.last() / 16), hex_digit(b.last() % 16)]
    }
}

fn hex_digit_exec(d: u8) -> (c: char)
    requires
        d < 16,
    ensures
        c == hex_digit(d),
{
    if d < 10 {
        ((48u8 + d) as char)
    } else {
        ((97u8 + d - 10) as char)
    }
}

/// Bytes as lowercase hexadecimal.
pub fn hex_string(bytes: &[u8]) -> (s: String)
    ensures
        s@ == hex_lower(bytes@),
{
    let mut out = String::new();
    for i in 0..bytes.len()
        invariant
            out@ == hex_lower(bytes@.take(i as int)),
    {
        let b = bytes[i];
        push_char(&mut out, hex_digit_exec(b / 16));
        push_char(&mut out, hex_digit_exec(b % 16));
        assert(bytes@.take(i + 1).drop_last() =~= bytes@.take(i as int));
    }
    assert(bytes@.take(bytes.len() as int) =~= bytes@);
    out
}

/// A fresh random password: 32 random bytes as lowercase hexadecimal, or
/// `None` when no random bytes could be had.
pub fn rand_hex() -> (r: Option<String>)
    ensures
        r matches Some(s) ==> exists|b: Seq<u8>| b.len() == 32 && s@ == hex_lower(b),
{
    match random_bytes_32() {
        Some(bytes) => Some(hex_string(bytes.as_slice())),
        None => None,
    }
}

/// The settings kept in `oidc-secret`.
pub struct OidcSecret {
    pub client_id: String,
    pub client_secret: String,
    pub redirect_uri: String,
    pub issuer_url: String,
    pub cookie_secret: String,
    pub realm: String,
}

/// What the application's realm in Keycloak is configured with.
pub struct RealmConfig {
    pub namespace: String,
    pub realm: String,
    pub client_id: String,
    pub client_secret: String,
    pub redirect_uris: Vec<String>,
    pub allow_registration: bool,
}

/// A field of the existing `oidc-secret`, when there is one.
pub open spec fn existing_field(existing: Option<&Secret>, key: Seq<char>) -> Option<Seq<char>> {
    match existing {
        Some(s) => data_field(s.data_view(), key),
        None => None,
    }
}

pub open spec fn kept_or(existing: Option<Seq<char>>, default: Seq<char>) -> Seq<char> {
    match existing {
        Some(v) => v,
        None => default,
    }
}

/// The issuer URL of a realm: the Keycloak URL, the realms path, and the
/// realm's name.
pub open spec fn issuer_url(keycloak_url: Seq<char>, realm_base_path: Seq<char>, realm: Seq<char>) -> Seq<char> {
    keycloak_url + realm_base_path + "/"@ + realm
}

/// The OIDC settings of a namespace: every field already in the existing
/// secret is kept; otherwise the realm is the namespace, the client id is the
/// namespace followed by `-client`, and the two secrets are the fresh values
/// given. The redirect URI and the issuer URL are always derived anew.
pub fn oidc_secret_from(
    namespace: &str,
    hostname_url: &str,
    existing: Option<&Secret>,
    fresh_client_secret: String,
    fresh_cookie_secret: String,
    keycloak_url: &str,
    realm_base_path: &str,
) -> (r: OidcSecret)
    ensures
        r.realm@ == kept_or(existing_field(existing, "realm"@), namespace@),
        r.client_id@ == kept_or(existing_field(existing, "client-id"@), namespace@ + "-client"@),
        r.client_secret@ == kept_or(existing_field(existing, "client-secret"@), fresh_client_secret@),
        r.cookie_secret@ == kept_or(existing_field(existing, "cookie-secret"@), fresh_cookie_secret@),
        r.redirect_uri@ == redirect_uri(hostname_url@),
        r.issuer_url@ == issuer_url(keycloak_url@, realm_base_path@, r.realm@),
{
    let read = |key: &str| -> (v: Option<String>)
        ensures
            match v {
                Some(s) => existing_field(existing, key@) == Some(s@),
                None => existing_field(existing, key@) is None,
            },
        {
            match existing {
                Some(s) => read_secret_field(s, key),
                None => None,
            }
        };
    let realm = match read("realm") {
        Some(v) => v,
        None => String::from_str(namespace),
    };
    let client_id = match read("client-id") {
        Some(v) => v,
        None => String::from_str(namespace).concat("-client"),
    };
    let client_secret = match read("client-secret") {
        Some(v) => v,
        None => fresh_client_secret,
    };
    let cookie_secret = match read("cookie-secret") {
        Some(v) => v,
        None => fresh_cookie_secret,
    };
    let issuer = String::from_str(keycloak_url).concat(realm_base_path).concat("/").concat(
        realm.as_str(),
    );
    OidcSecret {
        client_id,
        client_secret,
        redirect_uri: redirect_uri_value(hostname_url),
        issuer_url: issuer,
        cookie_secret,
        realm,
    }
}

/// The `data` map of the existing secret, if any.
pub open spec fn stored_data(existing: Option<&Secret>) -> Option<Map<Seq<char>, Seq<u8>>> {
    match existing {
        Some(s) => s.data_view(),
        None => None,
    }
}

/// OIDC settings that fit a namespace, its public hostname and what the
/// existing secret stores in `data`: every stored field kept; otherwise the
/// realm is the namespace, the client id the namespace followed by
/// `-client`, and each secret the URL-safe base64 of some 32 bytes; the
/// redirect URI and issuer URL derived anew.
pub open spec fn settings_of(
    namespace: Seq<char>,
    hostname_url: Seq<char>,
    keycloak_url: Seq<char>,
    realm_base_path: Seq<char>,
    data: Option<Map<Seq<char>, Seq<u8>>>,
    r: OidcSecret,
) -> bool {
    &&& r.realm@ == kept_or(data_field(data, "realm"@), namespace)
    &&& r.client_id@ == kept_or(data_field(data, "client-id"@), namespace + "-client"@)
    &&& data_field(data, "client-secret"@) matches Some(v) ==> r.client_secret@ == v
    &&& data_field(data, "client-secret"@) is None ==> exists|b: Seq<u8>|
        b.len() == 32 && r.client_secret@ == base64_url_safe_no_pad(b)
    &&& data_field(data, "cookie-secret"@) matches Some(v) ==> r.cookie_secret@ == v
    &&& data_field(data, "cookie-secret"@) is None ==> exists|b: Seq<u8>|
        b.len() == 32 && r.cookie_secret@ == base64_url_safe_no_pad(b)
    &&& r.redirect_uri@ == redirect_uri(hostname_url)
    &&& r.issuer_url@ == issuer_url(keycloak_url, realm_base_path, r.realm@)
}

/// The OIDC settings of a namespace, drawing a fresh random secret only for a
/// secret that the existing `oidc-secret` lacks; `None` when such a draw
/// failed.
pub fn ensure_secret_values(
    namespace: &str,
    hostname_url: &str,
    existing: Option<&Secret>,
    keycloak_url: &str,
    realm_base_path: &str,
) -> (r: Option<OidcSecret>)
    ensures
        existing_field(existing, "client-secret"@) is Some && existing_field(existing, "cookie-secret"@)
            is Some ==> r is Some,
        r matches Some(r) ==> settings_of(
            namespace@,
            hostname_url@,
            keycloak_url@,
            realm_base_path@,
            stored_data(existing),
            r,
        ),
{
    let stored_client = match existing {
        Some(s) => read_secret_field(s, "client-secret"),
        None => None,
    };
    let fresh_client = match stored_client {
        Some(v) => v,
        None => match rand_base64() {
            Some(v) => v,
            None => return None,
        },
    };
    let stored_cookie = match existing {
        Some(s) => read_secret_field(s, "cookie-secret"),
        None => None,
    };
    let fresh_cookie = match stored_cookie {
        Some(v) => v,
        None => match rand_base64() {
            Some(v) => v,
            None => return None,
        },
    };
    Some(
        oidc_secret_from(
            namespace,
            hostname_url,
            existing,
            fresh_client,
            fresh_cookie,
            keycloak_url,
            realm_base_path,
        ),
    )
}

/// Settings once stored come back unchanged: when the secret holds, as
/// UTF-8 in `data`, the realm, client id and both secrets of settings that
/// fit, any settings that fit the stored secret equal them, and no new
/// secret is drawn.
pub proof fn lemma_ensure_secret_stable(
    namespace: Seq<char>,
    hostname_url: Seq<char>,
    keycloak_url: Seq<char>,
    realm_base_path: Seq<char>,
    first_data: Option<Map<Seq<char>, Seq<u8>>>,
    first: OidcSecret,
    stored: Map<Seq<char>, Seq<u8>>,
    second: OidcSecret,
)
    requires
        settings_of(namespace, hostname_url, keycloak_url, realm_base_path, first_data, first),
        stored.contains_key("realm"@) && stored["realm"@] == encode_utf8(first.realm@),
        stored.contains_key("client-id"@) && stored["client-id"@] == encode_utf8(first.client_id@),
        stored.contains_key("client-secret"@) && stored["client-secret"@] == encode_utf8(
            first.client_secret@,
        ),
        stored.contains_key("cookie-secret"@) && stored["cookie-secret"@] == encode_utf8(
            first.cookie_secret@,
        ),
        settings_of(namespace, hostname_url, keycloak_url, realm_base_path, Some(stored), second),
    ensures
        data_field(Some(stored), "client-secret"@) is Some,
        data_field(Some(stored), "cookie-secret"@) is Some,
        second.realm@ == first.realm@,
        second.client_id@ == first.client_id@,
        second.client_secret@ == first.client_secret@,
        second.cookie_secret@ == first.cookie_secret@,
        second.redirect_uri@ == first.redirect_uri@,
        second.issuer_url@ == first.issuer_url@,
{
    broadcast use encode_utf8_valid_utf8, encode_utf8_decode_utf8;

    assert(data_field(Some(stored), "realm"@) == Some(first.realm@));
    assert(data_field(Some(stored), "client-id"@) == Some(first.client_id@));
    assert(data_field(Some(stored), "client-secret"@) == Some(first.client_secret@));
    assert(data_field(Some(stored), "cookie-secret"@) == Some(first.cookie_secret@));
}

/// The realm configuration that goes with the OIDC settings of a namespace:
/// its one redirect URI, and registration allowed.
pub fn realm_config(namespace: &str, secret: &OidcSecret) -> (r: RealmConfig)
    ensures
        r.namespace@ == namespace@,
        r.realm@ == secret.realm@,
        r.client_id@ == secret.client_id@,
        r.client_secret@ == secret.client_secret@,
        r.redirect_uris@.len() == 1,
        r.redirect_uris@[0]@ == secret.redirect_uri@,
        r.allow_registration,
{
    let mut uris = Vec::new();
    uris.push(secret.redirect_uri.clone());
    RealmConfig {
        namespace: String::from_str(namespace),
        realm: secret.realm.clone(),
        client_id: secret.client_id.clone(),
        client_secret: secret.client_secret.clone(),
        redirect_uris: uris,
        allow_registration: true,
    }
}

/// The domain OAuth2 Proxy may redirect to after login: the host of the
/// public hostname URL, or nothing when it has none or does not parse.
pub open spec fn whitelist_domain(hostname_url: Seq<char>) -> Seq<char> {
    host_or_empty(url_host(hostname_url))
}

/// The host that parsing found, or nothing.
pub open spec fn host_or_empty(parsed: Option<Option<Seq<char>>>) -> Seq<char> {
    match parsed {
        Some(Some(h)) => h,
        _ => Seq::empty(),
    }
}

/// The environment of the OAuth2 Proxy container.
pub open spec fn oauth2_proxy_env(
    whitelist: Seq<char>,
    app_name: Seq<char>,
    upstream_port: u16,
) -> Seq<EnvVarView> {
    seq![
        value_var("OAUTH2_PROXY_HTTP_ADDRESS"@, "0.0.0.0:7900"@),
        secret_var("OAUTH2_PROXY_COOKIE_SECRET"@, "oidc-secret"@, "cookie-secret"@),
        value_var("OAUTH2_PROXY_EMAIL_DOMAINS"@, "*"@),
        value_var("OAUTH2_PROXY_COOKIE_SECURE"@, "false"@),
        value_var(
            "OAUTH2_PROXY_UPSTREAMS"@,
            "http://"@ + app_name + ":"@ + decimal(upstream_port as nat),
        ),
        value_var("OAUTH2_PROXY_UPSTREAM_TIMEOUT"@, "600s"@),
        secret_var("OAUTH2_PROXY_CLIENT_SECRET"@, "oidc-secret"@, "client-secret"@),
        secret_var("OAUTH2_PROXY_CLIENT_ID"@, "oidc-secret"@, "client-id"@),
        secret_var("OAUTH2_PROXY_REDIRECT_URL"@, "oidc-secret"@, "redirect-uri"@),
        secret_var("OAUTH2_PROXY_OIDC_ISSUER_URL"@, "oidc-secret"@, "issuer-url"@),
        value_var("OAUTH2_PROXY_PASS_ACCESS_TOKEN"@, "true"@),
        value_var("OAUTH2_PROXY_INSECURE_OIDC_SKIP_ISSUER_VERIFICATION"@, "true"@),
        value_var("OAUTH2_PROXY_INSECURE_OIDC_ALLOW_UNVERIFIED_EMAIL"@, "true"@),
        value_var("OAUTH2_PROXY_PROVIDER"@, "oidc"@),
        value_var("OAUTH2_PROXY_PROVIDER_DISPLAY_NAME"@, "Keycloak"@),
        value_var("OAUTH2_PROXY_AUTH_LOGGING"@, "true"@),
        value_var("OAUTH2_PROXY_SKIP_PROVIDER_BUTTON"@, "true"@),
        value_var("OAUTH2_PROXY_WHITELIST_DOMAINS"@, whitelist),
        value_var("OAUTH2_PROXY_SKIP_AUTH_ROUTES"@, "^/v1*"@),
        value_var("OAUTH2_PROXY_SCOPE"@, "openid email profile"@),
    ]
}

/// The OAuth2 Proxy Deployment, which authenticates requests before passing
/// them to the application `app_name` on `upstream_port`.
pub fn oauth2_proxy_deployment(hostname_url: &str, app_name: &str, upstream_port: u16) -> (d:
    ServiceDeployment)
    ensures
        d.name@ == "oauth2-proxy"@,
        d.image_name@ == OAUTH2_PROXY_IMAGE@,
        d.replicas == 1,
        d.port == OAUTH2_PROXY_PORT,
        env_view(d.env@) == oauth2_proxy_env(whitelist_domain(hostname_url@), app_name@, upstream_port),
        d.command matches Some(c) && c.command@.len() == 0 && c.args@.len() == 0,
        d.volume_mounts@.len() == 0,
        d.volumes@.len() == 0,
{
    let parsed = parse_url_host(hostname_url);
    oauth2_proxy_deployment_for_host(&parsed, app_name, upstream_port)
}

/// The OAuth2 Proxy Deployment, given what parsing the public hostname URL
/// found: the host found is the domain it may redirect to.
pub fn oauth2_proxy_deployment_for_host(parsed: &UrlHost, app_name: &str, upstream_port: u16) -> (d:
    ServiceDeployment)
    ensures
        d.name@ == "oauth2-proxy"@,
        d.image_name@ == OAUTH2_PROXY_IMAGE@,
        d.replicas == 1,
        d.port == OAUTH2_PROXY_PORT,
        env_view(d.env@) == oauth2_proxy_env(host_or_empty(url_host_view(*parsed)), app_name@, upstream_port),
        d.command matches Some(c) && c.command@.len() == 0 && c.args@.len() == 0,
        d.volume_mounts@.len() == 0,
        d.volumes@.len() == 0,
{
    let whitelist = match parsed {
        UrlHost::Host(h) => h.clone(),
        _ => String::new(),
    };
    let upstream = String::from_str("http://").concat(app_name).concat(":").concat(
        decimal_string(upstream_port as u64).as_str(),
    );
    let mut env: Vec<EnvVar> = Vec::new();
    env.push(value_env("OAUTH2_PROXY_HTTP_ADDRESS", "0.0.0.0:7900"));
    env.push(secret_env("OAUTH2_PROXY_COOKIE_SECRET", "oidc-secret", "cookie-secret"));
    env.push(value_env("OAUTH2_PROXY_EMAIL_DOMAINS", "*"));
    env.push(value_env("OAUTH2_PROXY_COOKIE_SECURE", "false"));
    env.push(value_env("OAUTH2_PROXY_UPSTREAMS", upstream.as_str()));
    env.push(value_env("OAUTH2_PROXY_UPSTREAM_TIMEOUT", "600s"));
    env.push(secret_env("OAUTH2_PROXY_CLIENT_SECRET", "oidc-secret", "client-secret"));
    env.push(secret_env("OAUTH2_PROXY_CLIENT_ID", "oidc-secret", "client-id"));
    env.push(secret_env("OAUTH2_PROXY_REDIRECT_URL", "oidc-secret", "redirect-uri"));
    env.push(secret_env("OAUTH2_PROXY_OIDC_ISSUER_URL", "oidc-secret", "issuer-url"));
    env.push(value_env("OAUTH2_PROXY_PASS_ACCESS_TOKEN", "true"));
    env.push(value_env("OAUTH2_PROXY_INSECURE_OIDC_SKIP_ISSUER_VERIFICATION", "true"));
    env.push(value_env("OAUTH2_PROXY_INSECURE_OIDC_ALLOW_UNVERIFIED_EMAIL", "true"));
    env.push(value_env("OAUTH2_PROXY_PROVIDER", "oidc"));
    env.push(value_env("OAUTH2_PROXY_PROVIDER_DISPLAY_NAME", "Keycloak"));
    env.push(value_env("OAUTH2_PROXY_AUTH_LOGGING", "true"));
    env.push(value_env("OAUTH2_PROXY_SKIP_PROVIDER_BUTTON", "true"));
    env.push(value_env("OAUTH2_PROXY_WHITELIST_DOMAINS", whitelist.as_str()));
    env.push(value_env("OAUTH2_PROXY_SKIP_AUTH_ROUTES", "^/v1*"));
    env.push(value_env("OAUTH2_PROXY_SCOPE", "openid email profile"));
    proof {
        assert(whitelist@ == host_or_empty(url_host_view(*parsed)));
        assert(env_view(env@) =~= oauth2_proxy_env(
            host_or_empty(url_host_view(*parsed)),
            app_name@,
            upstream_port,
        ));
    }
    ServiceDeployment {
        name: String::from_str("oauth2-proxy"),
        image_name: String::from_str(OAUTH2_PROXY_IMAGE),
        replicas: 1,
        port: OAUTH2_PROXY_PORT,
        env,
        command: Some(Command { command: Vec::new(), args: Vec::new() }),
        volume_mounts: Vec::new(),
        volumes: Vec::new(),
    }
}

} // verus!
