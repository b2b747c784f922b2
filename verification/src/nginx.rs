//! The nginx reverse proxy in front of the application: its configuration
//! for each way of authenticating, and its Deployment.
use crate::text::{decimal, decimal_string, replace_char, replace_char_exec};
use crate::workload::{ConfigMapVolume, ServiceDeployment, VolumeMount};
use vstd::prelude::*;
use vstd::string::*;

verus! {

pub const NGINX_NAME: &'static str = "nginx";

pub const NGINX_PORT: u16 = 80;

pub const NGINX_IMAGE: &'static str = "nginx:1.27.2";

/// How nginx authenticates the requests it passes on.
pub enum NginxMode {
    /// Requests go through OAuth2 Proxy, and Keycloak is reachable under
    /// `/oidc` and `/realms`.
    Oidc,
    /// Requests go straight to the application with a fixed bearer token.
    StaticJwt { token: String },
}

/// The configuration used with OAuth2 Proxy.
pub const OIDC_CONFIG: &'static str = "\nserver {\n    listen 80;\n\n    # Increase buffer sizes to handle large headers\n    proxy_buffer_size   128k;\n    proxy_buffers       4 256k;\n    proxy_busy_buffers_size 256k;\n\n    location /oidc {\n        proxy_pass http://keycloak-service:8080;\n        proxy_set_header Host $host;\n        proxy_set_header X-Real-IP $remote_addr;\n        proxy_set_header X-Forwarded-For $proxy_add_x_forwarded_for;\n        proxy_set_header X-Forwarded-Proto $scheme;\n        proxy_set_header X-Forwarded-Host $host;\n        proxy_redirect ~^http://keycloak-service\\.keycloak\\.svc\\.cluster\\.local:8080/(.*)$ $scheme://$host/$1;\n    }\n\n    location /realms {\n        proxy_pass http://keycloak-service:8080;\n        proxy_set_header Host $host;\n        proxy_set_header X-Real-IP $remote_addr;\n        proxy_set_header X-Forwarded-For $proxy_add_x_forwarded_for;\n        proxy_set_header X-Forwarded-Proto $scheme;\n        proxy_set_header X-Forwarded-Host $host;\n        proxy_redirect ~^http://keycloak-service\\.keycloak\\.svc\\.cluster\\.local:8080/(.*)$ $scheme://$host/$1;\n    }\n\n    location / {\n        proxy_pass http://oauth2-proxy:7900;\n        proxy_set_header Host $host;\n        proxy_set_header X-Real-IP $remote_addr;\n        proxy_set_header X-Forwarded-For $proxy_add_x_forwarded_for;\n        proxy_set_header X-Forwarded-Proto $scheme;\n        proxy_set_header X-Forwarded-Host $host;\n        proxy_redirect ~^http://keycloak-service\\.keycloak\\.svc\\.cluster\\.local:8080/(.*)$ $scheme://$host/$1;\n    }\n}\n";

pub const JWT_CONFIG_HEAD: &'static str = "\nserver {\n    listen 80;\n\n    proxy_buffer_size   128k;\n    proxy_buffers       4 256k;\n    proxy_busy_buffers_size 256k;\n\n    location / {\n        proxy_pass http://";

pub const JWT_CONFIG_AFTER_PORT: &'static str = ";\n        proxy_set_header Host $host;\n        proxy_set_header X-Real-IP $remote_addr;\n        proxy_set_header X-Forwarded-For $proxy_add_x_forwarded_for;\n        proxy_set_header X-Forwarded-Proto $scheme;\n        proxy_set_header X-Forwarded-Host $host;\n        proxy_set_header Authorization \"Bearer ";

pub const JWT_CONFIG_BETWEEN_TOKENS: &'static str = "\";\n        proxy_set_header X-Auth-JWT \"";

pub const JWT_CONFIG_TAIL: &'static str = "\";\n    }\n}\n";

/// A token with each double quote escaped by a backslash.
pub open spec fn escape_quotes(token: Seq<char>) -> Seq<char> {
    replace_char(token, '"', seq!['\\', '"'])
}

/// Every double quote of an escaped token is preceded by a backslash, so the
/// token cannot end the quoted header value it is written into.
pub proof fn lemma_escaped_quotes(token: Seq<char>)
    ensures
        forall|i: int|
            0 <= i < escape_quotes(token).len() && #[trigger] escape_quotes(token)[i] == '"' ==> i
                > 0 && escape_quotes(token)[i - 1] == '\\',
    decreases token.len(),
{
    if token.len() > 0 {
        let rest = token.drop_first();
        lemma_escaped_quotes(rest);
        let e = escape_quotes(token);
        let er = escape_quotes(rest);
        if token[0] == '"' {
            assert(e == seq!['\\', '"'] + er);
            assert forall|i: int| 0 <= i < e.len() && #[trigger] e[i] == '"' implies i > 0 && e[i
                - 1] == '\\' by {
                if i >= 2 {
                    assert(e[i] == er[i - 2]);
                    if i - 2 > 0 {
                        assert(e[i - 1] == er[i - 3]);
                    } else {
                        assert(er[0] == '"');
                        assert(false);
                    }
                }
            }
        } else {
            assert(e == seq![token[0]] + er);
            assert forall|i: int| 0 <= i < e.len() && #[trigger] e[i] == '"' implies i > 0 && e[i
                - 1] == '\\' by {
                if i >= 1 {
                    assert(e[i] == er[i - 1]);
                    assert(i - 1 > 0);
                    assert(e[i - 1] == er[i - 2]);
                }
            }
        }
    }
}

/// The configuration used with a static token: requests go to
/// `app_name:upstream_port` carrying the token, quotes escaped, both as a
/// bearer `Authorization` header and as `X-Auth-JWT`.
pub open spec fn static_jwt_config(app_name: Seq<char>, upstream_port: u16, token: Seq<char>) -> Seq<char> {
    JWT_CONFIG_HEAD@ + app_name + ":"@ + decimal(upstream_port as nat) + JWT_CONFIG_AFTER_PORT@
        + escape_quotes(token) + JWT_CONFIG_BETWEEN_TOKENS@ + escape_quotes(token) + JWT_CONFIG_TAIL@
}

pub open spec fn nginx_config_spec(mode: NginxMode, app_name: Seq<char>, upstream_port: u16) -> Seq<char> {
    match mode {
        NginxMode::Oidc => OIDC_CONFIG@,
        NginxMode::StaticJwt { token } => static_jwt_config(app_name, upstream_port, token@),
    }
}

/// With a static token, nginx passes every request to `app_name` on
/// `upstream_port`, first setting the forwarding headers (`Host`,
/// `X-Real-IP`, `X-Forwarded-For`, `X-Forwarded-Proto`, `X-Forwarded-Host`),
/// then the token, quotes escaped, as a bearer `Authorization` header and as
/// `X-Auth-JWT`; with OAuth2 Proxy, the configuration is the OIDC one.
pub proof fn lemma_nginx_forwarding(mode: NginxMode, app_name: Seq<char>, upstream_port: u16)
    ensures
        mode matches NginxMode::StaticJwt { token } ==> nginx_config_spec(mode, app_name, upstream_port)
            == "\nserver {\n    listen 80;\n\n    proxy_buffer_size   128k;\n    proxy_buffers       4 256k;\n    proxy_busy_buffers_size 256k;\n\n    location / {\n        "@ + "proxy_pass http://"@ + app_name + ":"@ + decimal(upstream_port as nat)
            + ";\n        proxy_set_header Host $host;\n        proxy_set_header X-Real-IP $remote_addr;\n        proxy_set_header X-Forwarded-For $proxy_add_x_forwarded_for;\n        proxy_set_header X-Forwarded-Proto $scheme;\n        proxy_set_header X-Forwarded-Host $host;\n"@
            + "        proxy_set_header Authorization \"Bearer "@ + escape_quotes(token@)
            + "\";\n        proxy_set_header X-Auth-JWT \""@ + escape_quotes(token@) + "\";\n    }\n}\n"@,
        mode is Oidc ==> nginx_config_spec(mode, app_name, upstream_port) == OIDC_CONFIG@,
{
    reveal_strlit("\nserver {\n    listen 80;\n\n    proxy_buffer_size   128k;\n    proxy_buffers       4 256k;\n    proxy_busy_buffers_size 256k;\n\n    location / {\n        proxy_pass http://");
    reveal_strlit("\nserver {\n    listen 80;\n\n    proxy_buffer_size   128k;\n    proxy_buffers       4 256k;\n    proxy_busy_buffers_size 256k;\n\n    location / {\n        ");
    reveal_strlit("proxy_pass http://");
    reveal_strlit(";\n        proxy_set_header Host $host;\n        proxy_set_header X-Real-IP $remote_addr;\n        proxy_set_header X-Forwarded-For $proxy_add_x_forwarded_for;\n        proxy_set_header X-Forwarded-Proto $scheme;\n        proxy_set_header X-Forwarded-Host $host;\n        proxy_set_header Authorization \"Bearer ");
    reveal_strlit(";\n        proxy_set_header Host $host;\n        proxy_set_header X-Real-IP $remote_addr;\n        proxy_set_header X-Forwarded-For $proxy_add_x_forwarded_for;\n        proxy_set_header X-Forwarded-Proto $scheme;\n        proxy_set_header X-Forwarded-Host $host;\n");
    reveal_strlit("        proxy_set_header Authorization \"Bearer ");
    assert(JWT_CONFIG_HEAD@ =~= "\nserver {\n    listen 80;\n\n    proxy_buffer_size   128k;\n    proxy_buffers       4 256k;\n    proxy_busy_buffers_size 256k;\n\n    location / {\n        "@ + "proxy_pass http://"@);
    assert(JWT_CONFIG_AFTER_PORT@ =~= ";\n        proxy_set_header Host $host;\n        proxy_set_header X-Real-IP $remote_addr;\n        proxy_set_header X-Forwarded-For $proxy_add_x_forwarded_for;\n        proxy_set_header X-Forwarded-Proto $scheme;\n        proxy_set_header X-Forwarded-Host $host;\n"@ + "        proxy_set_header Authorization \"Bearer "@);
    if let NginxMode::StaticJwt { token } = mode {
        let e = escape_quotes(token@);
        let x = app_name + ":"@ + decimal(upstream_port as nat);
        assert(nginx_config_spec(mode, app_name, upstream_port) =~= "\nserver {\n    listen 80;\n\n    proxy_buffer_size   128k;\n    proxy_buffers       4 256k;\n    proxy_busy_buffers_size 256k;\n\n    location / {\n        "@ + "proxy_pass http://"@ + x
            + ";\n        proxy_set_header Host $host;\n        proxy_set_header X-Real-IP $remote_addr;\n        proxy_set_header X-Forwarded-For $proxy_add_x_forwarded_for;\n        proxy_set_header X-Forwarded-Proto $scheme;\n        proxy_set_header X-Forwarded-Host $host;\n"@ + "        proxy_set_header Authorization \"Bearer "@ + e + "\";\n        proxy_set_header X-Auth-JWT \""@ + e + "\";\n    }\n}\n"@);
    }
}

/// The `default.conf` of nginx for the given mode.
pub fn nginx_config(mode: &NginxMode, app_name: &str, upstream_port: u16) -> (conf: String)
    ensures
        conf@ == nginx_config_spec(*mode, app_name@, upstream_port),
{
    match mode {
        NginxMode::Oidc => String::from_str(OIDC_CONFIG),
        NginxMode::StaticJwt { token } => {
            let escaped = replace_char_exec(token.as_str(), '"', "\\\"");
            proof {
                reveal_strlit("\\\"");
                assert("\\\""@ =~= seq!['\\', '"']);
            }
            String::from_str(JWT_CONFIG_HEAD).concat(app_name).concat(":").concat(
                decimal_string(upstream_port as u64).as_str(),
            ).concat(JWT_CONFIG_AFTER_PORT).concat(escaped.as_str()).concat(
                JWT_CONFIG_BETWEEN_TOKENS,
            ).concat(escaped.as_str()).concat(JWT_CONFIG_TAIL)
        },
    }
}

/// The nginx Deployment: one replica of the nginx image on `port`, with the
/// `nginx` config map mounted as its configuration directory.
pub fn nginx_deployment(port: u16) -> (d: ServiceDeployment)
    ensures
        d.name@ == NGINX_NAME@,
        d.image_name@ == NGINX_IMAGE@,
        d.replicas == 1,
        d.port == port,
        d.env@.len() == 0,
        d.command is None,
        d.volume_mounts@.len() == 1,
        d.volume_mounts@[0].name@ == NGINX_NAME@,
        d.volume_mounts@[0].mount_path@ == "/etc/nginx/conf.d"@,
        d.volumes@.len() == 1,
        d.volumes@[0].name@ == NGINX_NAME@,
        d.volumes@[0].config_map@ == NGINX_NAME@,
{
    let mut mounts = Vec::new();
    mounts.push(
        VolumeMount {
            name: String::from_str(NGINX_NAME),
            mount_path: String::from_str("/etc/nginx/conf.d"),
        },
    );
    let mut volumes = Vec::new();
    volumes.push(
        ConfigMapVolume {
            name: String::from_str(NGINX_NAME),
            config_map: String::from_str(NGINX_NAME),
        },
    );
    ServiceDeployment {
        name: String::from_str(NGINX_NAME),
        image_name: String::from_str(NGINX_IMAGE),
        replicas: 1,
        port,
        env: Vec::new(),
        command: None,
        volume_mounts: mounts,
        volumes,
    }
}

} // verus!
