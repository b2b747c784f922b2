//! Grafana and its dashboards: the manifest rendered from the Grafana
//! template.
use crate::crd::{auth_hostname, StackAppSpec};
use crate::text::{replace_all, replace_all_exec};
use crate::url_host::{parse_url_host, url_host, url_host_view, UrlHost};
use vstd::prelude::*;
use vstd::string::*;

verus! {

/// The name of the config map that holds the dashboards.
pub const DASHBOARDS_CONFIG_NAME: &'static str = "grafana-dashboards";

/// The name of the Deployment that the Grafana manifest defines.
pub const GRAFANA_NAME: &'static str = "grafana";

pub open spec fn or_default(o: Option<Seq<char>>, d: Seq<char>) -> Seq<char> {
    match o {
        Some(s) => s,
        None => d,
    }
}

/// The Grafana manifest: the template with the application's database
/// password (empty when unknown), the public hostname URL (or
/// `http://localhost`) and the admin password filled in, and then the
/// hostname's domain, as `fill_domain` puts it in from what parsing the URL
/// found.
pub open spec fn grafana_manifest_spec(
    template: Seq<char>,
    password: Option<Seq<char>>,
    hostname_url: Option<Seq<char>>,
    admin_password: Seq<char>,
) -> Seq<char> {
    let host = or_default(hostname_url, "http://localhost"@);
    fill_domain(
        fill_passwords(template, password, host, admin_password),
        url_host(host),
    )
}

/// The template with the application's password, the hostname URL and the
/// admin password filled in.
pub open spec fn fill_passwords(
    template: Seq<char>,
    password: Option<Seq<char>>,
    host: Seq<char>,
    admin_password: Seq<char>,
) -> Seq<char> {
    replace_all(
        replace_all(
            replace_all(template, "$APPLICATION_PASSWORD"@, or_default(password, Seq::empty())),
            "$HOSTNAME_URL"@,
            host,
        ),
        "$ADMIN_PASSWORD"@,
        admin_password,
    )
}

/// The hostname's domain put into a manifest: the URL's host, `localhost`
/// when it has none, and the text left as it is when the URL does not parse.
pub open spec fn fill_domain(y: Seq<char>, parsed: Option<Option<Seq<char>>>) -> Seq<char> {
    match parsed {
        Some(Some(domain)) => replace_all(y, "$HOSTNAME_DOMAIN"@, domain),
        Some(None) => replace_all(y, "$HOSTNAME_DOMAIN"@, "localhost"@),
        None => y,
    }
}

/// Puts the hostname's domain into a manifest, given what parsing the
/// hostname URL found.
pub fn with_hostname_domain(y: &str, parsed: &UrlHost) -> (s: String)
    ensures
        s@ == fill_domain(y@, url_host_view(*parsed)),
{
    proof {
        reveal_strlit("$HOSTNAME_DOMAIN");
    }
    match parsed {
        UrlHost::Host(domain) => replace_all_exec(y, "$HOSTNAME_DOMAIN", domain.as_str()),
        UrlHost::NoHost => replace_all_exec(y, "$HOSTNAME_DOMAIN", "localhost"),
        UrlHost::Invalid => String::from_str(y),
    }
}

pub open spec fn opt_string(o: Option<String>) -> Option<Seq<char>> {
    match o {
        Some(s) => Some(s@),
        None => None,
    }
}

/// Renders the Grafana manifest for a `StackApp`.
pub fn grafana_manifest(
    template: &str,
    password: Option<String>,
    spec: &StackAppSpec,
    admin_password: &str,
) -> (yaml: String)
    ensures
        yaml@ == grafana_manifest_spec(
            template@,
            opt_string(password),
            auth_hostname(*spec),
            admin_password@,
        ),
{
    proof {
        reveal_strlit("$APPLICATION_PASSWORD");
        reveal_strlit("$HOSTNAME_URL");
        reveal_strlit("$ADMIN_PASSWORD");
        reveal_strlit("$HOSTNAME_DOMAIN");
    }
    let password = match password {
        Some(p) => p,
        None => String::new(),
    };
    let hostname_url = match spec.hostname_url() {
        Some(h) => h,
        None => String::from_str("http://localhost"),
    };
    let y = replace_all_exec(template, "$APPLICATION_PASSWORD", password.as_str());
    let y = replace_all_exec(y.as_str(), "$HOSTNAME_URL", hostname_url.as_str());
    let y = replace_all_exec(y.as_str(), "$ADMIN_PASSWORD", admin_password);
    let parsed = parse_url_host(hostname_url.as_str());
    with_hostname_domain(y.as_str(), &parsed)
}

} // verus!
