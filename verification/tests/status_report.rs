use stack_nails::secret::Secret;
use stack_nails::status::{admin_report, extract_cloudflare_url, status_report, tunnel_report};

#[test]
fn extract_url_from_quick_tunnel_banner() {
    let logs = "2024-01-01T00:00:00Z INF Thank you for trying Cloudflare Tunnel.\n\
                2024-01-01T00:00:01Z INF |  https://quiet-fox-42.trycloudflare.com  |\n\
                2024-01-01T00:00:02Z INF Registered tunnel connection\n";
    assert_eq!(
        extract_cloudflare_url(logs),
        Some("https://quiet-fox-42.trycloudflare.com".to_string())
    );
}

#[test]
fn extract_url_takes_the_last_line_with_a_url() {
    let logs = "see https://first.example.com\nsee https://second.example.com\nno url here";
    assert_eq!(extract_cloudflare_url(logs), Some("https://second.example.com".to_string()));
}

#[test]
fn extract_url_strips_dots_and_quotes() {
    assert_eq!(
        extract_cloudflare_url("visit https://a.example.com..."),
        Some("https://a.example.com".to_string())
    );
    assert_eq!(
        extract_cloudflare_url("url=\"https://b.example.com\"\""),
        Some("https://b.example.com".to_string())
    );
    assert_eq!(
        extract_cloudflare_url("\"https://c.example.com/\"."),
        Some("https://c.example.com/".to_string())
    );
    assert_eq!(
        extract_cloudflare_url("https://d.example.com.\""),
        Some("https://d.example.com.".to_string())
    );
}

#[test]
fn extract_url_handles_crlf_and_tabs() {
    assert_eq!(
        extract_cloudflare_url("x https://d.example.com\r\n"),
        Some("https://d.example.com".to_string())
    );
    assert_eq!(
        extract_cloudflare_url("x https://e.example.com\tnext"),
        Some("https://e.example.com".to_string())
    );
}

#[test]
fn extract_url_none_without_https() {
    assert_eq!(extract_cloudflare_url(""), None);
    assert_eq!(extract_cloudflare_url("http://plain.example.com\nnothing"), None);
}

fn admin_secret() -> Secret {
    let mut s = Secret::new();
    s.set_data("username".to_string(), b"root".to_vec());
    s.set_data("password".to_string(), b"hunter2".to_vec());
    s
}

#[test]
fn status_report_with_tunnel_url() {
    let lines = status_report(
        "nails",
        &admin_secret(),
        Some("INF https://x.trycloudflare.com/\n"),
    );
    assert_eq!(
        lines,
        vec![
            "\u{1f6e1}\u{fe0f} Keycloak Admin".to_string(),
            "   Username: root".to_string(),
            "   Password: hunter2".to_string(),
            "\u{2601}\u{fe0f} Cloudflare URL: https://x.trycloudflare.com".to_string(),
            "   Keycloak login: https://x.trycloudflare.com/oidc".to_string(),
        ]
    );
}

#[test]
fn status_report_defaults_and_missing_tunnel() {
    let lines = status_report("apps", &Secret::new(), None);
    assert_eq!(
        lines,
        vec![
            "\u{1f6e1}\u{fe0f} Keycloak Admin".to_string(),
            "   Username: admin".to_string(),
            "   Password: <unknown>".to_string(),
            "\u{2601}\u{fe0f} Cloudflare deployment not found in namespace 'apps'".to_string(),
        ]
    );
}

#[test]
fn status_report_tunnel_without_url() {
    let lines = status_report("apps", &admin_secret(), Some("starting\n"));
    assert_eq!(
        lines[3],
        "\u{2601}\u{fe0f} Cloudflare URL: (not found in recent logs \u{2013} is the tunnel running?)"
    );
}

#[test]
fn appending_a_line_without_url_keeps_the_url() {
    let logs = "INF |  https://quiet-fox-42.trycloudflare.com  |\r";
    let more = format!("{}\n{}", logs, "INF Registered tunnel connection");
    assert_eq!(extract_cloudflare_url(&more), extract_cloudflare_url(logs));
    assert_eq!(extract_cloudflare_url(&more), Some("https://quiet-fox-42.trycloudflare.com".to_string()));
    let older = format!("{}\n{}", "INF https://old.trycloudflare.com", logs);
    assert_eq!(extract_cloudflare_url(&older), extract_cloudflare_url(logs));
}

#[test]
fn admin_and_tunnel_reports() {
    let mut secret = Secret::new();
    secret.set_data("username".to_string(), b"admin-user".to_vec());
    let admin = admin_report(&secret);
    assert_eq!(admin, vec!["🛡️ Keycloak Admin".to_string(), "   Username: admin-user".to_string(), "   Password: <unknown>".to_string()]);
    let tunnel = tunnel_report("nails", None);
    assert_eq!(tunnel, vec!["☁️ Cloudflare deployment not found in namespace 'nails'".to_string()]);
}

#[test]
fn any_https_in_the_logs_yields_a_url() {
    assert!(extract_cloudflare_url("first line\nsee https://a.example and more\nlast").is_some());
    let logs = "x https://b.example\r\ny";
    let older = format!("{}\n{}", "https://old.example", logs);
    assert_eq!(extract_cloudflare_url(&older), extract_cloudflare_url(logs));
}
