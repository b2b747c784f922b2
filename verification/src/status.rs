//! What `status` reports: the Keycloak admin credentials read from their
//! secret, and the public URL of the Cloudflare quick tunnel found in the
//! logs of the `cloudflared` pod.

use crate::text::{
    char_is_whitespace, chars_of, find, find_exec, is_whitespace, lemma_find_from_bounds,
    lemma_take_until_whitespace, lemma_take_until_whitespace_prefix,
    lemma_trim_end_char_keeps_prefix, lines, lines_exec, lines_acc, strip_cr, lemma_lines_concat,
    lemma_lines_acc_single_line, lemma_match_in_lines, lemma_find_from_drop_last, lemma_take_until_whitespace_drop_last, string_of, take_until_whitespace,
    trim_end_char, trim_end_char_exec,
};
use vstd::prelude::*;
use crate::secret::{decode_secret_field, decoded_field, Secret};
use vstd::string::*;

verus! {

/// `u` with one trailing double quote removed.
pub open spec fn strip_quote(u: Seq<char>) -> Seq<char> {
    if u.len() > 0 && u.last() == '"' {
        u.drop_last()
    } else {
        u
    }
}

/// The URL that a log line announces: from the first `https://` up to the
/// next whitespace, without trailing dots and without up to two trailing
/// double quotes; none if the line has no `https://` or nothing is left.
pub open spec fn url_in_line(line: Seq<char>) -> Option<Seq<char>> {
    match find(line, "https://"@) {
        None => None,
        Some(start) => {
            let token = take_until_whitespace(line.skip(start));
            let url = strip_quote(strip_quote(trim_end_char(token, '.')));
            if url.len() > 0 {
                Some(url)
            } else {
                None
            }
        },
    }
}

/// The URL announced by the last line of `ls` that announces one.
pub open spec fn last_url(ls: Seq<Seq<char>>) -> Option<Seq<char>>
    decreases ls.len(),
{
    if ls.len() == 0 {
        None
    } else {
        match url_in_line(ls.last()) {
            Some(u) => Some(u),
            None => last_url(ls.drop_last()),
        }
    }
}

/// The tunnel URL found in the `cloudflared` logs: the one announced by the
/// most recent line that announces one.
pub open spec fn cloudflare_url(logs: Seq<char>) -> Option<Seq<char>> {
    last_url(lines(logs))
}

pub open spec fn opt_view(o: Option<String>) -> Option<Seq<char>> {
    match o {
        Some(s) => Some(s@),
        None => None,
    }
}

/// The URL announced by one log line.
fn url_in_line_exec(line: &Vec<char>, scheme: &Vec<char>) -> (r: Option<Vec<char>>)
    requires
        scheme@ == "https://"@,
    ensures
        r matches Some(u) ==> url_in_line(line@) == Some(u@),
        r is None ==> url_in_line(line@) is None,
{
    match find_exec(line, scheme) {
        None => None,
        Some(start) => {
            proof {
                lemma_find_from_bounds(line@, scheme@, 0);
            }
            let mut token: Vec<char> = Vec::new();
            let mut j = start;
            while j < line.len() && !char_is_whitespace(line[j])
                invariant
                    start <= j <= line.len(),
                    token@ == line@.subrange(start as int, j as int),
                    forall|k: int| start <= k < j ==> !is_whitespace(#[trigger] line@[k]),
                decreases line.len() - j,
            {
                token.push(line[j]);
                j = j + 1;
                assert(token@ =~= line@.subrange(start as int, j as int));
            }
            proof {
                let slice = line@.skip(start as int);
                assert forall|k: int| 0 <= k < j - start implies !is_whitespace(
                    #[trigger] slice[k],
                ) by {
                    assert(slice[k] == line@[k + start]);
                }
                if j < line.len() {
                    assert(slice[j - start] == line@[j as int]);
                }
                lemma_take_until_whitespace(slice, j - start);
                assert(slice.take(j - start) =~= token@);
            }
            trim_end_char_exec(&mut token, '.');
            if token.len() > 0 && token[token.len() - 1] == '"' {
                let _ = token.pop();
            }
            if token.len() > 0 && token[token.len() - 1] == '"' {
                let _ = token.pop();
            }
            if token.len() > 0 {
                Some(token)
            } else {
                None
            }
        },
    }
}

/// Finds the public URL of the Cloudflare tunnel in the `cloudflared` logs:
/// the URL on the last line that holds one.
pub fn extract_cloudflare_url(logs: &str) -> (r: Option<String>)
    ensures
        opt_view(r) == cloudflare_url(logs@),
{
    let chars = chars_of(logs);
    let ls = lines_exec(&chars);
    let scheme = chars_of("https://");
    let ghost views = ls@.map_values(|l: Vec<char>| l@);
    let mut i = ls.len();
    assert(views.take(i as int) =~= views);
    while i > 0
        invariant
            i <= ls.len(),
            views == ls@.map_values(|l: Vec<char>| l@),
            views == lines(logs@),
            scheme@ == "https://"@,
            last_url(views) == last_url(views.take(i as int)),
        decreases i,
    {
        let ghost prefix = views.take(i as int);
        assert(prefix.last() == ls@[i - 1]@);
        assert(prefix.drop_last() =~= views.take(i - 1));
        match url_in_line_exec(&ls[i - 1], &scheme) {
            Some(u) => {
                return Some(string_of(&u));
            },
            None => {},
        }
        i = i - 1;
    }
    assert(views.take(0) =~= Seq::<Seq<char>>::empty());
    None
}

/// `s` with every `c` at its end removed.
pub fn trim_end_string(s: &str, c: char) -> (r: String)
    ensures
        r@ == trim_end_char(s@, c),
{
    let mut v = chars_of(s);
    trim_end_char_exec(&mut v, c);
    string_of(&v)
}

pub open spec fn or_default(o: Option<Seq<char>>, d: Seq<char>) -> Seq<char> {
    match o {
        Some(s) => s,
        None => d,
    }
}

pub open spec fn opt_str_view(o: Option<&str>) -> Option<Seq<char>> {
    match o {
        Some(s) => Some(s@),
        None => None,
    }
}

/// The lines that `status` prints about the Cloudflare tunnel: `logs` is the
/// tail of the `cloudflared` pod's logs, or none when no such pod runs.
pub open spec fn tunnel_lines(namespace: Seq<char>, logs: Option<Seq<char>>) -> Seq<Seq<char>> {
    match logs {
        None => seq![
            "\u{2601}\u{fe0f} Cloudflare deployment not found in namespace '"@ + namespace + "'"@,
        ],
        Some(l) => match cloudflare_url(l) {
            Some(u) => {
                let base = trim_end_char(u, '/');
                seq![
                    "\u{2601}\u{fe0f} Cloudflare URL: "@ + base,
                    "   Keycloak login: "@ + base + "/oidc"@,
                ]
            },
            None => seq![
                "\u{2601}\u{fe0f} Cloudflare URL: (not found in recent logs \u{2013} is the tunnel running?)"@,
            ],
        },
    }
}

/// The lines that `status` prints after connecting: the Keycloak admin
/// credentials (`admin` and `<unknown>` when the secret lacks them) and the
/// tunnel lines.
pub open spec fn status_lines(
    namespace: Seq<char>,
    username: Option<Seq<char>>,
    password: Option<Seq<char>>,
    logs: Option<Seq<char>>,
) -> Seq<Seq<char>> {
    admin_lines(username, password) + tunnel_lines(namespace, logs)
}

/// The lines that `status` prints about the Keycloak admin: the credentials,
/// `admin` and `<unknown>` when the secret lacks them.
pub open spec fn admin_lines(username: Option<Seq<char>>, password: Option<Seq<char>>) -> Seq<
    Seq<char>,
> {
    seq![
        "\u{1f6e1}\u{fe0f} Keycloak Admin"@,
        "   Username: "@ + or_default(username, "admin"@),
        "   Password: "@ + or_default(password, "<unknown>"@),
    ]
}

pub open spec fn lines_view(v: Seq<String>) -> Seq<Seq<char>> {
    v.map_values(|s: String| s@)
}

/// The lines about the Keycloak admin credentials read from `admin_secret`.
pub fn admin_report(admin_secret: &Secret) -> (r: Vec<String>)
    ensures
        lines_view(r@) == admin_lines(
            decoded_field(admin_secret.data_view(), admin_secret.string_data_view(), "username"@),
            decoded_field(admin_secret.data_view(), admin_secret.string_data_view(), "password"@),
        ),
{
    let username = match decode_secret_field(admin_secret, "username") {
        Some(u) => u,
        None => String::from_str("admin"),
    };
    let password = match decode_secret_field(admin_secret, "password") {
        Some(p) => p,
        None => String::from_str("<unknown>"),
    };
    let mut out: Vec<String> = Vec::new();
    out.push(String::from_str("\u{1f6e1}\u{fe0f} Keycloak Admin"));
    out.push(String::from_str("   Username: ").concat(username.as_str()));
    out.push(String::from_str("   Password: ").concat(password.as_str()));
    assert(lines_view(out@) =~= admin_lines(
        decoded_field(admin_secret.data_view(), admin_secret.string_data_view(), "username"@),
        decoded_field(admin_secret.data_view(), admin_secret.string_data_view(), "password"@),
    ));
    out
}

/// The lines about the tunnel: the URL found in `cloudflare_logs`, or that
/// the `cloudflared` pod was not found (none given).
pub fn tunnel_report(namespace: &str, cloudflare_logs: Option<&str>) -> (r: Vec<String>)
    ensures
        lines_view(r@) == tunnel_lines(namespace@, opt_str_view(cloudflare_logs)),
{
    let mut out: Vec<String> = Vec::new();
    match cloudflare_logs {
        None => {
            out.push(
                String::from_str(
                    "\u{2601}\u{fe0f} Cloudflare deployment not found in namespace '",
                ).concat(namespace).concat("'"),
            );
        },
        Some(logs) => match extract_cloudflare_url(logs) {
            Some(url) => {
                let base = trim_end_string(url.as_str(), '/');
                out.push(String::from_str("\u{2601}\u{fe0f} Cloudflare URL: ").concat(base.as_str()));
                out.push(
                    String::from_str("   Keycloak login: ").concat(base.as_str()).concat("/oidc"),
                );
            },
            None => {
                out.push(
                    String::from_str(
                        "\u{2601}\u{fe0f} Cloudflare URL: (not found in recent logs \u{2013} is the tunnel running?)",
                    ),
                );
            },
        },
    }
    assert(lines_view(out@) =~= tunnel_lines(namespace@, opt_str_view(cloudflare_logs)));
    out
}

/// The report that `status` prints about the platform: the Keycloak admin
/// credentials read from `admin_secret`, and the tunnel URL found in
/// `cloudflare_logs` (none when the `cloudflared` pod was not found).
pub fn status_report(namespace: &str, admin_secret: &Secret, cloudflare_logs: Option<&str>) -> (r:
    Vec<String>)
    ensures
        lines_view(r@) == status_lines(
            namespace@,
            decoded_field(admin_secret.data_view(), admin_secret.string_data_view(), "username"@),
            decoded_field(admin_secret.data_view(), admin_secret.string_data_view(), "password"@),
            opt_str_view(cloudflare_logs),
        ),
{
    let mut out = admin_report(admin_secret);
    let tunnel = tunnel_report(namespace, cloudflare_logs);
    let ghost head = out@;
    for i in 0..tunnel.len()
        invariant
            lines_view(out@) == lines_view(head) + lines_view(tunnel@).take(i as int),
    {
        out.push(tunnel[i].clone());
        assert(lines_view(tunnel@).take(i + 1) =~= lines_view(tunnel@).take(i as int).push(
            tunnel@[i as int]@,
        ));
        assert(lines_view(out@) =~= (lines_view(head) + lines_view(tunnel@).take(i as int)).push(
            tunnel@[i as int]@,
        ));
    }
    assert(lines_view(tunnel@).take(tunnel.len() as int) =~= lines_view(tunnel@));
    out
}

/// A URL as the tunnel announces it: it starts with `https://` and holds no
/// whitespace.
pub open spec fn is_https_url(u: Seq<char>) -> bool {
    &&& u.len() >= 8
    &&& u.take(8) == "https://"@
    &&& forall|k: int| 0 <= k < u.len() ==> !is_whitespace(#[trigger] u[k])
}

/// A line announces a URL exactly when it contains `https://`, and what it
/// announces starts with `https://` and holds no whitespace.
pub proof fn lemma_url_in_line_shape(line: Seq<char>)
    ensures
        url_in_line(line) is Some <==> find(line, "https://"@) is Some,
        url_in_line(line) matches Some(u) ==> is_https_url(u),
{
    reveal_strlit("https://");
    let p = "https://"@;
    assert(p.len() == 8);
    assert(p[7] == '/');
    assert forall|k: int| 0 <= k < 8 implies !is_whitespace(#[trigger] p[k]) by {
        assert(p[0] == 'h' && p[1] == 't' && p[2] == 't' && p[3] == 'p' && p[4] == 's' && p[5]
            == ':' && p[6] == '/' && p[7] == '/');
    }
    match find(line, p) {
        None => {},
        Some(start) => {
            lemma_find_from_bounds(line, p, 0);
            let slice = line.skip(start);
            assert(line.subrange(start, start + 8) == p);
            assert(slice.take(8) =~= p);
            assert forall|k: int| 0 <= k < 8 implies !is_whitespace(#[trigger] slice[k]) by {
                assert(slice[k] == slice.take(8)[k]);
            }
            lemma_take_until_whitespace_prefix(slice, 8);
            let token = take_until_whitespace(slice);
            assert(token[7] == token.take(8)[7]);
            lemma_trim_end_char_keeps_prefix(token, '.', 8);
            let t = trim_end_char(token, '.');
            assert(t[7] == t.take(8)[7]);
            assert forall|k: int| 0 <= k < t.len() implies !is_whitespace(#[trigger] t[k]) by {
                assert(t[k] == token[k]);
            }
            let q1 = strip_quote(t);
            assert(q1.len() >= 8 && q1.take(8) == p && q1[7] == '/') by {
                if t.last() == '"' {
                    assert(t.len() > 8);
                    assert(q1.take(8) =~= t.take(8));
                    assert(q1[7] == t[7]);
                }
            }
            let q2 = strip_quote(q1);
            assert(q2.len() >= 8 && q2.take(8) == p) by {
                if q1.last() == '"' {
                    assert(q1.len() > 8);
                    assert(q2.take(8) =~= q1.take(8));
                }
            }
            assert forall|k: int| 0 <= k < q2.len() implies !is_whitespace(#[trigger] q2[k]) by {
                assert(q2[k] == t[k]);
            }
        },
    }
}

/// Whatever URL the logs announce starts with `https://` and holds no
/// whitespace, and one is found exactly when some line contains `https://`.
pub proof fn lemma_cloudflare_url_shape(logs: Seq<char>)
    ensures
        cloudflare_url(logs) matches Some(u) ==> is_https_url(u),
        cloudflare_url(logs) is Some <==> exists|i: int|
            0 <= i < lines(logs).len() && #[trigger] find(lines(logs)[i], "https://"@) is Some,
{
    lemma_last_url_shape(lines(logs));
}

proof fn lemma_last_url_shape(ls: Seq<Seq<char>>)
    ensures
        last_url(ls) matches Some(u) ==> is_https_url(u),
        last_url(ls) is Some <==> exists|i: int|
            0 <= i < ls.len() && #[trigger] find(ls[i], "https://"@) is Some,
    decreases ls.len(),
{
    if ls.len() > 0 {
        let init = ls.drop_last();
        lemma_last_url_shape(init);
        lemma_url_in_line_shape(ls.last());
        if last_url(ls) is Some {
            if url_in_line(ls.last()) is Some {
                assert(find(ls[ls.len() - 1], "https://"@) is Some);
            } else {
                let i = choose|i: int|
                    0 <= i < init.len() && #[trigger] find(init[i], "https://"@) is Some;
                assert(init[i] == ls[i]);
            }
        } else {
            assert forall|i: int| 0 <= i < ls.len() implies !(#[trigger] find(
                ls[i],
                "https://"@,
            ) is Some) by {
                if i < init.len() {
                    assert(init[i] == ls[i]);
                }
            }
        }
    }
}

/// A carriage return ending a line does not change the URL it announces.
proof fn lemma_url_in_line_strip_cr(line: Seq<char>)
    ensures
        url_in_line(strip_cr(line)) == url_in_line(line),
{
    if line.len() > 0 && line.last() == '\r' {
        reveal_strlit("https://");
        let p = "https://"@;
        assert(p.len() == 8);
        assert(!p.contains('\r')) by {
            assert(p[0] == 'h' && p[1] == 't' && p[2] == 't' && p[3] == 'p' && p[4] == 's' && p[5]
                == ':' && p[6] == '/' && p[7] == '/');
        }
        let c = line.drop_last();
        lemma_find_from_drop_last(line, p, 0);
        lemma_find_from_bounds(line, p, 0);
        match find(line, p) {
            None => {},
            Some(start) => {
                lemma_find_from_bounds(c, p, 0);
                let t = line.skip(start);
                assert(c.skip(start) =~= t.drop_last());
                assert(t.last() == '\r');
                lemma_take_until_whitespace_drop_last(t);
            },
        }
    }
}

/// The URL of the last lines that announce one is that of `ys` when `ys`
/// announces one, whatever lines come before.
proof fn lemma_last_url_concat(xs: Seq<Seq<char>>, ys: Seq<Seq<char>>)
    requires
        last_url(ys) is Some,
    ensures
        last_url(xs + ys) == last_url(ys),
    decreases ys.len(),
{
    let all = xs + ys;
    assert(all.last() == ys.last());
    assert(all.drop_last() =~= xs + ys.drop_last());
    if url_in_line(ys.last()) is None {
        lemma_last_url_concat(xs, ys.drop_last());
    }
}

/// Appending a log line that holds no `https://` never changes the URL found.
pub proof fn lemma_cloudflare_url_append_line(logs: Seq<char>, line: Seq<char>)
    requires
        find(line, "https://"@) is None,
        forall|k: int| 0 <= k < line.len() ==> line[k] != '\n',
    ensures
        cloudflare_url(logs + seq!['\n'] + line) == cloudflare_url(logs),
{
    let a = logs + seq!['\n'];
    assert(a.drop_last() =~= logs);
    assert(a.last() == '\n');
    let (done, cur) = lines_acc(logs);
    let da = done.push(strip_cr(cur));
    assert(lines_acc(a) == (da, Seq::<char>::empty()));
    lemma_lines_concat(a, line);
    lemma_lines_acc_single_line(line);
    let ls = lines(a + line);
    assert(lines(line) == if line.len() == 0 {
        Seq::<Seq<char>>::empty()
    } else {
        seq![line]
    });
    if line.len() == 0 {
        assert(ls =~= da);
    } else {
        assert(ls =~= da.push(line));
        assert(ls.last() == line);
        assert(ls.drop_last() =~= da);
    }
    assert(last_url(ls) == last_url(da));
    assert(da.last() == strip_cr(cur));
    assert(da.drop_last() =~= done);
    lemma_url_in_line_strip_cr(cur);
    if cur.len() == 0 {
        reveal_strlit("https://");
        assert(find(cur, "https://"@) is None);
        assert(lines(logs) == done);
    } else {
        let lg = done.push(cur);
        assert(lines(logs) == lg);
        assert(lg.last() == cur);
        assert(lg.drop_last() =~= done);
    }
}

/// Logs that contain `https://` anywhere announce a URL.
pub proof fn lemma_cloudflare_url_found(logs: Seq<char>)
    requires
        find(logs, "https://"@) is Some,
    ensures
        cloudflare_url(logs) is Some,
{
    reveal_strlit("https://");
    let p = "https://"@;
    assert(p.len() == 8);
    assert(!p.contains('\n') && !p.contains('\r')) by {
        assert(p[0] == 'h' && p[1] == 't' && p[2] == 't' && p[3] == 'p' && p[4] == 's' && p[5]
            == ':' && p[6] == '/' && p[7] == '/');
    }
    lemma_match_in_lines(logs, p);
    lemma_cloudflare_url_shape(logs);
}

/// Older lines placed before logs that contain `https://` never change the
/// URL found.
pub proof fn lemma_cloudflare_url_prefix_lines(older: Seq<char>, logs: Seq<char>)
    requires
        find(logs, "https://"@) is Some,
    ensures
        cloudflare_url(older + seq!['\n'] + logs) == cloudflare_url(logs),
{
    lemma_cloudflare_url_found(logs);
    let a = older + seq!['\n'];
    assert(a.drop_last() =~= older);
    assert(a.last() == '\n');
    lemma_lines_concat(a, logs);
    lemma_last_url_concat(lines_acc(a).0, lines(logs));
}

} // verus!
