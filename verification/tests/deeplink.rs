use sk_music::deeplink::{
    accept_external, accept_target, external_target, map_to_relative, open_link, parse_link,
    resolve, route, Link, WORKER_HOST, WORKER_ORIGIN,
};

fn rel(link: &str) -> Option<String> {
    map_to_relative(&parse_link(link).unwrap())
}

fn link(scheme: &str, host: Option<&str>, path: &str) -> Link<String> {
    Link {
        scheme: scheme.to_string(),
        host: host.map(|h| h.to_string()),
        path: path.to_string(),
        query: None,
        fragment: None,
        text: "text".to_string(),
    }
}

#[test]
fn authority_form() {
    assert_eq!(rel("skmusic://song/abc123").as_deref(), Some("/song/abc123"));
}

#[test]
fn empty_authority_form() {
    assert_eq!(rel("skmusic:///song/abc123").as_deref(), Some("/song/abc123"));
}

#[test]
fn opaque_form() {
    assert_eq!(rel("skmusic:song/abc123").as_deref(), Some("/song/abc123"));
}

#[test]
fn other_routes() {
    assert_eq!(rel("skmusic://artists/UC123").as_deref(), Some("/artists/UC123"));
    assert_eq!(rel("skmusic://albums/xyz").as_deref(), Some("/albums/xyz"));
    assert_eq!(
        rel("skmusic://zemer-playlists/p1").as_deref(),
        Some("/zemer-playlists/p1")
    );
}

#[test]
fn query_and_fragment_preserved() {
    assert_eq!(
        rel("skmusic://song/abc?t=30#x").as_deref(),
        Some("/song/abc?t=30#x")
    );
}

#[test]
fn https_worker_passthrough() {
    assert_eq!(
        rel("https://skmusic.shalomkarr.workers.dev/song/abc").as_deref(),
        Some("/song/abc")
    );
}

#[test]
fn foreign_host_rejected() {
    assert_eq!(rel("https://evil.example.com/song/abc"), None);
    assert_eq!(rel("http://skmusic.shalomkarr.workers.dev/x"), Some("/x".to_string()));
}

#[test]
fn foreign_scheme_rejected() {
    assert_eq!(rel("javascript:alert(1)"), None);
    assert_eq!(rel("file:///etc/passwd"), None);
}

#[test]
fn resolve_backstop_blocks_offsite() {
    assert_eq!(
        resolve("/song/abc").map(|u| u.text).as_deref(),
        Some("https://skmusic.shalomkarr.workers.dev/song/abc")
    );
    assert_eq!(resolve("//evil.example.com/x").map(|u| u.text), None);
}

#[test]
fn parsed_parts() {
    let l = parse_link("SKMusic://song/a b?q=1#f").unwrap();
    assert_eq!(l.scheme, "skmusic");
    assert_eq!(l.host.as_deref(), Some("song"));
    assert_eq!(l.path, "/a%20b");
    assert_eq!(l.query.as_deref(), Some("q=1"));
    assert_eq!(l.fragment.as_deref(), Some("f"));
    assert_eq!(l.text, "skmusic://song/a%20b?q=1#f");
    assert!(parse_link("not a link").is_none());
    assert!(parse_link("/relative").is_none());
}

#[test]
fn link_without_a_path_leads_home() {
    assert_eq!(rel("https://skmusic.shalomkarr.workers.dev").as_deref(), Some("/"));
    assert_eq!(rel("skmusic://").as_deref(), Some("/"));
    assert_eq!(rel("skmusic:").as_deref(), Some("/"));
}

#[test]
fn slashes_are_folded() {
    assert_eq!(rel("skmusic:////evil.example.com//x").as_deref(), Some("/evil.example.com/x"));
    assert_eq!(rel("skmusic://song/abc/").as_deref(), Some("/song/abc"));
}

#[test]
fn three_forms_agree() {
    let want = Some("/song/abc?t=1#x".to_string());
    assert_eq!(rel("skmusic://song/abc?t=1#x"), want);
    assert_eq!(rel("skmusic:///song/abc?t=1#x"), want);
    assert_eq!(rel("skmusic:song/abc?t=1#x"), want);
}

#[test]
fn routed_to_the_origin() {
    let r = route(&parse_link("skmusic://song/abc?t=30#x").unwrap()).unwrap();
    assert_eq!(r.rel, "/song/abc?t=30#x");
    assert_eq!(r.target.text, "https://skmusic.shalomkarr.workers.dev/song/abc?t=30#x");
    assert_eq!(r.target.host.as_deref(), Some(WORKER_HOST));
    assert!(r.target.text.starts_with(WORKER_ORIGIN));
    assert!(route(&parse_link("https://evil.example.com/").unwrap()).is_none());
}

#[test]
fn targets_elsewhere_are_refused() {
    assert!(accept_target(None).is_none());
    assert!(accept_target(Some(link("https", Some(WORKER_HOST), "/"))).is_some());
    assert!(accept_target(Some(link("http", Some(WORKER_HOST), "/"))).is_none());
    assert!(accept_target(Some(link("https", Some("evil.example.com"), "/"))).is_none());
    assert!(accept_target(Some(link("https", None, "/"))).is_none());
}

#[test]
fn external_links_are_web_links() {
    let t = external_target("{\"url\":\"https://example.com/a?b#c\"}").unwrap();
    assert_eq!(t.text, "https://example.com/a?b#c");
    assert_eq!(
        external_target("{\"url\":\"http://example.com\"}").map(|l| l.text).as_deref(),
        Some("http://example.com/")
    );
    assert!(external_target("{\"url\":\"file:///etc/passwd\"}").is_none());
    assert!(external_target("{\"url\":\"javascript:alert(1)\"}").is_none());
    assert!(external_target("{\"url\":7}").is_none());
    assert!(external_target("{\"other\":\"https://example.com\"}").is_none());
    assert!(external_target("[\"https://example.com\"]").is_none());
    assert!(external_target("https://example.com").is_none());
    assert!(external_target("{\"url\":\"relative\"}").is_none());
    assert!(accept_external(None).is_none());
    assert!(accept_external(Some(link("ftp", Some("example.com"), "/"))).is_none());
    assert!(accept_external(Some(link("https", Some("example.com"), "/"))).is_some());
}

#[test]
fn plain_addresses_are_read_back() {
    let authorities: [Option<&str>; 5] =
        [None, Some(""), Some("song"), Some("A-b_9"), Some("12")];
    let paths = ["", "/", "/abc123", "/a//b/", "//x", "a/b", "Zz-_09"];
    let queries: [Option<&str>; 4] = [None, Some(""), Some("t=30"), Some("a=b&c=")];
    let fragments: [Option<&str>; 3] = [None, Some(""), Some("x-Y_1")];
    for scheme in ["skmusic", "a", "https", "http"] {
        let web = scheme.starts_with("http");
        let hosts: [Option<&str>; 2] =
            [Some("skmusic.shalomkarr.workers.dev"), Some("a.b")];
        let candidates: Vec<Option<&str>> =
            if web { hosts.to_vec() } else { authorities.to_vec() };
        for authority in candidates {
            for path in paths {
                let fits = match authority {
                    Some(_) => (path.is_empty() && !web) || path.starts_with('/'),
                    None => !path.starts_with('/'),
                };
                if !fits {
                    continue;
                }
                for query in queries {
                    for fragment in fragments {
                        let mut text = format!("{}:", scheme);
                        if let Some(a) = authority {
                            text = format!("{}//{}", text, a);
                        }
                        text = format!("{}{}", text, path);
                        if let Some(q) = query {
                            text = format!("{}?{}", text, q);
                        }
                        if let Some(f) = fragment {
                            text = format!("{}#{}", text, f);
                        }
                        let l = parse_link(&text).unwrap();
                        assert_eq!(l.scheme, scheme);
                        assert_eq!(l.host.as_deref(), authority.filter(|a| !a.is_empty()));
                        assert_eq!(l.path, path);
                        assert_eq!(l.query.as_deref(), query);
                        assert_eq!(l.fragment.as_deref(), fragment);
                        assert_eq!(l.text, text);
                    }
                }
            }
        }
    }
}

#[test]
fn rooted_paths_stay_on_the_origin() {
    for rel in ["/", "/song/abc?t=30#x", "/a//b/", "/a?b?c#d#e", "/?", "/#", "/a=b&c"] {
        assert_eq!(resolve(rel).unwrap().text, format!("{}{}", WORKER_ORIGIN, rel));
    }
    for rel in ["/../x", "/é \u{1}", "/.//y", "/%2e%2e/x", "/:@z", "/a\\b", "/ "] {
        let target = resolve(rel).unwrap();
        assert_eq!(target.scheme, "https");
        assert_eq!(target.host.as_deref(), Some(WORKER_HOST));
    }
    for rel in ["/\\evil.example.com/x", "//evil.example.com", "/\t/evil.example.com"] {
        assert!(resolve(rel).is_none());
    }
}

#[test]
fn links_are_opened() {
    let opened = |text: &str| open_link(text).map(|r| (r.rel, r.target.text));
    let want = |rel: &str| Some((rel.to_string(), format!("{}{}", WORKER_ORIGIN, rel)));
    assert_eq!(opened("skmusic://song/abc123"), want("/song/abc123"));
    assert_eq!(opened("skmusic:///song/abc123"), want("/song/abc123"));
    assert_eq!(opened("skmusic:song/abc123"), want("/song/abc123"));
    assert_eq!(
        opened("https://skmusic.shalomkarr.workers.dev/song/abc?t=30#x"),
        want("/song/abc?t=30#x")
    );
    assert_eq!(opened("https://skmusic.shalomkarr.workers.dev//evil.example.com"), None);
    assert_eq!(opened("https://evil.example.com/song/abc"), None);
    assert_eq!(opened("javascript:alert"), None);
    assert_eq!(opened("no link"), None);
}
