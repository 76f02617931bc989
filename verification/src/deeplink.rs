//! Deep links: which links the app follows, and where in the app they lead.
//!
//! A link is turned into a path relative to the app's own origin and resolved against that origin
//! again, so no link can lead the window to another host. These forms are accepted:
//!   - `skmusic://song/<id>`, with the first segment as the authority
//!   - `skmusic:///song/<id>`, with an empty authority
//!   - `skmusic:song/<id>`, opaque
//!   - `https://skmusic.shalomkarr.workers.dev/song/<id>`, intercepted by the operating system
//! The query and the fragment of a link are kept.
use vstd::prelude::*;

use crate::outside;
use crate::text;

verus! {

/// The origin that the main window shows.
pub const WORKER_ORIGIN: &'static str = "https://skmusic.shalomkarr.workers.dev";

/// The host of that origin.
pub const WORKER_HOST: &'static str = "skmusic.shalomkarr.workers.dev";

/// The parts of an address that links are routed by.
pub struct Link<S> {
    /// In lower case, without the colon.
    pub scheme: S,
    pub host: Option<S>,
    /// Percent-encoded.
    pub path: S,
    /// Without the question mark.
    pub query: Option<S>,
    /// Without the number sign.
    pub fragment: Option<S>,
    /// The whole address.
    pub text: S,
}

impl View for Link<String> {
    type V = Link<Seq<char>>;

    open spec fn view(&self) -> Link<Seq<char>> {
        Link {
            scheme: self.scheme@,
            host: text::opt_string_view(self.host),
            path: self.path@,
            query: text::opt_string_view(self.query),
            fragment: text::opt_string_view(self.fragment),
            text: self.text@,
        }
    }
}

/// The view of an optional link.
pub open spec fn opt_link_view(link: Option<Link<String>>) -> Option<Link<Seq<char>>> {
    match link {
        Some(l) => Some(l@),
        None => None,
    }
}

impl Link<Seq<char>> {
    /// What holds of every parsed address: its parts do not hold the delimiters that end them, and
    /// an `http` or `https` address has a host and a path that begins with a slash.
    pub open spec fn wf(self) -> bool {
        &&& !self.path.contains('?') && !self.path.contains('#')
        &&& self.query matches Some(q) ==> !q.contains('#')
        &&& self.host matches Some(h) ==> !h.contains('/') && !h.contains('?') && !h.contains('#')
        &&& self.scheme == "http"@ || self.scheme == "https"@ ==> self.host is Some
            && self.path.len() > 0 && self.path[0] == '/'
    }
}

/// The parts of the address that `text` writes, if it writes one.
pub fn parse_link(text: &str) -> (r: Option<Link<String>>)
    ensures
        opt_link_view(r) == outside::parsed_url(text@),
        r matches Some(link) ==> link@.wf(),
        forall|a: outside::Address| #[trigger]
            a.written() == text@ && a.plain() ==> opt_link_view(r) == Some(a.link()),
{
    outside::parse_url(text)
}

// ---------------------------------------------------------------------------
// From a link to a path in the app
// ---------------------------------------------------------------------------

/// The non-empty pieces between the slashes of a path.
pub open spec fn path_segments(path: Seq<char>) -> Seq<Seq<char>>
    decreases path.len(),
{
    if path.len() == 0 {
        Seq::empty()
    } else {
        let n = text::until(path, '/');
        let rest = if n < path.len() {
            path_segments(path.skip(n as int + 1))
        } else {
            Seq::empty()
        };
        if n == 0 {
            rest
        } else {
            seq![path.take(n as int)] + rest
        }
    }
}

/// Each segment behind a slash.
pub open spec fn slashed(segments: Seq<Seq<char>>) -> Seq<char>
    decreases segments.len(),
{
    if segments.len() == 0 {
        Seq::empty()
    } else {
        slashed(segments.drop_last()) + "/"@ + segments.last()
    }
}

/// The segments of an app link: the host, where there is one, and those of the path.
pub open spec fn link_segments(link: Link<Seq<char>>) -> Seq<Seq<char>> {
    let host = match link.host {
        Some(h) => if h.len() > 0 {
            seq![h]
        } else {
            Seq::empty()
        },
        None => Seq::empty(),
    };
    host + path_segments(link.path)
}

/// A path with the query and the fragment of a link behind it.
pub open spec fn with_query_fragment(rel: Seq<char>, link: Link<Seq<char>>) -> Seq<char> {
    let queried = match link.query {
        Some(q) => rel + "?"@ + q,
        None => rel,
    };
    match link.fragment {
        Some(f) => queried + "#"@ + f,
        None => queried,
    }
}

/// The path in the app that a link leads to, or `None` for a scheme or a host that is not trusted.
pub open spec fn relative_of(link: Link<Seq<char>>) -> Option<Seq<char>> {
    if link.scheme == "skmusic"@ {
        let segments = link_segments(link);
        let rel = if segments.len() == 0 {
            "/"@
        } else {
            slashed(segments)
        };
        Some(with_query_fragment(rel, link))
    } else if link.scheme == "http"@ || link.scheme == "https"@ {
        if link.host == Some(WORKER_HOST@) {
            Some(with_query_fragment(link.path, link))
        } else {
            None
        }
    } else {
        None
    }
}

/// The views of a list of strings.
pub open spec fn strings_view(v: Seq<String>) -> Seq<Seq<char>> {
    v.map_values(|s: String| s@)
}

/// Appends the non-empty pieces between the slashes of `path` to `out`.
fn push_segments(out: &mut Vec<String>, path: &str)
    ensures
        strings_view(final(out)@) == strings_view(old(out)@) + path_segments(path@),
{
    let v: Vec<char> = text::chars_of(path);
    let n: usize = v.len();
    let mut from: usize = 0;
    let ghost first = strings_view(out@);
    assert(v@.skip(0) =~= path@);
    loop
        invariant_except_break
            from <= n,
            n == v@.len(),
            v@ == path@,
            strings_view(out@) + path_segments(v@.skip(from as int)) == first + path_segments(
                path@,
            ),
        ensures
            strings_view(out@) == first + path_segments(path@),
        decreases n - from,
    {
        if from == n {
            assert(strings_view(out@) + path_segments(v@.skip(from as int)) =~= strings_view(out@));
            break;
        }
        let to: usize = text::find_from(&v, from, '/');
        let ghost rest = v@.skip(from as int);
        let ghost before = strings_view(out@);
        assert(rest.take(to - from) =~= v@.subrange(from as int, to as int));
        if to > from {
            out.push(text::slice_string(&v, from, to));
            assert(strings_view(out@) =~= before.push(rest.take(to - from)));
        }
        if to == n {
            assert(strings_view(out@) =~= before + path_segments(rest));
            break;
        }
        assert(rest.skip(to - from + 1) =~= v@.skip(to + 1));
        assert(strings_view(out@) + path_segments(v@.skip(to + 1)) =~= before + path_segments(rest));
        from = to + 1;
    }
}

/// Puts the query and the fragment of a link behind `rel`.
fn append_query_fragment(rel: &mut String, link: &Link<String>)
    ensures
        final(rel)@ == with_query_fragment(old(rel)@, link@),
{
    match &link.query {
        Some(q) => {
            rel.append("?");
            rel.append(q.as_str());
        },
        None => {},
    }
    match &link.fragment {
        Some(f) => {
            rel.append("#");
            rel.append(f.as_str());
        },
        None => {},
    }
}

/// Whether an optional text is the given one.
fn is_text(s: &Option<String>, t: &str) -> (r: bool)
    ensures
        r == (text::opt_string_view(*s) == Some(t@)),
{
    match s {
        Some(x) => text::same(x.as_str(), t),
        None => false,
    }
}

/// The path in the app that a link leads to, with its query and fragment. `None` for a scheme or a
/// host that is not trusted.
pub fn map_to_relative(link: &Link<String>) -> (r: Option<String>)
    ensures
        text::opt_string_view(r) == relative_of(link@),
{
    let scheme = link.scheme.as_str();
    if text::same(scheme, "skmusic") {
        let mut segments: Vec<String> = Vec::new();
        assert(strings_view(segments@) =~= Seq::empty());
        match &link.host {
            Some(h) => {
                if !h.as_str().is_empty() {
                    segments.push(h.clone());
                    assert(strings_view(segments@) =~= seq![h@]);
                }
            },
            None => {},
        }
        push_segments(&mut segments, link.path.as_str());
        let ghost all = strings_view(segments@);
        assert(all == link_segments(link@));
        let mut rel: String = if segments.len() == 0 {
            "/".to_string()
        } else {
            let mut s: String = String::new();
            let mut i: usize = 0;
            assert(all.take(0) =~= Seq::empty());
            while i < segments.len()
                invariant
                    i <= segments@.len(),
                    all == strings_view(segments@),
                    s@ == slashed(all.take(i as int)),
                decreases segments@.len() - i,
            {
                s.append("/");
                s.append(segments[i].as_str());
                i = i + 1;
                assert(all.take(i as int).drop_last() =~= all.take(i - 1));
            }
            assert(all.take(i as int) =~= all);
            s
        };
        append_query_fragment(&mut rel, link);
        Some(rel)
    } else if text::same(scheme, "http") || text::same(scheme, "https") {
        if is_text(&link.host, WORKER_HOST) {
            let mut rel: String = link.path.clone();
            append_query_fragment(&mut rel, link);
            Some(rel)
        } else {
            None
        }
    } else {
        None
    }
}

// ---------------------------------------------------------------------------
// Back to an address
// ---------------------------------------------------------------------------

/// Whether an address lies on the app's own origin.
pub open spec fn trusted(link: Link<Seq<char>>) -> bool {
    link.scheme == "https"@ && link.host == Some(WORKER_HOST@)
}

/// A resolved address, if it lies on the app's own origin.
pub open spec fn accepted(joined: Option<Link<Seq<char>>>) -> Option<Link<Seq<char>>> {
    match joined {
        Some(link) => if trusted(link) {
            Some(link)
        } else {
            None
        },
        None => None,
    }
}

/// A resolved address, if it lies on the app's own origin.
pub fn accept_target(joined: Option<Link<String>>) -> (r: Option<Link<String>>)
    ensures
        opt_link_view(r) == accepted(opt_link_view(joined)),
        r is Some ==> r == joined,
{
    match joined {
        Some(link) => {
            if text::same(link.scheme.as_str(), "https") && is_text(&link.host, WORKER_HOST) {
                Some(link)
            } else {
                None
            }
        },
        None => None,
    }
}

/// Resolves a path against the app's own origin. `None` where the result is not on that origin; a
/// path that begins with one slash always is.
pub fn resolve(rel: &str) -> (r: Option<Link<String>>)
    ensures
        opt_link_view(r) == accepted(outside::joined_url(WORKER_ORIGIN@, rel@)),
        outside::rooted_reference(rel@) ==> r is Some,
        outside::plain_reference(rel@) ==> (r matches Some(target) && target.text@ == WORKER_ORIGIN@
            + rel@),
{
    proof {
        lemma_origin();
    }
    accept_target(outside::join_url(WORKER_ORIGIN, rel))
}

/// Where a link takes the main window.
pub struct Route {
    /// The address that the window is sent to.
    pub target: Link<String>,
    /// The path in the app, which is announced to the page.
    pub rel: String,
}

/// The target that a link has, given what resolving its path gives.
pub open spec fn target_of(link: Link<Seq<char>>) -> Option<Link<Seq<char>>> {
    match relative_of(link) {
        Some(rel) => accepted(outside::joined_url(WORKER_ORIGIN@, rel)),
        None => None,
    }
}

/// Where a link takes the main window, if anywhere.
pub fn route(link: &Link<String>) -> (r: Option<Route>)
    ensures
        match r {
            Some(route) => Some(route.target@) == target_of(link@) && Some(route.rel@)
                == relative_of(link@),
            None => target_of(link@) is None,
        },
        relative_of(link@) matches Some(rel) ==> (outside::rooted_reference(rel) ==> r is Some),
        relative_of(link@) matches Some(rel) ==> (outside::plain_reference(rel) ==> (r matches Some(
            route,
        ) && route.target.text@ == WORKER_ORIGIN@ + rel)),
{
    match map_to_relative(link) {
        Some(rel) => match resolve(rel.as_str()) {
            Some(target) => Some(Route { target, rel }),
            None => None,
        },
        None => None,
    }
}

/// Whether an address is one that the app follows: it has the app's own scheme, or it is a web
/// address on the app's own host whose path does not begin with two slashes.
pub open spec fn followed(a: outside::Address) -> bool {
    ||| a.scheme == "skmusic"@
    ||| a.web() && a.authority == Some(WORKER_HOST@) && (a.path.len() > 1 ==> a.path[1] != '/')
}

/// Where the link that `text` writes takes the main window, if anywhere. A link whose parts are
/// written in characters that stand for themselves is followed, to the app's own origin and the
/// path that it names, exactly if it is one that the app follows.
pub fn open_link(text: &str) -> (r: Option<Route>)
    ensures
        match (outside::parsed_url(text@), r) {
            (Some(link), Some(route)) => Some(route.target@) == target_of(link) && Some(route.rel@)
                == relative_of(link),
            (Some(link), None) => target_of(link) is None,
            (None, _) => r is None,
        },
        forall|a: outside::Address| #[trigger]
            a.written() == text@ && a.plain() ==> match relative_of(a.link()) {
                Some(rel) => followed(a) ==> (r matches Some(route) && route.rel@ == rel
                    && route.target.text@ == WORKER_ORIGIN@ + rel),
                None => r is None,
            },
        forall|a: outside::Address| #[trigger]
            a.written() == text@ && a.plain() && followed(a) ==> relative_of(a.link()) is Some,
{
    proof {
        assert forall|a: outside::Address| #[trigger]
            a.written() == text@ && a.plain() && followed(a) implies relative_of(a.link()) is Some
            && outside::plain_reference(relative_of(a.link())->0) by {
            lemma_followed_is_plain(a);
        }
    }
    match parse_link(text) {
        Some(link) => route(&link),
        None => None,
    }
}

// ---------------------------------------------------------------------------
// Outbound links
// ---------------------------------------------------------------------------

/// An address, if it is one that a browser opens.
pub open spec fn browsable(link: Option<Link<Seq<char>>>) -> Option<Link<Seq<char>>> {
    match link {
        Some(l) => if l.scheme == "http"@ || l.scheme == "https"@ {
            Some(l)
        } else {
            None
        },
        None => None,
    }
}

/// An address, if it is one that a browser opens.
pub fn accept_external(link: Option<Link<String>>) -> (r: Option<Link<String>>)
    ensures
        opt_link_view(r) == browsable(opt_link_view(link)),
        r is Some ==> r == link,
{
    match link {
        Some(l) => {
            if text::same(l.scheme.as_str(), "http") || text::same(l.scheme.as_str(), "https") {
                Some(l)
            } else {
                None
            }
        },
        None => None,
    }
}

/// The address that a request to open an off-site link names, if a browser may open it: the text in
/// the field `url` of the request. The page is not trusted to have checked the scheme.
pub fn external_target(payload: &str) -> (r: Option<Link<String>>)
    ensures
        opt_link_view(r) == match outside::json_text_field(payload@, "url"@) {
            Some(raw) => browsable(outside::parsed_url(raw)),
            None => None,
        },
        forall|a: outside::Address|
            outside::json_object("url"@, #[trigger] a.written()) == payload@ && a.plain() ==> opt_link_view(
                r,
            ) == (if a.web() {
                Some(a.link())
            } else {
                None
            }),
{
    proof {
        reveal_strlit("url");
    }
    match outside::text_field(payload, "url") {
        Some(raw) => accept_external(outside::parse_url(raw.as_str())),
        None => None,
    }
}

// ---------------------------------------------------------------------------
// Laws
// ---------------------------------------------------------------------------

/// No link leads the window off the app's own origin.
pub proof fn law_no_open_redirect(link: Link<Seq<char>>)
    ensures
        match target_of(link) {
            Some(target) => target.scheme == "https"@ && target.host == Some(WORKER_HOST@),
            None => true,
        },
{
}

/// A link is followed only if its scheme is the app's own, or if it is a web address on the app's
/// own host.
pub proof fn law_foreign_links_rejected(link: Link<Seq<char>>)
    ensures
        relative_of(link) is Some <==> link.scheme == "skmusic"@ || ((link.scheme == "http"@
            || link.scheme == "https"@) && link.host == Some(WORKER_HOST@)),
{
}

/// The pieces of a path hold no slash and are not empty.
proof fn lemma_path_segments(path: Seq<char>)
    ensures
        forall|i: int|
            0 <= i < path_segments(path).len() ==> (#[trigger] path_segments(path)[i]).len() > 0
                && !path_segments(path)[i].contains('/'),
        forall|i: int, c: char|
            0 <= i < path_segments(path).len() && !path.contains(c) ==> !(
            #[trigger] path_segments(path)[i].contains(c)),
    decreases path.len(),
{
    if path.len() > 0 {
        let n = text::until(path, '/');
        text::lemma_until(path, '/');
        let head = path.take(n as int);
        assert forall|c: char| !path.contains(c) implies !head.contains(c) by {
            if head.contains(c) {
                let j = choose|j: int| 0 <= j < head.len() && head[j] == c;
                assert(path[j] == c);
            }
        }
        if head.contains('/') {
            let j = choose|j: int| 0 <= j < head.len() && head[j] == '/';
            assert(path[j] == '/');
        }
        let rest = path.skip(n as int + 1);
        let tail = if n < path.len() {
            path_segments(rest)
        } else {
            Seq::empty()
        };
        if n < path.len() {
            lemma_path_segments(rest);
            assert forall|c: char| !path.contains(c) implies !rest.contains(c) by {
                if rest.contains(c) {
                    let j = choose|j: int| 0 <= j < rest.len() && rest[j] == c;
                    assert(path[n + 1 + j] == c);
                }
            }
        }
        let all = path_segments(path);
        let k: int = if n == 0 {
            0
        } else {
            1
        };
        assert forall|i: int| 0 <= i < all.len() implies (#[trigger] all[i]).len() > 0
            && !all[i].contains('/') by {
            if i >= k {
                assert(all[i] == tail[i - k]);
            }
        }
        assert forall|i: int, c: char| 0 <= i < all.len() && !path.contains(c) implies !(
        #[trigger] all[i].contains(c)) by {
            if i >= k {
                assert(all[i] == tail[i - k]);
            }
        }
    }
}

/// A path of non-empty slash-free segments begins with one slash that no other follows.
proof fn lemma_slashed(segments: Seq<Seq<char>>)
    requires
        segments.len() > 0,
        segments[0].len() > 0,
        !segments[0].contains('/'),
    ensures
        slashed(segments).len() > 1,
        slashed(segments)[0] == '/',
        slashed(segments)[1] != '/',
    decreases segments.len(),
{
    reveal_strlit("/");
    if segments.len() > 1 {
        lemma_slashed(segments.drop_last());
    } else {
        assert(slashed(segments.drop_last()) =~= Seq::empty());
        assert(segments[0][0] != '/') by {
            assert(segments[0].contains(segments[0][0]));
        }
    }
}

/// Joined segments hold a character other than the slash only if one of them does.
proof fn lemma_slashed_chars(segments: Seq<Seq<char>>, c: char)
    requires
        c != '/',
        forall|i: int| 0 <= i < segments.len() ==> !(#[trigger] segments[i].contains(c)),
    ensures
        !slashed(segments).contains(c),
    decreases segments.len(),
{
    reveal_strlit("/");
    if segments.len() > 0 {
        let front = segments.drop_last();
        assert forall|i: int| 0 <= i < front.len() implies !(#[trigger] front[i].contains(c)) by {
            assert(front[i] == segments[i]);
        }
        lemma_slashed_chars(front, c);
        if slashed(segments).contains(c) {
            let j = choose|j: int| 0 <= j < slashed(segments).len() && slashed(segments)[j] == c;
            let a = slashed(front).len();
            if j < a {
                assert(slashed(front)[j] == c);
            } else if j > a {
                assert(segments.last()[j - a - 1] == c);
                assert(segments[segments.len() - 1].contains(c));
            }
        }
    }
}

/// The path part of what a link leads to, before its query and fragment.
pub open spec fn relative_path_of(link: Link<Seq<char>>) -> Seq<char> {
    if link.scheme == "skmusic"@ {
        if link_segments(link).len() == 0 {
            "/"@
        } else {
            slashed(link_segments(link))
        }
    } else {
        link.path
    }
}

/// The path in the app begins with a slash, and for the app's own scheme never with two, so it
/// cannot name another host.
pub proof fn law_relative_is_rooted(link: Link<Seq<char>>)
    requires
        link.wf(),
        relative_of(link) is Some,
    ensures
        relative_of(link)->0.len() > 0,
        relative_of(link)->0[0] == '/',
        link.scheme == "skmusic"@ && relative_of(link)->0.len() > 1 ==> relative_of(link)->0[1]
            != '/',
        relative_of(link) == Some(with_query_fragment(relative_path_of(link), link)),
{
    reveal_strlit("/");
    reveal_strlit("?");
    reveal_strlit("#");
    if link.scheme == "skmusic"@ {
        let segments = link_segments(link);
        lemma_path_segments(link.path);
        if segments.len() > 0 {
            match link.host {
                Some(h) => {
                    if h.len() > 0 {
                        assert(segments[0] == h);
                    } else {
                        assert(segments =~= path_segments(link.path));
                    }
                },
                None => {
                    assert(segments =~= path_segments(link.path));
                },
            }
            lemma_slashed(segments);
        }
    }
}

/// The path part of what a link leads to does not hold a question mark or a number sign.
proof fn lemma_relative_path_undelimited(link: Link<Seq<char>>)
    requires
        link.wf(),
    ensures
        !relative_path_of(link).contains('?'),
        !relative_path_of(link).contains('#'),
{
    reveal_strlit("/");
    if link.scheme == "skmusic"@ {
        let segments = link_segments(link);
        lemma_path_segments(link.path);
        let inner = path_segments(link.path);
        let k = segments.len() - inner.len();
        assert forall|i: int, c: char|
            0 <= i < segments.len() && (c == '?' || c == '#') implies !(
        #[trigger] segments[i].contains(c)) by {
            if i >= k {
                assert(segments[i] == inner[i - k]);
            } else {
                assert(link.host matches Some(h) && segments[i] == h);
            }
        }
        lemma_slashed_chars(segments, '?');
        lemma_slashed_chars(segments, '#');
        if "/"@.contains('?') || "/"@.contains('#') {
            assert(false);
        }
    }
}

/// The app's own origin is `https://` and its host, which is a plain one.
proof fn lemma_origin()
    ensures
        outside::origin_host(WORKER_ORIGIN@) == WORKER_HOST@,
        outside::plain_origin(WORKER_ORIGIN@),
{
    reveal_strlit("https://skmusic.shalomkarr.workers.dev");
    reveal_strlit("skmusic.shalomkarr.workers.dev");
    reveal_strlit("https://");
    assert(WORKER_ORIGIN@.skip(8) =~= WORKER_HOST@);
    assert(WORKER_ORIGIN@ =~= "https://"@ + WORKER_HOST@);
}

/// A segment in front of others comes first behind its slash.
proof fn lemma_slashed_cons(first: Seq<char>, rest: Seq<Seq<char>>)
    ensures
        slashed(seq![first] + rest) == "/"@ + first + slashed(rest),
    decreases rest.len(),
{
    let all = seq![first] + rest;
    if rest.len() == 0 {
        assert(all.drop_last() =~= Seq::empty());
        assert(slashed(all.drop_last()) =~= Seq::empty());
        assert(all.last() == first);
        assert(slashed(all) =~= "/"@ + first + slashed(rest));
    } else {
        assert(all.drop_last() =~= seq![first] + rest.drop_last());
        lemma_slashed_cons(first, rest.drop_last());
        assert(slashed(all) =~= "/"@ + first + slashed(rest));
    }
}

/// Joined segments are no longer than the path that they come from, but for a first slash.
proof fn lemma_slashed_len(path: Seq<char>)
    ensures
        slashed(path_segments(path)).len() <= path.len() + 1,
    decreases path.len(),
{
    reveal_strlit("/");
    if path.len() > 0 {
        let n = text::until(path, '/');
        text::lemma_until(path, '/');
        let rest = if n < path.len() {
            path_segments(path.skip(n as int + 1))
        } else {
            Seq::empty()
        };
        if n < path.len() {
            lemma_slashed_len(path.skip(n as int + 1));
        }
        if n > 0 {
            lemma_slashed_cons(path.take(n as int), rest);
        }
    }
}

/// Whether `c` may stand in the path part of a plain reference.
spec fn path_char(c: char) -> bool {
    outside::word_char(c) || c == '/'
}

/// The path part of what a plain link leads to is plain, and no longer than the link.
proof fn lemma_path_is_plain(a: outside::Address)
    requires
        a.plain(),
        followed(a),
    ensures
        forall|i: int|
            0 <= i < relative_path_of(a.link()).len() ==> path_char(
                #[trigger] relative_path_of(a.link())[i],
            ),
        relative_path_of(a.link()).len() <= a.path.len() + 2 + (match a.authority {
            Some(h) => h.len(),
            None => 0,
        }),
{
    reveal_strlit("/");
    reveal_strlit("skmusic");
    reveal_strlit("http");
    reveal_strlit("https");
    let link = a.link();
    let rel = relative_path_of(link);
    if link.scheme == "skmusic"@ {
        let inner = path_segments(a.path);
        let segments = link_segments(link);
        lemma_path_segments(a.path);
        lemma_slashed_len(a.path);
        let k = segments.len() - inner.len();
        match link.host {
            Some(h) => {
                lemma_slashed_cons(h, inner);
                assert(segments =~= seq![h] + inner);
            },
            None => {
                assert(segments =~= inner);
            },
        }
        assert forall|c: char| !path_char(c) implies !slashed(segments).contains(c) by {
            assert(!a.path.contains(c));
            assert forall|i: int| 0 <= i < segments.len() implies !(#[trigger] segments[i].contains(
                c,
            )) by {
                if i >= k {
                    assert(segments[i] == inner[i - k]);
                    assert(!inner[i - k].contains(c));
                } else {
                    let h = a.authority->0;
                    assert(segments[i] == h);
                    assert forall|j: int| 0 <= j < h.len() implies h[j] != c by {
                        assert(outside::word_char(h[j]));
                    }
                }
            }
            lemma_slashed_chars(segments, c);
        }
        assert forall|i: int| 0 <= i < rel.len() implies path_char(#[trigger] rel[i]) by {
            if segments.len() > 0 {
                assert(slashed(segments).contains(rel[i]));
            }
        }
    }
}

/// What a plain link leads to is a plain reference.
proof fn lemma_followed_is_plain(a: outside::Address)
    requires
        a.plain(),
        followed(a),
    ensures
        relative_of(a.link()) is Some,
        outside::plain_reference(relative_of(a.link())->0),
{
    reveal_strlit("skmusic");
    reveal_strlit("http");
    reveal_strlit("https");
    reveal_strlit("/");
    reveal_strlit(":");
    reveal_strlit("://");
    reveal_strlit("?");
    reveal_strlit("#");
    let link = a.link();
    let path = relative_path_of(link);
    lemma_path_is_plain(a);
    assert(!link.path.contains('?') && !link.path.contains('#'));
    assert(link.query matches Some(q) ==> !q.contains('#'));
    assert(link.host matches Some(h) ==> !h.contains('/') && !h.contains('?') && !h.contains('#'));
    law_relative_is_rooted(link);
    assert(relative_of(link)->0.len() <= a.written().len());
}

/// The fragment of a path in the app: what follows its first number sign.
pub open spec fn fragment_in(rel: Seq<char>) -> Option<Seq<char>> {
    match text::sides(rel, '#') {
        Some((_, f)) => Some(f),
        None => None,
    }
}

/// The query of a path in the app: what lies between its first question mark and its fragment.
pub open spec fn query_in(rel: Seq<char>) -> Option<Seq<char>> {
    match text::sides(text::head(rel, '#'), '?') {
        Some((_, q)) => Some(q),
        None => None,
    }
}

/// Splitting at a delimiter that is not in the front part gives that front part back.
proof fn lemma_sides_of_joined(front: Seq<char>, c: char, back: Seq<char>)
    requires
        !front.contains(c),
    ensures
        text::sides(front + seq![c] + back, c) == Some((front, back)),
        text::head(front + seq![c] + back, c) == front,
{
    let s = front + seq![c] + back;
    assert forall|i: int| 0 <= i < front.len() implies s[i] != c by {
        assert(front.contains(front[i]));
    }
    text::lemma_until_unique(s, c, front.len());
    assert(s.take(front.len() as int) =~= front);
    assert(s.skip(front.len() as int + 1) =~= back);
}

/// Splitting at a delimiter that does not occur finds nothing.
proof fn lemma_sides_absent(s: Seq<char>, c: char)
    requires
        !s.contains(c),
    ensures
        text::sides(s, c) is None,
        text::head(s, c) == s,
{
    assert forall|i: int| 0 <= i < s.len() implies s[i] != c by {
        assert(s.contains(s[i]));
    }
    text::lemma_until_unique(s, c, s.len());
    assert(s.take(s.len() as int) =~= s);
}

/// The query and the fragment of a link are kept: they can be read off the path in the app.
pub proof fn law_query_and_fragment_kept(link: Link<Seq<char>>)
    requires
        link.wf(),
        relative_of(link) is Some,
    ensures
        query_in(relative_of(link)->0) == link.query,
        fragment_in(relative_of(link)->0) == link.fragment,
{
    reveal_strlit("?");
    reveal_strlit("#");
    law_relative_is_rooted(link);
    lemma_relative_path_undelimited(link);
    let path = relative_path_of(link);
    let rel = relative_of(link)->0;
    assert("?"@ =~= seq!['?']);
    assert("#"@ =~= seq!['#']);
    let queried = match link.query {
        Some(q) => path + "?"@ + q,
        None => path,
    };
    assert(!queried.contains('#')) by {
        if let Some(q) = link.query {
            if queried.contains('#') {
                let j = choose|j: int| 0 <= j < queried.len() && queried[j] == '#';
                if j < path.len() {
                    assert(path[j] == '#');
                } else if j > path.len() {
                    assert(q[j - path.len() - 1] == '#');
                }
            }
        }
    }
    match link.fragment {
        Some(f) => {
            lemma_sides_of_joined(queried, '#', f);
        },
        None => {
            lemma_sides_absent(queried, '#');
        },
    }
    match link.query {
        Some(q) => {
            lemma_sides_of_joined(path, '?', q);
        },
        None => {
            lemma_sides_absent(path, '?');
        },
    }
}

/// The segments of `a/b`, with or without a slash before it.
proof fn lemma_two_segments(a: Seq<char>, b: Seq<char>)
    requires
        a.len() > 0,
        b.len() > 0,
        !a.contains('/'),
        !b.contains('/'),
    ensures
        path_segments(b) == seq![b],
        path_segments("/"@ + b) == seq![b],
        path_segments(a + "/"@ + b) == seq![a, b],
        path_segments("/"@ + a + "/"@ + b) == seq![a, b],
{
    reveal_strlit("/");
    assert("/"@ =~= seq!['/']);
    lemma_sides_absent(b, '/');
    assert(path_segments(b) =~= seq![b]);
    assert((seq!['/'] + b).skip(1) =~= b);
    assert(text::until(seq!['/'] + b, '/') == 0);
    let ab = a + "/"@ + b;
    lemma_sides_of_joined(a, '/', b);
    assert(path_segments(ab) =~= seq![a] + path_segments(b));
    assert(path_segments(ab) =~= seq![a, b]);
    let sab = "/"@ + a + "/"@ + b;
    assert(sab.skip(1) =~= ab);
    assert(text::until(sab, '/') == 0);
}

/// The three forms of an app link lead to the same place: with the first segment as the authority,
/// with an empty authority, and opaque.
pub proof fn law_link_forms_agree(
    a: Seq<char>,
    b: Seq<char>,
    authority: Link<Seq<char>>,
    empty: Link<Seq<char>>,
    opaque: Link<Seq<char>>,
)
    requires
        a.len() > 0,
        b.len() > 0,
        !a.contains('/'),
        !b.contains('/'),
        authority.scheme == "skmusic"@,
        authority.host == Some(a),
        authority.path == "/"@ + b,
        empty.scheme == "skmusic"@,
        empty.host is None || empty.host == Some(Seq::<char>::empty()),
        empty.path == "/"@ + a + "/"@ + b,
        opaque.scheme == "skmusic"@,
        opaque.host is None,
        opaque.path == a + "/"@ + b,
        empty.query == authority.query,
        opaque.query == authority.query,
        empty.fragment == authority.fragment,
        opaque.fragment == authority.fragment,
    ensures
        relative_of(authority) == Some(with_query_fragment("/"@ + a + "/"@ + b, authority)),
        relative_of(empty) == relative_of(authority),
        relative_of(opaque) == relative_of(authority),
{
    reveal_strlit("/");
    lemma_two_segments(a, b);
    let two = seq![a, b];
    assert(link_segments(authority) =~= two);
    assert(link_segments(empty) =~= two);
    assert(link_segments(opaque) =~= two);
    assert(two.drop_last() =~= seq![a]);
    assert(seq![a].drop_last() =~= Seq::<Seq<char>>::empty());
    reveal_with_fuel(slashed, 3);
    assert(slashed(two) =~= "/"@ + a + "/"@ + b);
}

/// The part of a path in the app before its query and its fragment.
pub open spec fn path_in(rel: Seq<char>) -> Seq<char> {
    text::head(text::head(rel, '#'), '?')
}

/// A path in the app is the path of the link and its query and fragment, one behind the other.
proof fn lemma_path_in(link: Link<Seq<char>>)
    requires
        link.wf(),
        relative_of(link) is Some,
    ensures
        path_in(relative_of(link)->0) == relative_path_of(link),
{
    reveal_strlit("?");
    reveal_strlit("#");
    assert("?"@ =~= seq!['?']);
    assert("#"@ =~= seq!['#']);
    law_relative_is_rooted(link);
    lemma_relative_path_undelimited(link);
    let path = relative_path_of(link);
    let queried = match link.query {
        Some(q) => path + "?"@ + q,
        None => path,
    };
    assert(!queried.contains('#')) by {
        if let Some(q) = link.query {
            if queried.contains('#') {
                let j = choose|j: int| 0 <= j < queried.len() && queried[j] == '#';
                if j < path.len() {
                    assert(path[j] == '#');
                } else if j > path.len() {
                    assert(q[j - path.len() - 1] == '#');
                }
            }
        }
    }
    match link.fragment {
        Some(f) => {
            lemma_sides_of_joined(queried, '#', f);
        },
        None => {
            lemma_sides_absent(queried, '#');
        },
    }
    match link.query {
        Some(q) => {
            lemma_sides_of_joined(path, '?', q);
        },
        None => {
            lemma_sides_absent(path, '?');
        },
    }
}

/// A web link on the app's own host keeps its path, character by character, so links with different
/// paths, queries or fragments lead to different places.
pub proof fn law_web_link_keeps_its_path(link: Link<Seq<char>>, other: Link<Seq<char>>)
    requires
        link.wf(),
        other.wf(),
        link.scheme == "http"@ || link.scheme == "https"@,
        other.scheme == "http"@ || other.scheme == "https"@,
        link.host == Some(WORKER_HOST@),
        other.host == Some(WORKER_HOST@),
    ensures
        relative_of(link) is Some,
        path_in(relative_of(link)->0) == link.path,
        relative_of(link) == relative_of(other) ==> link.path == other.path && link.query
            == other.query && link.fragment == other.fragment,
{
    reveal_strlit("skmusic");
    reveal_strlit("http");
    reveal_strlit("https");
    assert("skmusic"@.len() == 7 && "http"@.len() == 4 && "https"@.len() == 5);
    lemma_path_in(link);
    lemma_path_in(other);
    law_query_and_fragment_kept(link);
    law_query_and_fragment_kept(other);
}

/// What a plain web address on the app's own host leads to is what stands behind the host.
pub proof fn law_web_address_behind_host(a: outside::Address)
    requires
        a.plain(),
        a.web(),
        a.authority == Some(WORKER_HOST@),
    ensures
        relative_of(a.link()) is Some,
        a.written() == a.scheme + "://"@ + WORKER_HOST@ + relative_of(a.link())->0,
        a.scheme == "https"@ ==> a.written() == WORKER_ORIGIN@ + relative_of(a.link())->0,
{
    reveal_strlit("skmusic");
    reveal_strlit("http");
    reveal_strlit("https");
    reveal_strlit("://");
    let rel = relative_of(a.link())->0;
    assert(a.written() =~= a.scheme + "://"@ + WORKER_HOST@ + rel);
    if a.scheme == "https"@ {
        reveal_strlit("https://skmusic.shalomkarr.workers.dev");
        reveal_strlit("skmusic.shalomkarr.workers.dev");
        assert(WORKER_ORIGIN@ =~= "https"@ + "://"@ + WORKER_HOST@);
        assert(a.written() =~= WORKER_ORIGIN@ + rel);
    }
}

proof fn lemma_segments_join(a: Seq<char>, b: Seq<char>)
    ensures
        path_segments(a + seq!['/'] + b) == path_segments(a) + path_segments(b),
    decreases a.len(),
{
    let s = a + seq!['/'] + b;
    let n = text::until(a, '/');
    text::lemma_until(a, '/');
    if a.len() == 0 {
        assert(s[0] == '/');
        text::lemma_until_unique(s, '/', 0);
        assert(s.skip(1) =~= b);
        assert(path_segments(a) + path_segments(b) =~= path_segments(b));
    } else {
        assert forall|i: int| 0 <= i < n implies s[i] != '/' by {
            assert(s[i] == a[i]);
        }
        text::lemma_until_unique(s, '/', n);
        assert(s.take(n as int) =~= a.take(n as int));
        if n < a.len() {
            let rest = a.skip(n as int + 1);
            assert(s.skip(n as int + 1) =~= rest + seq!['/'] + b);
            lemma_segments_join(rest, b);
        } else {
            assert(s.skip(n as int + 1) =~= b);
        }
        assert(path_segments(s) =~= path_segments(a) + path_segments(b));
    }
}

/// The segments of a path are what stands between its slashes: a text without a slash is one
/// segment, unless it is empty, and a slash keeps the segments on its two sides apart.
pub proof fn law_segments_between_slashes(a: Seq<char>, b: Seq<char>, s: Seq<char>)
    requires
        s.len() > 0,
        !s.contains('/'),
    ensures
        path_segments(a + "/"@ + b) == path_segments(a) + path_segments(b),
        path_segments(s) == seq![s],
        path_segments(Seq::empty()) == Seq::<Seq<char>>::empty(),
{
    reveal_strlit("/");
    assert("/"@ =~= seq!['/']);
    lemma_segments_join(a, b);
    lemma_sides_absent(s, '/');
    assert(path_segments(s) =~= seq![s]);
}

proof fn lemma_slashed_segments(segments: Seq<Seq<char>>)
    requires
        forall|i: int|
            0 <= i < segments.len() ==> (#[trigger] segments[i]).len() > 0 && !segments[i].contains(
                '/',
            ),
    ensures
        path_segments(slashed(segments)) == segments,
    decreases segments.len(),
{
    if segments.len() > 0 {
        let front = segments.drop_last();
        let last = segments.last();
        assert(last == segments[segments.len() - 1]);
        assert forall|i: int| 0 <= i < front.len() implies (#[trigger] front[i]).len() > 0
            && !front[i].contains('/') by {
            assert(front[i] == segments[i]);
        }
        lemma_slashed_segments(front);
        law_segments_between_slashes(slashed(front), last, last);
        assert(segments =~= front + seq![last]);
    } else {
        assert(path_segments(slashed(segments)) =~= segments);
    }
}

/// A link with the app's own scheme leads to the page that its parts name: the host, where there is
/// one, and the segments of its path, in their order and unchanged, each behind one slash.
pub proof fn law_app_link_keeps_its_parts(link: Link<Seq<char>>)
    requires
        link.wf(),
        link.scheme == "skmusic"@,
    ensures
        relative_of(link) is Some,
        link.host is None || link.host == Some(Seq::<char>::empty()) ==> path_segments(
            path_in(relative_of(link)->0),
        ) == path_segments(link.path),
        link.host matches Some(h) ==> (h.len() > 0 ==> path_segments(path_in(relative_of(link)->0))
            == seq![h] + path_segments(link.path)),
        path_segments(path_in(relative_of(link)->0)).len() == 0 ==> path_in(relative_of(link)->0)
            == "/"@,
        path_segments(path_in(relative_of(link)->0)).len() > 0 ==> path_in(relative_of(link)->0)
            == slashed(path_segments(path_in(relative_of(link)->0))),
{
    reveal_strlit("/");
    lemma_path_in(link);
    lemma_path_segments(link.path);
    let inner = path_segments(link.path);
    let segments = link_segments(link);
    let k = segments.len() - inner.len();
    assert forall|i: int| 0 <= i < segments.len() implies (#[trigger] segments[i]).len() > 0
        && !segments[i].contains('/') by {
        if i >= k {
            assert(segments[i] == inner[i - k]);
        } else {
            assert(link.host matches Some(h) && segments[i] == h);
        }
    }
    lemma_slashed_segments(segments);
    match link.host {
        Some(h) => {
            if h.len() > 0 {
                assert(segments =~= seq![h] + inner);
            } else {
                assert(segments =~= inner);
            }
        },
        None => {
            assert(segments =~= inner);
        },
    }
    if segments.len() == 0 {
        let none = Seq::<char>::empty();
        assert("/"@ =~= none + seq!['/'] + none);
        lemma_segments_join(none, none);
        assert(path_segments("/"@) =~= segments);
    }
}

/// A path that is written with single slashes is kept as it is, behind the host.
pub proof fn law_app_link_path(link: Link<Seq<char>>, host: Seq<char>, segments: Seq<Seq<char>>)
    requires
        link.scheme == "skmusic"@,
        link.host == Some(host),
        host.len() > 0,
        link.path == slashed(segments),
        forall|i: int|
            0 <= i < segments.len() ==> (#[trigger] segments[i]).len() > 0 && !segments[i].contains(
                '/',
            ),
        link.query is None,
        link.fragment is None,
    ensures
        relative_of(link) == Some("/"@ + host + link.path),
{
    lemma_slashed_segments(segments);
    lemma_slashed_cons(host, segments);
    assert(link_segments(link) =~= seq![host] + segments);
}

/// Joined segments stand in their order, each behind a slash and unchanged.
pub proof fn law_joined_segments(segments: Seq<Seq<char>>, last: Seq<char>)
    ensures
        slashed(Seq::empty()) == Seq::<char>::empty(),
        slashed(segments.push(last)) == slashed(segments) + "/"@ + last,
{
    assert(segments.push(last).drop_last() =~= segments);
}

/// An address is handed on unchanged or not at all: to the window exactly if it is secure and on the
/// app's own host, to the browser exactly if it is a web address.
pub proof fn law_addresses_handed_on_unchanged(link: Link<Seq<char>>)
    ensures
        accepted(None) is None,
        accepted(Some(link)) == Some(link) <==> link.scheme == "https"@ && link.host == Some(
            "skmusic.shalomkarr.workers.dev"@,
        ),
        accepted(Some(link)) is Some ==> accepted(Some(link)) == Some(link),
        browsable(None) is None,
        browsable(Some(link)) == Some(link) <==> link.scheme == "http"@ || link.scheme == "https"@,
        browsable(Some(link)) is Some ==> browsable(Some(link)) == Some(link),
{
}

/// Models keep what they model: every part of a link.
pub proof fn law_models(link: Link<String>)
    ensures
        link@.scheme == link.scheme@ && link@.path == link.path@ && link@.text == link.text@,
        link@.host is Some <==> link.host is Some,
        link.host matches Some(h) ==> link@.host == Some(h@),
        link@.query is Some <==> link.query is Some,
        link.query matches Some(q) ==> link@.query == Some(q@),
        link@.fragment is Some <==> link.fragment is Some,
        link.fragment matches Some(f) ==> link@.fragment == Some(f@),
        opt_link_view(Some(link)) == Some(link@),
        opt_link_view(None) is None,
{
}

/// The app follows its own links, and web links on its own host unless their path begins with two
/// slashes; and it follows them to what resolving their path on its own origin gives, if that is
/// there.
pub proof fn law_followed_links(a: outside::Address, link: Link<Seq<char>>)
    ensures
        a.scheme == "skmusic"@ ==> followed(a),
        followed(a) && a.scheme != "skmusic"@ ==> (a.scheme == "http"@ || a.scheme == "https"@)
            && a.authority == Some(WORKER_HOST@),
        (a.scheme == "http"@ || a.scheme == "https"@) && a.authority == Some(WORKER_HOST@) && (
        a.path.len() > 1 ==> a.path[1] != '/') ==> followed(a),
        relative_of(link) is None ==> target_of(link) is None,
        relative_of(link) matches Some(rel) ==> target_of(link) == accepted(
            outside::joined_url("https://skmusic.shalomkarr.workers.dev"@, rel),
        ),
{
}

} // verus!
