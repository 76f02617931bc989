//! Byte ranges, and the answers of the scheme that serves a saved file to the player.
use vstd::prelude::*;

use crate::download;
use crate::download::index::{Entry, Index};
use crate::outside;
use crate::text;

verus! {

// ---------------------------------------------------------------------------
// Byte ranges
// ---------------------------------------------------------------------------

/// The first and last byte that a `Range` header asks of a resource of `len` bytes, or `None`
/// where it asks for nothing that can be given.
///
/// Three forms count: `bytes=a-b`, `bytes=a-` and `bytes=-n` (the last `n` bytes). The last of them
/// with `n` zero gives the empty range `(len, len - 1)`.
pub open spec fn range_of(header: Seq<char>, len: u64) -> Option<(u64, u64)> {
    match text::after_prefix(header, "bytes="@) {
        None => None,
        Some(spec) => match text::sides(spec, '-') {
            None => None,
            Some((a, b)) => if len == 0 {
                None
            } else if a.len() == 0 {
                suffix_range(text::u64_of(text::trimmed(b)), len)
            } else {
                bounded_range(text::u64_of(text::trimmed(a)), text::trimmed(b), len)
            },
        },
    }
}

/// The last `n` bytes of `len`, or all of them where there are fewer.
pub open spec fn suffix_range(n: Option<u64>, len: u64) -> Option<(u64, u64)> {
    match n {
        None => None,
        Some(n) => Some(
            (
                (if n <= len {
                    len - n
                } else {
                    0
                }) as u64,
                (len - 1) as u64,
            ),
        ),
    }
}

/// The bytes from `start` to the end that `b` writes, which is cut off at the last byte and is the
/// last byte where `b` is empty.
pub open spec fn bounded_range(start: Option<u64>, b: Seq<char>, len: u64) -> Option<(u64, u64)> {
    let last = (len - 1) as u64;
    let end: Option<u64> = if b.len() == 0 {
        Some(last)
    } else {
        match text::u64_of(b) {
            None => None,
            Some(e) => Some(
                if e <= last {
                    e
                } else {
                    last
                },
            ),
        }
    };
    match (start, end) {
        (Some(s), Some(e)) => if s <= e {
            Some((s, e))
        } else {
            None
        },
        _ => None,
    }
}

/// The first and last byte that a `Range` header asks of a resource of `len` bytes.
pub fn parse_range(spec: &str, len: u64) -> (r: Option<(u64, u64)>)
    ensures
        r == range_of(spec@, len),
{
    let rest = match text::strip_prefix(spec, "bytes=") {
        Some(rest) => rest,
        None => return None,
    };
    let (a, b) = match text::split_once(rest, '-') {
        Some(p) => p,
        None => return None,
    };
    if len == 0 {
        return None;
    }
    let last: u64 = len - 1;
    if a.is_empty() {
        return match text::parse_u64(text::trim(b)) {
            Some(n) => Some(
                (
                    if n <= len {
                        len - n
                    } else {
                        0
                    },
                    last,
                ),
            ),
            None => None,
        };
    }
    let start: u64 = match text::parse_u64(text::trim(a)) {
        Some(s) => s,
        None => return None,
    };
    if start > last {
        return None;
    }
    let b = text::trim(b);
    let end: u64 = if b.is_empty() {
        last
    } else {
        match text::parse_u64(b) {
            Some(e) => if e <= last {
                e
            } else {
                last
            },
            None => return None,
        }
    };
    if end < start {
        return None;
    }
    Some((start, end))
}

/// The `Range` header that asks for the bytes `start` to `end`.
pub open spec fn range_request(start: nat, end: nat) -> Seq<char> {
    "bytes="@ + text::decimal(start) + "-"@ + text::decimal(end)
}

/// The `Range` header that asks for the bytes `start` to `end`.
pub fn range_header(start: u64, end: u64) -> (r: String)
    ensures
        r@ == range_request(start as nat, end as nat),
{
    let mut s: String = "bytes=".to_string();
    s.append(text::decimal_string(start as u128).as_str());
    s.append("-");
    s.append(text::decimal_string(end as u128).as_str());
    s
}

/// The `Content-Range` header of the bytes `start` to `end` out of `len`.
pub open spec fn content_range(start: nat, end: nat, len: nat) -> Seq<char> {
    "bytes "@ + text::decimal(start) + "-"@ + text::decimal(end) + "/"@ + text::decimal(len)
}

/// The size of the whole resource that a `Content-Range` header states behind its last slash.
pub open spec fn total_of(header: Seq<char>) -> Option<u64> {
    text::u64_of(text::trimmed(text::tail(header, '/')))
}

/// The size of the whole resource that a `Content-Range` header states.
pub fn content_range_total(header: &str) -> (r: Option<u64>)
    ensures
        r == total_of(header@),
{
    text::parse_u64(text::trim(text::after_last(header, '/')))
}

// ---------------------------------------------------------------------------
// Answers
// ---------------------------------------------------------------------------

/// The id that a request path names: what follows the leading slashes, up to the first dot.
pub open spec fn requested_id(path: Seq<char>) -> Seq<char> {
    text::head(text::skip_leading(path, '/'), '.')
}

/// Why a request is refused.
#[derive(PartialEq, Eq, Structural, Clone, Copy, Debug)]
pub enum Refusal {
    /// The path names no video id.
    BadRequest,
    /// The song is not filed.
    NotFiled,
    /// The song's file cannot be opened.
    NotOpened,
    /// The bytes that are asked for cannot be read.
    NotRead,
    /// The song's content type cannot be sent as a header.
    NotSendable,
}

/// The status of a refusal.
pub open spec fn status_of(why: Refusal) -> u16 {
    match why {
        Refusal::BadRequest => 400,
        Refusal::NotFiled | Refusal::NotOpened => 404,
        Refusal::NotRead | Refusal::NotSendable => 500,
    }
}

/// The status of a refusal.
pub fn refused_status(why: Refusal) -> (r: u16)
    ensures
        r == status_of(why),
{
    match why {
        Refusal::BadRequest => 400,
        Refusal::NotFiled => 404,
        Refusal::NotOpened => 404,
        Refusal::NotRead => 500,
        Refusal::NotSendable => 500,
    }
}

/// Where a request leads.
pub enum Lookup<S> {
    Refused(Refusal),
    /// The song is in the file `name` and has the content type `mime`.
    File { name: S, mime: S },
}

impl View for Lookup<String> {
    type V = Lookup<Seq<char>>;

    open spec fn view(&self) -> Lookup<Seq<char>> {
        match self {
            Lookup::Refused(why) => Lookup::Refused(*why),
            Lookup::File { name, mime } => Lookup::File { name: name@, mime: mime@ },
        }
    }
}

/// Where a request for `path` leads, given the filed songs.
pub open spec fn lookup_of(path: Seq<char>, songs: Map<Seq<char>, Entry<Seq<char>>>) -> Lookup<
    Seq<char>,
> {
    let id = requested_id(path);
    if !download::is_valid_id(id) {
        Lookup::Refused(Refusal::BadRequest)
    } else if !songs.contains_key(id) {
        Lookup::Refused(Refusal::NotFiled)
    } else {
        Lookup::File {
            name: download::file_name_of(songs[id].video_id, songs[id].ext),
            mime: songs[id].mime,
        }
    }
}

/// Where a request for `path` leads.
pub fn locate(path: &str, index: &Index) -> (r: Lookup<String>)
    requires
        index.wf(),
    ensures
        r@ == lookup_of(path@, index@),
{
    let id = text::before(text::trim_leading(path, '/'), '.');
    if !download::valid_id(id) {
        return Lookup::Refused(Refusal::BadRequest);
    }
    match index.get(id) {
        None => Lookup::Refused(Refusal::NotFiled),
        Some(e) => Lookup::File {
            name: download::file_name(e.video_id.as_str(), e.ext.as_str()),
            mime: e.mime.clone(),
        },
    }
}

/// How a file is answered: the status, the bytes that are read and the headers.
pub struct Plan {
    pub status: u16,
    pub start: u64,
    pub end: u64,
    pub count: u64,
    pub headers: Vec<(String, String)>,
}

/// The status, the first byte and the last byte of the answer to a request for a file of `len`
/// bytes: the range that is asked for, or the whole file.
pub open spec fn answer_of(range: Option<Seq<char>>, len: u64) -> (u16, u64, u64) {
    let asked = match range {
        Some(h) => range_of(h, len),
        None => None,
    };
    match asked {
        Some((s, e)) => (206, s, e),
        None => (
            200,
            0,
            if len > 0 {
                (len - 1) as u64
            } else {
                0
            },
        ),
    }
}

/// The number of bytes of an answer. It is at least one, also where the range is empty.
pub open spec fn answer_count(start: u64, end: u64) -> int {
    if start <= end {
        end - start + 1
    } else {
        1
    }
}

/// The headers of an answer.
pub open spec fn answer_headers(
    mime: Seq<char>,
    status: u16,
    start: u64,
    end: u64,
    len: u64,
) -> Seq<(Seq<char>, Seq<char>)> {
    let fixed = seq![
        ("content-type"@, mime),
        ("accept-ranges"@, "bytes"@),
        ("content-length"@, text::decimal(answer_count(start, end) as nat)),
        ("cache-control"@, "no-store"@),
        ("access-control-allow-origin"@, "*"@),
    ];
    if status == 206 {
        fixed.push(("content-range"@, content_range(start as nat, end as nat, len as nat)))
    } else {
        fixed
    }
}

/// The views of a list of headers.
pub open spec fn headers_view(headers: Seq<(String, String)>) -> Seq<(Seq<char>, Seq<char>)> {
    headers.map_values(|h: (String, String)| (h.0@, h.1@))
}

fn push_header(headers: &mut Vec<(String, String)>, name: &str, value: String)
    ensures
        headers_view(final(headers)@) == headers_view(old(headers)@).push((name@, value@)),
{
    let ghost before = headers@;
    let ghost shown = value@;
    headers.push((name.to_string(), value));
    assert(headers_view(headers@) =~= headers_view(before).push((name@, shown)));
}

/// How a file of `len` bytes is answered.
pub fn plan(mime: &str, len: u64, range: Option<&str>) -> (r: Plan)
    ensures
        (r.status, r.start, r.end) == answer_of(text::opt_view(range), len),
        r.count == answer_count(r.start, r.end),
        headers_view(r.headers@) == answer_headers(mime@, r.status, r.start, r.end, len),
{
    let asked: Option<(u64, u64)> = match range {
        Some(h) => parse_range(h, len),
        None => None,
    };
    let (start, end, status): (u64, u64, u16) = match asked {
        Some((s, e)) => (s, e, 206),
        None => (
            0,
            if len > 0 {
                len - 1
            } else {
                0
            },
            200,
        ),
    };
    proof {
        if let Some(h) = range {
            law_range_within(h@, len);
        }
    }
    let count: u64 = if start <= end {
        end - start + 1
    } else {
        1
    };
    let mut headers: Vec<(String, String)> = Vec::new();
    assert(headers_view(headers@) =~= Seq::empty());
    push_header(&mut headers, "content-type", mime.to_string());
    push_header(&mut headers, "accept-ranges", "bytes".to_string());
    push_header(&mut headers, "content-length", text::decimal_string(count as u128));
    push_header(&mut headers, "cache-control", "no-store".to_string());
    push_header(&mut headers, "access-control-allow-origin", "*".to_string());
    if status == 206 {
        let mut value: String = "bytes ".to_string();
        value.append(text::decimal_string(start as u128).as_str());
        value.append("-");
        value.append(text::decimal_string(end as u128).as_str());
        value.append("/");
        value.append(text::decimal_string(len as u128).as_str());
        push_header(&mut headers, "content-range", value);
    }
    proof {
        let shown = headers_view(headers@);
        assert(shown =~= answer_headers(mime@, status, start, end, len));
    }
    Plan { status, start, end, count, headers }
}

/// An answer to a request.
pub struct Reply {
    pub status: u16,
    pub headers: Vec<(String, String)>,
    pub body: Vec<u8>,
}

/// The status, the headers and the body of an answer.
pub type ReplyView = (u16, Seq<(Seq<char>, Seq<char>)>, Seq<u8>);

impl View for Reply {
    type V = ReplyView;

    open spec fn view(&self) -> ReplyView {
        (self.status, headers_view(self.headers@), self.body@)
    }
}

/// A refusal: its status, without headers and without a body.
pub open spec fn refusal_reply(why: Refusal) -> ReplyView {
    (status_of(why), Seq::empty(), Seq::empty())
}

/// A refusal: its status, without headers and without a body.
pub fn refuse(why: Refusal) -> (r: Reply)
    ensures
        r@ == refusal_reply(why),
{
    let r: Reply = Reply {
        status: refused_status(why),
        headers: Vec::new(),
        body: Vec::new(),
    };
    assert(r@.1 =~= Seq::empty());
    assert(r@.2 =~= Seq::empty());
    r
}

/// How a song is answered once its file was to be opened: `opened` is the file's length, or `None`
/// where it could not be opened.
pub fn plan_opened(mime: &str, opened: Option<u64>, range: Option<&str>) -> (r: Result<
    Plan,
    Refusal,
>)
    ensures
        match (opened, r) {
            (Some(len), Ok(p)) => {
                &&& (p.status, p.start, p.end) == answer_of(text::opt_view(range), len)
                &&& p.count == answer_count(p.start, p.end)
                &&& headers_view(p.headers@) == answer_headers(
                    mime@,
                    p.status,
                    p.start,
                    p.end,
                    len,
                )
            },
            (None, Err(why)) => why == Refusal::NotOpened,
            _ => false,
        },
{
    match opened {
        Some(len) => Ok(plan(mime, len, range)),
        None => Err(Refusal::NotOpened),
    }
}

/// Whether every header of an answer can be sent.
pub open spec fn sendable(headers: Seq<(Seq<char>, Seq<char>)>) -> bool {
    forall|i: int| 0 <= i < headers.len() ==> outside::legal_header_value((#[trigger] headers[i]).1)
}

/// Whether every header of an answer can be sent.
fn can_send(headers: &Vec<(String, String)>) -> (r: bool)
    ensures
        r == sendable(headers_view(headers@)),
{
    let ghost shown = headers_view(headers@);
    let mut i: usize = 0;
    while i < headers.len()
        invariant
            i <= headers@.len(),
            shown == headers_view(headers@),
            forall|j: int| 0 <= j < i ==> outside::legal_header_value((#[trigger] shown[j]).1),
        decreases headers@.len() - i,
    {
        assert(shown[i as int].1 == headers@[i as int].1@);
        if !outside::is_header_value(headers[i].1.as_str()) {
            return false;
        }
        i = i + 1;
    }
    true
}

/// What is sent of an answer, given whether its headers can be.
pub fn sent(reply: Reply, sendable: bool) -> (r: Reply)
    ensures
        r@ == (if sendable {
            reply@
        } else {
            refusal_reply(Refusal::NotSendable)
        }),
{
    if sendable {
        reply
    } else {
        refuse(Refusal::NotSendable)
    }
}

/// The answer once the planned bytes were to be read: `bytes` is `None` where they could not be
/// read.
pub fn answer(plan: Plan, bytes: Option<Vec<u8>>) -> (r: Reply)
    ensures
        r@ == match bytes {
            Some(b) => if sendable(headers_view(plan.headers@)) {
                (plan.status, headers_view(plan.headers@), b@)
            } else {
                refusal_reply(Refusal::NotSendable)
            },
            None => refusal_reply(Refusal::NotRead),
        },
{
    match bytes {
        Some(body) => {
            let legal: bool = can_send(&plan.headers);
            sent(Reply { status: plan.status, headers: plan.headers, body }, legal)
        },
        None => refuse(Refusal::NotRead),
    }
}

// ---------------------------------------------------------------------------
// Laws
// ---------------------------------------------------------------------------

/// A range that is given lies within the resource, or is the empty one at its end.
pub proof fn law_range_within(header: Seq<char>, len: u64)
    ensures
        match range_of(header, len) {
            Some((s, e)) => {
                &&& len > 0
                &&& e < len
                &&& s <= e || (s == len && e == len - 1)
            },
            None => true,
        },
{
}

/// Every answer but the two that hold no byte of the file (the file is empty, or the range is)
/// reads bytes of the file only, and exactly as many as lie between its bounds.
pub proof fn law_answer_within(range: Option<Seq<char>>, len: u64)
    requires
        len > 0,
        answer_of(range, len).1 < len,
    ensures
        ({
            let (_, start, end) = answer_of(range, len);
            &&& start <= end < len
            &&& answer_count(start, end) == end - start + 1
            &&& start + answer_count(start, end) <= len
        }),
{
    if let Some(h) = range {
        law_range_within(h, len);
    }
}

/// The decimal notation of a number has no white space at its ends.
proof fn lemma_decimal_trimmed(n: nat)
    ensures
        text::trimmed(text::decimal(n)) == text::decimal(n),
{
    text::lemma_decimal(n);
    let d = text::decimal(n);
    assert(text::is_digit(d[0]));
    assert(text::is_digit(d[d.len() - 1]));
}

/// What the header `bytes=a-b` asks is read back as `a` to `b`, cut off at the last byte; nothing
/// is given where `a` lies behind `b` or behind the last byte.
pub proof fn law_range_request_read_back(a: u64, b: u64, len: u64)
    ensures
        range_of(range_request(a as nat, b as nat), len) == if a < len && a <= b {
            Some(
                (
                    a,
                    if b < len {
                        b
                    } else {
                        (len - 1) as u64
                    },
                ),
            )
        } else {
            None
        },
{
    reveal_strlit("bytes=");
    reveal_strlit("-");
    let da = text::decimal(a as nat);
    let db = text::decimal(b as nat);
    let h = range_request(a as nat, b as nat);
    text::lemma_decimal(a as nat);
    text::lemma_decimal(b as nat);
    text::law_decimal_round_trip(a);
    text::law_decimal_round_trip(b);
    lemma_decimal_trimmed(a as nat);
    lemma_decimal_trimmed(b as nat);
    let rest = da + "-"@ + db;
    assert(h.subrange(0, 6) =~= "bytes="@);
    assert(h.skip(6) =~= rest);
    assert forall|i: int| 0 <= i < da.len() implies rest[i] != '-' by {
        assert(text::is_digit(da[i]));
    }
    text::lemma_until_unique(rest, '-', da.len());
    assert(rest.take(da.len() as int) =~= da);
    assert(rest.skip(da.len() as int + 1) =~= db);
}

/// The header `bytes=-n` asks for the last `n` bytes.
pub proof fn law_suffix_request_read_back(n: u64, len: u64)
    requires
        len > 0,
    ensures
        range_of("bytes="@ + "-"@ + text::decimal(n as nat), len) == Some(
            (
                (if n <= len {
                    len - n
                } else {
                    0
                }) as u64,
                (len - 1) as u64,
            ),
        ),
{
    reveal_strlit("bytes=");
    reveal_strlit("-");
    let d = text::decimal(n as nat);
    let h = "bytes="@ + "-"@ + d;
    text::law_decimal_round_trip(n);
    lemma_decimal_trimmed(n as nat);
    let rest = "-"@ + d;
    assert(h.subrange(0, 6) =~= "bytes="@);
    assert(h.skip(6) =~= rest);
    assert(text::until(rest, '-') == 0);
    assert(rest.take(0) =~= Seq::empty());
    assert(rest.skip(1) =~= d);
}

/// The `Content-Range` header of an answer states the size of the file so that it can be read
/// back.
pub proof fn law_content_range_read_back(start: nat, end: nat, len: u64)
    ensures
        total_of(content_range(start, end, len as nat)) == Some(len),
{
    reveal_strlit("bytes ");
    reveal_strlit("-");
    reveal_strlit("/");
    let ds = text::decimal(start);
    let de = text::decimal(end);
    let dl = text::decimal(len as nat);
    text::lemma_decimal(start);
    text::lemma_decimal(end);
    text::lemma_decimal(len as nat);
    text::law_decimal_round_trip(len);
    lemma_decimal_trimmed(len as nat);
    let front = "bytes "@ + ds + "-"@ + de;
    let h = content_range(start, end, len as nat);
    assert forall|i: int| 0 <= i < front.len() implies h[i] != '/' by {
        if i < 6 {
            assert(h[i] == "bytes "@[i]);
        } else if i < 6 + ds.len() {
            assert(h[i] == ds[i - 6]);
            assert(text::is_digit(ds[i - 6]));
        } else if i == 6 + ds.len() {
            assert(h[i] == "-"@[0]);
        } else {
            assert(h[i] == de[i - 7 - ds.len()]);
            assert(text::is_digit(de[i - 7 - ds.len()]));
        }
    }
    assert(h[front.len() as int] == "/"@[0]);
    text::lemma_until_unique(h, '/', front.len());
    assert(h.skip(front.len() as int + 1) =~= dl);
    assert forall|i: int| 0 <= i < dl.len() implies dl[i] != '/' by {
        assert(text::is_digit(dl[i]));
    }
    text::lemma_until_unique(dl, '/', dl.len());
    reveal_with_fuel(text::tail, 2);
}

/// The saved file of a valid id is found under that id, with or without an extension behind it.
pub proof fn law_source_found(id: Seq<char>, ext: Seq<char>)
    requires
        download::is_valid_id(id),
    ensures
        requested_id("/"@ + id) == id,
        requested_id("/"@ + download::file_name_of(id, ext)) == id,
{
    reveal_strlit("/");
    reveal_strlit(".");
    assert(download::id_char(id[0]));
    let p = "/"@ + id;
    assert(p.drop_first() =~= id);
    reveal_with_fuel(text::skip_leading, 2);
    assert(text::skip_leading(p, '/') == id);
    assert forall|i: int| 0 <= i < id.len() implies id[i] != '.' by {
        assert(download::id_char(id[i]));
    }
    text::lemma_until_unique(id, '.', id.len());
    assert(id.take(id.len() as int) =~= id);
    let f = download::file_name_of(id, ext);
    let q = "/"@ + f;
    assert(q.drop_first() =~= f);
    assert(f[0] == id[0]);
    assert(text::skip_leading(q, '/') == f);
    assert(f[11] == "."@[0]);
    assert forall|i: int| 0 <= i < 11 implies f[i] != '.' by {
        assert(f[i] == id[i]);
    }
    text::lemma_until_unique(f, '.', 11);
    assert(f.take(11) =~= id);
}

/// A song that is filed is then served from its file, under its own content type, and one that is
/// taken out is not found any more.
pub proof fn law_filed_then_served(
    songs: Map<Seq<char>, Entry<Seq<char>>>,
    entry: Entry<Seq<char>>,
)
    requires
        download::is_valid_id(entry.video_id),
    ensures
        lookup_of("/"@ + entry.video_id, songs.insert(entry.video_id, entry)) == (Lookup::File {
            name: download::file_name_of(entry.video_id, entry.ext),
            mime: entry.mime,
        }),
        lookup_of("/"@ + entry.video_id, songs.remove(entry.video_id)) == Lookup::<
            Seq<char>,
        >::Refused(Refusal::NotFiled),
{
    law_source_found(entry.video_id, entry.ext);
}

/// The answer to a request for `path`, given the filed songs, the length of the song's file if it
/// could be opened, the range that is asked for, and the planned bytes if they could be read.
pub open spec fn reply_of(
    path: Seq<char>,
    songs: Map<Seq<char>, Entry<Seq<char>>>,
    opened: Option<u64>,
    range: Option<Seq<char>>,
    bytes: Option<Seq<u8>>,
) -> ReplyView {
    match lookup_of(path, songs) {
        Lookup::Refused(why) => refusal_reply(why),
        Lookup::File { mime, .. } => match (opened, bytes) {
            (None, _) => refusal_reply(Refusal::NotOpened),
            (Some(_), None) => refusal_reply(Refusal::NotRead),
            (Some(len), Some(b)) => {
                let (status, start, end) = answer_of(range, len);
                let headers = answer_headers(mime, status, start, end, len);
                if sendable(headers) {
                    (status, headers, b)
                } else {
                    refusal_reply(Refusal::NotSendable)
                }
            },
        },
    }
}

proof fn lemma_legal_add(a: Seq<char>, b: Seq<char>)
    requires
        outside::legal_header_value(a),
        outside::legal_header_value(b),
    ensures
        outside::legal_header_value(a + b),
{
    let s = a + b;
    assert forall|i: int| 0 <= i < s.len() implies #[trigger] s[i] == '\t' || (s[i] as u32 >= 32
        && s[i] as u32 != 127) by {
        if i < a.len() {
            assert(s[i] == a[i]);
        } else {
            assert(s[i] == b[i - a.len()]);
        }
    }
}

proof fn lemma_legal_decimal(n: nat)
    ensures
        outside::legal_header_value(text::decimal(n)),
{
    text::lemma_decimal(n);
    let d = text::decimal(n);
    assert forall|i: int| 0 <= i < d.len() implies #[trigger] d[i] == '\t' || (d[i] as u32 >= 32
        && d[i] as u32 != 127) by {
        assert(text::is_digit(d[i]));
    }
}

/// The headers of an answer can be sent exactly if its content type can.
proof fn lemma_sendable(mime: Seq<char>, status: u16, start: u64, end: u64, len: u64)
    ensures
        sendable(answer_headers(mime, status, start, end, len)) <==> outside::legal_header_value(
            mime,
        ),
{
    reveal_strlit("bytes");
    reveal_strlit("bytes ");
    reveal_strlit("-");
    reveal_strlit("/");
    reveal_strlit("no-store");
    reveal_strlit("*");
    let headers = answer_headers(mime, status, start, end, len);
    lemma_legal_decimal(answer_count(start, end) as nat);
    lemma_legal_decimal(start as nat);
    lemma_legal_decimal(end as nat);
    lemma_legal_decimal(len as nat);
    let a = "bytes "@ + text::decimal(start as nat);
    let b = a + "-"@ + text::decimal(end as nat);
    lemma_legal_add("bytes "@, text::decimal(start as nat));
    lemma_legal_add(a, "-"@);
    lemma_legal_add(a + "-"@, text::decimal(end as nat));
    lemma_legal_add(b, "/"@);
    lemma_legal_add(b + "/"@, text::decimal(len as nat));
    assert(headers[0].1 == mime);
    if outside::legal_header_value(mime) {
        assert forall|i: int| 0 <= i < headers.len() implies outside::legal_header_value(
            (#[trigger] headers[i]).1,
        ) by {
            if i == 1 {
                assert(headers[i].1 == "bytes"@);
            } else if i == 3 {
                assert(headers[i].1 == "no-store"@);
            } else if i == 4 {
                assert(headers[i].1 == "*"@);
            }
        }
    }
}

/// Each refusal has its reason: 400 exactly where the path names no video id, 404 exactly where it
/// names one that is not filed or whose file cannot be opened, and 500 exactly where the file is
/// there and its bytes cannot be read or its content type cannot be sent. No refusal has headers or
/// a body.
pub proof fn law_refusals(
    path: Seq<char>,
    songs: Map<Seq<char>, Entry<Seq<char>>>,
    opened: Option<u64>,
    range: Option<Seq<char>>,
    bytes: Option<Seq<u8>>,
)
    ensures
        ({
            let id = requested_id(path);
            let valid = download::is_valid_id(id);
            let (status, headers, body) = reply_of(path, songs, opened, range, bytes);
            &&& status == 400 <==> !valid
            &&& status == 404 <==> valid && (!songs.contains_key(id) || opened is None)
            &&& status == 500 <==> valid && songs.contains_key(id) && opened is Some && (bytes is None
                || !outside::legal_header_value(songs[id].mime))
            &&& status == 200 || status == 206 <==> valid && songs.contains_key(id) && opened is Some
                && bytes is Some && outside::legal_header_value(songs[id].mime)
            &&& status == 400 || status == 404 || status == 500 ==> headers.len() == 0 && body.len()
                == 0
        }),
{
    if let Some(len) = opened {
        let (status, start, end) = answer_of(range, len);
        lemma_sendable(songs[requested_id(path)].mime, status, start, end, len);
    }
}

/// An empty file is never played: the answer asks for a byte that it does not have, so a read that
/// gives only bytes of the file fails, and the request is refused with 500.
pub proof fn law_empty_file_refused(
    path: Seq<char>,
    songs: Map<Seq<char>, Entry<Seq<char>>>,
    range: Option<Seq<char>>,
    bytes: Option<Seq<u8>>,
)
    requires
        lookup_of(path, songs) is File,
        bytes is Some ==> ({
            let (_, start, end) = answer_of(range, 0);
            start + answer_count(start, end) <= 0
        }),
    ensures
        reply_of(path, songs, Some(0), range, bytes) == refusal_reply(Refusal::NotRead),
{
}

/// What a `Range` header says is what is given. Behind `bytes=`, white space around the numbers does
/// not count. With a first number the range starts there, and ends at the second number, or at the
/// last byte where that comes first or where there is no second number; nothing is given where the
/// start lies behind the end or behind the last byte. Without a first number it is the last bytes,
/// as many as the second number says or as there are.
pub proof fn law_range_as_asked(a: Seq<char>, b: Seq<char>, len: u64)
    requires
        !a.contains('-'),
    ensures
        ({
            let r = range_of("bytes="@ + a + "-"@ + b, len);
            let first = text::u64_of(text::trimmed(a));
            let second = text::u64_of(text::trimmed(b));
            &&& len == 0 ==> r is None
            &&& len > 0 && a.len() == 0 ==> (r is Some <==> second is Some) && (r matches Some(x)
                ==> x.1 == len - 1 && (x.0 == 0 && second->0 >= len || x.0 + second->0 == len))
            &&& len > 0 && a.len() > 0 && text::trimmed(b).len() == 0 ==> (r is Some <==> first is Some
                && first->0 < len) && (r matches Some(x) ==> x.0 == first->0 && x.1 == len - 1)
            &&& len > 0 && a.len() > 0 && text::trimmed(b).len() > 0 ==> (r is Some <==> first is Some
                && second is Some && first->0 < len && first->0 <= second->0) && (r matches Some(x)
                ==> x.0 == first->0 && x.1 <= second->0 && x.1 <= len - 1 && (x.1 == second->0 || x.1
                == len - 1))
        }),
{
    reveal_strlit("bytes=");
    reveal_strlit("-");
    let h = "bytes="@ + a + "-"@ + b;
    let rest = a + "-"@ + b;
    assert("-"@ =~= seq!['-']);
    assert(h =~= "bytes="@ + rest);
    text::law_prefix_taken_off(h, "bytes="@, rest);
    text::law_split_at_first(a, '-', b);
}

/// Nothing is given for a header that does not begin with `bytes=` or has no hyphen behind that.
pub proof fn law_no_other_ranges(h: Seq<char>, len: u64)
    ensures
        range_of(h, len) is Some ==> exists|a: Seq<char>, b: Seq<char>|
            h == #[trigger] ("bytes="@ + a + "-"@ + b) && !a.contains('-'),
{
    reveal_strlit("-");
    if range_of(h, len) is Some {
        let rest = text::after_prefix(h, "bytes="@)->0;
        text::law_prefix_taken_off(h, "bytes="@, rest);
        let (a, b) = text::sides(rest, '-')->0;
        text::lemma_until(rest, '-');
        assert("-"@ =~= seq!['-']);
        assert(rest =~= a + "-"@ + b);
        assert(h =~= "bytes="@ + a + "-"@ + b);
        if a.contains('-') {
            let j = choose|j: int| 0 <= j < a.len() && a[j] == '-';
            assert(rest[j] == '-');
        }
        assert(h == "bytes="@ + a + "-"@ + b && !a.contains('-'));
    }
}

/// The header `bytes=a-`, which a player sends when the user seeks, is read back as all bytes from
/// `a` on; nothing is given where `a` lies behind the last byte.
pub proof fn law_open_request_read_back(a: u64, len: u64)
    ensures
        range_of("bytes="@ + text::decimal(a as nat) + "-"@, len) == (if a < len {
            Some((a, (len - 1) as u64))
        } else {
            None
        }),
{
    let d = text::decimal(a as nat);
    let none = Seq::<char>::empty();
    text::lemma_decimal(a as nat);
    text::law_decimal_round_trip(a);
    lemma_decimal_trimmed(a as nat);
    if d.contains('-') {
        let j = choose|j: int| 0 <= j < d.len() && d[j] == '-';
        assert(text::is_digit(d[j]));
    }
    law_range_as_asked(d, none, len);
    assert("bytes="@ + d + "-"@ + none =~= "bytes="@ + d + "-"@);
    text::law_trim_takes_the_ends(none, none, none);
    assert(none + none + none =~= none);
}

/// The size that a `Content-Range` header states is the number behind its last slash, whatever
/// stands before that slash and whatever white space stands around the number.
pub proof fn law_total_behind_last_slash(
    before: Seq<char>,
    pad: Seq<char>,
    n: u64,
    more: Seq<char>,
    text: Seq<char>,
)
    requires
        text::blank(pad),
        text::blank(more),
        !text.contains('/'),
    ensures
        total_of(before + "/"@ + (pad + text::decimal(n as nat) + more)) == Some(n),
        total_of(before + "/"@ + text) == text::u64_of(text::trimmed(text)),
        total_of(text) == text::u64_of(text::trimmed(text)),
{
    reveal_strlit("/");
    assert("/"@ =~= seq!['/']);
    let d = text::decimal(n as nat);
    let shown = pad + d + more;
    text::lemma_decimal(n as nat);
    text::law_decimal_round_trip(n);
    assert(text::is_digit(d[0]));
    assert(text::is_digit(d[d.len() - 1]));
    text::law_trim_takes_the_ends(pad, d, more);
    if shown.contains('/') {
        let j = choose|j: int| 0 <= j < shown.len() && shown[j] == '/';
        if j < pad.len() {
            assert(text::white_space(pad[j]));
        } else if j < pad.len() + d.len() {
            assert(text::is_digit(d[j - pad.len()]));
        } else {
            assert(text::white_space(more[j - pad.len() - d.len()]));
        }
    }
    text::law_after_last(before, '/', shown);
    text::law_after_last(before, '/', text);
}

/// A request names the id behind its leading slashes, up to a first dot, whatever follows.
pub proof fn law_id_in_path(n: nat, id: Seq<char>, more: Seq<char>)
    requires
        !id.contains('.'),
        id.len() > 0,
        id[0] != '/',
    ensures
        requested_id(Seq::new(n, |i: int| '/') + id) == id,
        requested_id(Seq::new(n, |i: int| '/') + (id + "."@ + more)) == id,
{
    reveal_strlit(".");
    assert("."@ =~= seq!['.']);
    text::law_leading_taken_away(n, '/', id);
    text::law_leading_taken_away(n, '/', id + "."@ + more);
    text::law_split_at_first(id, '.', more);
}

/// A request is answered with the range that it asks for, as part of the file; where it asks for
/// none that can be given, with the whole file.
pub proof fn law_answer_is_what_was_asked(h: Seq<char>, len: u64)
    ensures
        answer_of(None, len).0 == 200,
        answer_of(None, len).1 == 0,
        len > 0 ==> answer_of(None, len).2 == len - 1 && answer_count(0, answer_of(None, len).2)
            == len,
        range_of(h, len) is None ==> answer_of(Some(h), len) == answer_of(None, len),
        range_of(h, len) matches Some(x) ==> answer_of(Some(h), len) == (206u16, x.0, x.1),
        answer_of(None, 0) == (200u16, 0u64, 0u64),
        forall|s: u64, e: u64|
            s <= e ==> #[trigger] answer_count(s, e) == e - s + 1,
        forall|s: u64, e: u64| s > e ==> #[trigger] answer_count(s, e) == 1,
{
}

/// Whether a header has a value.
pub open spec fn has_header(
    headers: Seq<(Seq<char>, Seq<char>)>,
    name: Seq<char>,
    value: Seq<char>,
) -> bool {
    exists|i: int| 0 <= i < headers.len() && #[trigger] headers[i] == (name, value)
}

/// The headers of an answer state the song's own content type, that ranges are served, the number
/// of bytes, that the answer is not kept and that any page may read it; and where a part is sent,
/// which part of how many bytes it is. There are no others.
pub proof fn law_headers_of_an_answer(mime: Seq<char>, status: u16, start: u64, end: u64, len: u64)
    requires
        start <= end < len,
        status == 200 || status == 206,
    ensures
        ({
            let headers = answer_headers(mime, status, start, end, len);
            &&& has_header(headers, "content-type"@, mime)
            &&& has_header(headers, "accept-ranges"@, "bytes"@)
            &&& has_header(headers, "content-length"@, text::decimal((end - start + 1) as nat))
            &&& has_header(headers, "cache-control"@, "no-store"@)
            &&& has_header(headers, "access-control-allow-origin"@, "*"@)
            &&& status == 206 ==> headers.len() == 6 && has_header(
                headers,
                "content-range"@,
                "bytes "@ + text::decimal(start as nat) + "-"@ + text::decimal(end as nat) + "/"@
                    + text::decimal(len as nat),
            )
            &&& status == 200 ==> headers.len() == 5
        }),
{
    let headers = answer_headers(mime, status, start, end, len);
    let count = text::decimal((end - start + 1) as nat);
    assert(headers[0] == ("content-type"@, mime));
    assert(headers[1] == ("accept-ranges"@, "bytes"@));
    assert(headers[2] == ("content-length"@, count));
    assert(headers[3] == ("cache-control"@, "no-store"@));
    assert(headers[4] == ("access-control-allow-origin"@, "*"@));
    if status == 206 {
        let part = "bytes "@ + text::decimal(start as nat) + "-"@ + text::decimal(end as nat) + "/"@
            + text::decimal(len as nat);
        assert(headers[5] == ("content-range"@, part));
    }
}

/// A filed song is played: a request for it, with whatever ending, gives the bytes that were read,
/// unchanged, under the song's own content type; from the file named by the song's id and
/// extension. Where the player seeks to `a`, it gets the bytes from `a` on, and is told so.
pub proof fn law_seek_in_a_song(
    entry: Entry<Seq<char>>,
    songs: Map<Seq<char>, Entry<Seq<char>>>,
    more: Seq<char>,
    len: u64,
    a: u64,
    bytes: Seq<u8>,
)
    requires
        download::is_valid_id(entry.video_id),
        outside::legal_header_value(entry.mime),
        songs.contains_key(entry.video_id),
        songs[entry.video_id] == entry,
        a < len,
    ensures
        ({
            let path = "/"@ + entry.video_id + "."@ + more;
            let seek = "bytes="@ + text::decimal(a as nat) + "-"@;
            let part = reply_of(path, songs, Some(len), Some(seek), Some(bytes));
            let whole = reply_of(path, songs, Some(len), None, Some(bytes));
            &&& lookup_of(path, songs) == (Lookup::File {
                name: entry.video_id + "."@ + entry.ext,
                mime: entry.mime,
            })
            &&& part.0 == 206 && part.2 == bytes && has_header(part.1, "content-type"@, entry.mime)
                && has_header(
                part.1,
                "content-range"@,
                "bytes "@ + text::decimal(a as nat) + "-"@ + text::decimal((len - 1) as nat) + "/"@
                    + text::decimal(len as nat),
            )
            &&& whole.0 == 200 && whole.2 == bytes && has_header(
                whole.1,
                "content-type"@,
                entry.mime,
            )
            &&& reply_of("/"@ + entry.video_id, songs, Some(len), None, Some(bytes)) == whole
        }),
{
    reveal_strlit("/");
    let id = entry.video_id;
    let one = Seq::new(1, |i: int| '/');
    assert("/"@ =~= one);
    assert forall|i: int| 0 <= i < id.len() implies id[i] != '.' && id[i] != '/' by {
        assert(download::id_char(id[i]));
    }
    law_id_in_path(1, id, more);
    assert("/"@ + id + "."@ + more =~= one + (id + "."@ + more));
    law_open_request_read_back(a, len);
    lemma_sendable(entry.mime, 206, a, (len - 1) as u64, len);
    lemma_sendable(entry.mime, 200, 0, (len - 1) as u64, len);
    law_headers_of_an_answer(entry.mime, 206, a, (len - 1) as u64, len);
    law_headers_of_an_answer(entry.mime, 200, 0, (len - 1) as u64, len);
}

/// An answer that is no refusal holds the bytes that were read.
pub proof fn law_body_is_what_was_read(
    path: Seq<char>,
    songs: Map<Seq<char>, Entry<Seq<char>>>,
    opened: Option<u64>,
    range: Option<Seq<char>>,
    bytes: Option<Seq<u8>>,
)
    ensures
        ({
            let (status, headers, body) = reply_of(path, songs, opened, range, bytes);
            status < 400 ==> bytes == Some(body) && opened is Some && status == answer_of(
                range,
                opened->0,
            ).0
        }),
{
}

/// Models keep what they model: the parts of a lookup and of an answer.
pub proof fn law_models(l: Lookup<String>, r: Reply)
    ensures
        l matches Lookup::Refused(why) ==> l@ == Lookup::<Seq<char>>::Refused(why),
        l matches Lookup::File { name, mime } ==> l@ == (Lookup::File { name: name@, mime: mime@ }),
        r@.0 == r.status,
        r@.1.len() == r.headers@.len(),
        forall|i: int|
            0 <= i < r.headers@.len() ==> #[trigger] r@.1[i] == (
                r.headers@[i].0@,
                r.headers@[i].1@,
            ),
        r@.2 == r.body@,
{
}

/// An empty range is refused like an empty file: the byte that it asks for lies behind the last one.
pub proof fn law_empty_range_cannot_be_read(h: Seq<char>, len: u64)
    requires
        range_of(h, len) matches Some(x) && x.0 > x.1,
    ensures
        ({
            let (_, start, end) = answer_of(Some(h), len);
            start + answer_count(start, end) > len
        }),
{
    law_range_within(h, len);
}

/// The content length that is stated is the number of bytes that are read.
pub proof fn law_length_is_stated(mime: Seq<char>, status: u16, start: u64, end: u64, len: u64)
    ensures
        has_header(
            answer_headers(mime, status, start, end, len),
            "content-length"@,
            text::decimal(answer_count(start, end) as nat),
        ),
{
    let headers = answer_headers(mime, status, start, end, len);
    assert(headers[2] == (
        "content-length"@,
        text::decimal(answer_count(start, end) as nat),
    ));
}

} // verus!
