//! The calls into other crates. Verus believes the contracts that stand here without a proof; each
//! says which function it is about and what it claims of it.
use vstd::prelude::*;

use crate::deeplink::{opt_link_view, Link};
use crate::text;

verus! {

/// What `http::StatusCode` displays behind the number of a status code: the reason phrase, or that
/// there is none.
pub uninterp spec fn reason_phrase(code: u16) -> Seq<char>;

/// What `http::StatusCode` displays for a status code.
pub open spec fn status_line(code: u16) -> Seq<char> {
    text::decimal(code as nat) + " "@ + reason_phrase(code)
}

/// `http::StatusCode::from_u16`, and the `Display` of what it gives.
///
/// Claimed: there is a text exactly for the codes 100 to 999, and it is the code, a space and a
/// phrase that depends on the code alone.
#[verifier::external_body]
pub(crate) fn status_text(code: u16) -> (r: Option<String>)
    ensures
        r is Some <==> 100 <= code <= 999,
        r matches Some(s) ==> s@ == text::decimal(code as nat) + " "@ + reason_phrase(code),
{
    http::StatusCode::from_u16(code).ok().map(|s| s.to_string())
}

/// Whether a text can stand in a header: no control character but the tab is in it.
pub open spec fn legal_header_value(value: Seq<char>) -> bool {
    forall|i: int|
        0 <= i < value.len() ==> #[trigger] value[i] == '\t' || (value[i] as u32 >= 32
            && value[i] as u32 != 127)
}

/// `http::HeaderValue::try_from` on a `String`.
///
/// Claimed: it succeeds exactly where the text holds no control character below the space, but for
/// the tab, and no delete character.
#[verifier::external_body]
pub(crate) fn is_header_value(value: &str) -> (r: bool)
    ensures
        r == legal_header_value(value@),
{
    http::HeaderValue::try_from(value.to_string()).is_ok()
}

/// What `url::Url::parse` makes of a text: the parts of the address, or nothing where the text is
/// no absolute address.
pub uninterp spec fn parsed_url(text: Seq<char>) -> Option<Link<Seq<char>>>;

/// What `url::Url::join` makes of a reference that is resolved against a base address.
pub uninterp spec fn joined_url(base: Seq<char>, reference: Seq<char>) -> Option<Link<Seq<char>>>;

/// Whether `c` is a letter, a digit, a hyphen or an underscore: a character that stands for itself
/// everywhere in an address.
pub open spec fn word_char(c: char) -> bool {
    'a' <= c <= 'z' || 'A' <= c <= 'Z' || '0' <= c <= '9' || c == '-' || c == '_'
}

/// Whether every character of a text is such a character.
pub open spec fn word(s: Seq<char>) -> bool {
    forall|i: int| 0 <= i < s.len() ==> word_char(#[trigger] s[i])
}

/// Whether a host is made of lower-case letters, in parts that single dots separate.
pub open spec fn plain_host(host: Seq<char>) -> bool {
    &&& 0 < host.len() <= 255
    &&& host[0] != '.' && host.last() != '.'
    &&& forall|i: int| 0 <= i < host.len() ==> 'a' <= #[trigger] host[i] <= 'z' || host[i] == '.'
    &&& forall|i: int|
        0 <= i < host.len() - 1 ==> !(#[trigger] host[i] == '.' && host[i + 1] == '.')
}

/// The longest text that the claims on addresses speak of.
pub const LONGEST_ADDRESS: usize = 0x1000_0000;

/// The parts that an address is written from.
pub struct Address {
    pub scheme: Seq<char>,
    pub authority: Option<Seq<char>>,
    pub path: Seq<char>,
    pub query: Option<Seq<char>>,
    pub fragment: Option<Seq<char>>,
}

impl Address {
    /// The address as a text.
    pub open spec fn written(self) -> Seq<char> {
        let start = match self.authority {
            Some(a) => self.scheme + "://"@ + a + self.path,
            None => self.scheme + ":"@ + self.path,
        };
        let queried = match self.query {
            Some(q) => start + "?"@ + q,
            None => start,
        };
        match self.fragment {
            Some(f) => queried + "#"@ + f,
            None => queried,
        }
    }

    /// Whether the scheme is one of the two of the web.
    pub open spec fn web(self) -> bool {
        self.scheme == "http"@ || self.scheme == "https"@
    }

    /// Whether the scheme is made of lower-case letters, and not one that addresses treat in a
    /// way of their own.
    pub open spec fn own_scheme(self) -> bool {
        &&& self.scheme.len() > 0
        &&& forall|i: int| 0 <= i < self.scheme.len() ==> 'a' <= #[trigger] self.scheme[i] <= 'z'
        &&& !self.web() && self.scheme != "ws"@ && self.scheme != "wss"@ && self.scheme != "ftp"@
        &&& self.scheme != "file"@
    }

    /// Whether every part is written in characters that stand for themselves: a web address with
    /// a plain host and a path, or an address with a scheme of its own.
    pub open spec fn plain(self) -> bool {
        &&& self.written().len() <= LONGEST_ADDRESS
        &&& match self.authority {
            Some(a) => {
                &&& self.path.len() > 0 ==> self.path[0] == '/'
                &&& if self.web() {
                    plain_host(a) && self.path.len() > 0
                } else {
                    self.own_scheme() && word(a)
                }
            },
            None => self.own_scheme() && (self.path.len() > 0 ==> self.path[0] != '/'),
        }
        &&& forall|i: int|
            0 <= i < self.path.len() ==> word_char(#[trigger] self.path[i]) || self.path[i] == '/'
        &&& self.query matches Some(q) ==> forall|i: int|
            0 <= i < q.len() ==> word_char(#[trigger] q[i]) || q[i] == '=' || q[i] == '&'
        &&& self.fragment matches Some(f) ==> word(f)
    }

    /// The link with these parts. An empty authority is no host.
    pub open spec fn link(self) -> Link<Seq<char>> {
        Link {
            scheme: self.scheme,
            host: match self.authority {
                Some(a) => if a.len() > 0 {
                    Some(a)
                } else {
                    None
                },
                None => None,
            },
            path: self.path,
            query: self.query,
            fragment: self.fragment,
            text: self.written(),
        }
    }
}

/// What follows the scheme in a text that begins with `https://`.
pub open spec fn origin_host(base: Seq<char>) -> Seq<char> {
    base.skip("https://"@.len() as int)
}

/// Whether a text is `https://` and a plain host.
pub open spec fn plain_origin(base: Seq<char>) -> bool {
    base == "https://"@ + origin_host(base) && plain_host(origin_host(base))
}

/// Whether there is an address, with the scheme `https` and the given host.
pub open spec fn on_host(link: Option<Link<Seq<char>>>, host: Seq<char>) -> bool {
    link matches Some(l) && l.scheme == "https"@ && l.host == Some(host)
}

/// Whether a reference begins with one slash, so that it names a path on the host of its base. Line
/// breaks and tabs are left out, for they do not count as characters of a reference.
pub open spec fn rooted_reference(s: Seq<char>) -> bool {
    &&& 0 < s.len() <= LONGEST_ADDRESS
    &&& s[0] == '/'
    &&& s.len() > 1 ==> s[1] != '/' && s[1] != '\\'
    &&& forall|i: int| 0 <= i < s.len() ==> #[trigger] s[i] != '\t' && s[i] != '\n' && s[i] != '\r'
}

/// Whether every character of a reference stands for itself.
pub open spec fn plain_reference(s: Seq<char>) -> bool {
    &&& rooted_reference(s)
    &&& forall|i: int|
        0 <= i < s.len() ==> word_char(#[trigger] s[i]) || s[i] == '/' || s[i] == '=' || s[i] == '&'
            || s[i] == '?' || s[i] == '#'
}

/// `url::Url::parse`, with the parts of the address that it gives.
///
/// Claimed: the parts depend on the text alone; the delimiters of the path, the query and the
/// fragment do not occur inside the parts before them; an `http` or `https` address has a host and
/// a path that begins with a slash; and an address whose parts are written in characters that stand
/// for themselves is read back as those parts.
#[verifier::external_body]
pub(crate) fn parse_url(text: &str) -> (r: Option<Link<String>>)
    ensures
        opt_link_view(r) == parsed_url(text@),
        r matches Some(link) ==> link@.wf(),
        forall|a: Address| #[trigger]
            a.written() == text@ && a.plain() ==> opt_link_view(r) == Some(a.link()),
{
    let url = url::Url::parse(text).ok()?;
    Some(Link {
        scheme: url.scheme().to_string(),
        host: url.host_str().map(|h| h.to_string()),
        path: url.path().to_string(),
        query: url.query().map(|q| q.to_string()),
        fragment: url.fragment().map(|f| f.to_string()),
        text: url.to_string(),
    })
}

/// `url::Url::join` on the address that `base` writes, with the parts of the address that it
/// gives.
///
/// Claimed: the parts depend on the base and the reference alone, and are delimited as those of a
/// parsed address are. Where the base is `https://` and a plain host, a reference that begins with
/// one slash is resolved to an address on that host, and to the base followed by the reference if
/// every character of the reference stands for itself.
#[verifier::external_body]
pub(crate) fn join_url(base: &str, reference: &str) -> (r: Option<Link<String>>)
    ensures
        opt_link_view(r) == joined_url(base@, reference@),
        r matches Some(link) ==> link@.wf(),
        plain_origin(base@) && rooted_reference(reference@) ==> on_host(
            opt_link_view(r),
            origin_host(base@),
        ),
        plain_origin(base@) && plain_reference(reference@) ==> opt_link_view(r)->0.text == base@
            + reference@,
{
    let url = url::Url::parse(base).ok()?.join(reference).ok()?;
    Some(Link {
        scheme: url.scheme().to_string(),
        host: url.host_str().map(|h| h.to_string()),
        path: url.path().to_string(),
        query: url.query().map(|q| q.to_string()),
        fragment: url.fragment().map(|f| f.to_string()),
        text: url.to_string(),
    })
}

/// The text in the field `key` of the JSON object that a text writes, or nothing where the text is
/// no JSON, no object, or holds no text in that field.
pub uninterp spec fn json_text_field(json: Seq<char>, key: Seq<char>) -> Option<Seq<char>>;

/// The JSON object with one field that holds a text.
pub open spec fn json_object(key: Seq<char>, value: Seq<char>) -> Seq<char> {
    "{"@ + json_string(key) + ":"@ + json_string(value) + "}"@
}

/// `serde_json::from_str` to a `Value`, then `Value::get` and `Value::as_str`.
///
/// Claimed: what is found depends on the text and the key alone, and the text in the one field of
/// an object is found under that field's key, if the key is made of letters, digits, hyphens and
/// underscores. Of other keys no more is claimed: some are reserved.
#[verifier::external_body]
pub(crate) fn text_field(json: &str, key: &str) -> (r: Option<String>)
    ensures
        text::opt_string_view(r) == json_text_field(json@, key@),
        forall|value: Seq<char>| #[trigger]
            json_object(key@, value) == json@ && word(key@) ==> text::opt_string_view(r) == Some(
                value,
            ),
{
    let value = serde_json::from_str::<serde_json::Value>(json).ok()?;
    value.get(key)?.as_str().map(|s| s.to_string())
}

/// How JSON writes one character inside a string.
pub open spec fn json_char(c: char) -> Seq<char> {
    let n = c as u32;
    if c == '"' {
        seq!['\\', '"']
    } else if c == '\\' {
        seq!['\\', '\\']
    } else if n == 8 {
        seq!['\\', 'b']
    } else if n == 9 {
        seq!['\\', 't']
    } else if n == 10 {
        seq!['\\', 'n']
    } else if n == 12 {
        seq!['\\', 'f']
    } else if n == 13 {
        seq!['\\', 'r']
    } else if n < 32 {
        seq!['\\', 'u', '0', '0', hex_digit(n as nat / 16), hex_digit(n as nat % 16)]
    } else {
        seq![c]
    }
}

/// The lower-case hexadecimal digit that writes `n`.
pub open spec fn hex_digit(n: nat) -> char {
    if n < 10 {
        (48 + n) as char
    } else {
        (87 + n) as char
    }
}

/// How JSON writes the characters inside a string.
pub open spec fn json_chars(s: Seq<char>) -> Seq<char>
    decreases s.len(),
{
    if s.len() == 0 {
        Seq::empty()
    } else {
        json_chars(s.drop_last()) + json_char(s.last())
    }
}

/// How JSON writes a string.
pub open spec fn json_string(s: Seq<char>) -> Seq<char> {
    seq!['"'] + json_chars(s) + seq!['"']
}

/// `serde_json::to_string` on a string.
///
/// Claimed: it succeeds, and gives the string in double quotes with the double quote, the backslash
/// and the control characters below the space escaped.
#[verifier::external_body]
pub(crate) fn to_json_string(s: &str) -> (r: Option<String>)
    ensures
        text::opt_string_view(r) == Some(json_string(s@)),
{
    serde_json::to_string(s).ok()
}

/// A decoded picture: its size, and the red, green, blue and alpha bytes of each pixel.
pub struct Picture {
    pub width: u32,
    pub height: u32,
    pub rgba: Seq<u8>,
}

/// What `image::load_from_memory_with_format` makes of the bytes of a PNG file, with its pixels as
/// `image::DynamicImage::into_rgba8` gives them. The format is given and not guessed, so decoders
/// that a process registers for other formats play no part.
pub uninterp spec fn decoded_png(bytes: Seq<u8>) -> Option<Picture>;

/// `image::load_from_memory_with_format` for PNG, then `image::DynamicImage::resize_exact` with the
/// Lanczos filter and `image::DynamicImage::into_rgba8`.
///
/// Claimed: there are pixels exactly where the bytes can be decoded as PNG, which depends on the
/// bytes alone; they are four bytes for each
/// pixel of the wanted size; and a picture that has that size already comes out unchanged. What the
/// filter makes of a picture of another size is left unsaid: it is computed in floating point, with
/// functions that differ between machines.
#[verifier::external_body]
pub(crate) fn resized_rgba(bytes: &[u8], width: u32, height: u32) -> (r: Option<Vec<u8>>)
    requires
        0 < width <= 1024,
        0 < height <= 1024,
    ensures
        r is Some <==> decoded_png(bytes@) is Some,
        r matches Some(v) ==> v@.len() == 4 * width * height,
        r matches Some(v) ==> (decoded_png(bytes@)->0.width == width && decoded_png(bytes@)->0.height
            == height ==> v@ == decoded_png(bytes@)->0.rgba),
{
    let img = image::load_from_memory_with_format(bytes, image::ImageFormat::Png).ok()?;
    let small = img.resize_exact(width, height, image::imageops::FilterType::Lanczos3);
    Some(small.into_rgba8().into_raw())
}

} // verus!
