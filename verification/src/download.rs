//! Offline downloads: which requests are taken, how a song is fetched in ranged chunks and filed,
//! and how the saved file is served back to the player.
use vstd::prelude::*;

use crate::outside;
use crate::text;

pub mod index;
pub mod job;
pub mod requests;
pub mod serve;

verus! {

// ---------------------------------------------------------------------------
// Ids, extensions and names
// ---------------------------------------------------------------------------

/// One character of a video id: an ASCII letter, a digit, `_` or `-`.
pub open spec fn id_char(c: char) -> bool {
    'a' <= c <= 'z' || 'A' <= c <= 'Z' || '0' <= c <= '9' || c == '_' || c == '-'
}

/// The shape of a video id: eleven id characters.
pub open spec fn is_valid_id(id: Seq<char>) -> bool {
    id.len() == 11 && forall|i: int| 0 <= i < id.len() ==> id_char(#[trigger] id[i])
}

/// Whether `id` has the shape of a video id.
pub fn valid_id(id: &str) -> (r: bool)
    ensures
        r == is_valid_id(id@),
{
    let v: Vec<char> = text::chars_of(id);
    if v.len() != 11 {
        return false;
    }
    let mut i: usize = 0;
    while i < v.len()
        invariant
            i <= v@.len(),
            v@ == id@,
            forall|j: int| 0 <= j < i ==> id_char(#[trigger] v@[j]),
        decreases v@.len() - i,
    {
        let c: char = v[i];
        if !(('a' <= c && c <= 'z') || ('A' <= c && c <= 'Z') || ('0' <= c && c <= '9') || c == '_'
            || c == '-') {
            assert(!id_char(v@[i as int]));
            return false;
        }
        i = i + 1;
    }
    true
}

/// The file extension for a stream: the container that its MIME type or its format tag names, and
/// `m4a` where neither says.
pub open spec fn extension_of(mime: Seq<char>, itag: u32) -> Seq<char> {
    if text::occurs(mime, "audio/mp4"@) || itag == 140 || itag == 139 || itag == 141 {
        "m4a"@
    } else if text::occurs(mime, "audio/webm"@) || itag == 251 || itag == 250 || itag == 249 {
        "weba"@
    } else if text::occurs(mime, "video/mp4"@) || itag == 18 || itag == 22 {
        "mp4"@
    } else {
        "m4a"@
    }
}

/// The file extension for a stream of the given MIME type and format tag.
pub fn ext_for(mime: &str, itag: u32) -> (r: String)
    ensures
        r@ == extension_of(mime@, itag),
{
    if text::contains(mime, "audio/mp4") || itag == 140 || itag == 139 || itag == 141 {
        "m4a".to_string()
    } else if text::contains(mime, "audio/webm") || itag == 251 || itag == 250 || itag == 249 {
        "weba".to_string()
    } else if text::contains(mime, "video/mp4") || itag == 18 || itag == 22 {
        "mp4".to_string()
    } else {
        "m4a".to_string()
    }
}

/// The MIME type that goes with a file extension.
pub open spec fn mime_of_extension(ext: Seq<char>) -> Seq<char> {
    if ext == "weba"@ {
        "audio/webm"@
    } else if ext == "mp4"@ {
        "video/mp4"@
    } else {
        "audio/mp4"@
    }
}

/// The MIME type that goes with a file extension.
pub fn default_mime(ext: &str) -> (r: String)
    ensures
        r@ == mime_of_extension(ext@),
{
    if text::same(ext, "weba") {
        "audio/webm".to_string()
    } else if text::same(ext, "mp4") {
        "video/mp4".to_string()
    } else {
        "audio/mp4".to_string()
    }
}

/// The first of three texts that is not blank, trimmed; empty where all are blank.
pub open spec fn first_nonblank(a: Seq<char>, b: Seq<char>, c: Seq<char>) -> Seq<char> {
    if text::trimmed(a).len() > 0 {
        text::trimmed(a)
    } else if text::trimmed(b).len() > 0 {
        text::trimmed(b)
    } else {
        text::trimmed(c)
    }
}

/// The first of three texts that is not blank, trimmed.
pub fn pick(a: &str, b: &str, c: &str) -> (r: String)
    ensures
        r@ == first_nonblank(a@, b@, c@),
{
    let a = text::trim(a);
    if !a.is_empty() {
        return a.to_string();
    }
    let b = text::trim(b);
    if !b.is_empty() {
        return b.to_string();
    }
    text::trim(c).to_string()
}

/// The address at which the webview finds the saved file of `id`. On Windows a custom scheme is
/// served at `http://<scheme>.localhost/`, elsewhere at `<scheme>://localhost/`.
pub open spec fn source_address(id: Seq<char>, windows: bool) -> Seq<char> {
    if windows {
        "http://skdl.localhost/"@ + id
    } else {
        "skdl://localhost/"@ + id
    }
}

/// The address at which the webview finds the saved file of `id`.
pub fn src_url(id: &str, windows: bool) -> (r: String)
    ensures
        r@ == source_address(id@, windows),
{
    let mut s: String = if windows {
        "http://skdl.localhost/".to_string()
    } else {
        "skdl://localhost/".to_string()
    };
    s.append(id);
    s
}

/// Milliseconds since the epoch as the index stores them: the low 64 bits of the clock's reading,
/// and zero where the clock stands before the epoch.
pub fn now_ms(since_epoch: Option<u128>) -> (r: u64)
    ensures
        r == match since_epoch {
            Some(ms) => (ms % 0x1_0000_0000_0000_0000) as u64,
            None => 0u64,
        },
{
    match since_epoch {
        Some(ms) => (ms % 0x1_0000_0000_0000_0000) as u64,
        None => 0,
    }
}

/// The name under which the audio of `id` is filed.
pub open spec fn file_name_of(id: Seq<char>, ext: Seq<char>) -> Seq<char> {
    id + "."@ + ext
}

/// The name of the file that a running download of `id` writes.
pub open spec fn part_name_of(id: Seq<char>, ext: Seq<char>) -> Seq<char> {
    file_name_of(id, ext) + ".part"@
}

/// The name under which the audio of `id` is filed.
pub fn file_name(id: &str, ext: &str) -> (r: String)
    ensures
        r@ == file_name_of(id@, ext@),
{
    let mut s: String = id.to_string();
    s.append(".");
    s.append(ext);
    s
}

/// The name of the file that a running download of `id` writes.
pub fn part_name(id: &str, ext: &str) -> (r: String)
    ensures
        r@ == part_name_of(id@, ext@),
{
    let mut s: String = file_name(id, ext);
    s.append(".part");
    s
}

/// Every extension that a stream can get is one of the three known ones.
pub proof fn law_extension_known(mime: Seq<char>, itag: u32)
    ensures
        extension_of(mime, itag) == "m4a"@ || extension_of(mime, itag) == "weba"@ || extension_of(
            mime,
            itag,
        ) == "mp4"@,
{
}

/// Two saved songs never share a file: valid ids with different extensions or different ids have
/// different file names.
pub proof fn law_file_names_distinct(a: Seq<char>, x: Seq<char>, b: Seq<char>, y: Seq<char>)
    requires
        is_valid_id(a),
        is_valid_id(b),
        file_name_of(a, x) == file_name_of(b, y),
    ensures
        a == b,
        x == y,
{
    reveal_strlit(".");
    let f = file_name_of(a, x);
    assert(f.subrange(0, 11) =~= a);
    assert(f.subrange(0, 11) =~= b);
    assert(f.subrange(12, f.len() as int) =~= x);
    assert(f.subrange(12, f.len() as int) =~= y);
}

/// A download never leaves its folder: the names of the files of a valid id hold no path
/// separator.
pub proof fn law_files_stay_in_folder(id: Seq<char>, mime: Seq<char>, itag: u32)
    requires
        is_valid_id(id),
    ensures
        forall|i: int|
            0 <= i < part_name_of(id, extension_of(mime, itag)).len() ==> {
                let c = #[trigger] part_name_of(id, extension_of(mime, itag))[i];
                c != '/' && c != '\\' && c != ':'
            },
        file_name_of(id, extension_of(mime, itag)).is_prefix_of(
            part_name_of(id, extension_of(mime, itag)),
        ),
{
    reveal_strlit(".");
    reveal_strlit(".part");
    reveal_strlit("m4a");
    reveal_strlit("weba");
    reveal_strlit("mp4");
    let ext = extension_of(mime, itag);
    let p = part_name_of(id, ext);
    assert(p.subrange(0, file_name_of(id, ext).len() as int) =~= file_name_of(id, ext));
    assert forall|i: int| 0 <= i < p.len() implies {
        let c = #[trigger] p[i];
        c != '/' && c != '\\' && c != ':'
    } by {
        if i < 11 {
            assert(p[i] == id[i]);
            assert(id_char(id[i]));
        } else if i == 11 {
            assert(p[i] == "."@[0]);
        } else if i < 12 + ext.len() {
            assert(p[i] == ext[i - 12]);
        } else {
            assert(p[i] == ".part"@[i - 12 - ext.len()]);
        }
    }
}

/// A video id is eleven characters that stand for themselves in an address, and nothing else is
/// one.
pub proof fn law_ids(id: Seq<char>)
    ensures
        is_valid_id(id) <==> id.len() == 11 && outside::word(id),
{
    if is_valid_id(id) {
        assert forall|i: int| 0 <= i < id.len() implies outside::word_char(#[trigger] id[i]) by {
            assert(id_char(id[i]));
        }
    }
    if id.len() == 11 && outside::word(id) {
        assert forall|i: int| 0 <= i < id.len() implies id_char(#[trigger] id[i]) by {
            assert(outside::word_char(id[i]));
        }
    }
}

/// The extension follows the container: a MIME type that names one decides, whatever stands around
/// the name and unless the tag is one of another audio container; tags decide where it names none.
pub proof fn law_extension_follows_container(
    mime: Seq<char>,
    itag: u32,
    before: Seq<char>,
    after: Seq<char>,
)
    ensures
        extension_of(before + "audio/mp4"@ + after, itag) == "m4a"@,
        itag == 139 || itag == 140 || itag == 141 ==> extension_of(mime, itag) == "m4a"@,
        extension_of(mime, itag) == "weba"@ <==> !text::occurs(mime, "audio/mp4"@) && itag != 139
            && itag != 140 && itag != 141 && (text::occurs(mime, "audio/webm"@) || 249 <= itag
            <= 251),
        extension_of(mime, itag) == "mp4"@ <==> !text::occurs(mime, "audio/mp4"@) && itag != 139
            && itag != 140 && itag != 141 && !text::occurs(mime, "audio/webm"@) && !(249 <= itag
            <= 251) && (text::occurs(mime, "video/mp4"@) || itag == 18 || itag == 22),
{
    reveal_strlit("m4a");
    reveal_strlit("weba");
    reveal_strlit("mp4");
    text::law_occurs_in_the_middle(before, "audio/mp4"@, after, mime);
    assert("m4a"@[1] != "mp4"@[1]);
    assert("weba"@.len() != "m4a"@.len());
    assert("weba"@.len() != "mp4"@.len());
}

/// The MIME type of an extension names the container that the extension stands for, and no two of
/// the three extensions share one.
pub proof fn law_mime_names_extension(ext: Seq<char>)
    requires
        ext == "m4a"@ || ext == "weba"@ || ext == "mp4"@,
    ensures
        extension_of(mime_of_extension(ext), 0) == ext,
        ext == "m4a"@ ==> mime_of_extension(ext) == "audio/mp4"@,
        ext == "weba"@ ==> mime_of_extension(ext) == "audio/webm"@,
        ext == "mp4"@ ==> mime_of_extension(ext) == "video/mp4"@,
{
    reveal_strlit("m4a");
    reveal_strlit("weba");
    reveal_strlit("mp4");
    reveal_strlit("audio/mp4");
    reveal_strlit("audio/webm");
    reveal_strlit("video/mp4");
    let none = Seq::<char>::empty();
    assert("m4a"@[1] != "mp4"@[1]);
    text::law_occurs_in_the_middle(none, "audio/mp4"@, none, none);
    text::law_occurs_in_the_middle(none, "audio/webm"@, none, none);
    text::law_occurs_in_the_middle(none, "video/mp4"@, none, none);
    assert(none + "audio/mp4"@ + none =~= "audio/mp4"@);
    assert(none + "audio/webm"@ + none =~= "audio/webm"@);
    assert(none + "video/mp4"@ + none =~= "video/mp4"@);
    assert(!text::occurs("audio/webm"@, "audio/mp4"@)) by {
        if text::occurs("audio/webm"@, "audio/mp4"@) {
            let s = "audio/webm"@;
            let i = choose|i: int|
                0 <= i <= s.len() - "audio/mp4"@.len() && #[trigger] s.subrange(
                    i,
                    i + "audio/mp4"@.len(),
                ) == "audio/mp4"@;
            assert(s.subrange(i, i + 9)[0] == 'a');
            assert(s.subrange(i, i + 9)[6] == 'm');
            assert(i == 0 || i == 1);
        }
    }
    assert(!text::occurs("video/mp4"@, "audio/mp4"@)) by {
        if text::occurs("video/mp4"@, "audio/mp4"@) {
            let s = "video/mp4"@;
            let i = choose|i: int|
                0 <= i <= s.len() - "audio/mp4"@.len() && #[trigger] s.subrange(
                    i,
                    i + "audio/mp4"@.len(),
                ) == "audio/mp4"@;
            assert(s.subrange(i, i + 9)[0] == 'a');
        }
    }
}

/// The MIME type of any extension but the two that have their own is that of the common audio
/// container.
pub proof fn law_other_extensions(ext: Seq<char>)
    requires
        ext != "weba"@,
        ext != "mp4"@,
    ensures
        mime_of_extension(ext) == "audio/mp4"@,
{
}

/// The first text that is not blank is taken, without the white space around it, and what stands
/// behind it does not matter; a blank text is passed over.
pub proof fn law_first_nonblank(
    before: Seq<char>,
    s: Seq<char>,
    after: Seq<char>,
    b: Seq<char>,
    c: Seq<char>,
    blank: Seq<char>,
)
    requires
        text::blank(before),
        text::blank(after),
        text::blank(blank),
        s.len() > 0,
        !text::white_space(s[0]),
        !text::white_space(s.last()),
    ensures
        first_nonblank(before + s + after, b, c) == s,
        first_nonblank(blank, before + s + after, c) == s,
        first_nonblank(blank, blank, before + s + after) == s,
        first_nonblank(blank, blank, blank).len() == 0,
{
    let none = Seq::<char>::empty();
    text::law_trim_takes_the_ends(before, s, after);
    text::law_trim_takes_the_ends(blank, none, none);
    assert(blank + none + none =~= blank);
}

/// The address of a saved song is the app's own scheme on the local host, followed by the id: as a
/// host name on Windows, as a scheme elsewhere.
pub proof fn law_source_address(id: Seq<char>, windows: bool)
    ensures
        source_address(id, true) == "http://skdl.localhost/"@ + id,
        source_address(id, false) == "skdl://localhost/"@ + id,
{
}

/// A song's file is named by its id and its extension, and the file of a running download by that
/// name and a further ending, so the two never meet.
pub proof fn law_part_is_beside_file(id: Seq<char>, ext: Seq<char>)
    ensures
        file_name_of(id, ext) == id + "."@ + ext,
        part_name_of(id, ext) == id + "."@ + ext + ".part"@,
        part_name_of(id, ext) != file_name_of(id, ext),
{
    reveal_strlit(".part");
    assert(part_name_of(id, ext).len() == file_name_of(id, ext).len() + 5);
}

} // verus!
