//! The requests that reach the downloader: from the player to fetch or delete a song, and from the
//! extractor page to report on a stream.
use vstd::prelude::*;

use crate::deeplink::{opt_link_view, Link};
use crate::download;
use crate::download::index::Index;
use crate::download::job::{Action, Extracted, Job};
use crate::outside::{self, Address};
use crate::table::Table;

verus! {

/// Whether a request to download a song is taken. One whose id does not have the shape of a video
/// id is answered with an error.
pub fn on_request(request: Job<String>) -> (r: Result<Job<String>, Action<String>>)
    ensures
        match r {
            Ok(job) => download::is_valid_id(request.video_id@) && job == request,
            Err(action) => !download::is_valid_id(request.video_id@) && action@ == (Action::Error {
                id: request.video_id@,
                message: "invalid video id"@,
            }),
        },
{
    if download::valid_id(request.video_id.as_str()) {
        Ok(request)
    } else {
        Err(Action::Error { id: request.video_id, message: "invalid video id".to_string() })
    }
}

/// What a request to delete a song leads to.
pub struct Deletion {
    /// The file that is deleted. The index is stored again exactly if there is one.
    pub file: Option<String>,
    /// Whether the list of songs is sent.
    pub list: bool,
}

/// Takes a song out of the index. A request whose id does not have the shape of a video id is
/// dropped.
pub fn delete(index: &mut Index, id: &str) -> (r: Deletion)
    requires
        old(index).wf(),
    ensures
        final(index).wf(),
        r.list == download::is_valid_id(id@),
        r.file is Some <==> download::is_valid_id(id@) && old(index)@.contains_key(id@),
        r.file matches Some(f) ==> f@ == download::file_name_of(
            old(index)@[id@].video_id,
            old(index)@[id@].ext,
        ),
        final(index)@ == (if download::is_valid_id(id@) {
            old(index)@.remove(id@)
        } else {
            old(index)@
        }),
{
    if !download::valid_id(id) {
        return Deletion { file: None, list: false };
    }
    match index.remove(id) {
        Some(entry) => Deletion {
            file: Some(download::file_name(entry.video_id.as_str(), entry.ext.as_str())),
            list: true,
        },
        None => Deletion { file: None, list: true },
    }
}

/// The reason that an extraction failure is reported with: the page's own, if it gives one.
pub fn failure_reason(reason: String) -> (r: String)
    ensures
        r@ == if reason@.len() == 0 {
            "extraction failed"@
        } else {
            reason@
        },
{
    if reason.as_str().is_empty() {
        "extraction failed".to_string()
    } else {
        reason
    }
}

/// A report of the extractor page.
pub enum Report {
    Found(Extracted<String>),
    Failed { video_id: String, reason: String },
}

/// The id that a report is about.
pub open spec fn report_id(report: Report) -> Seq<char> {
    match report {
        Report::Found(x) => x.video_id@,
        Report::Failed { video_id, .. } => video_id@,
    }
}

/// Hands a report to the download that waits for it: `W` is what wakes the download up. A report
/// that nothing waits for is dropped, and a waiting download is woken once.
pub fn deliver<W>(waiting: &mut Table<W>, report: Report) -> (r: Option<
    (W, Result<Extracted<String>, String>),
>)
    requires
        old(waiting).wf(),
    ensures
        final(waiting).wf(),
        final(waiting)@ == old(waiting)@.remove(report_id(report)),
        r is Some <==> old(waiting)@.contains_key(report_id(report)),
        r matches Some(p) ==> p.0 == old(waiting)@[report_id(report)] && match report {
            Report::Found(x) => p.1 == Ok::<Extracted<String>, String>(x),
            Report::Failed { reason, .. } => p.1 matches Err(e) && e@ == if reason@.len() == 0 {
                "extraction failed"@
            } else {
                reason@
            },
        },
{
    match report {
        Report::Found(x) => match waiting.remove(x.video_id.as_str()) {
            Some(w) => Some((w, Ok(x))),
            None => None,
        },
        Report::Failed { video_id, reason } => match waiting.remove(video_id.as_str()) {
            Some(w) => Some((w, Err(failure_reason(reason)))),
            None => None,
        },
    }
}

/// The address of the page that the extractor reads for `id`.
pub open spec fn watch_address(id: Seq<char>) -> Seq<char> {
    "https://www.youtube.com/watch?v="@ + id
}

/// The parts of that address.
pub open spec fn watch_parts(id: Seq<char>) -> Address {
    Address {
        scheme: "https"@,
        authority: Some("www.youtube.com"@),
        path: "/watch"@,
        query: Some("v="@ + id),
        fragment: None,
    }
}

proof fn lemma_watch_parts(id: Seq<char>)
    requires
        download::is_valid_id(id),
    ensures
        watch_parts(id).written() == watch_address(id),
        watch_parts(id).plain(),
{
    reveal_strlit("https");
    reveal_strlit("://");
    reveal_strlit("www.youtube.com");
    reveal_strlit("/watch");
    reveal_strlit("?");
    reveal_strlit("v=");
    reveal_strlit("https://www.youtube.com/watch?v=");
    assert(watch_parts(id).written() =~= watch_address(id));
    let q = "v="@ + id;
    assert forall|i: int| 0 <= i < q.len() implies outside::word_char(#[trigger] q[i]) || q[i]
        == '=' || q[i] == '&' by {
        if i >= 2 {
            assert(download::id_char(id[i - 2]));
        }
    }
}

/// The page that the extractor is pointed at for `id`, if its address is one. There is always one
/// for an id that has the shape of a video id.
pub fn extractor_target(id: &str) -> (r: Option<Link<String>>)
    ensures
        opt_link_view(r) == outside::parsed_url(watch_address(id@)),
        download::is_valid_id(id@) ==> opt_link_view(r) == Some(watch_parts(id@).link()) && (r->0)@.text
            == watch_address(id@),
{
    proof {
        if download::is_valid_id(id@) {
            lemma_watch_parts(id@);
        }
    }
    let mut address: String = "https://www.youtube.com/watch?v=".to_string();
    address.append(id);
    outside::parse_url(address.as_str())
}

/// The extractor page is pointed at the song that was asked for: the address is that of its own
/// watch page, and no two songs share one.
pub proof fn law_watch_page_of_the_song(id: Seq<char>, other: Seq<char>)
    ensures
        watch_address(id) == "https://www.youtube.com/watch?v="@ + id,
        watch_address(id) == watch_address(other) ==> id == other,
        download::is_valid_id(id) ==> watch_parts(id).link().host == Some("www.youtube.com"@)
            && watch_parts(id).link().text == watch_address(id),
{
    let start = "https://www.youtube.com/watch?v="@;
    assert(watch_address(id).skip(start.len() as int) =~= id);
    assert(watch_address(other).skip(start.len() as int) =~= other);
    reveal_strlit("www.youtube.com");
    if download::is_valid_id(id) {
        lemma_watch_parts(id);
    }
}

/// A report is about the song that it names.
pub proof fn law_report_names_its_song(report: Report)
    ensures
        report matches Report::Found(x) ==> report_id(report) == x.video_id@,
        report matches Report::Failed { video_id, .. } ==> report_id(report) == video_id@,
{
}

} // verus!
