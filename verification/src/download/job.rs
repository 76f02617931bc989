//! One download, from the request for a stream address to the filed song.
//!
//! The pipeline alternates outside work (the extractor page, HTTP, the disk) with decisions. The
//! decisions are `begin` and `step`: they name the outside work that comes next as actions, and
//! what the work gave comes back as an event.
use vstd::prelude::*;

use crate::download;
use crate::download::index::Entry;
use crate::download::serve;
use crate::outside;
use crate::text;

verus! {

/// The size of one ranged request: one mebibyte.
pub const CHUNK: u64 = 1048576;

/// How long a report of the extractor page is awaited, in seconds.
pub const EXTRACT_TIMEOUT_SECS: u64 = 30;

/// A requested download.
pub struct Job<S> {
    pub video_id: S,
    pub title: S,
    pub artist: S,
}

/// What the extractor page reports of a stream.
pub struct Extracted<S> {
    pub video_id: S,
    pub url: S,
    pub mime: S,
    pub itag: u32,
    pub content_length: Option<u64>,
    pub title: S,
    pub author: S,
}

/// A download that has its stream address.
pub struct Transfer<S> {
    pub job: Job<S>,
    pub url: S,
    pub ext: S,
    pub mime: S,
    /// The title that the extractor page reported.
    pub title: S,
    /// The author that the extractor page reported.
    pub author: S,
    /// The bytes written so far.
    pub pos: u64,
    /// The size of the whole stream, once known.
    pub total: Option<u64>,
}

/// Where a download stands: the outside work that it waits for.
pub enum State<S> {
    /// The extractor page reports a stream.
    Extracting { job: Job<S> },
    /// The downloads folder is created.
    Folder { t: Transfer<S> },
    /// The HTTP client is built and the part file is created.
    Opening { t: Transfer<S> },
    /// The next range is asked for.
    Requesting { t: Transfer<S> },
    /// The body of an answer is read.
    Reading { t: Transfer<S>, ranged: bool },
    /// `n` bytes are written to the part file.
    Writing { t: Transfer<S>, ranged: bool, n: u64 },
    /// The part file is flushed.
    Flushing { t: Transfer<S> },
    /// The part file gets its final name.
    Renaming { t: Transfer<S> },
    /// Nothing is left to do.
    Finished,
}

/// What outside work gave.
pub enum Event<S> {
    /// The extractor page found a stream.
    Extracted(Extracted<S>),
    /// The extractor page gave up.
    ExtractFailed(S),
    /// The extractor page did not report in time.
    TimedOut,
    /// The work that was asked for is done.
    Ready,
    /// An answer to the ranged request began: its status and its `Content-Range` header.
    Response { status: u16, content_range: Option<S> },
    /// The body of the answer: its length.
    Body(u64),
    /// The file has its final name; the clock reads so many milliseconds.
    Renamed(u64),
    /// The work that was asked for failed.
    Failed(S),
}

/// The two stages that are reported as progress.
#[derive(PartialEq, Eq, Structural, Clone, Copy, Debug)]
pub enum Stage {
    Extracting,
    Downloading,
}

/// Outside work that a download asks for.
pub enum Action<S> {
    /// Report progress to the player.
    Progress { id: S, stage: Stage, received: u64, total: Option<u64> },
    /// Wait for the extractor page's report on `id`.
    Await { id: S },
    /// Point the extractor page at `id`.
    OpenExtractor { id: S },
    /// Stop waiting for a report on `id`.
    Forget { id: S },
    /// Send the extractor page away.
    ParkExtractor,
    /// Create the downloads folder.
    CreateFolder,
    /// Build the HTTP client and create the part file.
    OpenPart { part: S },
    /// Ask for a range of the stream.
    Request { url: S, range: S },
    /// Read the body of the answer.
    ReadBody,
    /// Append the body to the part file.
    WriteBody,
    /// Flush the part file.
    Flush,
    /// Delete the part file.
    RemovePart { part: S },
    /// Give the part file its final name.
    Rename { part: S, file: S },
    /// File the song in the index.
    Record { entry: Entry<S> },
    /// Report the song as downloaded.
    Done { id: S },
    /// Send the list of songs.
    List,
    /// Report that the download failed.
    Error { id: S, message: S },
}

impl View for Job<String> {
    type V = Job<Seq<char>>;

    open spec fn view(&self) -> Job<Seq<char>> {
        Job { video_id: self.video_id@, title: self.title@, artist: self.artist@ }
    }
}

impl View for Extracted<String> {
    type V = Extracted<Seq<char>>;

    open spec fn view(&self) -> Extracted<Seq<char>> {
        Extracted {
            video_id: self.video_id@,
            url: self.url@,
            mime: self.mime@,
            itag: self.itag,
            content_length: self.content_length,
            title: self.title@,
            author: self.author@,
        }
    }
}

impl View for Transfer<String> {
    type V = Transfer<Seq<char>>;

    open spec fn view(&self) -> Transfer<Seq<char>> {
        Transfer {
            job: self.job@,
            url: self.url@,
            ext: self.ext@,
            mime: self.mime@,
            title: self.title@,
            author: self.author@,
            pos: self.pos,
            total: self.total,
        }
    }
}

impl View for State<String> {
    type V = State<Seq<char>>;

    open spec fn view(&self) -> State<Seq<char>> {
        match self {
            State::Extracting { job } => State::Extracting { job: job@ },
            State::Folder { t } => State::Folder { t: t@ },
            State::Opening { t } => State::Opening { t: t@ },
            State::Requesting { t } => State::Requesting { t: t@ },
            State::Reading { t, ranged } => State::Reading { t: t@, ranged: *ranged },
            State::Writing { t, ranged, n } => State::Writing { t: t@, ranged: *ranged, n: *n },
            State::Flushing { t } => State::Flushing { t: t@ },
            State::Renaming { t } => State::Renaming { t: t@ },
            State::Finished => State::Finished,
        }
    }
}

impl View for Event<String> {
    type V = Event<Seq<char>>;

    open spec fn view(&self) -> Event<Seq<char>> {
        match self {
            Event::Extracted(x) => Event::Extracted(x@),
            Event::ExtractFailed(reason) => Event::ExtractFailed(reason@),
            Event::TimedOut => Event::TimedOut,
            Event::Ready => Event::Ready,
            Event::Response { status, content_range } => Event::Response {
                status: *status,
                content_range: text::opt_string_view(*content_range),
            },
            Event::Body(n) => Event::Body(*n),
            Event::Renamed(now) => Event::Renamed(*now),
            Event::Failed(e) => Event::Failed(e@),
        }
    }
}

impl View for Action<String> {
    type V = Action<Seq<char>>;

    open spec fn view(&self) -> Action<Seq<char>> {
        match self {
            Action::Progress { id, stage, received, total } => Action::Progress {
                id: id@,
                stage: *stage,
                received: *received,
                total: *total,
            },
            Action::Await { id } => Action::Await { id: id@ },
            Action::OpenExtractor { id } => Action::OpenExtractor { id: id@ },
            Action::Forget { id } => Action::Forget { id: id@ },
            Action::ParkExtractor => Action::ParkExtractor,
            Action::CreateFolder => Action::CreateFolder,
            Action::OpenPart { part } => Action::OpenPart { part: part@ },
            Action::Request { url, range } => Action::Request { url: url@, range: range@ },
            Action::ReadBody => Action::ReadBody,
            Action::WriteBody => Action::WriteBody,
            Action::Flush => Action::Flush,
            Action::RemovePart { part } => Action::RemovePart { part: part@ },
            Action::Rename { part, file } => Action::Rename { part: part@, file: file@ },
            Action::Record { entry } => Action::Record { entry: entry@ },
            Action::Done { id } => Action::Done { id: id@ },
            Action::List => Action::List,
            Action::Error { id, message } => Action::Error { id: id@, message: message@ },
        }
    }
}

/// The views of a list of actions.
pub open spec fn actions_view(actions: Seq<Action<String>>) -> Seq<Action<Seq<char>>> {
    actions.map_values(|a: Action<String>| a@)
}

// ---------------------------------------------------------------------------
// The pipeline
// ---------------------------------------------------------------------------

/// How a download starts: a song that is filed already is only reported again.
pub open spec fn start_of(job: Job<Seq<char>>, known: bool) -> (
    State<Seq<char>>,
    Seq<Action<Seq<char>>>,
) {
    let id = job.video_id;
    if known {
        (State::Finished, seq![Action::Done { id }, Action::List])
    } else {
        (
            State::Extracting { job },
            seq![
                Action::Progress { id, stage: Stage::Extracting, received: 0, total: None },
                Action::Await { id },
                Action::OpenExtractor { id },
            ],
        )
    }
}

/// The transfer of the stream that the extractor page reports for a job.
pub open spec fn transfer_of(job: Job<Seq<char>>, x: Extracted<Seq<char>>) -> Transfer<Seq<char>> {
    let ext = download::extension_of(x.mime, x.itag);
    Transfer {
        job,
        url: x.url,
        ext,
        mime: if x.mime.len() == 0 {
            download::mime_of_extension(ext)
        } else {
            x.mime
        },
        title: x.title,
        author: x.author,
        pos: 0,
        total: x.content_length,
    }
}

/// The name of the file that the transfer writes.
pub open spec fn part_of(t: Transfer<Seq<char>>) -> Seq<char> {
    download::part_name_of(t.job.video_id, t.ext)
}

/// The request for the bytes that follow those written so far.
pub open spec fn next_request(t: Transfer<Seq<char>>) -> Action<Seq<char>> {
    Action::Request {
        url: t.url,
        range: serve::range_request(t.pos as nat, (t.pos + CHUNK - 1) as nat),
    }
}

/// A failure of the transfer itself: the part file goes away and the failure is reported.
pub open spec fn failed(t: Transfer<Seq<char>>, message: Seq<char>) -> (
    State<Seq<char>>,
    Seq<Action<Seq<char>>>,
) {
    (
        State::Finished,
        seq![
            Action::RemovePart { part: part_of(t) },
            Action::Error { id: t.job.video_id, message },
        ],
    )
}

/// The song that a finished transfer files.
pub open spec fn entry_of(t: Transfer<Seq<char>>, now: u64) -> Entry<Seq<char>> {
    Entry {
        video_id: t.job.video_id,
        title: download::first_nonblank(t.job.title, t.title, t.job.video_id),
        artist: download::first_nonblank(t.job.artist, t.author, ""@),
        ext: t.ext,
        mime: t.mime,
        bytes: t.pos,
        added: now,
    }
}

/// What an answer to a ranged request leads to. A refusal ends the transfer: it is the regular end
/// where it says that nothing lies behind the bytes that came, and a failure otherwise. The size of
/// the whole stream is taken from the first partial answer that states it.
pub open spec fn after_response(
    t: Transfer<Seq<char>>,
    status: u16,
    content_range: Option<Seq<char>>,
) -> (State<Seq<char>>, Seq<Action<Seq<char>>>) {
    if 200 <= status <= 299 {
        let ranged = status == 206;
        let total = if t.total is None && ranged {
            match content_range {
                Some(h) => serve::total_of(h),
                None => None,
            }
        } else {
            t.total
        };
        (State::Reading { t: Transfer { total, ..t }, ranged }, seq![Action::ReadBody])
    } else if status == 416 && t.pos > 0 {
        (State::Flushing { t }, seq![Action::Flush])
    } else {
        failed(t, "download failed: HTTP "@ + outside::status_line(status))
    }
}

/// Whether the transfer is complete after a body of `n` bytes: the server sent everything at once,
/// the known size is reached, or the body was shorter than what was asked for.
pub open spec fn complete(t: Transfer<Seq<char>>, ranged: bool, n: u64) -> bool {
    ||| !ranged
    ||| t.total matches Some(total) && t.pos >= total
    ||| n < CHUNK
}

/// What follows the writing of a body of `n` bytes.
pub open spec fn after_write(t: Transfer<Seq<char>>, ranged: bool, n: u64) -> (
    State<Seq<char>>,
    Seq<Action<Seq<char>>>,
) {
    let t = Transfer { pos: (t.pos + n) as u64, ..t };
    let progress = Action::Progress {
        id: t.job.video_id,
        stage: Stage::Downloading,
        received: t.pos,
        total: t.total,
    };
    if complete(t, ranged, n) {
        (State::Flushing { t }, seq![progress, Action::Flush])
    } else {
        (State::Requesting { t }, seq![progress, next_request(t)])
    }
}

/// What follows an event. An event that the state does not wait for changes nothing.
pub open spec fn next(state: State<Seq<char>>, event: Event<Seq<char>>) -> (
    State<Seq<char>>,
    Seq<Action<Seq<char>>>,
) {
    match (state, event) {
        (State::Extracting { job }, Event::Extracted(x)) => (
            State::Folder { t: transfer_of(job, x) },
            seq![Action::ParkExtractor, Action::CreateFolder],
        ),
        (State::Extracting { job }, Event::ExtractFailed(reason)) => (
            State::Finished,
            seq![
                Action::Forget { id: job.video_id },
                Action::ParkExtractor,
                Action::Error {
                    id: job.video_id,
                    message: "could not read the audio stream: "@ + reason,
                },
            ],
        ),
        (State::Extracting { job }, Event::TimedOut) => (
            State::Finished,
            seq![
                Action::Forget { id: job.video_id },
                Action::ParkExtractor,
                Action::Error {
                    id: job.video_id,
                    message: "timed out reading the audio stream"@,
                },
            ],
        ),
        (State::Folder { t }, Event::Ready) => (
            State::Opening { t },
            seq![
                Action::Progress {
                    id: t.job.video_id,
                    stage: Stage::Downloading,
                    received: 0,
                    total: t.total,
                },
                Action::OpenPart { part: part_of(t) },
            ],
        ),
        (State::Folder { t }, Event::Failed(e)) => (
            State::Finished,
            seq![
                Action::Error {
                    id: t.job.video_id,
                    message: "cannot create downloads folder: "@ + e,
                },
            ],
        ),
        (State::Opening { t }, Event::Ready) => (
            State::Requesting { t },
            seq![next_request(t)],
        ),
        (State::Opening { t }, Event::Failed(e)) => failed(t, "download failed: "@ + e),
        (State::Requesting { t }, Event::Response { status, content_range }) => after_response(
            t,
            status,
            content_range,
        ),
        (State::Requesting { t }, Event::Failed(e)) => failed(t, "download failed: "@ + e),
        (State::Reading { t, ranged }, Event::Body(n)) => if n == 0 {
            (State::Flushing { t }, seq![Action::Flush])
        } else {
            (State::Writing { t, ranged, n }, seq![Action::WriteBody])
        },
        (State::Reading { t, .. }, Event::Failed(e)) => failed(t, "download failed: "@ + e),
        (State::Writing { t, ranged, n }, Event::Ready) => after_write(t, ranged, n),
        (State::Writing { t, .. }, Event::Failed(e)) => failed(t, "download failed: "@ + e),
        (State::Flushing { t }, Event::Ready) => if t.pos == 0 {
            failed(t, "download produced an empty file"@)
        } else {
            (
                State::Renaming { t },
                seq![
                    Action::Rename {
                        part: part_of(t),
                        file: download::file_name_of(t.job.video_id, t.ext),
                    },
                ],
            )
        },
        (State::Flushing { t }, Event::Failed(e)) => failed(t, "download failed: "@ + e),
        (State::Renaming { t }, Event::Renamed(now)) => (
            State::Finished,
            seq![
                Action::Record { entry: entry_of(t, now) },
                Action::Done { id: t.job.video_id },
                Action::List,
            ],
        ),
        (State::Renaming { t }, Event::Failed(e)) => failed(t, "could not finalize file: "@ + e),
        _ => (state, Seq::empty()),
    }
}

/// What machine arithmetic and HTTP ask of a step: the position fits in 64 bits, and so does the end
/// of the next range where one is asked for; and a status code has three digits.
pub open spec fn within_limits(state: State<Seq<char>>, event: Event<Seq<char>>) -> bool {
    match (state, event) {
        (State::Opening { t }, Event::Ready) => t.pos + CHUNK <= u64::MAX,
        (State::Writing { t, ranged, n }, Event::Ready) => {
            &&& t.pos + n <= u64::MAX
            &&& !complete(Transfer { pos: (t.pos + n) as u64, ..t }, ranged, n) ==> t.pos + n
                + CHUNK <= u64::MAX
        },
        (_, Event::Response { status, .. }) => 100 <= status <= 999,
        _ => true,
    }
}

/// Whether a step is within those limits.
pub fn fits(state: &State<String>, event: &Event<String>) -> (r: bool)
    ensures
        r == within_limits(state@, event@),
{
    match (state, event) {
        (State::Opening { t }, Event::Ready) => t.pos <= u64::MAX - CHUNK,
        (State::Writing { t, ranged, n }, Event::Ready) => {
            if t.pos > u64::MAX - *n {
                return false;
            }
            let pos: u64 = t.pos + *n;
            let reached: bool = match t.total {
                Some(total) => pos >= total,
                None => false,
            };
            !*ranged || reached || *n < CHUNK || pos <= u64::MAX - CHUNK
        },
        (_, Event::Response { status, .. }) => 100 <= *status && *status <= 999,
        _ => true,
    }
}

/// The name of a stage in the reports to the player.
pub fn phase(stage: Stage) -> (r: &'static str)
    ensures
        r@ == match stage {
            Stage::Extracting => "extracting"@,
            Stage::Downloading => "downloading"@,
        },
{
    match stage {
        Stage::Extracting => "extracting",
        Stage::Downloading => "downloading",
    }
}

/// Starts a download, given whether the song is filed already.
pub fn begin(job: Job<String>, known: bool) -> (r: (State<String>, Vec<Action<String>>))
    ensures
        (r.0@, actions_view(r.1@)) == start_of(job@, known),
{
    let id: String = job.video_id.clone();
    if known {
        let actions: Vec<Action<String>> = vec![Action::Done { id }, Action::List];
        assert(actions_view(actions@) =~= start_of(job@, known).1);
        (State::Finished, actions)
    } else {
        let actions: Vec<Action<String>> = vec![
            Action::Progress {
                id: id.clone(),
                stage: Stage::Extracting,
                received: 0,
                total: None,
            },
            Action::Await { id: id.clone() },
            Action::OpenExtractor { id },
        ];
        assert(actions_view(actions@) =~= start_of(job@, known).1);
        (State::Extracting { job }, actions)
    }
}

/// `a` followed by `b`.
fn joined(a: &str, b: &str) -> (r: String)
    ensures
        r@ == a@ + b@,
{
    let mut s: String = a.to_string();
    s.append(b);
    s
}

/// The name of the file that the transfer writes.
fn part(t: &Transfer<String>) -> (r: String)
    ensures
        r@ == part_of(t@),
{
    download::part_name(t.job.video_id.as_str(), t.ext.as_str())
}

/// Ends a transfer that failed.
fn fail(t: &Transfer<String>, message: String) -> (r: (State<String>, Vec<Action<String>>))
    ensures
        (r.0@, actions_view(r.1@)) == failed(t@, message@),
{
    let ghost shown = message@;
    let actions: Vec<Action<String>> = vec![
        Action::RemovePart { part: part(t) },
        Action::Error { id: t.job.video_id.clone(), message },
    ];
    assert(actions_view(actions@) =~= failed(t@, shown).1);
    (State::Finished, actions)
}

/// The request for the bytes that follow those written so far.
fn request(t: &Transfer<String>) -> (r: Action<String>)
    requires
        t.pos + CHUNK <= u64::MAX,
    ensures
        r@ == next_request(t@),
{
    Action::Request {
        url: t.url.clone(),
        range: serve::range_header(t.pos, t.pos + CHUNK - 1),
    }
}

/// The message of a transfer that the server refused with the status that `status` displays.
pub fn refusal(status: &str) -> (r: String)
    ensures
        r@ == "download failed: HTTP "@ + status@,
{
    joined("download failed: HTTP ", status)
}

/// Begins the transfer of the stream that the extractor page reported.
fn start_transfer(job: Job<String>, x: Extracted<String>) -> (r: Transfer<String>)
    ensures
        r@ == transfer_of(job@, x@),
{
    let ext: String = download::ext_for(x.mime.as_str(), x.itag);
    let mime: String = if x.mime.as_str().is_empty() {
        download::default_mime(ext.as_str())
    } else {
        x.mime
    };
    Transfer {
        job,
        url: x.url,
        ext,
        mime,
        title: x.title,
        author: x.author,
        pos: 0,
        total: x.content_length,
    }
}

/// Handles an answer to a ranged request.
fn on_response(t: Transfer<String>, status: u16, content_range: Option<String>) -> (r: (
    State<String>,
    Vec<Action<String>>,
))
    requires
        100 <= status <= 999,
    ensures
        (r.0@, actions_view(r.1@)) == after_response(
            t@,
            status,
            text::opt_string_view(content_range),
        ),
{
    if 200 <= status && status <= 299 {
        let ranged: bool = status == 206;
        let total: Option<u64> = if t.total.is_none() && ranged {
            match &content_range {
                Some(h) => serve::content_range_total(h.as_str()),
                None => None,
            }
        } else {
            t.total
        };
        let actions: Vec<Action<String>> = vec![Action::ReadBody];
        assert(actions_view(actions@) =~= seq![Action::ReadBody]);
        (State::Reading { t: Transfer { total, ..t }, ranged }, actions)
    } else if status == 416 && t.pos > 0 {
        let actions: Vec<Action<String>> = vec![Action::Flush];
        assert(actions_view(actions@) =~= seq![Action::Flush]);
        (State::Flushing { t }, actions)
    } else {
        let shown: String = outside::status_text(status).unwrap();
        fail(&t, refusal(shown.as_str()))
    }
}

/// Handles the end of the writing of a body of `n` bytes.
fn on_written(t: Transfer<String>, ranged: bool, n: u64) -> (r: (
    State<String>,
    Vec<Action<String>>,
))
    requires
        t.pos + n <= u64::MAX,
        !complete(Transfer { pos: (t.pos + n) as u64, ..t@ }, ranged, n) ==> t.pos + n + CHUNK
            <= u64::MAX,
    ensures
        (r.0@, actions_view(r.1@)) == after_write(t@, ranged, n),
{
    let ghost want = after_write(t@, ranged, n);
    let pos: u64 = t.pos + n;
    let t: Transfer<String> = Transfer { pos, ..t };
    let progress: Action<String> = Action::Progress {
        id: t.job.video_id.clone(),
        stage: Stage::Downloading,
        received: t.pos,
        total: t.total,
    };
    let reached: bool = match t.total {
        Some(total) => t.pos >= total,
        None => false,
    };
    if !ranged || reached || n < CHUNK {
        let actions: Vec<Action<String>> = vec![progress, Action::Flush];
        assert(actions_view(actions@) =~= want.1);
        (State::Flushing { t }, actions)
    } else {
        let actions: Vec<Action<String>> = vec![progress, request(&t)];
        assert(actions_view(actions@) =~= want.1);
        (State::Requesting { t }, actions)
    }
}

/// Ends a download whose stream could not be read.
fn give_up(job: Job<String>, message: String) -> (r: (State<String>, Vec<Action<String>>))
    ensures
        r.0@ == State::<Seq<char>>::Finished,
        actions_view(r.1@) == seq![
            Action::Forget { id: job.video_id@ },
            Action::ParkExtractor,
            Action::Error { id: job.video_id@, message: message@ },
        ],
{
    let ghost id = job.video_id@;
    let ghost shown = message@;
    let actions: Vec<Action<String>> = vec![
        Action::Forget { id: job.video_id.clone() },
        Action::ParkExtractor,
        Action::Error { id: job.video_id, message },
    ];
    assert(actions_view(actions@) =~= seq![
        Action::Forget { id },
        Action::ParkExtractor,
        Action::Error { id, message: shown },
    ]);
    (State::Finished, actions)
}

/// One step of a download: what the event leads to, and the outside work that comes next.
pub fn step(state: State<String>, event: Event<String>) -> (r: (
    State<String>,
    Vec<Action<String>>,
))
    requires
        within_limits(state@, event@),
    ensures
        (r.0@, actions_view(r.1@)) == next(state@, event@),
{
    let ghost want = next(state@, event@);
    match (state, event) {
        (State::Extracting { job }, Event::Extracted(x)) => {
            let actions: Vec<Action<String>> = vec![Action::ParkExtractor, Action::CreateFolder];
            assert(actions_view(actions@) =~= want.1);
            (State::Folder { t: start_transfer(job, x) }, actions)
        },
        (State::Extracting { job }, Event::ExtractFailed(reason)) => {
            give_up(job, joined("could not read the audio stream: ", reason.as_str()))
        },
        (State::Extracting { job }, Event::TimedOut) => {
            give_up(job, "timed out reading the audio stream".to_string())
        },
        (State::Folder { t }, Event::Ready) => {
            let actions: Vec<Action<String>> = vec![
                Action::Progress {
                    id: t.job.video_id.clone(),
                    stage: Stage::Downloading,
                    received: 0,
                    total: t.total,
                },
                Action::OpenPart { part: part(&t) },
            ];
            assert(actions_view(actions@) =~= want.1);
            (State::Opening { t }, actions)
        },
        (State::Folder { t }, Event::Failed(e)) => {
            let actions: Vec<Action<String>> = vec![
                Action::Error {
                    id: t.job.video_id,
                    message: joined("cannot create downloads folder: ", e.as_str()),
                },
            ];
            assert(actions_view(actions@) =~= want.1);
            (State::Finished, actions)
        },
        (State::Opening { t }, Event::Ready) => {
            let actions: Vec<Action<String>> = vec![request(&t)];
            assert(actions_view(actions@) =~= want.1);
            (State::Requesting { t }, actions)
        },
        (State::Opening { t }, Event::Failed(e)) => fail(&t, joined("download failed: ", e.as_str())),
        (State::Requesting { t }, Event::Response { status, content_range }) => on_response(
            t,
            status,
            content_range,
        ),
        (State::Requesting { t }, Event::Failed(e)) => fail(
            &t,
            joined("download failed: ", e.as_str()),
        ),
        (State::Reading { t, ranged }, Event::Body(n)) => if n == 0 {
            let actions: Vec<Action<String>> = vec![Action::Flush];
            assert(actions_view(actions@) =~= want.1);
            (State::Flushing { t }, actions)
        } else {
            let actions: Vec<Action<String>> = vec![Action::WriteBody];
            assert(actions_view(actions@) =~= want.1);
            (State::Writing { t, ranged, n }, actions)
        },
        (State::Reading { t, ranged: _ }, Event::Failed(e)) => fail(
            &t,
            joined("download failed: ", e.as_str()),
        ),
        (State::Writing { t, ranged, n }, Event::Ready) => on_written(t, ranged, n),
        (State::Writing { t, ranged: _, n: _ }, Event::Failed(e)) => fail(
            &t,
            joined("download failed: ", e.as_str()),
        ),
        (State::Flushing { t }, Event::Ready) => if t.pos == 0 {
            fail(&t, "download produced an empty file".to_string())
        } else {
            let actions: Vec<Action<String>> = vec![
                Action::Rename {
                    part: part(&t),
                    file: download::file_name(t.job.video_id.as_str(), t.ext.as_str()),
                },
            ];
            assert(actions_view(actions@) =~= want.1);
            (State::Renaming { t }, actions)
        },
        (State::Flushing { t }, Event::Failed(e)) => fail(
            &t,
            joined("download failed: ", e.as_str()),
        ),
        (State::Renaming { t }, Event::Renamed(now)) => {
            let id: String = t.job.video_id.clone();
            let entry: Entry<String> = Entry {
                video_id: id.clone(),
                title: download::pick(t.job.title.as_str(), t.title.as_str(), id.as_str()),
                artist: download::pick(t.job.artist.as_str(), t.author.as_str(), ""),
                ext: t.ext,
                mime: t.mime,
                bytes: t.pos,
                added: now,
            };
            let actions: Vec<Action<String>> = vec![
                Action::Record { entry },
                Action::Done { id },
                Action::List,
            ];
            assert(actions_view(actions@) =~= want.1);
            (State::Finished, actions)
        },
        (State::Renaming { t }, Event::Failed(e)) => fail(
            &t,
            joined("could not finalize file: ", e.as_str()),
        ),
        (state, _) => {
            let actions: Vec<Action<String>> = Vec::new();
            assert(actions_view(actions@) =~= want.1);
            (state, actions)
        },
    }
}

// ---------------------------------------------------------------------------
// Laws
// ---------------------------------------------------------------------------

/// A whole download: the state that the events lead to, and all actions on the way.
pub open spec fn run(job: Job<Seq<char>>, known: bool, events: Seq<Event<Seq<char>>>) -> (
    State<Seq<char>>,
    Seq<Action<Seq<char>>>,
)
    decreases events.len(),
{
    if events.len() == 0 {
        start_of(job, known)
    } else {
        let before = run(job, known, events.drop_last());
        let after = next(before.0, events.last());
        (after.0, before.1 + after.1)
    }
}

/// Whether an action tells the player how the download ended.
pub open spec fn is_verdict(action: Action<Seq<char>>) -> bool {
    action is Done || action is Error
}

/// How often the player is told how the download ended.
pub open spec fn verdicts(actions: Seq<Action<Seq<char>>>) -> nat
    decreases actions.len(),
{
    if actions.len() == 0 {
        0
    } else {
        verdicts(actions.drop_last()) + (if is_verdict(actions.last()) {
            1nat
        } else {
            0nat
        })
    }
}

/// Whether a part file may lie in the folder after the actions: it was opened, and neither deleted
/// nor filed since.
pub open spec fn part_left(actions: Seq<Action<Seq<char>>>) -> bool
    decreases actions.len(),
{
    if actions.len() == 0 {
        false
    } else {
        match actions.last() {
            Action::OpenPart { .. } => true,
            Action::RemovePart { .. } => false,
            Action::Record { .. } => false,
            _ => part_left(actions.drop_last()),
        }
    }
}

/// Whether the extractor page is at work after the actions.
pub open spec fn extractor_busy(actions: Seq<Action<Seq<char>>>) -> bool
    decreases actions.len(),
{
    if actions.len() == 0 {
        false
    } else {
        match actions.last() {
            Action::OpenExtractor { .. } => true,
            Action::ParkExtractor => false,
            _ => extractor_busy(actions.drop_last()),
        }
    }
}

/// The lengths of the bodies that were written on the way.
pub open spec fn bytes_written(job: Job<Seq<char>>, known: bool, events: Seq<Event<Seq<char>>>) -> nat
    decreases events.len(),
{
    if events.len() == 0 {
        0
    } else {
        let before = bytes_written(job, known, events.drop_last());
        match (run(job, known, events.drop_last()).0, events.last()) {
            (State::Writing { n, .. }, Event::Ready) => before + n as nat,
            _ => before,
        }
    }
}

/// Whether every step of a download stays within the limits that `step` asks for.
pub open spec fn run_within_limits(
    job: Job<Seq<char>>,
    known: bool,
    events: Seq<Event<Seq<char>>>,
) -> bool {
    forall|i: int|
        0 <= i < events.len() ==> #[trigger] within_limits(
            run(job, known, events.take(i)).0,
            events[i],
        )
}

/// The transfer that a state holds.
pub open spec fn transfer_in(state: State<Seq<char>>) -> Option<Transfer<Seq<char>>> {
    match state {
        State::Extracting { .. } => None,
        State::Folder { t } => Some(t),
        State::Opening { t } => Some(t),
        State::Requesting { t } => Some(t),
        State::Reading { t, .. } => Some(t),
        State::Writing { t, .. } => Some(t),
        State::Flushing { t } => Some(t),
        State::Renaming { t } => Some(t),
        State::Finished => None,
    }
}

/// Whether the part file may exist in a state.
pub open spec fn has_part(state: State<Seq<char>>) -> bool {
    transfer_in(state) is Some && !(state is Folder)
}

proof fn lemma_verdicts_add(a: Seq<Action<Seq<char>>>, b: Seq<Action<Seq<char>>>)
    ensures
        verdicts(a + b) == verdicts(a) + verdicts(b),
    decreases b.len(),
{
    if b.len() == 0 {
        assert(a + b =~= a);
    } else {
        assert((a + b).drop_last() =~= a + b.drop_last());
        lemma_verdicts_add(a, b.drop_last());
    }
}

proof fn lemma_verdicts_short(a: Seq<Action<Seq<char>>>)
    requires
        a.len() <= 3,
    ensures
        verdicts(a) == (if a.len() > 0 && is_verdict(a[0]) {
            1nat
        } else {
            0nat
        }) + (if a.len() > 1 && is_verdict(a[1]) {
            1nat
        } else {
            0nat
        }) + (if a.len() > 2 && is_verdict(a[2]) {
            1nat
        } else {
            0nat
        }),
{
    reveal_with_fuel(verdicts, 4);
}

proof fn lemma_next_short(state: State<Seq<char>>, event: Event<Seq<char>>)
    ensures
        next(state, event).1.len() <= 3,
{
}

/// The player hears exactly one verdict on a download: none while it runs, and one, that it is
/// done or that it failed, once nothing is left to do.
pub proof fn law_one_verdict(job: Job<Seq<char>>, known: bool, events: Seq<Event<Seq<char>>>)
    ensures
        verdicts(run(job, known, events).1) == (if run(job, known, events).0 is Finished {
            1nat
        } else {
            0nat
        }),
    decreases events.len(),
{
    if events.len() == 0 {
        lemma_verdicts_short(start_of(job, known).1);
    } else {
        law_one_verdict(job, known, events.drop_last());
        let before = run(job, known, events.drop_last());
        let after = next(before.0, events.last());
        lemma_verdicts_add(before.1, after.1);
        lemma_next_short(before.0, events.last());
        lemma_verdicts_short(after.1);
    }
}

/// What one action does to the part file.
spec fn part_left_one(before: bool, action: Action<Seq<char>>) -> bool {
    match action {
        Action::OpenPart { .. } => true,
        Action::RemovePart { .. } => false,
        Action::Record { .. } => false,
        _ => before,
    }
}

/// What up to three actions do to the part file.
spec fn part_left_short(before: bool, b: Seq<Action<Seq<char>>>) -> bool {
    let one = if b.len() > 0 {
        part_left_one(before, b[0])
    } else {
        before
    };
    let two = if b.len() > 1 {
        part_left_one(one, b[1])
    } else {
        one
    };
    if b.len() > 2 {
        part_left_one(two, b[2])
    } else {
        two
    }
}

proof fn lemma_part_left_push(a: Seq<Action<Seq<char>>>, action: Action<Seq<char>>)
    ensures
        part_left(a.push(action)) == part_left_one(part_left(a), action),
{
    assert(a.push(action).drop_last() =~= a);
}

proof fn lemma_part_left_add(a: Seq<Action<Seq<char>>>, b: Seq<Action<Seq<char>>>)
    requires
        b.len() <= 3,
    ensures
        part_left(a + b) == part_left_short(part_left(a), b),
{
    if b.len() > 0 {
        lemma_part_left_push(a, b[0]);
    }
    if b.len() > 1 {
        lemma_part_left_push(a.push(b[0]), b[1]);
    }
    if b.len() > 2 {
        lemma_part_left_push(a.push(b[0]).push(b[1]), b[2]);
        assert(a + b =~= a.push(b[0]).push(b[1]).push(b[2]));
    } else if b.len() == 2 {
        assert(a + b =~= a.push(b[0]).push(b[1]));
    } else if b.len() == 1 {
        assert(a + b =~= a.push(b[0]));
    } else {
        assert(a + b =~= a);
    }
}

proof fn lemma_part_step(state: State<Seq<char>>, event: Event<Seq<char>>)
    ensures
        part_left_short(has_part(state), next(state, event).1) == has_part(next(state, event).0),
{
}

/// A download leaves no part file behind: one may lie in the folder only while the download is
/// between opening it and its end.
pub proof fn law_no_part_left(job: Job<Seq<char>>, known: bool, events: Seq<Event<Seq<char>>>)
    ensures
        part_left(run(job, known, events).1) == has_part(run(job, known, events).0),
        run(job, known, events).0 is Finished ==> !part_left(run(job, known, events).1),
    decreases events.len(),
{
    if events.len() == 0 {
        let a = start_of(job, known).1;
        let none = Seq::<Action<Seq<char>>>::empty();
        assert(none + a =~= a);
        lemma_part_left_add(none, a);
    } else {
        let before = run(job, known, events.drop_last());
        law_no_part_left(job, known, events.drop_last());
        lemma_next_short(before.0, events.last());
        lemma_part_left_add(before.1, next(before.0, events.last()).1);
        lemma_part_step(before.0, events.last());
    }
}

/// What one action does to the extractor page.
spec fn busy_one(before: bool, action: Action<Seq<char>>) -> bool {
    match action {
        Action::OpenExtractor { .. } => true,
        Action::ParkExtractor => false,
        _ => before,
    }
}

/// What up to three actions do to the extractor page.
spec fn busy_short(before: bool, b: Seq<Action<Seq<char>>>) -> bool {
    let one = if b.len() > 0 {
        busy_one(before, b[0])
    } else {
        before
    };
    let two = if b.len() > 1 {
        busy_one(one, b[1])
    } else {
        one
    };
    if b.len() > 2 {
        busy_one(two, b[2])
    } else {
        two
    }
}

proof fn lemma_busy_push(a: Seq<Action<Seq<char>>>, action: Action<Seq<char>>)
    ensures
        extractor_busy(a.push(action)) == busy_one(extractor_busy(a), action),
{
    assert(a.push(action).drop_last() =~= a);
}

proof fn lemma_busy_add(a: Seq<Action<Seq<char>>>, b: Seq<Action<Seq<char>>>)
    requires
        b.len() <= 3,
    ensures
        extractor_busy(a + b) == busy_short(extractor_busy(a), b),
{
    if b.len() > 0 {
        lemma_busy_push(a, b[0]);
    }
    if b.len() > 1 {
        lemma_busy_push(a.push(b[0]), b[1]);
    }
    if b.len() > 2 {
        lemma_busy_push(a.push(b[0]).push(b[1]), b[2]);
        assert(a + b =~= a.push(b[0]).push(b[1]).push(b[2]));
    } else if b.len() == 2 {
        assert(a + b =~= a.push(b[0]).push(b[1]));
    } else if b.len() == 1 {
        assert(a + b =~= a.push(b[0]));
    } else {
        assert(a + b =~= a);
    }
}

proof fn lemma_busy_step(state: State<Seq<char>>, event: Event<Seq<char>>)
    ensures
        busy_short(state is Extracting, next(state, event).1) == (next(state, event).0 is Extracting),
{
}

/// The extractor page is sent away again: it is at work exactly while its report is awaited.
pub proof fn law_extractor_parked(job: Job<Seq<char>>, known: bool, events: Seq<Event<Seq<char>>>)
    ensures
        extractor_busy(run(job, known, events).1) == (run(job, known, events).0 is Extracting),
    decreases events.len(),
{
    if events.len() == 0 {
        let a = start_of(job, known).1;
        let none = Seq::<Action<Seq<char>>>::empty();
        assert(none + a =~= a);
        lemma_busy_add(none, a);
    } else {
        let before = run(job, known, events.drop_last());
        law_extractor_parked(job, known, events.drop_last());
        lemma_next_short(before.0, events.last());
        lemma_busy_add(before.1, next(before.0, events.last()).1);
        lemma_busy_step(before.0, events.last());
    }
}

/// Whether a state holds the job, with `written` bytes behind it.
spec fn stands_at(state: State<Seq<char>>, job: Job<Seq<char>>, written: nat) -> bool {
    &&& transfer_in(state) matches Some(t) ==> t.job == job && t.pos == written
    &&& state matches State::Extracting { job: j } ==> j == job && written == 0
}

proof fn lemma_position_step(
    state: State<Seq<char>>,
    event: Event<Seq<char>>,
    job: Job<Seq<char>>,
    written: nat,
)
    requires
        within_limits(state, event),
        stands_at(state, job, written),
    ensures
        stands_at(
            next(state, event).0,
            job,
            match (state, event) {
                (State::Writing { n, .. }, Event::Ready) => written + n as nat,
                _ => written,
            },
        ),
{
}

proof fn lemma_limits_before(job: Job<Seq<char>>, known: bool, events: Seq<Event<Seq<char>>>)
    requires
        events.len() > 0,
        run_within_limits(job, known, events),
    ensures
        within_limits(run(job, known, events.drop_last()).0, events.last()),
        run_within_limits(job, known, events.drop_last()),
{
    let n = events.len() - 1;
    assert(events.take(n) =~= events.drop_last());
    assert(within_limits(run(job, known, events.take(n)).0, events[n]));
    assert forall|i: int| 0 <= i < n implies #[trigger] within_limits(
        run(job, known, events.drop_last().take(i)).0,
        events.drop_last()[i],
    ) by {
        assert(events.drop_last().take(i) =~= events.take(i));
        assert(within_limits(run(job, known, events.take(i)).0, events[i]));
    }
}

/// A download keeps its job, and its position is the number of bytes that were written.
pub proof fn law_position_counts_bytes(
    job: Job<Seq<char>>,
    known: bool,
    events: Seq<Event<Seq<char>>>,
)
    requires
        run_within_limits(job, known, events),
    ensures
        match transfer_in(run(job, known, events).0) {
            Some(t) => t.job == job && t.pos == bytes_written(job, known, events),
            None => true,
        },
        run(job, known, events).0 matches State::Extracting { job: j } ==> j == job
            && bytes_written(job, known, events) == 0,
    decreases events.len(),
{
    if events.len() > 0 {
        let earlier = events.drop_last();
        lemma_limits_before(job, known, events);
        law_position_counts_bytes(job, known, earlier);
        lemma_position_step(
            run(job, known, earlier).0,
            events.last(),
            job,
            bytes_written(job, known, earlier),
        );
    }
}

/// Every request asks for the next mebibyte behind the bytes that were written, so nothing is
/// asked for twice and nothing is left out.
pub proof fn law_requests_are_contiguous(
    job: Job<Seq<char>>,
    known: bool,
    events: Seq<Event<Seq<char>>>,
    url: Seq<char>,
    range: Seq<char>,
)
    requires
        events.len() > 0,
        run_within_limits(job, known, events),
        next(run(job, known, events.drop_last()).0, events.last()).1.contains(
            Action::Request { url, range },
        ),
    ensures
        range == serve::range_request(
            bytes_written(job, known, events),
            (bytes_written(job, known, events) + CHUNK - 1) as nat,
        ),
        transfer_in(run(job, known, events).0) matches Some(t) && t.url == url,
{
    law_position_counts_bytes(job, known, events);
    let before = run(job, known, events.drop_last());
    let after = next(before.0, events.last());
    let i = choose|i: int|
        0 <= i < after.1.len() && after.1[i] == (Action::<Seq<char>>::Request { url, range });
    assert(after.1[i] == (Action::<Seq<char>>::Request { url, range }));
    assert(after.0 is Requesting);
}

/// Whether event `i` is the report of a stream that the download was waiting for.
pub open spec fn extracted_at(
    job: Job<Seq<char>>,
    known: bool,
    events: Seq<Event<Seq<char>>>,
    i: int,
) -> bool {
    &&& 0 <= i < events.len()
    &&& events[i] is Extracted
    &&& run(job, known, events.take(i)).0 is Extracting
}

/// Whether two transfers are of the same stream, at whatever positions.
spec fn same_stream(a: Transfer<Seq<char>>, b: Transfer<Seq<char>>) -> bool {
    a == (Transfer { pos: a.pos, total: a.total, ..b })
}

proof fn lemma_stream_step(state: State<Seq<char>>, event: Event<Seq<char>>)
    ensures
        match (transfer_in(state), transfer_in(next(state, event).0)) {
            (Some(t), Some(u)) => same_stream(u, t),
            (None, Some(u)) => state matches State::Extracting { job } && event
                matches Event::Extracted(x) && u == transfer_of(job, x),
            _ => true,
        },
{
}

proof fn lemma_job_kept(job: Job<Seq<char>>, known: bool, events: Seq<Event<Seq<char>>>)
    ensures
        run(job, known, events).0 matches State::Extracting { job: j } ==> j == job,
    decreases events.len(),
{
    if events.len() > 0 {
        lemma_job_kept(job, known, events.drop_last());
    }
}

/// A transfer is of the stream that the extractor page reported.
proof fn lemma_transfer_extracted(job: Job<Seq<char>>, known: bool, events: Seq<Event<Seq<char>>>)
    ensures
        transfer_in(run(job, known, events).0) matches Some(t) ==> exists|i: int| #[trigger]
            extracted_at(job, known, events, i) && same_stream(
                t,
                transfer_of(job, events[i]->Extracted_0),
            ),
    decreases events.len(),
{
    if events.len() > 0 {
        let earlier = events.drop_last();
        let n = events.len() - 1;
        let before = run(job, known, earlier).0;
        assert(events.take(n) =~= earlier);
        lemma_transfer_extracted(job, known, earlier);
        lemma_job_kept(job, known, earlier);
        lemma_stream_step(before, events.last());
        if let Some(u) = transfer_in(run(job, known, events).0) {
            match transfer_in(before) {
                Some(t) => {
                    let i = choose|i: int| #[trigger]
                        extracted_at(job, known, earlier, i) && same_stream(
                            t,
                            transfer_of(job, earlier[i]->Extracted_0),
                        );
                    assert(earlier.take(i) =~= events.take(i));
                    assert(extracted_at(job, known, events, i));
                },
                None => {
                    assert(extracted_at(job, known, events, n));
                },
            }
        }
    }
}

/// A song is filed only under the id that was asked for, after a body was written, with the number
/// of bytes that were written, at the time when its file got its final name, and with the extension,
/// the content type, the title and the artist that follow from the job and from the report of the
/// extractor page that the download was waiting for.
pub proof fn law_filed_as_written(
    job: Job<Seq<char>>,
    known: bool,
    events: Seq<Event<Seq<char>>>,
    entry: Entry<Seq<char>>,
)
    requires
        events.len() > 0,
        run_within_limits(job, known, events),
        next(run(job, known, events.drop_last()).0, events.last()).1.contains(
            Action::Record { entry },
        ),
    ensures
        entry.video_id == job.video_id,
        entry.bytes == bytes_written(job, known, events.drop_last()),
        entry.bytes > 0,
        events.last() matches Event::Renamed(now) && entry.added == now,
        exists|i: int| #[trigger]
            extracted_at(job, known, events, i) && i < events.len() - 1 && ({
                let x = events[i]->Extracted_0;
                &&& entry.ext == download::extension_of(x.mime, x.itag)
                &&& x.mime.len() > 0 ==> entry.mime == x.mime
                &&& x.mime.len() == 0 ==> entry.mime == download::mime_of_extension(entry.ext)
                &&& entry.title == download::first_nonblank(job.title, x.title, job.video_id)
                &&& entry.artist == download::first_nonblank(job.artist, x.author, ""@)
            }),
{
    let earlier = events.drop_last();
    lemma_limits_before(job, known, events);
    law_position_counts_bytes(job, known, earlier);
    lemma_renaming_nonempty(job, known, earlier);
    lemma_record_step(run(job, known, earlier).0, events.last(), entry);
    let t = run(job, known, earlier).0->Renaming_t;
    lemma_transfer_extracted(job, known, earlier);
    let i = choose|i: int| #[trigger]
        extracted_at(job, known, earlier, i) && same_stream(
            t,
            transfer_of(job, earlier[i]->Extracted_0),
        );
    assert(earlier.take(i) =~= events.take(i));
    assert(extracted_at(job, known, events, i));
}

/// A song is filed only when its file gets its final name.
proof fn lemma_record_step(
    state: State<Seq<char>>,
    event: Event<Seq<char>>,
    entry: Entry<Seq<char>>,
)
    requires
        next(state, event).1.contains(Action::Record { entry }),
    ensures
        state matches State::Renaming { t } && event matches Event::Renamed(now) && entry
            == entry_of(t, now),
{
    let actions = next(state, event).1;
    let i = choose|i: int|
        0 <= i < actions.len() && actions[i] == (Action::<Seq<char>>::Record { entry });
    assert(actions[i] == (Action::<Seq<char>>::Record { entry }));
    lemma_next_short(state, event);
    assert(i == 0 || i == 1 || i == 2);
}

/// Only a file that holds something is given its final name.
proof fn lemma_renaming_nonempty(job: Job<Seq<char>>, known: bool, events: Seq<Event<Seq<char>>>)
    ensures
        run(job, known, events).0 matches State::Renaming { t } ==> t.pos > 0,
    decreases events.len(),
{
    if events.len() > 0 {
        lemma_renaming_nonempty(job, known, events.drop_last());
    }
}

/// A transfer moves on: another range is asked for only after at least a whole one came, and only
/// while the known size of the stream is not reached.
pub proof fn law_transfer_moves_on(
    t: Transfer<Seq<char>>,
    ranged: bool,
    n: u64,
    after: Transfer<Seq<char>>,
)
    requires
        t.pos + n <= u64::MAX,
        next(State::Writing { t, ranged, n }, Event::Ready).0 == (State::Requesting { t: after }),
    ensures
        after.pos >= t.pos + CHUNK,
        after.total == t.total,
        after.total matches Some(total) ==> after.pos < total,
{
}

/// A filed song always has a title: the id stands in where neither the player nor the page knows
/// one.
pub proof fn law_filed_title_not_blank(t: Transfer<Seq<char>>, now: u64)
    requires
        download::is_valid_id(t.job.video_id),
    ensures
        entry_of(t, now).title.len() > 0,
{
    let id = t.job.video_id;
    assert(download::id_char(id[0]));
    assert(download::id_char(id[10]));
    assert(!text::white_space(id.first()));
    assert(!text::white_space(id.last()));
    assert(text::trimmed(id) == id);
}

/// The size of the whole stream, as far as it was stated: by the report of the extractor page, or
/// else by the first partial answer that states it.
pub open spec fn stated_size(job: Job<Seq<char>>, known: bool, events: Seq<Event<Seq<char>>>) -> Option<
    u64,
>
    decreases events.len(),
{
    if events.len() == 0 {
        None
    } else {
        let before = stated_size(job, known, events.drop_last());
        match (run(job, known, events.drop_last()).0, events.last()) {
            (State::Extracting { .. }, Event::Extracted(x)) => x.content_length,
            (State::Requesting { .. }, Event::Response { status, content_range: Some(h) }) => {
                if before is None && status == 206 {
                    serve::total_of(h)
                } else {
                    before
                }
            },
            _ => before,
        }
    }
}

/// The status of the last answer to a request for a range.
pub open spec fn last_status(job: Job<Seq<char>>, known: bool, events: Seq<Event<Seq<char>>>) -> Option<
    u16,
>
    decreases events.len(),
{
    if events.len() == 0 {
        None
    } else {
        match (run(job, known, events.drop_last()).0, events.last()) {
            (State::Requesting { .. }, Event::Response { status, .. }) => Some(status),
            _ => last_status(job, known, events.drop_last()),
        }
    }
}

/// The length of the last body that was read.
pub open spec fn last_body(job: Job<Seq<char>>, known: bool, events: Seq<Event<Seq<char>>>) -> Option<
    u64,
>
    decreases events.len(),
{
    if events.len() == 0 {
        None
    } else {
        match (run(job, known, events.drop_last()).0, events.last()) {
            (State::Reading { .. }, Event::Body(n)) => Some(n),
            _ => last_body(job, known, events.drop_last()),
        }
    }
}

/// Whether a state goes by a size, by the status of the last answer and by the length of the last
/// body.
spec fn goes_by(
    state: State<Seq<char>>,
    size: Option<u64>,
    status: Option<u16>,
    body: Option<u64>,
) -> bool {
    &&& state is Extracting ==> size is None
    &&& transfer_in(state) matches Some(t) ==> t.total == size
    &&& state matches State::Reading { ranged, .. } ==> status is Some && ranged == (status == Some(
        206u16,
    ))
    &&& state matches State::Writing { ranged, n, .. } ==> status is Some && ranged == (status
        == Some(206u16)) && body == Some(n) && n > 0
}

proof fn lemma_goes_by_step(
    state: State<Seq<char>>,
    event: Event<Seq<char>>,
    size: Option<u64>,
    status: Option<u16>,
    body: Option<u64>,
)
    requires
        goes_by(state, size, status, body),
    ensures
        goes_by(
            next(state, event).0,
            match (state, event) {
                (State::Extracting { .. }, Event::Extracted(x)) => x.content_length,
                (State::Requesting { .. }, Event::Response { status, content_range: Some(h) }) => {
                    if size is None && status == 206 {
                        serve::total_of(h)
                    } else {
                        size
                    }
                },
                _ => size,
            },
            match (state, event) {
                (State::Requesting { .. }, Event::Response { status: s, .. }) => Some(s),
                _ => status,
            },
            match (state, event) {
                (State::Reading { .. }, Event::Body(n)) => Some(n),
                _ => body,
            },
        ),
{
}

proof fn lemma_goes_by(job: Job<Seq<char>>, known: bool, events: Seq<Event<Seq<char>>>)
    ensures
        goes_by(
            run(job, known, events).0,
            stated_size(job, known, events),
            last_status(job, known, events),
            last_body(job, known, events),
        ),
    decreases events.len(),
{
    if events.len() > 0 {
        let earlier = events.drop_last();
        lemma_goes_by(job, known, earlier);
        lemma_goes_by_step(
            run(job, known, earlier).0,
            events.last(),
            stated_size(job, known, earlier),
            last_status(job, known, earlier),
            last_body(job, known, earlier),
        );
    }
}

proof fn lemma_extracting_left(state: State<Seq<char>>, event: Event<Seq<char>>)
    ensures
        !(state is Extracting) ==> !(next(state, event).0 is Extracting),
        state is Extracting && event is Extracted ==> !(next(state, event).0 is Extracting),
{
}

proof fn lemma_not_extracting_again(
    job: Job<Seq<char>>,
    known: bool,
    events: Seq<Event<Seq<char>>>,
    i: int,
)
    requires
        extracted_at(job, known, events, i),
    ensures
        !(run(job, known, events).0 is Extracting),
    decreases events.len(),
{
    let earlier = events.drop_last();
    lemma_extracting_left(run(job, known, earlier).0, events.last());
    if i == events.len() - 1 {
        assert(events.take(i) =~= earlier);
    } else {
        assert(events.take(i) =~= earlier.take(i));
        lemma_not_extracting_again(job, known, earlier, i);
    }
}

/// A download goes by the size that the extractor page reported: from that report on, every state
/// of the transfer holds it, whatever the server says.
pub proof fn law_reported_size_kept(
    job: Job<Seq<char>>,
    known: bool,
    events: Seq<Event<Seq<char>>>,
    i: int,
    size: u64,
)
    requires
        extracted_at(job, known, events, i),
        events[i]->Extracted_0.content_length == Some(size),
    ensures
        stated_size(job, known, events) == Some(size),
        transfer_in(run(job, known, events).0) matches Some(t) ==> t.total == Some(size),
    decreases events.len(),
{
    lemma_goes_by(job, known, events);
    let earlier = events.drop_last();
    if i == events.len() - 1 {
        assert(events.take(i) =~= earlier);
    } else {
        assert(events.take(i) =~= earlier.take(i));
        assert(extracted_at(job, known, earlier, i));
        law_reported_size_kept(job, known, earlier, i, size);
        lemma_not_extracting_again(job, known, earlier, i);
    }
}

/// Without a size in the report, a download goes by the size that the first partial answer states,
/// once one does.
pub proof fn law_size_as_stated(job: Job<Seq<char>>, known: bool, events: Seq<Event<Seq<char>>>)
    ensures
        transfer_in(run(job, known, events).0) matches Some(t) ==> t.total == stated_size(
            job,
            known,
            events,
        ),
{
    lemma_goes_by(job, known, events);
}

/// What is written is the last body that was read, as long as it was.
pub proof fn law_body_is_written_whole(
    job: Job<Seq<char>>,
    known: bool,
    events: Seq<Event<Seq<char>>>,
)
    ensures
        run(job, known, events).0 matches State::Writing { ranged, n, .. } ==> last_body(
            job,
            known,
            events,
        ) == Some(n) && ranged == (last_status(job, known, events) == Some(206u16)),
{
    lemma_goes_by(job, known, events);
}

/// Once a body is written, the next range is asked for exactly if the server sends ranges, the body
/// was a whole mebibyte, and the stated size, if there is one, has not come yet; else the transfer is
/// over.
pub proof fn law_fetched_until_all_has_come(
    job: Job<Seq<char>>,
    known: bool,
    events: Seq<Event<Seq<char>>>,
)
    requires
        events.len() > 0,
        run_within_limits(job, known, events),
        run(job, known, events.drop_last()).0 is Writing,
        events.last() is Ready,
    ensures
        ({
            let after = run(job, known, events).0;
            let goes_on = last_status(job, known, events) == Some(206u16) && last_body(
                job,
                known,
                events,
            )->0 >= 1048576 && !(stated_size(job, known, events) matches Some(size) && bytes_written(
                job,
                known,
                events,
            ) >= size);
            &&& after is Requesting <==> goes_on
            &&& after is Flushing <==> !goes_on
        }),
{
    let earlier = events.drop_last();
    lemma_goes_by(job, known, earlier);
    lemma_limits_before(job, known, events);
    law_position_counts_bytes(job, known, earlier);
}

/// No song is cut off: a download that gets whole ranges comes to its end only when as many bytes
/// were written as the extractor page reported.
pub proof fn law_song_not_cut_off(
    job: Job<Seq<char>>,
    known: bool,
    events: Seq<Event<Seq<char>>>,
    i: int,
    size: u64,
)
    requires
        events.len() > 0,
        run_within_limits(job, known, events),
        extracted_at(job, known, events, i),
        events[i]->Extracted_0.content_length == Some(size),
        run(job, known, events.drop_last()).0 is Writing,
        run(job, known, events).0 is Flushing,
        last_status(job, known, events) == Some(206u16),
        last_body(job, known, events)->0 >= 1048576,
    ensures
        bytes_written(job, known, events) >= size,
{
    let earlier = events.drop_last();
    lemma_goes_by(job, known, earlier);
    assert(events.last() is Ready) by {
        lemma_writing_ends(run(job, known, earlier).0, events.last());
    }
    law_fetched_until_all_has_come(job, known, events);
    law_reported_size_kept(job, known, events, i, size);
}

proof fn lemma_writing_ends(state: State<Seq<char>>, event: Event<Seq<char>>)
    requires
        state is Writing,
        next(state, event).0 is Flushing,
    ensures
        event is Ready,
{
}

/// A transfer comes to its end in one of three ways: after a written body, as
/// `law_fetched_until_all_has_come` says; with an empty body; or when the server refuses a range
/// because the bytes that came are all there are.
pub proof fn law_ends_of_a_transfer(
    job: Job<Seq<char>>,
    known: bool,
    events: Seq<Event<Seq<char>>>,
)
    requires
        events.len() > 0,
        run_within_limits(job, known, events),
        !(run(job, known, events.drop_last()).0 is Flushing),
        !(run(job, known, events.drop_last()).0 is Writing),
    ensures
        ({
            let before = run(job, known, events.drop_last()).0;
            run(job, known, events).0 is Flushing <==> (before is Reading && events.last()
                == Event::<Seq<char>>::Body(0)) || (before is Requesting && (events.last() matches
                Event::Response { status, .. } && status == 416 && bytes_written(
                job,
                known,
                events,
            ) > 0))
        }),
{
    lemma_limits_before(job, known, events);
    law_position_counts_bytes(job, known, events.drop_last());
    lemma_into_flushing(run(job, known, events.drop_last()).0, events.last());
}

proof fn lemma_into_flushing(state: State<Seq<char>>, event: Event<Seq<char>>)
    requires
        !(state is Flushing),
        !(state is Writing),
    ensures
        next(state, event).0 is Flushing <==> (state is Reading && event == Event::<
            Seq<char>,
        >::Body(0)) || (state matches State::Requesting { t } && event matches Event::Response {
            status,
            ..
        } && status == 416 && t.pos > 0),
{
}

/// An event that a state waits for.
pub open spec fn awaited(state: State<Seq<char>>, event: Event<Seq<char>>) -> bool {
    match state {
        State::Extracting { .. } => event is Extracted || event is ExtractFailed || event is TimedOut,
        State::Folder { .. } | State::Opening { .. } | State::Writing { .. } | State::Flushing {
            ..
        } => event is Ready || event is Failed,
        State::Requesting { .. } => event is Response || event is Failed,
        State::Reading { .. } => event is Body || event is Failed,
        State::Renaming { .. } => event is Renamed || event is Failed,
        State::Finished => false,
    }
}

/// A download takes its steps in order, and an event that it does not wait for changes nothing: the
/// folder, the part file, then ranges that are requested, read and written, then the flush and the
/// rename, which ends it.
pub proof fn law_steps_in_order(state: State<Seq<char>>, event: Event<Seq<char>>)
    ensures
        ({
            let (after, actions) = next(state, event);
            &&& !awaited(state, event) ==> after == state && actions.len() == 0
            &&& state is Extracting && event is Extracted ==> after is Folder
            &&& state is Folder && event is Ready ==> after is Opening
            &&& state is Opening && event is Ready ==> after is Requesting
            &&& state is Requesting && (event matches Event::Response { status, .. } && 200 <= status
                <= 299) ==> after is Reading
            &&& state is Reading && (event matches Event::Body(n) && n > 0) ==> after is Writing
            &&& (state matches State::Flushing { t } && t.pos > 0) && event is Ready ==> after is Renaming
            &&& state is Renaming && event is Renamed ==> after is Finished
        }),
{
}

/// What a state waits for was asked for last.
pub proof fn law_awaited_work_is_asked_for(state: State<Seq<char>>, event: Event<Seq<char>>)
    requires
        awaited(state, event),
    ensures
        ({
            let (after, actions) = next(state, event);
            let last = actions.last();
            &&& actions.len() > 0
            &&& after is Folder ==> last is CreateFolder
            &&& after is Opening ==> last is OpenPart
            &&& after is Requesting ==> last is Request
            &&& after is Reading ==> last is ReadBody
            &&& after is Writing ==> last is WriteBody
            &&& after is Flushing ==> last is Flush
            &&& after is Renaming ==> last is Rename
            &&& after is Finished ==> last is Error || last is List
        }),
{
}

/// A download that fails says why: the error names the song, and its message ends with what went
/// wrong, as it was told.
pub proof fn law_failures_say_why(state: State<Seq<char>>, event: Event<Seq<char>>)
    requires
        awaited(state, event),
    ensures
        ({
            let (after, actions) = next(state, event);
            let told = |message: Seq<char>|
                after is Finished && actions.len() > 0 && (actions.last() matches Action::Error {
                    message: m,
                    ..
                } && m == message);
            &&& event matches Event::ExtractFailed(reason) ==> told(
                "could not read the audio stream: "@ + reason,
            )
            &&& event is TimedOut ==> told("timed out reading the audio stream"@)
            &&& event matches Event::Failed(e) ==> told(
                (if state is Folder {
                    "cannot create downloads folder: "@
                } else if state is Renaming {
                    "could not finalize file: "@
                } else {
                    "download failed: "@
                }) + e,
            )
            &&& event matches Event::Response { status, .. } ==> ((status < 200 || status > 299) && !(
            status == 416 && transfer_in(state)->0.pos > 0) ==> told(
                "download failed: HTTP "@ + (text::decimal(status as nat) + " "@
                    + outside::reason_phrase(status)),
            ))
            &&& (state matches State::Flushing { t } && t.pos == 0) && event is Ready ==> told(
                "download produced an empty file"@,
            )
        }),
{
}

/// A download that does not fail reports no error, and is reported as done exactly when its song is
/// filed.
pub proof fn law_errors_only_on_failure(
    state: State<Seq<char>>,
    event: Event<Seq<char>>,
    i: int,
)
    requires
        0 <= i < next(state, event).1.len(),
    ensures
        next(state, event).1[i] is Error ==> event is ExtractFailed || event is TimedOut || event is Failed
            || (event matches Event::Response { status, .. } && !(200 <= status <= 299)) || (state matches State::Flushing { t } && t.pos == 0),
        next(state, event).1[i] is Done || next(state, event).1[i] is Record ==> state is Renaming
            && event is Renamed && next(state, event).1.len() == 3 && next(state, event).1[0] is Record
            && next(state, event).1[1] is Done,
{
    lemma_next_short(state, event);
    assert(i == 0 || i == 1 || i == 2);
}

/// The id that an action names.
pub open spec fn id_in(action: Action<Seq<char>>) -> Option<Seq<char>> {
    match action {
        Action::Progress { id, .. } => Some(id),
        Action::Await { id } => Some(id),
        Action::OpenExtractor { id } => Some(id),
        Action::Forget { id } => Some(id),
        Action::Done { id } => Some(id),
        Action::Error { id, .. } => Some(id),
        Action::Record { entry } => Some(entry.video_id),
        _ => None,
    }
}

/// The job that a state holds.
spec fn job_in(state: State<Seq<char>>) -> Option<Job<Seq<char>>> {
    match state {
        State::Extracting { job } => Some(job),
        _ => match transfer_in(state) {
            Some(t) => Some(t.job),
            None => None,
        },
    }
}

proof fn lemma_ids_step(state: State<Seq<char>>, event: Event<Seq<char>>, job: Job<Seq<char>>)
    requires
        job_in(state) matches Some(j) ==> j == job,
    ensures
        job_in(next(state, event).0) matches Some(j) ==> j == job,
        forall|i: int|
            0 <= i < next(state, event).1.len() ==> (id_in(#[trigger] next(state, event).1[i]) matches Some(
                id,
            ) ==> id == job.video_id),
{
    lemma_next_short(state, event);
    let actions = next(state, event).1;
    assert forall|i: int| 0 <= i < actions.len() implies (id_in(#[trigger] actions[i]) matches Some(id)
        ==> id == job.video_id) by {
        assert(i == 0 || i == 1 || i == 2);
    }
}

/// Every report of a download, and everything it asks of the extractor page, names the song that
/// was asked for.
pub proof fn law_actions_name_the_song(
    job: Job<Seq<char>>,
    known: bool,
    events: Seq<Event<Seq<char>>>,
)
    ensures
        forall|i: int|
            0 <= i < run(job, known, events).1.len() ==> (id_in(
                #[trigger] run(job, known, events).1[i],
            ) matches Some(id) ==> id == job.video_id),
{
    lemma_ids(job, known, events);
}

proof fn lemma_ids(job: Job<Seq<char>>, known: bool, events: Seq<Event<Seq<char>>>)
    ensures
        job_in(run(job, known, events).0) matches Some(j) ==> j == job,
        forall|i: int|
            0 <= i < run(job, known, events).1.len() ==> (id_in(
                #[trigger] run(job, known, events).1[i],
            ) matches Some(id) ==> id == job.video_id),
    decreases events.len(),
{
    let all = run(job, known, events).1;
    if events.len() == 0 {
        assert(all.len() <= 3);
        assert forall|i: int| 0 <= i < all.len() implies (id_in(#[trigger] all[i]) matches Some(id)
            ==> id == job.video_id) by {
            assert(i == 0 || i == 1 || i == 2);
        }
    } else {
        let earlier = events.drop_last();
        let before = run(job, known, earlier);
        lemma_ids(job, known, earlier);
        lemma_ids_step(before.0, events.last(), job);
        let more = next(before.0, events.last()).1;
        assert forall|i: int| 0 <= i < all.len() implies (id_in(#[trigger] all[i]) matches Some(id)
            ==> id == job.video_id) by {
            if i < before.1.len() {
                assert(all[i] == before.1[i]);
            } else {
                assert(all[i] == more[i - before.1.len()]);
            }
        }
    }
}

/// A song that is filed already is only reported again; another one is waited for before the
/// extractor page is pointed at it.
pub proof fn law_known_songs_are_not_fetched(job: Job<Seq<char>>, known: bool)
    ensures
        known ==> start_of(job, known).0 is Finished && start_of(job, known).1 == seq![
            Action::Done { id: job.video_id },
            Action::<Seq<char>>::List,
        ],
        !known ==> start_of(job, known).0 == (State::Extracting { job }) && start_of(job, known).1
            == seq![
            Action::Progress {
                id: job.video_id,
                stage: Stage::Extracting,
                received: 0,
                total: None,
            },
            Action::Await { id: job.video_id },
            Action::OpenExtractor { id: job.video_id },
        ],
{
}

/// Whether an action fits the report of the extractor page: the address is the reported one, and
/// the files are named by the song's id and the extension of the reported stream.
pub open spec fn fits_report(
    action: Action<Seq<char>>,
    job: Job<Seq<char>>,
    x: Extracted<Seq<char>>,
) -> bool {
    let file = job.video_id + "."@ + download::extension_of(x.mime, x.itag);
    match action {
        Action::Request { url, .. } => url == x.url,
        Action::OpenPart { part } => part == file + ".part"@,
        Action::RemovePart { part } => part == file + ".part"@,
        Action::Rename { part, file: name } => part == file + ".part"@ && name == file,
        _ => true,
    }
}

proof fn lemma_fits_step(
    state: State<Seq<char>>,
    event: Event<Seq<char>>,
    job: Job<Seq<char>>,
    x: Extracted<Seq<char>>,
    k: int,
)
    requires
        transfer_in(state) matches Some(t) ==> same_stream(t, transfer_of(job, x)),
        0 <= k < next(state, event).1.len(),
    ensures
        fits_report(next(state, event).1[k], job, x),
{
    lemma_next_short(state, event);
    assert(k == 0 || k == 1 || k == 2);
}

/// After the report of the extractor page, everything that a download asks for fits that report.
pub proof fn law_actions_fit_the_report(
    job: Job<Seq<char>>,
    known: bool,
    events: Seq<Event<Seq<char>>>,
    i: int,
    k: int,
)
    requires
        extracted_at(job, known, events, i),
        i < events.len() - 1,
        0 <= k < next(run(job, known, events.drop_last()).0, events.last()).1.len(),
    ensures
        fits_report(
            next(run(job, known, events.drop_last()).0, events.last()).1[k],
            job,
            events[i]->Extracted_0,
        ),
{
    let earlier = events.drop_last();
    let before = run(job, known, earlier).0;
    assert(events.take(i) =~= earlier.take(i));
    assert(extracted_at(job, known, earlier, i));
    if let Some(t) = transfer_in(before) {
        lemma_transfer_extracted(job, known, earlier);
        let j = choose|j: int| #[trigger]
            extracted_at(job, known, earlier, j) && same_stream(
                t,
                transfer_of(job, earlier[j]->Extracted_0),
            );
        if i < j {
            assert(earlier.take(j).take(i) =~= earlier.take(i));
            assert(extracted_at(job, known, earlier.take(j), i));
            lemma_not_extracting_again(job, known, earlier.take(j), i);
        } else if j < i {
            assert(earlier.take(i).take(j) =~= earlier.take(j));
            assert(extracted_at(job, known, earlier.take(i), j));
            lemma_not_extracting_again(job, known, earlier.take(i), j);
        }
    }
    lemma_fits_step(before, events.last(), job, events[i]->Extracted_0, k);
}

/// Progress is told as it is: the bytes that were written, of the size that was stated.
pub proof fn law_progress_as_it_is(
    job: Job<Seq<char>>,
    known: bool,
    events: Seq<Event<Seq<char>>>,
    k: int,
)
    requires
        events.len() > 0,
        run_within_limits(job, known, events),
        0 <= k < next(run(job, known, events.drop_last()).0, events.last()).1.len(),
    ensures
        next(run(job, known, events.drop_last()).0, events.last()).1[k] matches Action::Progress {
            stage,
            received,
            total,
            ..
        } ==> stage == Stage::Downloading && received == bytes_written(job, known, events) && total
            == stated_size(job, known, events),
        ({
            let before = run(job, known, events.drop_last()).0;
            (before is Folder || before is Writing) && events.last() is Ready ==> next(
                before,
                events.last(),
            ).1[0] is Progress
        }),
{
    let earlier = events.drop_last();
    let before = run(job, known, earlier).0;
    lemma_goes_by(job, known, earlier);
    lemma_limits_before(job, known, events);
    law_position_counts_bytes(job, known, earlier);
    lemma_folder_start(job, known, earlier);
    lemma_progress_step(before, events.last(), k);
}

proof fn lemma_folder_start(job: Job<Seq<char>>, known: bool, events: Seq<Event<Seq<char>>>)
    ensures
        run(job, known, events).0 matches State::Folder { t } ==> t.pos == 0,
    decreases events.len(),
{
    if events.len() > 0 {
        lemma_folder_start(job, known, events.drop_last());
    }
}

proof fn lemma_progress_step(state: State<Seq<char>>, event: Event<Seq<char>>, k: int)
    requires
        0 <= k < next(state, event).1.len(),
    ensures
        next(state, event).1[k] matches Action::Progress { stage, received, total, .. } ==> stage
            == Stage::Downloading && k == 0 && event is Ready && ((state matches State::Folder { t }
            && received == 0 && total == t.total) || (state matches State::Writing { t, n, .. }
            && received == (t.pos + n) as u64 && total == t.total)),
        (state is Folder || state is Writing) && event is Ready ==> next(state, event).1[0] is Progress,
{
    lemma_next_short(state, event);
    assert(k == 0 || k == 1 || k == 2);
}

/// Models keep what they model: every part of a job, of a report and of an event.
pub proof fn law_models(j: Job<String>, x: Extracted<String>, e: Event<String>)
    ensures
        j@.video_id == j.video_id@ && j@.title == j.title@ && j@.artist == j.artist@,
        x@.video_id == x.video_id@ && x@.url == x.url@ && x@.mime == x.mime@ && x@.itag == x.itag
            && x@.content_length == x.content_length && x@.title == x.title@ && x@.author
            == x.author@,
        e matches Event::Extracted(y) ==> e@ == Event::Extracted(y@),
        e matches Event::ExtractFailed(s) ==> e@ == Event::ExtractFailed(s@),
        e matches Event::Failed(s) ==> e@ == Event::Failed(s@),
        e matches Event::Body(n) ==> e@ == Event::<Seq<char>>::Body(n),
        e matches Event::Renamed(n) ==> e@ == Event::<Seq<char>>::Renamed(n),
        e is TimedOut ==> e@ is TimedOut,
        e is Ready ==> e@ is Ready,
        e matches Event::Response { status, content_range: Some(h) } ==> e@ == (Event::Response {
            status,
            content_range: Some(h@),
        }),
        e matches Event::Response { status, content_range: None } ==> e@ == (Event::<
            Seq<char>,
        >::Response { status, content_range: None }),
{
}

/// Models keep what they model: every part of a transfer, and its place in a state.
pub proof fn law_state_models(t: Transfer<String>, s: State<String>)
    ensures
        t@.job == t.job@ && t@.url == t.url@ && t@.ext == t.ext@ && t@.mime == t.mime@ && t@.title
            == t.title@ && t@.author == t.author@ && t@.pos == t.pos && t@.total == t.total,
        s matches State::Extracting { job } ==> s@ == (State::Extracting { job: job@ }),
        s matches State::Folder { t } ==> s@ == (State::Folder { t: t@ }),
        s matches State::Opening { t } ==> s@ == (State::Opening { t: t@ }),
        s matches State::Requesting { t } ==> s@ == (State::Requesting { t: t@ }),
        s matches State::Reading { t, ranged } ==> s@ == (State::Reading { t: t@, ranged }),
        s matches State::Writing { t, ranged, n } ==> s@ == (State::Writing { t: t@, ranged, n }),
        s matches State::Flushing { t } ==> s@ == (State::Flushing { t: t@ }),
        s matches State::Renaming { t } ==> s@ == (State::Renaming { t: t@ }),
        s is Finished ==> s@ is Finished,
{
}

/// Models keep what they model: every part of an action, and the order of actions.
pub proof fn law_action_models(a: Action<String>, all: Seq<Action<String>>)
    ensures
        a matches Action::Progress { id, stage, received, total } ==> a@ == (Action::Progress {
            id: id@,
            stage,
            received,
            total,
        }),
        a matches Action::Await { id } ==> a@ == (Action::Await { id: id@ }),
        a matches Action::OpenExtractor { id } ==> a@ == (Action::OpenExtractor { id: id@ }),
        a matches Action::Forget { id } ==> a@ == (Action::Forget { id: id@ }),
        a is ParkExtractor ==> a@ is ParkExtractor,
        a is CreateFolder ==> a@ is CreateFolder,
        a matches Action::OpenPart { part } ==> a@ == (Action::OpenPart { part: part@ }),
        a matches Action::Request { url, range } ==> a@ == (Action::Request {
            url: url@,
            range: range@,
        }),
        a is ReadBody ==> a@ is ReadBody,
        a is WriteBody ==> a@ is WriteBody,
        a is Flush ==> a@ is Flush,
        a matches Action::RemovePart { part } ==> a@ == (Action::RemovePart { part: part@ }),
        a matches Action::Rename { part, file } ==> a@ == (Action::Rename {
            part: part@,
            file: file@,
        }),
        a matches Action::Record { entry } ==> a@ == (Action::Record { entry: entry@ }),
        a matches Action::Done { id } ==> a@ == (Action::Done { id: id@ }),
        a is List ==> a@ is List,
        a matches Action::Error { id, message } ==> a@ == (Action::Error {
            id: id@,
            message: message@,
        }),
        actions_view(all).len() == all.len(),
        forall|i: int| 0 <= i < all.len() ==> #[trigger] actions_view(all)[i] == all[i]@,
{
}

/// A download that gives up on the extractor page stops waiting for its report, and sends the page
/// away.
pub proof fn law_waiting_ends(job: Job<Seq<char>>, event: Event<Seq<char>>)
    ensures
        event is ExtractFailed || event is TimedOut ==> next(State::Extracting { job }, event).1.contains(
            Action::Forget { id: job.video_id },
        ) && next(State::Extracting { job }, event).1.contains(Action::ParkExtractor),
        event is Extracted ==> next(State::Extracting { job }, event).1.contains(
            Action::ParkExtractor,
        ),
{
    let actions = next(State::Extracting { job }, event).1;
    if event is ExtractFailed || event is TimedOut {
        assert(actions[0] == (Action::Forget { id: job.video_id }));
        assert(actions[1] == Action::<Seq<char>>::ParkExtractor);
    } else if event is Extracted {
        assert(actions[0] == Action::<Seq<char>>::ParkExtractor);
    }
}

/// Every step of a download whose size can be counted is within the limits.
pub proof fn law_ordinary_steps_fit(state: State<Seq<char>>, event: Event<Seq<char>>)
    requires
        transfer_in(state) matches Some(t) ==> t.pos + CHUNK <= u64::MAX,
        state matches State::Writing { t, n, .. } ==> t.pos + n + CHUNK <= u64::MAX,
        event matches Event::Response { status, .. } ==> 100 <= status <= 999,
    ensures
        within_limits(state, event),
{
}

} // verus!
