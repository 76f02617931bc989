//! The state of playback as the page reports it, and what is made of it: the mini player's
//! snapshot, the track-change toast, the operating system's media session, and the transport
//! actions that come back from there.
use vstd::prelude::*;

use crate::outside;
use crate::script;
use crate::text;

verus! {

/// One upcoming track.
pub struct QueueEntry {
    pub title: Option<String>,
    pub artist: Option<String>,
}

/// The report of a track change.
pub struct NowPlaying {
    pub title: Option<String>,
    pub artist: Option<String>,
    pub album: Option<String>,
    pub art_url: Option<String>,
    pub duration_ms: Option<u64>,
    pub position_ms: Option<u64>,
    pub playing: Option<bool>,
    pub stopped: Option<bool>,
    pub video_id: Option<String>,
    /// The absolute queue index of the first entry of `queue`.
    pub queue_base: Option<u64>,
    pub queue: Option<Vec<QueueEntry>>,
}

/// The report of a play, a pause, a seek or a position tick.
pub struct PlaybackState {
    pub playing: Option<bool>,
    pub position_ms: Option<u64>,
    pub stopped: Option<bool>,
    /// Whether the track is repeated.
    pub repeat: Option<bool>,
}

/// The tracks of an optional queue.
pub open spec fn queue_view(queue: Option<Vec<QueueEntry>>) -> Option<Seq<QueueEntry>> {
    match queue {
        Some(v) => Some(v@),
        None => None,
    }
}

/// Whether two reports differ in the live fields `playing` and `position_ms` at most.
pub open spec fn same_track(a: NowPlaying, b: NowPlaying) -> bool {
    &&& a.title == b.title
    &&& a.artist == b.artist
    &&& a.album == b.album
    &&& a.art_url == b.art_url
    &&& a.duration_ms == b.duration_ms
    &&& a.stopped == b.stopped
    &&& a.video_id == b.video_id
    &&& a.queue_base == b.queue_base
    &&& queue_view(a.queue) == queue_view(b.queue)
}

fn copy_text(s: &Option<String>) -> (r: Option<String>)
    ensures
        r == *s,
{
    match s {
        Some(x) => Some(x.clone()),
        None => None,
    }
}

fn copy_queue(queue: &Option<Vec<QueueEntry>>) -> (r: Option<Vec<QueueEntry>>)
    ensures
        queue_view(r) == queue_view(*queue),
{
    match queue {
        None => None,
        Some(v) => {
            let mut out: Vec<QueueEntry> = Vec::new();
            let mut i: usize = 0;
            while i < v.len()
                invariant
                    i <= v@.len(),
                    out@ == v@.take(i as int),
                decreases v@.len() - i,
            {
                out.push(
                    QueueEntry { title: copy_text(&v[i].title), artist: copy_text(&v[i].artist) },
                );
                i = i + 1;
                assert(v@.take(i as int) =~= v@.take(i - 1).push(v@[i - 1]));
            }
            assert(v@.take(i as int) =~= v@);
            Some(out)
        },
    }
}

// ---------------------------------------------------------------------------
// Texts and flags of a report
// ---------------------------------------------------------------------------

/// A text without the white space at its ends, unless it is blank.
pub open spec fn nonblank(s: Option<Seq<char>>) -> Option<Seq<char>> {
    match s {
        Some(x) => if text::trimmed(x).len() > 0 {
            Some(text::trimmed(x))
        } else {
            None
        },
        None => None,
    }
}

/// A text of a report, trimmed; a blank one counts as unset.
pub fn nonempty<'a>(value: &'a Option<String>) -> (r: Option<&'a str>)
    ensures
        text::opt_view(r) == nonblank(text::opt_string_view(*value)),
{
    match value {
        Some(x) => {
            let t = text::trim(x.as_str());
            if t.is_empty() {
                None
            } else {
                Some(t)
            }
        },
        None => None,
    }
}

/// Whether a report says that music plays: it does unless it says paused or stopped.
pub open spec fn active(playing: Option<bool>, stopped: Option<bool>) -> bool {
    playing != Some(false) && stopped != Some(true)
}

/// Whether a report says that music plays.
pub fn is_active(playing: Option<bool>, stopped: Option<bool>) -> (r: bool)
    ensures
        r == active(playing, stopped),
{
    playing.unwrap_or(true) && !stopped.unwrap_or(false)
}

/// The state of the operating system's media session. Positions are in milliseconds.
#[derive(PartialEq, Eq, Clone, Copy, Debug)]
pub enum Playback {
    Stopped,
    Playing { progress: Option<u64> },
    Paused { progress: Option<u64> },
}

/// The media session's state for a report. Stopped outranks playing.
pub open spec fn playback_of(
    playing: Option<bool>,
    stopped: Option<bool>,
    position_ms: Option<u64>,
) -> Playback {
    if stopped == Some(true) {
        Playback::Stopped
    } else if playing == Some(false) {
        Playback::Paused { progress: position_ms }
    } else {
        Playback::Playing { progress: position_ms }
    }
}

/// The media session's state for a report.
pub fn playback(playing: Option<bool>, stopped: Option<bool>, position_ms: Option<u64>) -> (r:
    Playback)
    ensures
        r == playback_of(playing, stopped, position_ms),
{
    if stopped.unwrap_or(false) {
        Playback::Stopped
    } else if playing.unwrap_or(true) {
        Playback::Playing { progress: position_ms }
    } else {
        Playback::Paused { progress: position_ms }
    }
}

// ---------------------------------------------------------------------------
// The snapshot for the mini player
// ---------------------------------------------------------------------------

/// The last known state of playback.
pub struct Snapshot {
    pub now_playing: Option<NowPlaying>,
    pub playing: bool,
    pub position_ms: Option<u64>,
}

impl Snapshot {
    /// Before the first report.
    pub fn new() -> (r: Snapshot)
        ensures
            r.now_playing is None,
            !r.playing,
            r.position_ms is None,
    {
        Snapshot { now_playing: None, playing: false, position_ms: None }
    }
}

/// The state of playback after the report of a track change.
pub open spec fn with_track(track: NowPlaying) -> Snapshot {
    Snapshot {
        now_playing: Some(track),
        playing: active(track.playing, track.stopped),
        position_ms: track.position_ms,
    }
}

/// The state of playback after a tick: the track stays, and so does the position where the tick
/// has none.
pub open spec fn with_tick(s: Snapshot, playing: bool, position_ms: Option<u64>) -> Snapshot {
    Snapshot {
        now_playing: s.now_playing,
        playing,
        position_ms: if position_ms is Some {
            position_ms
        } else {
            s.position_ms
        },
    }
}

/// Stores the report of a track change.
pub fn store_now_playing(s: &mut Snapshot, value: NowPlaying, playing: bool, position_ms: Option<u64>)
    ensures
        *final(s) == (Snapshot { now_playing: Some(value), playing, position_ms }),
{
    s.now_playing = Some(value);
    s.playing = playing;
    s.position_ms = position_ms;
}

/// Stores a playback tick.
pub fn store_playback(s: &mut Snapshot, playing: bool, position_ms: Option<u64>)
    ensures
        *final(s) == with_tick(*old(s), playing, position_ms),
{
    s.playing = playing;
    if position_ms.is_some() {
        s.position_ms = position_ms;
    }
}

/// Whether the page last reported that music plays.
pub fn is_playing(s: &Snapshot) -> (r: bool)
    ensures
        r == s.playing,
{
    s.playing
}

/// What the mini player paints when it opens.
pub enum Sync {
    /// No track was reported yet: only the live fields are known.
    Empty { playing: bool, position_ms: Option<u64> },
    /// The last track, with the live fields laid over it.
    Track(NowPlaying),
}

/// Whether the mini player paints `shown` for the state `s`.
pub open spec fn paints(s: Snapshot, shown: Sync) -> bool {
    match s.now_playing {
        None => shown == (Sync::Empty { playing: s.playing, position_ms: s.position_ms }),
        Some(track) => shown matches Sync::Track(t) && same_track(t, track) && t.playing == Some(
            s.playing,
        ) && t.position_ms == (if s.position_ms is Some {
            s.position_ms
        } else {
            track.position_ms
        }),
    }
}

/// The last known state of playback, with the live fields laid over the last track.
pub fn snapshot_value(s: &Snapshot) -> (r: Sync)
    ensures
        paints(*s, r),
{
    match &s.now_playing {
        None => Sync::Empty { playing: s.playing, position_ms: s.position_ms },
        Some(t) => Sync::Track(
            NowPlaying {
                title: copy_text(&t.title),
                artist: copy_text(&t.artist),
                album: copy_text(&t.album),
                art_url: copy_text(&t.art_url),
                duration_ms: t.duration_ms,
                position_ms: if s.position_ms.is_some() {
                    s.position_ms
                } else {
                    t.position_ms
                },
                playing: Some(s.playing),
                stopped: t.stopped,
                video_id: copy_text(&t.video_id),
                queue_base: t.queue_base,
                queue: copy_queue(&t.queue),
            },
        ),
    }
}

// ---------------------------------------------------------------------------
// The track-change toast
// ---------------------------------------------------------------------------

/// A native notification.
pub struct Toast {
    pub title: String,
    pub body: String,
}

/// Whether a track change is announced: the title is another one, announcements are on, there is a
/// title, and the main window is not on screen. `main_visible` is `None` where there is no window.
pub open spec fn announces(
    last: Option<Seq<char>>,
    title: Option<Seq<char>>,
    enabled: bool,
    main_visible: Option<bool>,
) -> bool {
    last != title && enabled && title is Some && main_visible != Some(true)
}

/// Whether two optional texts are the same.
fn same_opt(a: &Option<String>, b: Option<&str>) -> (r: bool)
    ensures
        r == (text::opt_string_view(*a) == text::opt_view(b)),
{
    match (a, b) {
        (Some(x), Some(y)) => text::same(x.as_str(), y),
        (None, None) => true,
        _ => false,
    }
}

/// The toast for a reported track, if it is announced. The title is remembered in any case, so the
/// next report is compared with this one.
pub fn notify_track_change(
    last_title: &mut Option<String>,
    title: Option<&str>,
    artist: Option<&str>,
    enabled: bool,
    main_visible: Option<bool>,
) -> (r: Option<Toast>)
    ensures
        text::opt_string_view(*final(last_title)) == text::opt_view(title),
        r is Some <==> announces(
            text::opt_string_view(*old(last_title)),
            text::opt_view(title),
            enabled,
            main_visible,
        ),
        r matches Some(toast) ==> toast.title@ == "♪ "@ + text::opt_view(title)->0 && toast.body@
            == (match artist {
            Some(a) => a@,
            None => ""@,
        }),
{
    let changed: bool = !same_opt(last_title, title);
    *last_title = match title {
        Some(t) => Some(t.to_string()),
        None => None,
    };
    if !changed || !enabled {
        return None;
    }
    let shown = match title {
        Some(t) => t,
        None => return None,
    };
    if main_visible.unwrap_or(false) {
        return None;
    }
    let mut line: String = "♪ ".to_string();
    line.append(shown);
    let body: String = match artist {
        Some(a) => a.to_string(),
        None => "".to_string(),
    };
    Some(Toast { title: line, body })
}

// ---------------------------------------------------------------------------
// Reports
// ---------------------------------------------------------------------------

/// What the media session shows of a track.
pub struct Metadata {
    pub title: Option<String>,
    pub artist: Option<String>,
    pub album: Option<String>,
    pub cover_url: Option<String>,
    pub duration_ms: Option<u64>,
}

/// What a track change leads to, besides the stored snapshot.
pub struct TrackUpdate {
    pub playing: bool,
    pub toast: Option<Toast>,
    pub metadata: Metadata,
    pub playback: Playback,
    /// Where the upcoming tracks start in the queue, and the upcoming tracks.
    pub queue_base: Option<u64>,
    pub queue: Option<Vec<QueueEntry>>,
}

fn owned(s: Option<&str>) -> (r: Option<String>)
    ensures
        text::opt_string_view(r) == text::opt_view(s),
{
    match s {
        Some(x) => Some(x.to_string()),
        None => None,
    }
}

/// Takes the report of a track change: stores it, and says what is shown and announced of it.
pub fn apply_now_playing(
    snapshot: &mut Snapshot,
    last_title: &mut Option<String>,
    payload: NowPlaying,
    notify: bool,
    main_visible: Option<bool>,
) -> (r: TrackUpdate)
    ensures
        *final(snapshot) == with_track(payload),
        text::opt_string_view(*final(last_title)) == nonblank(
            text::opt_string_view(payload.title),
        ),
        r.playing == active(payload.playing, payload.stopped),
        r.toast is Some <==> announces(
            text::opt_string_view(*old(last_title)),
            nonblank(text::opt_string_view(payload.title)),
            notify,
            main_visible,
        ),
        r.toast matches Some(toast) ==> toast.title@ == "♪ "@ + nonblank(
            text::opt_string_view(payload.title),
        )->0 && toast.body@ == (match nonblank(text::opt_string_view(payload.artist)) {
            Some(a) => a,
            None => ""@,
        }),
        text::opt_string_view(r.metadata.title) == nonblank(text::opt_string_view(payload.title)),
        text::opt_string_view(r.metadata.artist) == nonblank(text::opt_string_view(payload.artist)),
        text::opt_string_view(r.metadata.album) == nonblank(text::opt_string_view(payload.album)),
        text::opt_string_view(r.metadata.cover_url) == nonblank(
            text::opt_string_view(payload.art_url),
        ),
        r.metadata.duration_ms == payload.duration_ms,
        r.playback == playback_of(payload.playing, payload.stopped, payload.position_ms),
        r.queue_base == payload.queue_base,
        queue_view(r.queue) == queue_view(payload.queue),
{
    let playing: bool = is_active(payload.playing, payload.stopped);
    let toast: Option<Toast> = notify_track_change(
        last_title,
        nonempty(&payload.title),
        nonempty(&payload.artist),
        notify,
        main_visible,
    );
    let metadata: Metadata = Metadata {
        title: owned(nonempty(&payload.title)),
        artist: owned(nonempty(&payload.artist)),
        album: owned(nonempty(&payload.album)),
        cover_url: owned(nonempty(&payload.art_url)),
        duration_ms: payload.duration_ms,
    };
    let session: Playback = playback(payload.playing, payload.stopped, payload.position_ms);
    let queue_base: Option<u64> = payload.queue_base;
    let queue: Option<Vec<QueueEntry>> = copy_queue(&payload.queue);
    let position_ms: Option<u64> = payload.position_ms;
    store_now_playing(snapshot, payload, playing, position_ms);
    TrackUpdate { playing, toast, metadata, playback: session, queue_base, queue }
}

/// What a playback tick leads to, besides the stored snapshot.
pub struct StateUpdate {
    pub playing: bool,
    pub playback: Playback,
}

/// Takes the report of a play, a pause, a seek or a position tick.
pub fn apply_playback_state(snapshot: &mut Snapshot, payload: &PlaybackState) -> (r: StateUpdate)
    ensures
        *final(snapshot) == with_tick(
            *old(snapshot),
            active(payload.playing, payload.stopped),
            payload.position_ms,
        ),
        r.playing == active(payload.playing, payload.stopped),
        r.playback == playback_of(payload.playing, payload.stopped, payload.position_ms),
{
    let playing: bool = is_active(payload.playing, payload.stopped);
    store_playback(snapshot, playing, payload.position_ms);
    StateUpdate {
        playing,
        playback: playback(payload.playing, payload.stopped, payload.position_ms),
    }
}

// ---------------------------------------------------------------------------
// Transport events of the operating system
// ---------------------------------------------------------------------------

/// A transport command of the operating system. Times are in milliseconds; a volume comes as the
/// decimal text of its value.
pub enum TransportEvent<S> {
    Play,
    Pause,
    Toggle,
    Next,
    Previous,
    Stop,
    SeekForward,
    SeekBackward,
    SeekBy { forward: bool, ms: u128 },
    SetPosition { ms: u128 },
    SetVolume { volume: S },
    OpenUri,
    Raise,
    Quit,
}

/// What is done about a transport command.
pub enum Transport<S> {
    /// The page's player gets an action.
    Forward(S),
    /// The main window comes to the front.
    FocusMain,
    /// Nothing: background playback is never ended from outside.
    Ignore,
}

impl View for TransportEvent<String> {
    type V = TransportEvent<Seq<char>>;

    open spec fn view(&self) -> TransportEvent<Seq<char>> {
        match self {
            TransportEvent::Play => TransportEvent::Play,
            TransportEvent::Pause => TransportEvent::Pause,
            TransportEvent::Toggle => TransportEvent::Toggle,
            TransportEvent::Next => TransportEvent::Next,
            TransportEvent::Previous => TransportEvent::Previous,
            TransportEvent::Stop => TransportEvent::Stop,
            TransportEvent::SeekForward => TransportEvent::SeekForward,
            TransportEvent::SeekBackward => TransportEvent::SeekBackward,
            TransportEvent::SeekBy { forward, ms } => TransportEvent::SeekBy {
                forward: *forward,
                ms: *ms,
            },
            TransportEvent::SetPosition { ms } => TransportEvent::SetPosition { ms: *ms },
            TransportEvent::SetVolume { volume } => TransportEvent::SetVolume { volume: volume@ },
            TransportEvent::OpenUri => TransportEvent::OpenUri,
            TransportEvent::Raise => TransportEvent::Raise,
            TransportEvent::Quit => TransportEvent::Quit,
        }
    }
}

impl View for Transport<String> {
    type V = Transport<Seq<char>>;

    open spec fn view(&self) -> Transport<Seq<char>> {
        match self {
            Transport::Forward(action) => Transport::Forward(action@),
            Transport::FocusMain => Transport::FocusMain,
            Transport::Ignore => Transport::Ignore,
        }
    }
}

/// What is done about a transport command.
pub open spec fn transport_of(event: TransportEvent<Seq<char>>) -> Transport<Seq<char>> {
    match event {
        TransportEvent::Play => Transport::Forward("play"@),
        TransportEvent::Pause => Transport::Forward("pause"@),
        TransportEvent::Toggle => Transport::Forward("toggle"@),
        TransportEvent::Next => Transport::Forward("next"@),
        TransportEvent::Previous => Transport::Forward("previous"@),
        TransportEvent::Stop => Transport::Forward("stop"@),
        TransportEvent::SeekForward => Transport::Forward("seekforward"@),
        TransportEvent::SeekBackward => Transport::Forward("seekback"@),
        TransportEvent::SeekBy { forward, ms } => Transport::Forward(
            (if forward {
                "seekby:"@
            } else {
                "seekby:-"@
            }) + text::decimal(ms as nat),
        ),
        TransportEvent::SetPosition { ms } => Transport::Forward(
            "setposition:"@ + text::decimal(ms as nat),
        ),
        TransportEvent::SetVolume { volume } => Transport::Forward("setvolume:"@ + volume),
        TransportEvent::Raise => Transport::FocusMain,
        TransportEvent::OpenUri | TransportEvent::Quit => Transport::Ignore,
    }
}

fn followed(a: &str, b: &str) -> (r: String)
    ensures
        r@ == a@ + b@,
{
    let mut s: String = a.to_string();
    s.append(b);
    s
}

/// What is done about a transport command.
pub fn on_event(event: TransportEvent<String>) -> (r: Transport<String>)
    ensures
        r@ == transport_of(event@),
{
    match event {
        TransportEvent::Play => Transport::Forward("play".to_string()),
        TransportEvent::Pause => Transport::Forward("pause".to_string()),
        TransportEvent::Toggle => Transport::Forward("toggle".to_string()),
        TransportEvent::Next => Transport::Forward("next".to_string()),
        TransportEvent::Previous => Transport::Forward("previous".to_string()),
        TransportEvent::Stop => Transport::Forward("stop".to_string()),
        TransportEvent::SeekForward => Transport::Forward("seekforward".to_string()),
        TransportEvent::SeekBackward => Transport::Forward("seekback".to_string()),
        TransportEvent::SeekBy { forward, ms } => {
            let digits: String = text::decimal_string(ms);
            if forward {
                Transport::Forward(followed("seekby:", digits.as_str()))
            } else {
                Transport::Forward(followed("seekby:-", digits.as_str()))
            }
        },
        TransportEvent::SetPosition { ms } => {
            let digits: String = text::decimal_string(ms);
            Transport::Forward(followed("setposition:", digits.as_str()))
        },
        TransportEvent::SetVolume { volume } => Transport::Forward(
            followed("setvolume:", volume.as_str()),
        ),
        TransportEvent::Raise => Transport::FocusMain,
        TransportEvent::OpenUri => Transport::Ignore,
        TransportEvent::Quit => Transport::Ignore,
    }
}

/// The script that hands `action` to the page's player, and announces it on the window.
pub fn control(action: &str) -> (r: String)
    ensures
        r@ == script::relay_head() + outside::json_string(action@) + ");"@,
{
    let literal: String = script::literal_or_empty(outside::to_json_string(action));
    let mut js: String = "(function(a){try{if(typeof window.__skMediaControl==='function'){window.__skMediaControl(a);}}catch(e){}try{window.dispatchEvent(new CustomEvent('sk-media-control',{detail:{action:a}}));}catch(e){}})(".to_string();
    js.append(literal.as_str());
    js.append(");");
    js
}

// ---------------------------------------------------------------------------
// Sleep and resume
// ---------------------------------------------------------------------------

/// How long the clocks are watched between two readings, in seconds.
pub const RESUME_STEP_SECS: u64 = 30;

/// How long after a sleep the page's player is asked to check itself, in seconds: the network and
/// the window settle first.
pub const RESUME_GRACE_SECS: u64 = 3;

/// How much further than the monotonic clock the wall clock must get for a sleep: ninety seconds,
/// in nanoseconds.
pub const SLEEP_THRESHOLD: u128 = 90_000_000_000;

/// The longest time span that a clock measures, in nanoseconds.
pub const LONGEST_SPAN: u128 = 18_446_744_073_709_551_615_999_999_999;

/// Whether the machine slept between two readings of its clocks. `wall` is `None` where the wall
/// clock was set back, which counts as no sleep.
pub fn slept(monotonic: u128, wall: Option<u128>) -> (r: bool)
    requires
        monotonic + SLEEP_THRESHOLD <= LONGEST_SPAN,
    ensures
        r == (wall matches Some(w) && w > monotonic + SLEEP_THRESHOLD),
{
    let elapsed: u128 = wall.unwrap_or(monotonic);
    elapsed > monotonic + SLEEP_THRESHOLD
}

// ---------------------------------------------------------------------------
// The menu that the page may pop up
// ---------------------------------------------------------------------------

/// Lets one menu of the page be open at a time.
pub struct MenuSlot {
    pub open: bool,
}

impl MenuSlot {
    /// No menu is open.
    pub fn new() -> (r: MenuSlot)
        ensures
            !r.open,
    {
        MenuSlot { open: false }
    }

    /// Claims the screen for a menu. `false` where a menu is open already.
    pub fn enter(&mut self) -> (r: bool)
        ensures
            r == !old(self).open,
            final(self).open,
    {
        let free: bool = !self.open;
        self.open = true;
        free
    }

    /// Frees the screen when the menu has closed.
    pub fn leave(&mut self)
        ensures
            !final(self).open,
    {
        self.open = false;
    }
}

// ---------------------------------------------------------------------------
// Laws
// ---------------------------------------------------------------------------

/// The state of playback after some ticks.
pub open spec fn with_ticks(s: Snapshot, ticks: Seq<PlaybackState>) -> Snapshot
    decreases ticks.len(),
{
    if ticks.len() == 0 {
        s
    } else {
        let t = ticks.last();
        with_tick(
            with_ticks(s, ticks.drop_last()),
            active(t.playing, t.stopped),
            t.position_ms,
        )
    }
}

/// The position after some ticks: that of the last tick that has one.
pub open spec fn last_position(start: Option<u64>, ticks: Seq<PlaybackState>) -> Option<u64>
    decreases ticks.len(),
{
    if ticks.len() == 0 {
        start
    } else if ticks.last().position_ms is Some {
        ticks.last().position_ms
    } else {
        last_position(start, ticks.drop_last())
    }
}

/// A mini player that opens mid-song paints the song: after a track change and any ticks it shows
/// that track, as playing or not as the last report said, at the last position reported.
pub proof fn law_opened_mid_song(track: NowPlaying, ticks: Seq<PlaybackState>, shown: Sync)
    requires
        paints(with_ticks(with_track(track), ticks), shown),
    ensures
        shown matches Sync::Track(t) && same_track(t, track) && t.playing == Some(
            if ticks.len() == 0 {
                active(track.playing, track.stopped)
            } else {
                active(ticks.last().playing, ticks.last().stopped)
            },
        ) && t.position_ms == last_position(track.position_ms, ticks),
{
    lemma_ticks(with_track(track), ticks);
    lemma_position_kept(track.position_ms, ticks);
}

proof fn lemma_ticks(s: Snapshot, ticks: Seq<PlaybackState>)
    ensures
        with_ticks(s, ticks).now_playing == s.now_playing,
        with_ticks(s, ticks).position_ms == last_position(s.position_ms, ticks),
    decreases ticks.len(),
{
    if ticks.len() > 0 {
        lemma_ticks(s, ticks.drop_last());
    }
}

proof fn lemma_position_kept(start: Option<u64>, ticks: Seq<PlaybackState>)
    ensures
        start is Some ==> last_position(start, ticks) is Some,
    decreases ticks.len(),
{
    if ticks.len() > 0 {
        lemma_position_kept(start, ticks.drop_last());
    }
}

/// A track is announced once at most: a second report of the same title is not announced, whatever
/// became of the first.
pub proof fn law_announced_once(
    title: Option<Seq<char>>,
    enabled: bool,
    main_visible: Option<bool>,
)
    ensures
        !announces(title, title, enabled, main_visible),
{
}

/// The media session, the tray and the mini player agree on whether music plays.
pub proof fn law_playing_everywhere(
    playing: Option<bool>,
    stopped: Option<bool>,
    position_ms: Option<u64>,
)
    ensures
        active(playing, stopped) <==> playback_of(playing, stopped, position_ms) is Playing,
{
}

/// The operating system cannot end the app or lead it elsewhere: its commands to quit and to open
/// an address do nothing, and every other command but raising the window goes to the player.
pub proof fn law_never_ended_from_outside(event: TransportEvent<Seq<char>>)
    ensures
        transport_of(event) is Ignore <==> event is Quit || event is OpenUri,
        transport_of(event) is FocusMain <==> event is Raise,
{
}

/// The media session shows what was reported: it is stopped exactly where the report says so, and
/// else plays, or is paused exactly where the report says that nothing plays; at the reported
/// position either way.
pub proof fn law_session_shows_the_report(
    playing: Option<bool>,
    stopped: Option<bool>,
    position_ms: Option<u64>,
)
    ensures
        ({
            let shown = playback_of(playing, stopped, position_ms);
            &&& shown is Stopped <==> stopped == Some(true)
            &&& shown is Paused <==> stopped != Some(true) && playing == Some(false)
            &&& shown matches Playback::Playing { progress } ==> progress == position_ms
            &&& shown matches Playback::Paused { progress } ==> progress == position_ms
        }),
{
}

/// Pausing and going on keep the position that is shown, whatever else is reported.
pub proof fn law_pause_keeps_position(position_ms: Option<u64>, stopped: Option<bool>)
    requires
        stopped != Some(true),
    ensures
        playback_of(Some(false), stopped, position_ms) == (Playback::Paused { progress: position_ms }),
        playback_of(Some(true), stopped, position_ms) == (Playback::Playing { progress: position_ms }),
        playback_of(None, stopped, position_ms) == (Playback::Playing { progress: position_ms }),
{
}

/// A text of a report counts without the white space around it, and not at all where it is blank.
pub proof fn law_texts_of_a_report(before: Seq<char>, s: Seq<char>, after: Seq<char>)
    requires
        text::blank(before),
        text::blank(after),
        s.len() > 0 ==> !text::white_space(s[0]) && !text::white_space(s.last()),
    ensures
        nonblank(None) is None,
        s.len() > 0 ==> nonblank(Some(before + s + after)) == Some(s),
        s.len() == 0 ==> nonblank(Some(before + s + after)) is None,
{
    text::law_trim_takes_the_ends(before, s, after);
}

/// A track is announced whenever its title is another one than the last, if the user wants that and
/// does not see the main window; and never else.
pub proof fn law_announced_while_hidden(
    last: Option<Seq<char>>,
    title: Seq<char>,
    main_visible: Option<bool>,
    enabled: bool,
)
    ensures
        !announces(last, None, enabled, main_visible),
        !announces(last, Some(title), false, main_visible),
        !announces(last, Some(title), enabled, Some(true)),
        announces(last, Some(title), true, Some(false)) <==> last != Some(title),
        announces(last, Some(title), true, None) <==> last != Some(title),
{
}

/// Nothing of a track is lost between the report and what is shown: two reports of the same track
/// agree in everything but the live fields.
pub proof fn law_same_track_in_every_part(a: NowPlaying, b: NowPlaying)
    ensures
        same_track(a, b) <==> a.title == b.title && a.artist == b.artist && a.album == b.album
            && a.art_url == b.art_url && a.duration_ms == b.duration_ms && a.stopped == b.stopped
            && a.video_id == b.video_id && a.queue_base == b.queue_base && (a.queue is Some
            <==> b.queue is Some) && (a.queue is Some ==> a.queue->0@ == b.queue->0@),
{
}

/// Before the first track, what is painted is what the last tick said.
pub proof fn law_opened_before_a_track(
    playing: bool,
    position_ms: Option<u64>,
    last: bool,
    shown: Sync,
)
    requires
        paints(
            with_tick(
                Snapshot { now_playing: None, playing: last, position_ms: None },
                playing,
                position_ms,
            ),
            shown,
        ),
    ensures
        shown == (Sync::Empty { playing, position_ms }),
{
}

/// Reports are kept: a track change as it came, and of a tick the live fields.
pub proof fn law_reports_are_kept(
    s: Snapshot,
    track: NowPlaying,
    playing: bool,
    position_ms: Option<u64>,
)
    ensures
        with_track(track).now_playing == Some(track),
        with_track(track).position_ms == track.position_ms,
        with_track(track).playing <==> playback_of(
            track.playing,
            track.stopped,
            track.position_ms,
        ) is Playing,
        with_tick(s, playing, position_ms).now_playing == s.now_playing,
        with_tick(s, playing, position_ms).playing == playing,
        position_ms is Some ==> with_tick(s, playing, position_ms).position_ms == position_ms,
        position_ms is None ==> with_tick(s, playing, position_ms).position_ms == s.position_ms,
{
}

/// Seeks and volumes reach the player with the number that the system gave, and a seek backward
/// with a minus sign before it.
pub proof fn law_numbers_reach_the_player(ms: u128, small: u64, volume: Seq<char>)
    ensures
        transport_of(TransportEvent::SeekBy { forward: true, ms }) == Transport::Forward(
            "seekby:"@ + text::decimal(ms as nat),
        ),
        transport_of(TransportEvent::SeekBy { forward: false, ms }) == Transport::Forward(
            "seekby:"@ + ("-"@ + text::decimal(ms as nat)),
        ),
        transport_of(TransportEvent::SetPosition { ms }) == Transport::Forward(
            "setposition:"@ + text::decimal(ms as nat),
        ),
        transport_of(TransportEvent::SetVolume { volume }) == Transport::Forward(
            "setvolume:"@ + volume,
        ),
        text::u64_of(
            text::after_prefix(
                transport_of(TransportEvent::SetPosition { ms: small as u128 })->Forward_0,
                "setposition:"@,
            )->0,
        ) == Some(small),
{
    reveal_strlit("seekby:");
    reveal_strlit("-");
    reveal_strlit("seekby:-");
    assert("seekby:-"@ + text::decimal(ms as nat) =~= "seekby:"@ + ("-"@ + text::decimal(
        ms as nat,
    )));
    text::law_prefix_taken_off("setposition:"@, "setposition:"@, text::decimal(small as nat));
    text::law_decimal_round_trip(small);
}

/// Models keep what they model: every part of a transport command and of what is done about it.
pub proof fn law_models(e: TransportEvent<String>, t: Transport<String>)
    ensures
        e matches TransportEvent::SeekBy { forward, ms } ==> e@ == (TransportEvent::<
            Seq<char>,
        >::SeekBy { forward, ms }),
        e matches TransportEvent::SetPosition { ms } ==> e@ == (TransportEvent::<
            Seq<char>,
        >::SetPosition { ms }),
        e matches TransportEvent::SetVolume { volume } ==> e@ == (TransportEvent::SetVolume {
            volume: volume@,
        }),
        e is Play <==> e@ is Play,
        e is Pause <==> e@ is Pause,
        e is Toggle <==> e@ is Toggle,
        e is Next <==> e@ is Next,
        e is Previous <==> e@ is Previous,
        e is Stop <==> e@ is Stop,
        e is SeekForward <==> e@ is SeekForward,
        e is SeekBackward <==> e@ is SeekBackward,
        e is OpenUri <==> e@ is OpenUri,
        e is Raise <==> e@ is Raise,
        e is Quit <==> e@ is Quit,
        t matches Transport::Forward(a) ==> t@ == Transport::Forward(a@),
        t is FocusMain <==> t@ is FocusMain,
        t is Ignore <==> t@ is Ignore,
{
}

/// What is painted is the stored state: the track with whether it plays, at the stored position, or at
/// that of the track's own report where none is stored.
pub proof fn law_painted_as_stored(track: NowPlaying, playing: bool, position_ms: u64, shown: Sync)
    ensures
        paints(
            Snapshot { now_playing: Some(track), playing, position_ms: Some(position_ms) },
            shown,
        ) ==> (shown matches Sync::Track(t) && t.playing == Some(playing) && t.position_ms == Some(
            position_ms,
        ) && t.title == track.title && t.artist == track.artist && t.video_id == track.video_id),
        paints(Snapshot { now_playing: Some(track), playing, position_ms: None }, shown) ==> (
        shown matches Sync::Track(t) && t.playing == Some(playing) && t.position_ms
            == track.position_ms && t.title == track.title && t.artist == track.artist && t.video_id
            == track.video_id),
        paints(Snapshot { now_playing: None, playing, position_ms: Some(position_ms) }, shown) ==> shown
            == (Sync::Empty { playing, position_ms: Some(position_ms) }),
{
}

} // verus!
