//! The tray: its menu and what its items do, the texts that follow playback, the upcoming tracks,
//! the icon, and the clicks on it.
use vstd::prelude::*;

use crate::media::{nonblank, nonempty, QueueEntry};
use crate::settings::{self, Settings, Store};
use crate::text;

pub mod icon;
pub mod menu;

verus! {

/// The main window's label.
pub const MAIN_WINDOW: &'static str = "main";

// ---------------------------------------------------------------------------
// Texts that follow playback
// ---------------------------------------------------------------------------

/// The title and the artist in one line, or the app's name where there is no title.
pub open spec fn track_line(title: Option<Seq<char>>, artist: Option<Seq<char>>) -> Seq<char> {
    match (title, artist) {
        (Some(t), Some(a)) => t + " — "@ + a,
        (Some(t), None) => t,
        _ => "SK Music"@,
    }
}

/// The menu's first line.
pub open spec fn header_line(title: Option<Seq<char>>, artist: Option<Seq<char>>) -> Seq<char> {
    if title is Some {
        "♪ "@ + track_line(title, artist)
    } else {
        "Not playing"@
    }
}

/// What the item that plays and pauses is called.
pub open spec fn play_pause_label(playing: bool) -> Seq<char> {
    if playing {
        "Pause"@
    } else {
        "Play"@
    }
}

/// What the item that starts the radio is called: it starts from the track, if there is one.
pub open spec fn radio_label(title: Option<Seq<char>>) -> Seq<char> {
    if title is Some {
        "Start radio from this song"@
    } else {
        "Start radio"@
    }
}

fn play_pause_text(playing: bool) -> (r: &'static str)
    ensures
        r@ == play_pause_label(playing),
{
    if playing {
        "Pause"
    } else {
        "Play"
    }
}

/// The texts that a track change sets.
pub struct TrackTexts {
    pub tooltip: String,
    pub now_playing: String,
    pub play_pause: &'static str,
    pub radio: &'static str,
}

/// The texts for a track.
pub fn track_texts(title: Option<&str>, artist: Option<&str>, playing: bool) -> (r: TrackTexts)
    ensures
        r.tooltip@ == track_line(text::opt_view(title), text::opt_view(artist)),
        r.now_playing@ == header_line(text::opt_view(title), text::opt_view(artist)),
        r.play_pause@ == play_pause_label(playing),
        r.radio@ == radio_label(text::opt_view(title)),
{
    let line: String = match (title, artist) {
        (Some(t), Some(a)) => {
            let mut s: String = t.to_string();
            s.append(" — ");
            s.append(a);
            s
        },
        (Some(t), None) => t.to_string(),
        _ => "SK Music".to_string(),
    };
    let now_playing: String = if title.is_some() {
        let mut s: String = "♪ ".to_string();
        s.append(line.as_str());
        s
    } else {
        "Not playing".to_string()
    };
    let radio: &'static str = if title.is_some() {
        "Start radio from this song"
    } else {
        "Start radio"
    };
    TrackTexts { tooltip: line, now_playing, play_pause: play_pause_text(playing), radio }
}

/// What the tray shows anew after a track change.
pub struct TrackChange {
    pub texts: TrackTexts,
    /// The icon to set, if it changes.
    pub icon: Option<icon::Variant>,
}

/// Shows a track.
pub fn set_now_playing(
    state: &mut icon::IconState,
    title: Option<&str>,
    artist: Option<&str>,
    playing: bool,
) -> (r: TrackChange)
    ensures
        r.texts.tooltip@ == track_line(text::opt_view(title), text::opt_view(artist)),
        r.texts.now_playing@ == header_line(text::opt_view(title), text::opt_view(artist)),
        r.texts.play_pause@ == play_pause_label(playing),
        r.texts.radio@ == radio_label(text::opt_view(title)),
        r.icon == icon::wanted(*old(state), playing),
        *final(state) == icon::asked(*old(state), playing),
{
    TrackChange {
        texts: track_texts(title, artist, playing),
        icon: icon::apply_icon(state, playing),
    }
}

/// What the tray shows anew after a play or a pause.
pub struct PlayingChange {
    pub play_pause: &'static str,
    /// The icon to set, if it changes.
    pub icon: Option<icon::Variant>,
}

/// Shows that music plays or not.
pub fn set_playing(state: &mut icon::IconState, playing: bool) -> (r: PlayingChange)
    ensures
        r.play_pause@ == play_pause_label(playing),
        r.icon == icon::wanted(*old(state), playing),
        *final(state) == icon::asked(*old(state), playing),
{
    PlayingChange { play_pause: play_pause_text(playing), icon: icon::apply_icon(state, playing) }
}

// ---------------------------------------------------------------------------
// Upcoming tracks
// ---------------------------------------------------------------------------

/// How many upcoming tracks are listed.
pub const UP_NEXT_LIMIT: usize = 6;

/// An item of the list of upcoming tracks.
pub struct UpNext<S> {
    pub id: S,
    pub label: S,
    pub enabled: bool,
}

impl View for UpNext<String> {
    type V = UpNext<Seq<char>>;

    open spec fn view(&self) -> UpNext<Seq<char>> {
        UpNext { id: self.id@, label: self.label@, enabled: self.enabled }
    }
}

/// The models of some items.
pub open spec fn up_next_view(v: Seq<UpNext<String>>) -> Seq<UpNext<Seq<char>>> {
    Seq::new(v.len(), |i: int| v[i]@)
}

/// The queue index of the track at place `i` of a list that starts at `base`, at most the largest
/// there is.
pub open spec fn queue_index(base: u64, i: nat) -> u64 {
    if base + i <= u64::MAX {
        (base + i) as u64
    } else {
        u64::MAX
    }
}

/// What an upcoming track is called: its place in the list, counted from one, its title and its
/// artist.
pub open spec fn up_next_label(i: nat, entry: QueueEntry) -> Seq<char> {
    let title = match nonblank(text::opt_string_view(entry.title)) {
        Some(t) => t,
        None => "Unknown"@,
    };
    let numbered = text::decimal(i + 1) + ". "@ + title;
    match nonblank(text::opt_string_view(entry.artist)) {
        Some(a) => numbered + " — "@ + a,
        None => numbered,
    }
}

/// The item for the upcoming track at place `i`.
pub open spec fn up_next_item(base: u64, i: nat, entry: QueueEntry) -> UpNext<Seq<char>> {
    UpNext {
        id: "upnext_"@ + text::decimal(queue_index(base, i) as nat),
        label: up_next_label(i, entry),
        enabled: true,
    }
}

/// The list of upcoming tracks: the first few, or one line that says that there are none.
pub open spec fn up_next_items(base: Option<u64>, queue: Seq<QueueEntry>) -> Seq<
    UpNext<Seq<char>>,
> {
    if queue.len() == 0 {
        seq![UpNext { id: "upnext_end"@, label: "(end of queue)"@, enabled: false }]
    } else {
        let start = match base {
            Some(b) => b,
            None => 0,
        };
        Seq::new(
            if queue.len() < UP_NEXT_LIMIT {
                queue.len()
            } else {
                UP_NEXT_LIMIT as nat
            },
            |i: int| up_next_item(start, i as nat, queue[i]),
        )
    }
}

fn up_next_text(i: usize, entry: &QueueEntry) -> (r: String)
    requires
        i < UP_NEXT_LIMIT,
    ensures
        r@ == up_next_label(i as nat, *entry),
{
    let mut label: String = text::decimal_string((i + 1) as u128);
    label.append(". ");
    match nonempty(&entry.title) {
        Some(t) => label.append(t),
        None => label.append("Unknown"),
    }
    match nonempty(&entry.artist) {
        Some(a) => {
            label.append(" — ");
            label.append(a);
        },
        None => {},
    }
    label
}

/// The item that stands for an empty list of upcoming tracks.
pub fn up_next_placeholder() -> (r: UpNext<String>)
    ensures
        r@ == (UpNext { id: "upnext_end"@, label: "(end of queue)"@, enabled: false }),
{
    UpNext {
        id: "upnext_end".to_string(),
        label: "(end of queue)".to_string(),
        enabled: false,
    }
}

/// The list of upcoming tracks. `queue_base` is the queue index of the first of them.
pub fn set_up_next(queue_base: Option<u64>, queue: &[QueueEntry]) -> (r: Vec<UpNext<String>>)
    ensures
        up_next_view(r@) == up_next_items(queue_base, queue@),
{
    let mut out: Vec<UpNext<String>> = Vec::new();
    if queue.len() == 0 {
        out.push(up_next_placeholder());
        assert(up_next_view(out@) =~= up_next_items(queue_base, queue@));
        return out;
    }
    let base: u64 = queue_base.unwrap_or(0);
    let mut i: usize = 0;
    while i < queue.len() && i < UP_NEXT_LIMIT
        invariant
            i <= queue@.len(),
            i <= UP_NEXT_LIMIT,
            out@.len() == i,
            forall|j: int|
                0 <= j < i ==> (#[trigger] out@[j])@ == up_next_item(base, j as nat, queue@[j]),
        decreases queue@.len() - i,
    {
        let index: u64 = if base <= u64::MAX - i as u64 {
            base + i as u64
        } else {
            u64::MAX
        };
        let mut id: String = "upnext_".to_string();
        let digits: String = text::decimal_string(index as u128);
        id.append(digits.as_str());
        out.push(UpNext { id, label: up_next_text(i, &queue[i]), enabled: true });
        i = i + 1;
    }
    assert(up_next_view(out@) =~= up_next_items(queue_base, queue@));
    out
}

// ---------------------------------------------------------------------------
// Switches of the menu
// ---------------------------------------------------------------------------

/// What a switch leads to: whether it is checked now, and the settings to write to the file.
pub struct Switched<P> {
    pub checked: bool,
    pub write: Option<Settings<P>>,
}

/// Turns over whether the mini player comes up by itself.
pub fn toggle_auto_mini<P: Copy>(store: &mut Store<P>) -> (r: Switched<P>)
    ensures
        r.checked == !old(store).current().auto_mini,
        *final(store) == settings::changed(
            *old(store),
            Settings { auto_mini: r.checked, ..old(store).current() },
        ),
        r.write == final(store).settings,
{
    let desired: bool = !settings::auto_mini(store);
    let write: Option<Settings<P>> = settings::set_auto_mini(store, desired);
    Switched { checked: desired, write }
}

/// Turns over whether track changes are announced.
pub fn toggle_notify<P: Copy>(store: &mut Store<P>) -> (r: Switched<P>)
    ensures
        r.checked == !old(store).current().notify_on_track,
        *final(store) == settings::changed(
            *old(store),
            Settings { notify_on_track: r.checked, ..old(store).current() },
        ),
        r.write == final(store).settings,
{
    let desired: bool = !settings::notify_on_track(store);
    let write: Option<Settings<P>> = settings::set_notify_on_track(store, desired);
    Switched { checked: desired, write }
}

/// Whether the start with the system is shown as on, after it was turned over. `done` says whether
/// that succeeded: only then does the switch change.
pub fn toggle_autostart(enabled: bool, done: bool) -> (r: bool)
    ensures
        r == if done {
            !enabled
        } else {
            enabled
        },
{
    if done {
        !enabled
    } else {
        enabled
    }
}

// ---------------------------------------------------------------------------
// Clicks on the icon, and the menu's window
// ---------------------------------------------------------------------------

/// A click on the tray icon.
#[derive(PartialEq, Eq, Structural, Clone, Copy, Debug)]
pub enum Click {
    /// The left button was let go.
    LeftUp,
    LeftDouble,
    Other,
}

/// What a click on the tray icon does.
#[derive(PartialEq, Eq, Structural, Clone, Copy, Debug)]
pub enum ClickAction {
    /// Bring the mini player up, and pop up the menu.
    MiniAndMenu,
    /// Bring the main window to the front.
    ShowMain,
    Nothing,
}

/// What a click on the tray icon does.
pub fn on_click(click: Click) -> (r: ClickAction)
    ensures
        r == (match click {
            Click::LeftUp => ClickAction::MiniAndMenu,
            Click::LeftDouble => ClickAction::ShowMain,
            Click::Other => ClickAction::Nothing,
        }),
{
    match click {
        Click::LeftUp => ClickAction::MiniAndMenu,
        Click::LeftDouble => ClickAction::ShowMain,
        Click::Other => ClickAction::Nothing,
    }
}

/// The window that the menu pops up on.
#[derive(PartialEq, Eq, Structural, Clone, Copy, Debug)]
pub enum Anchor {
    Mini,
    Main,
}

/// The window that the menu pops up on: the mini player if it is visible, else the main window, if
/// there is one. A window's visibility is `None` where there is no such window.
pub fn menu_anchor(mini_visible: Option<bool>, main_visible: Option<bool>) -> (r: Option<Anchor>)
    ensures
        r == (if mini_visible == Some(true) {
            Some(Anchor::Mini)
        } else if main_visible is Some {
            Some(Anchor::Main)
        } else {
            None
        }),
{
    if mini_visible.unwrap_or(false) {
        Some(Anchor::Mini)
    } else if main_visible.is_some() {
        Some(Anchor::Main)
    } else {
        None
    }
}

// ---------------------------------------------------------------------------
// Laws
// ---------------------------------------------------------------------------

/// Clicking an upcoming track's item jumps to that track: its queue index is the index of the first
/// track listed and its place after that.
pub proof fn law_up_next_item_jumps(base: Option<u64>, queue: Seq<QueueEntry>, i: int)
    requires
        0 <= i < queue.len(),
        i < UP_NEXT_LIMIT,
    ensures
        menu::menu_action(up_next_items(base, queue)[i].id) == menu::MenuAction::Control(
            "playindex:"@ + text::decimal(
                queue_index(
                    match base {
                        Some(b) => b,
                        None => 0,
                    },
                    i as nat,
                ) as nat,
            ),
        ),
{
    let start = match base {
        Some(b) => b,
        None => 0,
    };
    menu::law_up_next_jumps(queue_index(start, i as nat));
}

/// A switch that is turned over twice is as it was, and so are all settings.
pub proof fn law_toggled_twice<P>(store: Store<P>)
    requires
        store.settings is Some,
    ensures
        ({
            let s = store.current();
            let once = settings::changed(store, Settings { auto_mini: !s.auto_mini, ..s });
            settings::changed(
                once,
                Settings { auto_mini: !once.current().auto_mini, ..once.current() },
            ) == store
        }),
        ({
            let s = store.current();
            let once = settings::changed(
                store,
                Settings { notify_on_track: !s.notify_on_track, ..s },
            );
            settings::changed(
                once,
                Settings { notify_on_track: !once.current().notify_on_track, ..once.current() },
            ) == store
        }),
{
}

/// A track is shown by its title and its artist, and without an artist by its title alone; without
/// a title the app's name stands in, and the menu says that nothing plays.
pub proof fn law_track_is_shown(title: Seq<char>, artist: Seq<char>, any: Option<Seq<char>>)
    ensures
        track_line(Some(title), Some(artist)) == title + " — "@ + artist,
        track_line(Some(title), None) == title,
        track_line(None, any) == "SK Music"@,
        header_line(Some(title), any) == "♪ "@ + track_line(Some(title), any),
        header_line(None, any) == "Not playing"@,
        radio_label(Some(title)) == "Start radio from this song"@,
        radio_label(None) == "Start radio"@,
        play_pause_label(true) == "Pause"@,
        play_pause_label(false) == "Play"@,
{
}

/// The list holds the first six upcoming tracks in their order, or one line that cannot be clicked
/// where there are none; each is named by its own queue index, counted on from the first one's and at
/// most the largest there is.
pub proof fn law_list_of_upcoming_tracks(base: Option<u64>, queue: Seq<QueueEntry>, i: int)
    requires
        0 <= i < up_next_items(base, queue).len(),
    ensures
        ({
            let items = up_next_items(base, queue);
            let start: int = match base {
                Some(b) => b as int,
                None => 0,
            };
            &&& queue.len() == 0 ==> items.len() == 1 && !items[i].enabled && items[i].label
                == "(end of queue)"@ && items[i].id == "upnext_end"@
            &&& 0 < queue.len() <= 6 ==> items.len() == queue.len()
            &&& queue.len() > 6 ==> items.len() == 6
            &&& queue.len() > 0 ==> items[i].enabled && items[i].label == up_next_label(
                i as nat,
                queue[i],
            )
            &&& queue.len() > 0 && start + i <= u64::MAX ==> items[i].id == "upnext_"@ + text::decimal(
                (start + i) as nat,
            )
            &&& queue.len() > 0 && start + i > u64::MAX ==> items[i].id == "upnext_"@ + text::decimal(
                u64::MAX as nat,
            )
        }),
{
}

/// An upcoming track is called by its place, counted from one, its title and its artist, without
/// the white space around them; a title that is missing or blank is unknown, and an artist that is
/// missing or blank is left out.
pub proof fn law_name_of_an_upcoming_track(i: nat, entry: QueueEntry)
    ensures
        ({
            let title = nonblank(text::opt_string_view(entry.title));
            let artist = nonblank(text::opt_string_view(entry.artist));
            let place = text::decimal(i + 1) + ". "@;
            &&& title is Some && artist is Some ==> up_next_label(i, entry) == place + title->0
                + " — "@ + artist->0
            &&& title is Some && artist is None ==> up_next_label(i, entry) == place + title->0
            &&& title is None && artist is Some ==> up_next_label(i, entry) == place + "Unknown"@
                + " — "@ + artist->0
            &&& title is None && artist is None ==> up_next_label(i, entry) == place + "Unknown"@
        }),
{
}

/// Clicking an upcoming track jumps to its place in the queue, counted on from the first one's.
pub proof fn law_click_jumps_in_the_queue(base: u64, queue: Seq<QueueEntry>, i: int)
    requires
        0 <= i < queue.len(),
        i < 6,
        base + i <= u64::MAX,
    ensures
        menu::menu_action(up_next_items(Some(base), queue)[i].id) == menu::MenuAction::Control(
            "playindex:"@ + text::decimal((base + i) as nat),
        ),
{
    menu::law_up_next_jumps((base + i) as u64);
}

/// Models keep what they model: every part of an item, and the order of items.
pub proof fn law_models(all: Seq<UpNext<String>>)
    ensures
        up_next_view(all).len() == all.len(),
        forall|i: int|
            0 <= i < all.len() ==> (#[trigger] up_next_view(all)[i]).id == all[i].id@
                && up_next_view(all)[i].label == all[i].label@ && up_next_view(all)[i].enabled
                == all[i].enabled,
{
}

} // verus!
