//! The settings that outlive a run: two switches of the tray menu and the mini player's place.
//!
//! `P` is the type of a coordinate. A store that was not loaded yet reads as the defaults, and
//! keeps nothing.
use vstd::prelude::*;

verus! {

/// The settings.
pub struct Settings<P> {
    /// Announce a track change while the main window is hidden.
    pub notify_on_track: bool,
    /// Bring the mini player up while music plays and the main window is out of sight.
    pub auto_mini: bool,
    /// Where the mini player was left, in logical pixels.
    pub mini_x: Option<P>,
    pub mini_y: Option<P>,
}

/// The settings of a fresh install.
pub open spec fn defaults<P>() -> Settings<P> {
    Settings { notify_on_track: false, auto_mini: true, mini_x: None, mini_y: None }
}

impl<P> Default for Settings<P> {
    fn default() -> (r: Settings<P>)
        ensures
            r == defaults::<P>(),
    {
        Settings { notify_on_track: false, auto_mini: true, mini_x: None, mini_y: None }
    }
}

/// The settings in memory, once they are loaded.
pub struct Store<P> {
    pub settings: Option<Settings<P>>,
}

impl<P> Store<P> {
    /// What the store reads as.
    pub open spec fn current(self) -> Settings<P> {
        match self.settings {
            Some(s) => s,
            None => defaults(),
        }
    }

    /// Before anything is loaded.
    pub fn new() -> (r: Store<P>)
        ensures
            r.settings is None,
    {
        Store { settings: None }
    }

    /// Takes what the settings file held, or the defaults where it held nothing that could be read.
    /// Only the first load counts.
    pub fn init(&mut self, stored: Option<Settings<P>>)
        ensures
            final(self).settings == Some(
                if old(self).settings is Some {
                    old(self).settings->0
                } else if stored is Some {
                    stored->0
                } else {
                    defaults()
                },
            ),
    {
        if self.settings.is_none() {
            self.settings = Some(
                match stored {
                    Some(s) => s,
                    None => Settings::default(),
                },
            );
        }
    }
}

fn copy_of<P: Copy>(s: &Settings<P>) -> (r: Settings<P>)
    ensures
        r == *s,
{
    Settings {
        notify_on_track: s.notify_on_track,
        auto_mini: s.auto_mini,
        mini_x: s.mini_x,
        mini_y: s.mini_y,
    }
}

/// The current settings.
pub fn get<P: Copy>(store: &Store<P>) -> (r: Settings<P>)
    ensures
        r == store.current(),
{
    match &store.settings {
        Some(s) => copy_of(s),
        None => Settings::default(),
    }
}

/// Puts the settings in the place of the old ones, and gives them back to be written to the file.
/// Nothing changes and nothing is written before the settings are loaded.
fn update<P: Copy>(store: &mut Store<P>, settings: Settings<P>) -> (r: Option<Settings<P>>)
    ensures
        old(store).settings is Some ==> final(store).settings == Some(settings),
        old(store).settings is None ==> final(store).settings is None,
        r == final(store).settings,
{
    if store.settings.is_none() {
        return None;
    }
    let written: Settings<P> = copy_of(&settings);
    store.settings = Some(settings);
    Some(written)
}

/// Whether track changes are announced.
pub fn notify_on_track<P: Copy>(store: &Store<P>) -> (r: bool)
    ensures
        r == store.current().notify_on_track,
{
    get(store).notify_on_track
}

/// The store after a change of the settings.
pub open spec fn changed<P>(store: Store<P>, settings: Settings<P>) -> Store<P> {
    if store.settings is Some {
        Store { settings: Some(settings) }
    } else {
        store
    }
}

/// Sets whether track changes are announced. The result is to be written to the file.
pub fn set_notify_on_track<P: Copy>(store: &mut Store<P>, value: bool) -> (r: Option<Settings<P>>)
    ensures
        *final(store) == changed(
            *old(store),
            Settings { notify_on_track: value, ..old(store).current() },
        ),
        r == final(store).settings,
{
    let mut s: Settings<P> = get(store);
    s.notify_on_track = value;
    update(store, s)
}

/// Whether the mini player comes up by itself.
pub fn auto_mini<P: Copy>(store: &Store<P>) -> (r: bool)
    ensures
        r == store.current().auto_mini,
{
    get(store).auto_mini
}

/// Sets whether the mini player comes up by itself. The result is to be written to the file.
pub fn set_auto_mini<P: Copy>(store: &mut Store<P>, value: bool) -> (r: Option<Settings<P>>)
    ensures
        *final(store) == changed(
            *old(store),
            Settings { auto_mini: value, ..old(store).current() },
        ),
        r == final(store).settings,
{
    let mut s: Settings<P> = get(store);
    s.auto_mini = value;
    update(store, s)
}

/// Where the mini player was left, if both coordinates are known.
pub open spec fn place_of<P>(s: Settings<P>) -> Option<(P, P)> {
    match (s.mini_x, s.mini_y) {
        (Some(x), Some(y)) => Some((x, y)),
        _ => None,
    }
}

/// Where the mini player was left, if both coordinates are known.
pub fn mini_pos<P: Copy>(store: &Store<P>) -> (r: Option<(P, P)>)
    ensures
        r == place_of(store.current()),
{
    let s: Settings<P> = get(store);
    match (s.mini_x, s.mini_y) {
        (Some(x), Some(y)) => Some((x, y)),
        _ => None,
    }
}

/// Sets where the mini player was left. The result is to be written to the file.
pub fn set_mini_pos<P: Copy>(store: &mut Store<P>, x: P, y: P) -> (r: Option<Settings<P>>)
    ensures
        *final(store) == changed(
            *old(store),
            Settings { mini_x: Some(x), mini_y: Some(y), ..old(store).current() },
        ),
        r == final(store).settings,
{
    let mut s: Settings<P> = get(store);
    s.mini_x = Some(x);
    s.mini_y = Some(y);
    update(store, s)
}

// ---------------------------------------------------------------------------
// Laws
// ---------------------------------------------------------------------------

/// What is set is read back, and no setting touches another.
pub proof fn law_settings_read_back<P>(store: Store<P>, value: bool, x: P, y: P)
    requires
        store.settings is Some,
    ensures
        ({
            let s = store.current();
            let after_notify = changed(store, Settings { notify_on_track: value, ..s }).current();
            let after_auto = changed(store, Settings { auto_mini: value, ..s }).current();
            let after_place = changed(
                store,
                Settings { mini_x: Some(x), mini_y: Some(y), ..s },
            ).current();
            &&& after_notify.notify_on_track == value && after_notify.auto_mini == s.auto_mini
                && place_of(after_notify) == place_of(s)
            &&& after_auto.auto_mini == value && after_auto.notify_on_track == s.notify_on_track
                && place_of(after_auto) == place_of(s)
            &&& place_of(after_place) == Some((x, y)) && after_place.notify_on_track
                == s.notify_on_track && after_place.auto_mini == s.auto_mini
        }),
{
}

/// A store reads as what was loaded, and before that as the defaults: no announcements, the mini
/// player by itself, and no place. Before that it also keeps nothing.
pub proof fn law_store_reads_as_loaded<P>(settings: Settings<P>, other: Settings<P>)
    ensures
        (Store { settings: Some(settings) }).current() == settings,
        !(Store::<P> { settings: None }).current().notify_on_track,
        (Store::<P> { settings: None }).current().auto_mini,
        place_of((Store::<P> { settings: None }).current()) is None,
        changed(Store { settings: Some(other) }, settings).current() == settings,
        changed(Store { settings: None }, settings) == (Store::<P> { settings: None }),
{
}

/// A place is known exactly where both of its coordinates are.
pub proof fn law_place_has_two_coordinates<P>(s: Settings<P>)
    ensures
        place_of(s) is Some <==> s.mini_x is Some && s.mini_y is Some,
        place_of(s) matches Some(p) ==> s.mini_x == Some(p.0) && s.mini_y == Some(p.1),
{
}

} // verus!
