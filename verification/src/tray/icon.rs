//! The tray icon: its two variants, and which of them is shown.
use vstd::prelude::*;

use crate::outside;

verus! {

/// The width and the height of the tray icon, in pixels.
pub const TRAY_SIZE: u32 = 32;

/// A picture in memory, four bytes for each pixel.
pub struct Icon {
    pub rgba: Vec<u8>,
    pub width: u32,
    pub height: u32,
}

impl Icon {
    /// Whether two icons show the same.
    pub open spec fn same(self, other: Icon) -> bool {
        self.rgba@ == other.rgba@ && self.width == other.width && self.height == other.height
    }

    fn copied(&self) -> (r: Icon)
        ensures
            r.same(*self),
    {
        let mut rgba: Vec<u8> = Vec::new();
        let mut i: usize = 0;
        while i < self.rgba.len()
            invariant
                i <= self.rgba@.len(),
                rgba@ == self.rgba@.take(i as int),
            decreases self.rgba@.len() - i,
        {
            rgba.push(self.rgba[i]);
            i = i + 1;
            assert(self.rgba@.take(i as int) =~= self.rgba@.take(i - 1).push(self.rgba@[i - 1]));
        }
        assert(self.rgba@.take(i as int) =~= self.rgba@);
        Icon { rgba, width: self.width, height: self.height }
    }
}

/// The icon that is shown when nothing plays: the bundled picture at the tray's size, given its
/// pixels at that size, or the window's icon where there are none.
pub fn idle_of(pixels: Option<Vec<u8>>, window_icon: Option<Icon>) -> (r: Option<Icon>)
    ensures
        r == (match pixels {
            Some(rgba) => Some(Icon { rgba, width: TRAY_SIZE, height: TRAY_SIZE }),
            None => window_icon,
        }),
{
    match pixels {
        Some(rgba) => Some(Icon { rgba, width: TRAY_SIZE, height: TRAY_SIZE }),
        None => window_icon,
    }
}

/// The icon that is shown when nothing plays: the picture that `source` encodes as PNG, at the tray's
/// size, or the window's icon where it encodes none.
pub fn idle_icon(source: &[u8], window_icon: Option<Icon>) -> (r: Option<Icon>)
    ensures
        outside::decoded_png(source@) is None ==> r == window_icon,
        outside::decoded_png(source@) is Some ==> (r matches Some(icon) && icon.width == TRAY_SIZE
            && icon.height == TRAY_SIZE && icon.rgba@.len() == 4 * TRAY_SIZE * TRAY_SIZE),
        outside::decoded_png(source@) matches Some(p) ==> (p.width == TRAY_SIZE && p.height
            == TRAY_SIZE ==> r->0.rgba@ == p.rgba),
{
    idle_of(outside::resized_rgba(source, TRAY_SIZE, TRAY_SIZE), window_icon)
}

/// Both variants of the icon. `badged` is the idle icon with the mark that music plays; where it
/// could not be drawn, the idle icon stands in for it.
pub fn build_icons(idle: Option<Icon>, badged: Option<Icon>) -> (r: (Option<Icon>, Option<Icon>))
    ensures
        r.0 == idle,
        idle is None ==> r.1 is None,
        idle is Some && badged is Some ==> r.1 == badged,
        idle is Some && badged is None ==> (r.1 matches Some(icon) && icon.same(idle->0)),
{
    match idle {
        None => (None, None),
        Some(icon) => match badged {
            Some(b) => (Some(icon), Some(b)),
            None => {
                let copy: Icon = icon.copied();
                (Some(icon), Some(copy))
            },
        },
    }
}

// ---------------------------------------------------------------------------
// Which variant is shown
// ---------------------------------------------------------------------------

/// A variant of the icon.
#[derive(PartialEq, Eq, Structural, Clone, Copy, Debug)]
pub enum Variant {
    Idle,
    Playing,
}

/// The variant that is shown, and which variants there are.
#[derive(PartialEq, Eq, Structural, Clone, Copy, Debug)]
pub struct IconState {
    pub shows_playing: bool,
    pub has_idle: bool,
    pub has_playing: bool,
}

impl IconState {
    /// A new tray shows that nothing plays.
    pub fn new(has_idle: bool, has_playing: bool) -> (r: IconState)
        ensures
            r == (IconState { shows_playing: false, has_idle, has_playing }),
    {
        IconState { shows_playing: false, has_idle, has_playing }
    }

    /// Whether there is an icon for the state of playback.
    pub open spec fn has(self, playing: bool) -> bool {
        if playing {
            self.has_playing
        } else {
            self.has_idle
        }
    }
}

/// The variant for a state of playback.
pub open spec fn variant(playing: bool) -> Variant {
    if playing {
        Variant::Playing
    } else {
        Variant::Idle
    }
}

/// The icon to set for a state of playback: none if it is shown already or does not exist.
pub open spec fn wanted(s: IconState, playing: bool) -> Option<Variant> {
    if s.shows_playing != playing && s.has(playing) {
        Some(variant(playing))
    } else {
        None
    }
}

/// The state after the icon for a state of playback was asked for. One that does not exist counts
/// as shown, so it is not asked for again.
pub open spec fn asked(s: IconState, playing: bool) -> IconState {
    if s.has(playing) {
        s
    } else {
        IconState { shows_playing: playing, ..s }
    }
}

/// The icon to set for a state of playback, if it changes. Once it is set, or could not be, the
/// outcome goes to `icon_set`.
pub fn apply_icon(s: &mut IconState, playing: bool) -> (r: Option<Variant>)
    ensures
        r == wanted(*old(s), playing),
        *final(s) == asked(*old(s), playing),
{
    let exists: bool = if playing {
        s.has_playing
    } else {
        s.has_idle
    };
    if !exists {
        s.shows_playing = playing;
        None
    } else if s.shows_playing == playing {
        None
    } else if playing {
        Some(Variant::Playing)
    } else {
        Some(Variant::Idle)
    }
}

/// The state after an icon was set, or could not be.
pub open spec fn settled(s: IconState, shown: Variant, ok: bool) -> IconState {
    if ok {
        IconState { shows_playing: shown == Variant::Playing, ..s }
    } else {
        s
    }
}

/// Takes the outcome of setting an icon. One that could not be set is tried again at the next
/// report.
pub fn icon_set(s: &mut IconState, shown: Variant, ok: bool)
    ensures
        *final(s) == settled(*old(s), shown, ok),
{
    if ok {
        s.shows_playing = match shown {
            Variant::Playing => true,
            Variant::Idle => false,
        };
    }
}

// ---------------------------------------------------------------------------
// Laws
// ---------------------------------------------------------------------------

/// The icon is set when playback starts or stops, and not at every tick: once a report was carried
/// out, further reports of the same state set nothing.
pub proof fn law_icon_set_once(s: IconState, playing: bool)
    ensures
        ({
            let after = match wanted(s, playing) {
                Some(v) => settled(asked(s, playing), v, true),
                None => asked(s, playing),
            };
            &&& after.shows_playing == playing
            &&& wanted(after, playing) is None
            &&& asked(after, playing) == after
        }),
{
}

/// An icon that could not be set is tried again.
pub proof fn law_failed_icon_retried(s: IconState, playing: bool)
    requires
        wanted(s, playing) is Some,
    ensures
        wanted(settled(asked(s, playing), wanted(s, playing)->0, false), playing) == wanted(
            s,
            playing,
        ),
{
}

/// The icon that is set is that of the state of playback, and it is set exactly where it exists and
/// is not shown yet.
pub proof fn law_icon_of_the_state(s: IconState, playing: bool)
    ensures
        wanted(s, playing) == Some(Variant::Playing) <==> playing && s.has_playing
            && !s.shows_playing,
        wanted(s, playing) == Some(Variant::Idle) <==> !playing && s.has_idle && s.shows_playing,
        asked(s, playing).has_idle == s.has_idle && asked(s, playing).has_playing == s.has_playing,
        wanted(s, playing) is Some ==> asked(s, playing) == s,
        settled(s, Variant::Playing, true).shows_playing,
        !settled(s, Variant::Idle, true).shows_playing,
{
}

} // verus!
