//! The mini player: when its window comes up and goes away, which of its actions reach the page,
//! where it is placed, and how its resting place is kept.
use vstd::prelude::*;

use crate::media;
use crate::outside;
use crate::script;
use crate::text;

pub mod saver;

verus! {

/// The mini player's window label, also the target of the events that it gets.
pub const LABEL: &'static str = "mini";

// ---------------------------------------------------------------------------
// When the window is up
// ---------------------------------------------------------------------------

/// Whose window it is that is up.
#[derive(PartialEq, Eq, Structural, Clone, Copy, Debug)]
pub struct Mini {
    /// The window came up by itself, not at the user's wish. Only such a window goes away by
    /// itself.
    pub auto_shown: bool,
}

/// What is done with the mini player's window.
#[derive(PartialEq, Eq, Structural, Clone, Copy, Debug)]
pub enum Action {
    /// Move it back if no monitor shows it.
    EnsureOnScreen,
    Show,
    Focus,
    Hide,
    /// Make the window, which comes up at once.
    Create { focused: bool },
}

/// What happens to the main window.
#[derive(PartialEq, Eq, Structural, Clone, Copy, Debug)]
pub enum MainEvent {
    FocusLost,
    FocusGained,
    /// `minimized` is `None` where the main window is gone.
    Resized { minimized: Option<bool> },
    Other,
}

/// The number of monitors, or one where they could not be counted.
pub fn monitor_count(monitors: Option<usize>) -> (r: usize)
    ensures
        r == (match monitors {
            Some(n) => n,
            None => 1,
        }),
{
    monitors.unwrap_or(1)
}

/// Whether an event of the main window means that it is out of sight: it is minimised, or it lost
/// the focus where there is no second monitor to see it on.
pub open spec fn out_of_sight(event: MainEvent, monitors: Option<usize>) -> bool {
    match event {
        MainEvent::FocusLost => match monitors {
            Some(n) => n <= 1,
            None => true,
        },
        MainEvent::Resized { minimized } => minimized == Some(true),
        _ => false,
    }
}

/// Whether an event of the main window means that it is back.
pub open spec fn back_in_sight(event: MainEvent) -> bool {
    event == MainEvent::FocusGained || event == (MainEvent::Resized { minimized: Some(false) })
}

/// What is done to bring the mini player up by itself. `window` says whether its window is
/// visible, and is `None` where there is none.
pub open spec fn auto_show_actions(enabled: bool, playing: bool, window: Option<bool>) -> Seq<
    Action,
> {
    if !enabled || !playing {
        seq![]
    } else {
        match window {
            Some(true) => seq![],
            Some(false) => seq![Action::EnsureOnScreen, Action::Show],
            None => seq![Action::Create { focused: false }],
        }
    }
}

/// What is done when the user asks to show or hide the mini player.
pub open spec fn toggle_actions(auto_shown: bool, window: Option<bool>) -> Seq<Action> {
    match window {
        Some(true) => if auto_shown {
            seq![Action::EnsureOnScreen, Action::Focus]
        } else {
            seq![Action::Hide]
        },
        Some(false) => seq![Action::EnsureOnScreen, Action::Show, Action::Focus],
        None => seq![Action::Create { focused: true }],
    }
}

/// What is done when the user asks to see the mini player.
pub open spec fn show_actions(window: Option<bool>) -> Seq<Action> {
    if window is Some {
        seq![Action::EnsureOnScreen, Action::Show]
    } else {
        seq![Action::Create { focused: false }]
    }
}

/// What is done to take the window away, where there is one.
pub open spec fn hide_actions(window: Option<bool>) -> Seq<Action> {
    if window is Some {
        seq![Action::Hide]
    } else {
        seq![]
    }
}

/// What the mini player is asked.
pub enum Request {
    Main { event: MainEvent, monitors: Option<usize>, enabled: bool, playing: bool },
    AutoShow { enabled: bool, playing: bool },
    Show,
    Toggle,
    Hide,
}

/// Whether a window that is brought up by itself was not up before. Where it has to be made,
/// `created` says whether that was done.
pub open spec fn comes_up(enabled: bool, playing: bool, window: Option<bool>, created: bool) -> bool {
    enabled && playing && (window == Some(false) || window is None && created)
}

/// What is done about a request.
pub open spec fn requested(auto_shown: bool, window: Option<bool>, request: Request) -> Seq<
    Action,
> {
    match request {
        Request::Main { event, monitors, enabled, playing } => if out_of_sight(event, monitors) {
            auto_show_actions(enabled, playing, window)
        } else if back_in_sight(event) && auto_shown {
            hide_actions(window)
        } else {
            seq![]
        },
        Request::AutoShow { enabled, playing } => auto_show_actions(enabled, playing, window),
        Request::Show => show_actions(window),
        Request::Toggle => toggle_actions(auto_shown, window),
        Request::Hide => hide_actions(window),
    }
}

/// Whether the window counts as shown by itself after a request.
pub open spec fn owned_after(
    auto_shown: bool,
    window: Option<bool>,
    request: Request,
    created: bool,
) -> bool {
    match request {
        Request::Main { event, monitors, enabled, playing } => if back_in_sight(event) {
            false
        } else {
            auto_shown || out_of_sight(event, monitors) && comes_up(
                enabled,
                playing,
                window,
                created,
            )
        },
        Request::AutoShow { enabled, playing } => auto_shown || comes_up(
            enabled,
            playing,
            window,
            created,
        ),
        Request::Show | Request::Toggle | Request::Hide => false,
    }
}

impl Mini {
    /// Before any window is up.
    pub fn new() -> (r: Mini)
        ensures
            !r.auto_shown,
    {
        Mini { auto_shown: false }
    }

    /// Brings the mini player up by itself, where the user wants that and music plays. A window
    /// that is up already stays whose it is; one that has to be made is owned once `auto_created`
    /// says that it was.
    pub fn auto_show(&mut self, enabled: bool, playing: bool, window: Option<bool>) -> (r: Vec<
        Action,
    >)
        ensures
            r@ == auto_show_actions(enabled, playing, window),
            final(self).auto_shown == (old(self).auto_shown || comes_up(
                enabled,
                playing,
                window,
                false,
            )),
    {
        if !enabled || !playing {
            return vec![];
        }
        match window {
            Some(visible) => {
                if visible {
                    vec![]
                } else {
                    self.auto_shown = true;
                    vec![Action::EnsureOnScreen, Action::Show]
                }
            },
            None => vec![Action::Create { focused: false }],
        }
    }

    /// Takes note of whether the window that `auto_show` asked for could be made.
    pub fn auto_created(&mut self, ok: bool)
        ensures
            final(self).auto_shown == (old(self).auto_shown || ok),
    {
        if ok {
            self.auto_shown = true;
        }
    }

    /// Takes the mini player away again, if it came up by itself.
    pub fn auto_hide(&mut self, window: Option<bool>) -> (r: Vec<Action>)
        ensures
            !final(self).auto_shown,
            r@ == if old(self).auto_shown {
                hide_actions(window)
            } else {
                seq![]
            },
    {
        let owned: bool = self.auto_shown;
        self.auto_shown = false;
        if owned && window.is_some() {
            vec![Action::Hide]
        } else {
            vec![]
        }
    }

    /// Follows the main window: the mini player comes up when it goes out of sight and goes away
    /// when it is back.
    pub fn on_main_event(
        &mut self,
        event: MainEvent,
        monitors: Option<usize>,
        enabled: bool,
        playing: bool,
        window: Option<bool>,
    ) -> (r: Vec<Action>)
        ensures
            r@ == requested(
                old(self).auto_shown,
                window,
                Request::Main { event, monitors, enabled, playing },
            ),
            final(self).auto_shown == owned_after(
                old(self).auto_shown,
                window,
                Request::Main { event, monitors, enabled, playing },
                false,
            ),
    {
        match event {
            MainEvent::FocusLost => {
                if monitor_count(monitors) <= 1 {
                    self.auto_show(enabled, playing, window)
                } else {
                    vec![]
                }
            },
            MainEvent::FocusGained => self.auto_hide(window),
            MainEvent::Resized { minimized } => match minimized {
                Some(m) => {
                    if m {
                        self.auto_show(enabled, playing, window)
                    } else {
                        self.auto_hide(window)
                    }
                },
                None => vec![],
            },
            MainEvent::Other => vec![],
        }
    }

    /// Brings the mini player up at the user's wish, without the focus.
    pub fn show(&mut self, window: Option<bool>) -> (r: Vec<Action>)
        ensures
            !final(self).auto_shown,
            r@ == show_actions(window),
    {
        self.auto_shown = false;
        if window.is_some() {
            vec![Action::EnsureOnScreen, Action::Show]
        } else {
            vec![Action::Create { focused: false }]
        }
    }

    /// Shows or hides the mini player at the user's wish. A window that came up by itself is
    /// adopted, not hidden.
    pub fn toggle(&mut self, window: Option<bool>) -> (r: Vec<Action>)
        ensures
            !final(self).auto_shown,
            r@ == toggle_actions(old(self).auto_shown, window),
    {
        let was_auto: bool = self.auto_shown;
        self.auto_shown = false;
        match window {
            Some(visible) => {
                if visible && was_auto {
                    vec![Action::EnsureOnScreen, Action::Focus]
                } else if visible {
                    vec![Action::Hide]
                } else {
                    vec![Action::EnsureOnScreen, Action::Show, Action::Focus]
                }
            },
            None => vec![Action::Create { focused: true }],
        }
    }

    /// Hides the mini player at the user's wish.
    pub fn mini_hide(&mut self, window: Option<bool>) -> (r: Vec<Action>)
        ensures
            !final(self).auto_shown,
            r@ == hide_actions(window),
    {
        self.auto_shown = false;
        if window.is_some() {
            vec![Action::Hide]
        } else {
            vec![]
        }
    }
}

// ---------------------------------------------------------------------------
// Where the window is
// ---------------------------------------------------------------------------

/// Where a new window goes: to the place it was last left at, if a monitor still shows that; else
/// to the default place, if there is one; else to a safe place.
pub fn placed<P>(saved: Option<P>, saved_visible: bool, default_place: Option<P>, safe: P) -> (r: P)
    ensures
        r == (if saved is Some && saved_visible {
            saved->0
        } else if default_place is Some {
            default_place->0
        } else {
            safe
        }),
{
    match saved {
        Some(p) => {
            if saved_visible {
                return p;
            }
        },
        None => {},
    }
    match default_place {
        Some(p) => p,
        None => safe,
    }
}

/// Where a window goes before it is shown again: nowhere if a monitor shows it, else to the
/// default place, if there is one, or to a safe place.
pub fn ensure_on_screen<P>(on_screen: bool, default_place: Option<P>, safe: P) -> (r: Option<P>)
    ensures
        r == (if on_screen {
            None
        } else if default_place is Some {
            default_place
        } else {
            Some(safe)
        }),
{
    if on_screen {
        None
    } else if default_place.is_some() {
        default_place
    } else {
        Some(safe)
    }
}

// ---------------------------------------------------------------------------
// What reaches the page
// ---------------------------------------------------------------------------

/// Whether an action of the mini player may reach the page: it is one of its buttons', or a seek
/// to a position in milliseconds.
pub open spec fn permitted(action: Seq<char>) -> bool {
    ||| action == "toggle"@
    ||| action == "next"@
    ||| action == "previous"@
    ||| action == "like"@
    ||| action == "radio"@
    ||| action == "repeat"@
    ||| text::after_prefix(action, "setposition:"@) is Some && text::u64_of(
        text::after_prefix(action, "setposition:"@)->0,
    ) is Some
}

/// Whether an action of the mini player may reach the page.
pub fn is_permitted(action: &str) -> (r: bool)
    ensures
        r == permitted(action@),
{
    if text::same(action, "toggle") || text::same(action, "next") || text::same(action, "previous")
        || text::same(action, "like") || text::same(action, "radio") || text::same(
        action,
        "repeat",
    ) {
        return true;
    }
    match text::strip_prefix(action, "setposition:") {
        Some(v) => text::parse_u64(v).is_some(),
        None => false,
    }
}

/// The script that an action of the mini player runs in the page, if the action may reach it.
pub fn mini_control(action: &str) -> (r: Option<String>)
    ensures
        r is Some <==> permitted(action@),
        r matches Some(js) ==> js@ == script::relay_head() + outside::json_string(action@) + ");"@,
{
    if is_permitted(action) {
        Some(media::control(action))
    } else {
        None
    }
}

// ---------------------------------------------------------------------------
// Laws
// ---------------------------------------------------------------------------

/// The window after an action on it.
pub open spec fn acted(window: Option<bool>, action: Action) -> Option<bool> {
    match action {
        Action::EnsureOnScreen | Action::Focus => window,
        Action::Show | Action::Create { .. } => Some(true),
        Action::Hide => Some(false),
    }
}

/// The window after some actions on it.
pub open spec fn acted_all(window: Option<bool>, actions: Seq<Action>) -> Option<bool>
    decreases actions.len(),
{
    if actions.len() == 0 {
        window
    } else {
        acted(acted_all(window, actions.drop_last()), actions.last())
    }
}

/// A window that counts as shown by itself is up: every request keeps that, if it held before.
pub proof fn law_owned_window_is_up(
    auto_shown: bool,
    window: Option<bool>,
    request: Request,
    created: bool,
)
    requires
        auto_shown ==> window == Some(true),
    ensures
        owned_after(auto_shown, window, request, created) ==> acted_all(
            window,
            requested(auto_shown, window, request),
        ) == Some(true),
{
    reveal_with_fuel(acted_all, 4);
}

/// A window that the user opened goes away at the user's wish only: where it is up and not the
/// app's own, nothing but a hide or a toggle takes it away.
pub proof fn law_user_window_stays(window: Option<bool>, request: Request)
    requires
        window == Some(true),
        !(request is Toggle),
        !(request is Hide),
    ensures
        acted_all(window, requested(false, window, request)) == Some(true),
        !owned_after(false, window, request, true),
{
    reveal_with_fuel(acted_all, 4);
}

/// A window that came up by itself is adopted by a toggle: it stays up, and the main window's
/// return does not take it away any more.
pub proof fn law_toggle_adopts(window: Option<bool>, event: MainEvent, monitors: Option<usize>)
    requires
        window == Some(true),
        back_in_sight(event),
    ensures
        acted_all(window, requested(true, window, Request::Toggle)) == Some(true),
        !owned_after(true, window, Request::Toggle, true),
        requested(
            false,
            window,
            Request::Main { event, monitors, enabled: true, playing: true },
        ).len() == 0,
{
    reveal_with_fuel(acted_all, 4);
}

/// Toggling twice leaves the window as it was seen: up if it was up, away if it was not.
pub proof fn law_toggle_twice(visible: bool)
    ensures
        acted_all(Some(visible), requested(false, Some(visible), Request::Toggle)) == Some(!visible),
        acted_all(Some(!visible), requested(false, Some(!visible), Request::Toggle)) == Some(
            visible,
        ),
{
    reveal_with_fuel(acted_all, 4);
}

/// On several monitors a loss of the focus does nothing: only minimising brings the mini player
/// up.
pub proof fn law_focus_loss_on_many_monitors(
    auto_shown: bool,
    window: Option<bool>,
    monitors: usize,
    enabled: bool,
    playing: bool,
)
    requires
        monitors > 1,
    ensures
        requested(
            auto_shown,
            window,
            Request::Main {
                event: MainEvent::FocusLost,
                monitors: Some(monitors),
                enabled,
                playing,
            },
        ).len() == 0,
        requested(
            auto_shown,
            Some(false),
            Request::Main {
                event: MainEvent::Resized { minimized: Some(true) },
                monitors: Some(monitors),
                enabled: true,
                playing: true,
            },
        ) == seq![Action::EnsureOnScreen, Action::Show],
{
}

/// Every seek to a position in milliseconds reaches the page.
pub proof fn law_seek_permitted(ms: u64)
    ensures
        permitted("setposition:"@ + text::decimal(ms as nat)),
{
    let action = "setposition:"@ + text::decimal(ms as nat);
    let n = "setposition:"@.len() as int;
    assert(action.take(n) =~= "setposition:"@);
    assert(action.skip(n) =~= text::decimal(ms as nat));
    text::law_decimal_round_trip(ms);
}

/// The main window is out of sight when it is minimised, and when it loses the focus with no second
/// monitor to see it on; it is back when it gets the focus or is restored. Nothing else counts.
pub proof fn law_when_out_of_sight(event: MainEvent, monitors: Option<usize>)
    ensures
        event == MainEvent::FocusLost ==> (out_of_sight(event, monitors) <==> !(monitors matches Some(
            n,
        ) && n > 1)),
        event == (MainEvent::Resized { minimized: Some(true) }) ==> out_of_sight(event, monitors),
        out_of_sight(event, monitors) ==> event == MainEvent::FocusLost || event
            == (MainEvent::Resized { minimized: Some(true) }),
        back_in_sight(event) <==> event == MainEvent::FocusGained || event == (MainEvent::Resized {
            minimized: Some(false),
        }),
        !(out_of_sight(event, monitors) && back_in_sight(event)),
{
}

/// The mini player follows the main window: while music plays and the user wants it, it comes up
/// without the focus when the main window goes out of sight, counts as shown by itself, and goes away
/// when the main window is back.
pub proof fn law_follows_the_main_window(
    window: Option<bool>,
    out: MainEvent,
    back: MainEvent,
    monitors: Option<usize>,
    enabled: bool,
    playing: bool,
)
    requires
        window != Some(true),
        out_of_sight(out, monitors),
        back_in_sight(back),
    ensures
        ({
            let left = Request::Main { event: out, monitors, enabled: true, playing: true };
            let returned = Request::Main { event: back, monitors, enabled, playing };
            let actions = requested(false, window, left);
            &&& acted_all(window, actions) == Some(true)
            &&& owned_after(false, window, left, true)
            &&& !actions.contains(Action::Focus) && !actions.contains(
                Action::Create { focused: true },
            )
            &&& acted_all(Some(true), requested(true, Some(true), returned)) == Some(false)
            &&& !owned_after(true, Some(true), returned, true)
        }),
{
    reveal_with_fuel(acted_all, 4);
}

/// Nothing comes up by itself without music, or where the user does not want it.
pub proof fn law_nothing_comes_up_unasked(
    auto_shown: bool,
    window: Option<bool>,
    event: MainEvent,
    monitors: Option<usize>,
    enabled: bool,
    playing: bool,
)
    requires
        !enabled || !playing,
    ensures
        requested(auto_shown, window, Request::AutoShow { enabled, playing }).len() == 0,
        out_of_sight(event, monitors) ==> requested(
            auto_shown,
            window,
            Request::Main { event, monitors, enabled, playing },
        ).len() == 0,
        !owned_after(false, window, Request::AutoShow { enabled, playing }, true),
        !owned_after(false, window, Request::Main { event, monitors, enabled, playing }, true),
{
}

/// The user's wishes are carried out: showing brings the window up, hiding takes it away, and a
/// toggle brings a hidden one up with the focus. The window is the user's then.
pub proof fn law_wishes_are_carried_out(auto_shown: bool, window: Option<bool>, created: bool)
    ensures
        acted_all(window, requested(auto_shown, window, Request::Show)) == Some(true),
        !requested(auto_shown, window, Request::Show).contains(Action::Focus),
        acted_all(window, requested(auto_shown, window, Request::Hide)) != Some(true),
        window != Some(true) ==> acted_all(
            window,
            requested(auto_shown, window, Request::Toggle),
        ) == Some(true),
        window == Some(false) ==> requested(auto_shown, window, Request::Toggle).last()
            == Action::Focus,
        window is None ==> requested(auto_shown, window, Request::Toggle) == seq![
            Action::Create { focused: true },
        ],
        !owned_after(auto_shown, window, Request::Show, created),
        !owned_after(auto_shown, window, Request::Hide, created),
        !owned_after(auto_shown, window, Request::Toggle, created),
{
    reveal_with_fuel(acted_all, 4);
}

/// No window is shown where nobody sees it: it is moved back onto a monitor right before it is
/// shown.
pub proof fn law_shown_on_screen(
    auto_shown: bool,
    window: Option<bool>,
    request: Request,
    i: int,
)
    requires
        0 <= i < requested(auto_shown, window, request).len(),
        requested(auto_shown, window, request)[i] == Action::Show,
    ensures
        i > 0,
        requested(auto_shown, window, request)[i - 1] == Action::EnsureOnScreen,
{
}

/// The mini player's actions are the six of its buttons and seeks to a position, and nothing else
/// reaches the page.
pub proof fn law_only_its_own_actions(action: Seq<char>, position: Seq<char>)
    ensures
        permitted("toggle"@) && permitted("next"@) && permitted("previous"@) && permitted("like"@)
            && permitted("radio"@) && permitted("repeat"@),
        text::u64_of(position) is Some ==> permitted("setposition:"@ + position),
        permitted(action) ==> action == "toggle"@ || action == "next"@ || action == "previous"@
            || action == "like"@ || action == "radio"@ || action == "repeat"@ || exists|p: Seq<char>|
            action == "setposition:"@ + p && #[trigger] text::u64_of(p) is Some,
{
    text::law_prefix_taken_off("setposition:"@ + position, "setposition:"@, position);
    if permitted(action) && text::after_prefix(action, "setposition:"@) is Some {
        let p = text::after_prefix(action, "setposition:"@)->0;
        text::law_prefix_taken_off(action, "setposition:"@, p);
        assert(action == "setposition:"@ + p);
        if text::u64_of(p) is Some {
            assert(action == "setposition:"@ + p && text::u64_of(p) is Some);
        }
    }
}

/// A window that is up is left alone when the main window goes out of sight, one that the user
/// opened is left alone when it comes back, and nothing is done about anything else that happens to
/// the main window.
pub proof fn law_left_alone(
    auto_shown: bool,
    window: Option<bool>,
    event: MainEvent,
    monitors: Option<usize>,
    enabled: bool,
    playing: bool,
    created: bool,
)
    ensures
        ({
            let request = Request::Main { event, monitors, enabled, playing };
            &&& out_of_sight(event, monitors) ==> requested(auto_shown, Some(true), request).len() == 0
            &&& back_in_sight(event) ==> requested(false, window, request).len() == 0
            &&& !out_of_sight(event, monitors) && !back_in_sight(event) ==> requested(
                auto_shown,
                window,
                request,
            ).len() == 0 && owned_after(auto_shown, window, request, created) == auto_shown
            &&& out_of_sight(event, monitors) ==> requested(auto_shown, window, request) == requested(
                auto_shown,
                window,
                Request::AutoShow { enabled, playing },
            )
        }),
{
}

/// A window that could not be made is not owned, and one that was up before is not taken over.
pub proof fn law_ownership_needs_a_window(enabled: bool, playing: bool, created: bool)
    ensures
        !owned_after(false, None, Request::AutoShow { enabled, playing }, false),
        !owned_after(false, Some(true), Request::AutoShow { enabled, playing }, created),
        enabled && playing ==> owned_after(
            false,
            None,
            Request::AutoShow { enabled, playing },
            true,
        ) && owned_after(false, Some(false), Request::AutoShow { enabled, playing }, created),
        owned_after(true, Some(true), Request::AutoShow { enabled, playing }, created),
{
}

} // verus!
