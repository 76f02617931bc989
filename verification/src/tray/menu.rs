//! The tray menu: its items, and what each of them does.
use vstd::prelude::*;

use crate::jumplist;
use crate::text;
use crate::updater::{self, menu_request, MenuRequest};

verus! {

/// An entry of the tray menu.
pub enum Entry<S> {
    Item { id: S, label: S, enabled: bool },
    Check { id: S, label: S, checked: bool },
    /// The list of upcoming tracks.
    Submenu { id: S, label: S },
    Separator,
}

impl View for Entry<&'static str> {
    type V = Entry<Seq<char>>;

    open spec fn view(&self) -> Entry<Seq<char>> {
        match self {
            Entry::Item { id, label, enabled } => Entry::Item {
                id: id@,
                label: label@,
                enabled: *enabled,
            },
            Entry::Check { id, label, checked } => Entry::Check {
                id: id@,
                label: label@,
                checked: *checked,
            },
            Entry::Submenu { id, label } => Entry::Submenu { id: id@, label: label@ },
            Entry::Separator => Entry::Separator,
        }
    }
}

/// The models of some entries.
pub open spec fn entries_view(v: Seq<Entry<&'static str>>) -> Seq<Entry<Seq<char>>> {
    Seq::new(v.len(), |i: int| v[i]@)
}

/// The tray menu when the app starts, top to bottom.
pub open spec fn menu_entries(autostart: bool, notify: bool, auto_mini: bool) -> Seq<
    Entry<Seq<char>>,
> {
    seq![
        Entry::Item { id: "np_label"@, label: "Not playing"@, enabled: false },
        Entry::Separator,
        Entry::Submenu { id: "up_next"@, label: "Up Next"@ },
        Entry::Separator,
        Entry::Item { id: "play_pause"@, label: "Play / Pause"@, enabled: true },
        Entry::Item { id: "next"@, label: "Next"@, enabled: true },
        Entry::Item { id: "previous"@, label: "Previous"@, enabled: true },
        Entry::Item { id: "like"@, label: "Like this song"@, enabled: true },
        Entry::Item { id: "radio"@, label: "Start radio"@, enabled: true },
        Entry::Separator,
        Entry::Item { id: "mini"@, label: "Mini player"@, enabled: true },
        Entry::Item { id: "show"@, label: "Show SK Music"@, enabled: true },
        Entry::Separator,
        Entry::Check {
            id: "autostart_toggle"@,
            label: "Start with Windows"@,
            checked: autostart,
        },
        Entry::Check { id: "notify_toggle"@, label: "Notify on track change"@, checked: notify },
        Entry::Check {
            id: "auto_mini_toggle"@,
            label: "Mini player when unfocused"@,
            checked: auto_mini,
        },
        Entry::Separator,
        Entry::Item {
            id: "updater_check_updates"@,
            label: "Check for updates…"@,
            enabled: true,
        },
        Entry::Item { id: "quit"@, label: "Quit"@, enabled: true },
    ]
}

/// The tray menu when the app starts, top to bottom.
pub fn build_tray(autostart: bool, notify: bool, auto_mini: bool) -> (r: Vec<Entry<&'static str>>)
    ensures
        entries_view(r@) == menu_entries(autostart, notify, auto_mini),
{
    let v: Vec<Entry<&'static str>> = vec![
        Entry::Item { id: "np_label", label: "Not playing", enabled: false },
        Entry::Separator,
        Entry::Submenu { id: "up_next", label: "Up Next" },
        Entry::Separator,
        Entry::Item { id: "play_pause", label: "Play / Pause", enabled: true },
        Entry::Item { id: "next", label: "Next", enabled: true },
        Entry::Item { id: "previous", label: "Previous", enabled: true },
        Entry::Item { id: "like", label: "Like this song", enabled: true },
        Entry::Item { id: "radio", label: "Start radio", enabled: true },
        Entry::Separator,
        Entry::Item { id: "mini", label: "Mini player", enabled: true },
        Entry::Item { id: "show", label: "Show SK Music", enabled: true },
        Entry::Separator,
        Entry::Check { id: "autostart_toggle", label: "Start with Windows", checked: autostart },
        Entry::Check { id: "notify_toggle", label: "Notify on track change", checked: notify },
        Entry::Check {
            id: "auto_mini_toggle",
            label: "Mini player when unfocused",
            checked: auto_mini,
        },
        Entry::Separator,
        Entry::Item {
            id: updater::MENU_ID_CHECK_UPDATES,
            label: updater::MENU_LABEL_CHECK_UPDATES,
            enabled: true,
        },
        Entry::Item { id: "quit", label: "Quit", enabled: true },
    ];
    assert(entries_view(v@) =~= menu_entries(autostart, notify, auto_mini));
    v
}

/// What an item of the menu does.
pub enum MenuAction<S> {
    Updates(MenuRequest),
    /// Bring the main window to the front.
    ShowMain,
    /// Hand an action to the page's player.
    Control(S),
    ToggleMini,
    ToggleAutostart,
    ToggleNotify,
    ToggleAutoMini,
    /// End the app.
    Quit,
    Nothing,
}

impl View for MenuAction<String> {
    type V = MenuAction<Seq<char>>;

    open spec fn view(&self) -> MenuAction<Seq<char>> {
        match self {
            MenuAction::Updates(request) => MenuAction::Updates(*request),
            MenuAction::ShowMain => MenuAction::ShowMain,
            MenuAction::Control(action) => MenuAction::Control(action@),
            MenuAction::ToggleMini => MenuAction::ToggleMini,
            MenuAction::ToggleAutostart => MenuAction::ToggleAutostart,
            MenuAction::ToggleNotify => MenuAction::ToggleNotify,
            MenuAction::ToggleAutoMini => MenuAction::ToggleAutoMini,
            MenuAction::Quit => MenuAction::Quit,
            MenuAction::Nothing => MenuAction::Nothing,
        }
    }
}

/// What an upcoming track's item does: it jumps to the queue index in its id, if that is a number.
pub open spec fn jump_of(id: Seq<char>) -> MenuAction<Seq<char>> {
    match text::after_prefix(id, "upnext_"@) {
        Some(index) => if text::u64_of(index) is Some {
            MenuAction::Control("playindex:"@ + index)
        } else {
            MenuAction::Nothing
        },
        None => MenuAction::Nothing,
    }
}

/// What the item with an id does.
pub open spec fn menu_action(id: Seq<char>) -> MenuAction<Seq<char>> {
    if menu_request(id) is Some {
        MenuAction::Updates(menu_request(id)->0)
    } else if id == "show"@ {
        MenuAction::ShowMain
    } else if id == "play_pause"@ {
        MenuAction::Control("toggle"@)
    } else if id == "next"@ || id == "previous"@ || id == "like"@ || id == "radio"@ {
        MenuAction::Control(id)
    } else if id == "mini"@ {
        MenuAction::ToggleMini
    } else if id == "autostart_toggle"@ {
        MenuAction::ToggleAutostart
    } else if id == "notify_toggle"@ {
        MenuAction::ToggleNotify
    } else if id == "auto_mini_toggle"@ {
        MenuAction::ToggleAutoMini
    } else if id == "quit"@ {
        MenuAction::Quit
    } else {
        jump_of(id)
    }
}

/// What the item with an id does.
pub fn on_menu_event(id: &str) -> (r: MenuAction<String>)
    ensures
        r@ == menu_action(id@),
{
    if let Some(request) = updater::handle_menu_event(id) {
        return MenuAction::Updates(request);
    }
    if text::same(id, "show") {
        MenuAction::ShowMain
    } else if text::same(id, "play_pause") {
        MenuAction::Control("toggle".to_string())
    } else if text::same(id, "next") || text::same(id, "previous") || text::same(id, "like")
        || text::same(id, "radio") {
        MenuAction::Control(id.to_string())
    } else if text::same(id, "mini") {
        MenuAction::ToggleMini
    } else if text::same(id, "autostart_toggle") {
        MenuAction::ToggleAutostart
    } else if text::same(id, "notify_toggle") {
        MenuAction::ToggleNotify
    } else if text::same(id, "auto_mini_toggle") {
        MenuAction::ToggleAutoMini
    } else if text::same(id, "quit") {
        MenuAction::Quit
    } else {
        match text::strip_prefix(id, "upnext_") {
            Some(index) => {
                if text::parse_u64(index).is_some() {
                    let mut action: String = "playindex:".to_string();
                    action.append(index);
                    MenuAction::Control(action)
                } else {
                    MenuAction::Nothing
                }
            },
            None => MenuAction::Nothing,
        }
    }
}

// ---------------------------------------------------------------------------
// Laws
// ---------------------------------------------------------------------------

/// The id of an entry that can be clicked.
pub open spec fn clickable(entry: Entry<Seq<char>>) -> Option<Seq<char>> {
    match entry {
        Entry::Item { id, enabled, .. } => if enabled {
            Some(id)
        } else {
            None
        },
        Entry::Check { id, .. } => Some(id),
        _ => None,
    }
}

/// A number that tells the ids of the menu apart: by their length and one of their characters.
spec fn id_key(id: Seq<char>) -> int {
    1000 * id.len() + if id.len() == 16 {
        id[4] as int
    } else {
        id[0] as int
    }
}

/// The number of the id at place `i` of the menu.
spec fn key_at(i: int) -> int {
    if i == 4 {
        10112
    } else if i == 5 {
        4110
    } else if i == 6 {
        8112
    } else if i == 7 {
        4108
    } else if i == 8 {
        5114
    } else if i == 10 {
        4109
    } else if i == 11 {
        4115
    } else if i == 13 {
        16115
    } else if i == 14 {
        13110
    } else if i == 15 {
        16095
    } else if i == 17 {
        21117
    } else {
        4113
    }
}

proof fn lemma_id_keys(autostart: bool, notify: bool, auto_mini: bool, i: int)
    requires
        0 <= i < menu_entries(autostart, notify, auto_mini).len(),
        clickable(menu_entries(autostart, notify, auto_mini)[i]) is Some,
    ensures
        id_key(clickable(menu_entries(autostart, notify, auto_mini)[i])->0) == key_at(i),
        i == 4 || i == 5 || i == 6 || i == 7 || i == 8 || i == 10 || i == 11 || i == 13 || i == 14
            || i == 15 || i == 17 || i == 18,
{
    reveal_strlit("play_pause");
    reveal_strlit("next");
    reveal_strlit("previous");
    reveal_strlit("like");
    reveal_strlit("radio");
    reveal_strlit("mini");
    reveal_strlit("show");
    reveal_strlit("autostart_toggle");
    reveal_strlit("notify_toggle");
    reveal_strlit("auto_mini_toggle");
    reveal_strlit("updater_check_updates");
    reveal_strlit("quit");
}

/// Every item that can be clicked does something.
pub proof fn law_items_answered(autostart: bool, notify: bool, auto_mini: bool, i: int)
    requires
        0 <= i < menu_entries(autostart, notify, auto_mini).len(),
        clickable(menu_entries(autostart, notify, auto_mini)[i]) is Some,
    ensures
        !(menu_action(clickable(menu_entries(autostart, notify, auto_mini)[i])->0) is Nothing),
{
}

/// No two items that can be clicked share an id.
pub proof fn law_ids_distinct(autostart: bool, notify: bool, auto_mini: bool, i: int, j: int)
    requires
        0 <= i < j < menu_entries(autostart, notify, auto_mini).len(),
        clickable(menu_entries(autostart, notify, auto_mini)[i]) is Some,
        clickable(menu_entries(autostart, notify, auto_mini)[j]) is Some,
    ensures
        clickable(menu_entries(autostart, notify, auto_mini)[i]) != clickable(
            menu_entries(autostart, notify, auto_mini)[j],
        ),
{
    lemma_id_keys(autostart, notify, auto_mini, i);
    lemma_id_keys(autostart, notify, auto_mini, j);
}

/// An upcoming track's item jumps to that track's index in the queue.
pub proof fn law_up_next_jumps(index: u64)
    ensures
        menu_action("upnext_"@ + text::decimal(index as nat)) == MenuAction::Control(
            "playindex:"@ + text::decimal(index as nat),
        ),
{
    let digits = text::decimal(index as nat);
    let id = "upnext_"@ + digits;
    reveal_strlit("upnext_");
    reveal_strlit("updater_check_updates");
    reveal_strlit("updater_restart_update");
    reveal_strlit("show");
    reveal_strlit("play_pause");
    reveal_strlit("next");
    reveal_strlit("previous");
    reveal_strlit("like");
    reveal_strlit("radio");
    reveal_strlit("mini");
    reveal_strlit("autostart_toggle");
    reveal_strlit("notify_toggle");
    reveal_strlit("auto_mini_toggle");
    reveal_strlit("quit");
    assert(id[0] == 'u' && id[2] == 'n');
    assert("updater_check_updates"@[2] == 'd');
    assert("updater_restart_update"@[2] == 'd');
    let n = "upnext_"@.len() as int;
    assert(id.take(n) =~= "upnext_"@);
    assert(id.skip(n) =~= digits);
    text::law_decimal_round_trip(index);
}

/// An id that no item has does nothing, and an upcoming track's id does nothing unless a number
/// stands in it.
pub proof fn law_unknown_items_do_nothing(id: Seq<char>, index: Seq<char>)
    requires
        text::u64_of(index) is None,
    ensures
        menu_action(id) is Nothing || id == "updater_check_updates"@ || id
            == "updater_restart_update"@ || id == "show"@ || id == "play_pause"@ || id == "next"@
            || id == "previous"@ || id == "like"@ || id == "radio"@ || id == "mini"@ || id
            == "autostart_toggle"@ || id == "notify_toggle"@ || id == "auto_mini_toggle"@ || id
            == "quit"@ || exists|n: Seq<char>|
            id == "upnext_"@ + n && #[trigger] text::u64_of(n) is Some,
        jump_of("upnext_"@ + index) is Nothing,
{
    text::law_prefix_taken_off("upnext_"@ + index, "upnext_"@, index);
    if text::after_prefix(id, "upnext_"@) is Some {
        let n = text::after_prefix(id, "upnext_"@)->0;
        text::law_prefix_taken_off(id, "upnext_"@, n);
        assert(id == "upnext_"@ + n);
        if text::u64_of(n) is Some {
            assert(id == "upnext_"@ + n && text::u64_of(n) is Some);
        }
    }
}

/// Each item does its own work: the player's items hand the player their own action, and the others
/// open, switch or end what they name.
pub proof fn law_items_do_their_own_work()
    ensures
        menu_action("play_pause"@) == MenuAction::Control("toggle"@),
        menu_action("next"@) == MenuAction::Control("next"@),
        menu_action("previous"@) == MenuAction::Control("previous"@),
        menu_action("like"@) == MenuAction::Control("like"@),
        menu_action("radio"@) == MenuAction::Control("radio"@),
        menu_action("show"@) is ShowMain,
        menu_action("mini"@) is ToggleMini,
        menu_action("autostart_toggle"@) is ToggleAutostart,
        menu_action("notify_toggle"@) is ToggleNotify,
        menu_action("auto_mini_toggle"@) is ToggleAutoMini,
        menu_action("quit"@) is Quit,
        menu_action("updater_check_updates"@) == MenuAction::<Seq<char>>::Updates(
            MenuRequest::CheckUpdates,
        ),
{
    reveal_strlit("updater_check_updates");
    reveal_strlit("updater_restart_update");
    reveal_strlit("show");
    reveal_strlit("play_pause");
    reveal_strlit("next");
    reveal_strlit("previous");
    reveal_strlit("like");
    reveal_strlit("radio");
    reveal_strlit("mini");
    reveal_strlit("autostart_toggle");
    reveal_strlit("notify_toggle");
    reveal_strlit("auto_mini_toggle");
    reveal_strlit("quit");
    assert("show"@[0] == 's' && "next"@[0] == 'n' && "like"@[0] == 'l' && "mini"@[0] == 'm'
        && "quit"@[0] == 'q');
    assert("autostart_toggle"@[4] == 's' && "auto_mini_toggle"@[4] == '_');
    assert("play_pause"@.len() == 10 && "previous"@.len() == 8 && "radio"@.len() == 5);
    assert("autostart_toggle"@.len() == 16 && "auto_mini_toggle"@.len() == 16);
    assert("notify_toggle"@.len() == 13 && "updater_check_updates"@.len() == 21);
    assert("updater_restart_update"@.len() == 22);
}

/// The switches show the settings that they turn over, and nothing else of the menu depends on the
/// settings.
pub proof fn law_switches_show_settings(autostart: bool, notify: bool, auto_mini: bool, i: int)
    requires
        0 <= i < menu_entries(autostart, notify, auto_mini).len(),
    ensures
        ({
            let entry = menu_entries(autostart, notify, auto_mini)[i];
            &&& entry matches Entry::Check { id, checked, .. } ==> (id == "autostart_toggle"@
                && checked == autostart) || (id == "notify_toggle"@ && checked == notify) || (id
                == "auto_mini_toggle"@ && checked == auto_mini)
            &&& !(entry is Check) ==> entry == menu_entries(false, false, false)[i]
        }),
{
}

/// The index of the menu's item for a task of the jump list.
spec fn mirror(i: int) -> int {
    if i < 5 {
        i + 4
    } else if i == 5 {
        10
    } else {
        17
    }
}

/// The jump list mirrors the menu: the item for each task hands the player the action that the task
/// names, or opens the same window, and has the same name but for the radio's, which follows the
/// track, and the updates', which says that more follows.
pub proof fn law_jump_list_mirrors_menu(autostart: bool, notify: bool, auto_mini: bool, i: int)
    requires
        0 <= i < jumplist::task_list().len(),
    ensures
        ({
            let task = jumplist::task_list()[i];
            exists|k: int|
                0 <= k < menu_entries(autostart, notify, auto_mini).len() && ({
                    let entry = #[trigger] menu_entries(autostart, notify, auto_mini)[k];
                    &&& entry matches Entry::Item { id, label, enabled } && enabled && (task.title
                        == label || (label == "Start radio"@ && task.title
                        == "Start radio from this song"@) || label == task.title + "…"@) && match menu_action(
                        id,
                    ) {
                        MenuAction::Control(action) => task.argument == "--control="@ + action,
                        MenuAction::ToggleMini => task.argument == "--control=mini"@,
                        MenuAction::Updates(MenuRequest::CheckUpdates) => task.argument
                            == "--control=updates"@,
                        _ => false,
                    }
                })
        }),
{
    law_items_do_their_own_work();
    reveal_strlit("--control=");
    reveal_strlit("--control=toggle");
    reveal_strlit("--control=next");
    reveal_strlit("--control=previous");
    reveal_strlit("--control=like");
    reveal_strlit("--control=radio");
    reveal_strlit("toggle");
    reveal_strlit("next");
    reveal_strlit("previous");
    reveal_strlit("like");
    reveal_strlit("radio");
    reveal_strlit("Check for updates");
    reveal_strlit("…");
    reveal_strlit("Check for updates…");
    assert("--control=toggle"@ =~= "--control="@ + "toggle"@);
    assert("--control=next"@ =~= "--control="@ + "next"@);
    assert("--control=previous"@ =~= "--control="@ + "previous"@);
    assert("--control=like"@ =~= "--control="@ + "like"@);
    assert("--control=radio"@ =~= "--control="@ + "radio"@);
    assert("Check for updates…"@ =~= "Check for updates"@ + "…"@);
    let k = mirror(i);
    let entry = menu_entries(autostart, notify, auto_mini)[k];
    assert(entry is Item);
}

/// Models keep what they model: every part of an entry and of what an item does.
pub proof fn law_models(all: Seq<Entry<&'static str>>, a: MenuAction<String>)
    ensures
        entries_view(all).len() == all.len(),
        forall|i: int| 0 <= i < all.len() ==> #[trigger] entries_view(all)[i] == all[i]@,
        forall|i: int|
            0 <= i < all.len() ==> (#[trigger] all[i] matches Entry::Item { id, label, enabled }
                ==> all[i]@ == (Entry::Item { id: id@, label: label@, enabled })),
        forall|i: int|
            0 <= i < all.len() ==> (#[trigger] all[i] matches Entry::Check { id, label, checked }
                ==> all[i]@ == (Entry::Check { id: id@, label: label@, checked })),
        a matches MenuAction::Control(action) ==> a@ == MenuAction::Control(action@),
        a matches MenuAction::Updates(request) ==> a@ == MenuAction::<Seq<char>>::Updates(request),
        a is ShowMain <==> a@ is ShowMain,
        a is ToggleMini <==> a@ is ToggleMini,
        a is ToggleAutostart <==> a@ is ToggleAutostart,
        a is ToggleNotify <==> a@ is ToggleNotify,
        a is ToggleAutoMini <==> a@ is ToggleAutoMini,
        a is Quit <==> a@ is Quit,
        a is Nothing <==> a@ is Nothing,
{
}

/// The items that open the main window and end the app say so, and the header cannot be clicked.
pub proof fn law_items_say_what_they_do(autostart: bool, notify: bool, auto_mini: bool, i: int)
    requires
        0 <= i < menu_entries(autostart, notify, auto_mini).len(),
    ensures
        menu_entries(autostart, notify, auto_mini)[i] matches Entry::Item { id, label, enabled } ==> {
            &&& menu_action(id) is Quit ==> label == "Quit"@
            &&& menu_action(id) is ShowMain ==> label == "Show SK Music"@
            &&& menu_action(id) is ToggleMini ==> label == "Mini player"@
            &&& menu_action(id) is Updates ==> label == "Check for updates…"@
            &&& !enabled <==> label == "Not playing"@
        },
        menu_entries(autostart, notify, auto_mini)[i] matches Entry::Check { id, label, .. } ==> {
            &&& menu_action(id) is ToggleAutostart ==> label == "Start with Windows"@
            &&& menu_action(id) is ToggleNotify ==> label == "Notify on track change"@
            &&& menu_action(id) is ToggleAutoMini ==> label == "Mini player when unfocused"@
        },
        menu_entries(autostart, notify, auto_mini)[i] matches Entry::Submenu { label, .. } ==> label
            == "Up Next"@,
{
    law_items_do_their_own_work();
    reveal_strlit("Not playing");
    reveal_strlit("Play / Pause");
    reveal_strlit("Next");
    reveal_strlit("Previous");
    reveal_strlit("Like this song");
    reveal_strlit("Start radio");
    reveal_strlit("Mini player");
    reveal_strlit("Show SK Music");
    reveal_strlit("Check for updates…");
    reveal_strlit("Quit");
    reveal_strlit("np_label");
    reveal_strlit("upnext_");
    assert("Not playing"@[0] == 'N' && "Not playing"@[1] == 'o' && "Next"@[1] == 'e');
    assert("Play / Pause"@[0] == 'P' && "Previous"@[0] == 'P' && "Like this song"@[0] == 'L');
    assert("Start radio"@[0] == 'S' && "Mini player"@[0] == 'M' && "Show SK Music"@[0] == 'S');
    assert("Check for updates…"@[0] == 'C' && "Quit"@[0] == 'Q');
    reveal_strlit("updater_check_updates");
    reveal_strlit("updater_restart_update");
    reveal_strlit("show");
    reveal_strlit("mini");
    reveal_strlit("quit");
    reveal_strlit("play_pause");
    reveal_strlit("next");
    reveal_strlit("previous");
    reveal_strlit("like");
    reveal_strlit("radio");
    reveal_strlit("autostart_toggle");
    reveal_strlit("notify_toggle");
    reveal_strlit("auto_mini_toggle");
    assert("np_label"@.len() == 8 && "np_label"@[0] == 'n' && "previous"@[0] == 'p');
    assert("upnext_"@[0] == 'u');
    assert(jump_of("np_label"@) is Nothing);
}

} // verus!
