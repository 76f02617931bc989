//! Launches: what the command line asks for, of the first instance and of a running one.
use vstd::prelude::*;

use crate::jumplist;
use crate::media;
use crate::outside;
use crate::script;
use crate::text;

verus! {

/// How often a cold start tries to hand its action to the page.
pub const COLD_START_TRIES: u32 = 40;

/// How long it waits before each try, in milliseconds.
pub const COLD_START_PAUSE_MS: u64 = 500;

/// The models of some arguments.
pub open spec fn args_view(v: Seq<String>) -> Seq<Seq<char>> {
    Seq::new(v.len(), |i: int| v[i]@)
}

/// What the first `--control=` argument asks for, if there is one.
pub open spec fn control_of(args: Seq<Seq<char>>) -> Option<Seq<char>>
    decreases args.len(),
{
    if args.len() == 0 {
        None
    } else if text::after_prefix(args[0], "--control="@) is Some {
        text::after_prefix(args[0], "--control="@)
    } else {
        control_of(args.skip(1))
    }
}

/// What the first `--control=` argument asks for, if there is one.
pub fn control_argument(args: &Vec<String>) -> (r: Option<String>)
    ensures
        text::opt_string_view(r) == control_of(args_view(args@)),
{
    let ghost all = args_view(args@);
    let mut i: usize = 0;
    assert(all.skip(0) =~= all);
    while i < args.len()
        invariant
            i <= args@.len(),
            all == args_view(args@),
            control_of(all) == control_of(all.skip(i as int)),
        decreases args@.len() - i,
    {
        assert(all.skip(i as int)[0] == args@[i as int]@);
        match text::strip_prefix(args[i].as_str(), "--control=") {
            Some(action) => {
                return Some(action.to_string());
            },
            None => {},
        }
        assert(all.skip(i as int).skip(1) =~= all.skip(i + 1));
        i = i + 1;
    }
    None
}

/// Whether the app starts hidden to the tray.
pub fn starts_minimized(args: &Vec<String>) -> (r: bool)
    ensures
        r == args_view(args@).contains("--minimized"@),
{
    let ghost all = args_view(args@);
    let mut i: usize = 0;
    while i < args.len()
        invariant
            i <= args@.len(),
            all == args_view(args@),
            forall|j: int| 0 <= j < i ==> all[j] != "--minimized"@,
        decreases args@.len() - i,
    {
        if text::same(args[i].as_str(), "--minimized") {
            assert(all[i as int] == "--minimized"@);
            return true;
        }
        i = i + 1;
    }
    false
}

/// What a control argument asks for.
#[derive(PartialEq, Eq, Structural, Clone, Copy, Debug)]
pub enum Control {
    /// Show or hide the mini player.
    Mini,
    /// Open the update dialog and check.
    Updates,
    /// Hand the action to the page's player.
    Transport,
    /// Not known: nothing is done.
    Unknown,
}

/// What a control argument asks for.
pub open spec fn control_kind(action: Seq<char>) -> Control {
    if action == "mini"@ {
        Control::Mini
    } else if action == "updates"@ {
        Control::Updates
    } else if action == "toggle"@ || action == "next"@ || action == "previous"@ || action
        == "like"@ || action == "radio"@ {
        Control::Transport
    } else {
        Control::Unknown
    }
}

/// What a control argument asks for.
pub fn classify(action: &str) -> (r: Control)
    ensures
        r == control_kind(action@),
{
    if text::same(action, "mini") {
        Control::Mini
    } else if text::same(action, "updates") {
        Control::Updates
    } else if text::same(action, "toggle") || text::same(action, "next") || text::same(
        action,
        "previous",
    ) || text::same(action, "like") || text::same(action, "radio") {
        Control::Transport
    } else {
        Control::Unknown
    }
}

/// What a running instance does about another launch.
pub enum Second<S> {
    ToggleMini,
    CheckUpdates,
    /// Run a script in the page.
    Relay(S),
    Nothing,
    /// Bring the main window to the front.
    FocusMain,
}

impl View for Second<String> {
    type V = Second<Seq<char>>;

    open spec fn view(&self) -> Second<Seq<char>> {
        match self {
            Second::ToggleMini => Second::ToggleMini,
            Second::CheckUpdates => Second::CheckUpdates,
            Second::Relay(js) => Second::Relay(js@),
            Second::Nothing => Second::Nothing,
            Second::FocusMain => Second::FocusMain,
        }
    }
}

/// What a running instance does about another launch.
pub open spec fn second_of(args: Seq<Seq<char>>) -> Second<Seq<char>> {
    match control_of(args) {
        None => Second::FocusMain,
        Some(action) => match control_kind(action) {
            Control::Mini => Second::ToggleMini,
            Control::Updates => Second::CheckUpdates,
            Control::Transport => Second::Relay(
                script::relay_head() + outside::json_string(action) + ");"@,
            ),
            Control::Unknown => Second::Nothing,
        },
    }
}

/// What a running instance does about another launch: a control argument is carried out without
/// the main window coming up, and any other launch brings it to the front.
pub fn second_launch(args: &Vec<String>) -> (r: Second<String>)
    ensures
        r@ == second_of(args_view(args@)),
{
    match control_argument(args) {
        None => Second::FocusMain,
        Some(action) => match classify(action.as_str()) {
            Control::Mini => Second::ToggleMini,
            Control::Updates => Second::CheckUpdates,
            Control::Transport => Second::Relay(media::control(action.as_str())),
            Control::Unknown => Second::Nothing,
        },
    }
}

/// What the first instance does about its own command line.
pub enum First<S> {
    CheckUpdates,
    /// Show or hide the mini player, and hide the main window.
    ToggleMini,
    /// Run a script in the page, again and again until the page's player is there.
    RelayWhenReady(S),
    Nothing,
}

impl View for First<String> {
    type V = First<Seq<char>>;

    open spec fn view(&self) -> First<Seq<char>> {
        match self {
            First::CheckUpdates => First::CheckUpdates,
            First::ToggleMini => First::ToggleMini,
            First::RelayWhenReady(js) => First::RelayWhenReady(js@),
            First::Nothing => First::Nothing,
        }
    }
}

/// What the first instance does about its own command line.
pub open spec fn first_of(args: Seq<Seq<char>>) -> First<Seq<char>> {
    match control_of(args) {
        None => First::Nothing,
        Some(action) => match control_kind(action) {
            Control::Mini => First::ToggleMini,
            Control::Updates => First::CheckUpdates,
            Control::Transport => First::RelayWhenReady(
                script::cold_head() + outside::json_string(action) + ");"@,
            ),
            Control::Unknown => First::Nothing,
        },
    }
}

/// What the first instance does about its own command line.
pub fn first_launch(args: &Vec<String>) -> (r: First<String>)
    ensures
        r@ == first_of(args_view(args@)),
{
    match control_argument(args) {
        None => First::Nothing,
        Some(action) => match classify(action.as_str()) {
            Control::Mini => First::ToggleMini,
            Control::Updates => First::CheckUpdates,
            Control::Transport => First::RelayWhenReady(
                script::cold_start_script(action.as_str()),
            ),
            Control::Unknown => First::Nothing,
        },
    }
}

// ---------------------------------------------------------------------------
// Laws
// ---------------------------------------------------------------------------

/// A control is carried out whether the app runs already or not: a first launch does what a later
/// one does, but for the window that only a launch without a control brings up.
pub proof fn law_cold_as_warm(args: Seq<Seq<char>>)
    ensures
        second_of(args) is ToggleMini <==> first_of(args) is ToggleMini,
        second_of(args) is CheckUpdates <==> first_of(args) is CheckUpdates,
        second_of(args) is Relay <==> first_of(args) is RelayWhenReady,
        second_of(args) is Nothing || second_of(args) is FocusMain <==> first_of(args) is Nothing,
{
}

/// The command line of a control holds that control, whatever the program's own name is, unless
/// the name is itself a control argument.
pub proof fn law_control_argument_found(program: Seq<char>, action: Seq<char>)
    requires
        text::after_prefix(program, "--control="@) is None,
    ensures
        control_of(seq![program, "--control="@ + action]) == Some(action),
{
    let args = seq![program, "--control="@ + action];
    let n = "--control="@.len() as int;
    assert(("--control="@ + action).take(n) =~= "--control="@);
    assert(("--control="@ + action).skip(n) =~= action);
    assert(args.skip(1)[0] == "--control="@ + action);
    reveal_with_fuel(control_of, 3);
}

/// Every task of the jump list is carried out: its argument is a control that both a first and a
/// later launch act on.
pub proof fn law_tasks_carried_out(program: Seq<char>, i: int)
    requires
        text::after_prefix(program, "--control="@) is None,
        0 <= i < jumplist::task_list().len(),
    ensures
        ({
            let args = seq![program, jumplist::task_list()[i].argument];
            &&& control_of(args) matches Some(action) && control_kind(action) != Control::Unknown
            &&& !(first_of(args) is Nothing)
            &&& !(second_of(args) is Nothing) && !(second_of(args) is FocusMain)
        }),
{
    reveal_strlit("--control=");
    reveal_strlit("--control=toggle");
    reveal_strlit("--control=next");
    reveal_strlit("--control=previous");
    reveal_strlit("--control=like");
    reveal_strlit("--control=radio");
    reveal_strlit("--control=mini");
    reveal_strlit("--control=updates");
    reveal_strlit("toggle");
    reveal_strlit("next");
    reveal_strlit("previous");
    reveal_strlit("like");
    reveal_strlit("radio");
    reveal_strlit("mini");
    reveal_strlit("updates");
    let argument = jumplist::task_list()[i].argument;
    let action = if i == 0 {
        "toggle"@
    } else if i == 1 {
        "next"@
    } else if i == 2 {
        "previous"@
    } else if i == 3 {
        "like"@
    } else if i == 4 {
        "radio"@
    } else if i == 5 {
        "mini"@
    } else {
        "updates"@
    };
    assert(argument =~= "--control="@ + action);
    law_control_argument_found(program, action);
}

/// The first control argument counts, wherever it stands and whatever follows it.
pub proof fn law_first_control_counts(
    before: Seq<Seq<char>>,
    action: Seq<char>,
    after: Seq<Seq<char>>,
)
    requires
        forall|i: int|
            0 <= i < before.len() ==> text::after_prefix(#[trigger] before[i], "--control="@) is None,
    ensures
        control_of(before + seq!["--control="@ + action] + after) == Some(action),
        control_of(before) is None,
    decreases before.len(),
{
    let said = "--control="@ + action;
    let all = before + seq![said] + after;
    text::law_prefix_taken_off(said, "--control="@, action);
    if before.len() == 0 {
        assert(all[0] == said);
    } else {
        let rest = before.skip(1);
        assert(text::after_prefix(before[0], "--control="@) is None);
        assert(all[0] == before[0]);
        assert(all.skip(1) =~= rest + seq![said] + after);
        assert forall|i: int| 0 <= i < rest.len() implies text::after_prefix(
            #[trigger] rest[i],
            "--control="@,
        ) is None by {
            assert(rest[i] == before[i + 1]);
        }
        law_first_control_counts(rest, action, after);
    }
}

/// A control that is not known does nothing: the two that open windows and the five of the player
/// are all there are.
pub proof fn law_known_controls(action: Seq<char>)
    ensures
        control_kind(action) == Control::Mini <==> action == "mini"@,
        control_kind(action) == Control::Updates <==> action == "updates"@,
        control_kind(action) == Control::Transport <==> action == "toggle"@ || action == "next"@
            || action == "previous"@ || action == "like"@ || action == "radio"@,
{
    reveal_strlit("mini");
    reveal_strlit("updates");
    reveal_strlit("toggle");
    reveal_strlit("next");
    reveal_strlit("previous");
    reveal_strlit("like");
    reveal_strlit("radio");
    assert("mini"@[0] == 'm' && "updates"@[0] == 'u' && "toggle"@[0] == 't' && "next"@[0] == 'n'
        && "previous"@[0] == 'p' && "like"@[0] == 'l' && "radio"@[0] == 'r');
}

/// A control of the player is relayed as it was said, by the script that hands it over at once or, on
/// a first launch, by the one that waits for the player; the other controls open their windows; and
/// only a launch without a control brings the main window up.
pub proof fn law_controls_are_carried_out(args: Seq<Seq<char>>, action: Seq<char>)
    ensures
        control_of(args) is None ==> second_of(args) is FocusMain && first_of(args) is Nothing,
        control_of(args) == Some("mini"@) ==> second_of(args) is ToggleMini && first_of(
            args,
        ) is ToggleMini,
        control_of(args) == Some("updates"@) ==> second_of(args) is CheckUpdates && first_of(
            args,
        ) is CheckUpdates,
        control_of(args) == Some(action) && (action == "toggle"@ || action == "next"@ || action
            == "previous"@ || action == "like"@ || action == "radio"@) ==> second_of(args)
            == Second::Relay(script::relay_head() + outside::json_string(action) + ");"@) && first_of(
            args,
        ) == First::RelayWhenReady(script::cold_head() + outside::json_string(action) + ");"@),
        control_of(args) matches Some(a) ==> !(second_of(args) is FocusMain),
{
    law_known_controls(action);
    law_known_controls("mini"@);
    law_known_controls("updates"@);
}

/// Models keep what they model: the arguments in their order, and every part of an answer.
pub proof fn law_models(args: Seq<String>, a: Second<String>, b: First<String>)
    ensures
        args_view(args).len() == args.len(),
        forall|i: int| 0 <= i < args.len() ==> #[trigger] args_view(args)[i] == args[i]@,
        a matches Second::Relay(js) ==> a@ == Second::Relay(js@),
        a is ToggleMini <==> a@ is ToggleMini,
        a is CheckUpdates <==> a@ is CheckUpdates,
        a is Nothing <==> a@ is Nothing,
        a is FocusMain <==> a@ is FocusMain,
        b matches First::RelayWhenReady(js) ==> b@ == First::RelayWhenReady(js@),
        b is ToggleMini <==> b@ is ToggleMini,
        b is CheckUpdates <==> b@ is CheckUpdates,
        b is Nothing <==> b@ is Nothing,
{
}

} // verus!
