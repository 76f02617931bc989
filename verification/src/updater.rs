//! Self-update: one check at a time, a found update downloaded and staged in the background, and
//! installed once, at a restart that the user asks for or when the app ends.
use vstd::prelude::*;

use crate::text;

verus! {

/// The tray menu's item that checks for updates.
pub const MENU_ID_CHECK_UPDATES: &'static str = "updater_check_updates";

/// The label of the item that checks for updates.
pub const MENU_LABEL_CHECK_UPDATES: &'static str = "Check for updates…";

/// The tray menu's item that installs a staged update.
pub const MENU_ID_RESTART_UPDATE: &'static str = "updater_restart_update";

/// The label of the item that installs a staged update.
pub const MENU_LABEL_RESTART_UPDATE: &'static str = "Restart to update";

/// How long after the start the first check runs, in seconds.
pub const STARTUP_CHECK_DELAY_SECS: u64 = 8;

/// How long a check or a download may take, in seconds.
pub const UPDATE_TIMEOUT_SECS: u64 = 30;

/// How long after a check the next one runs, in seconds: a day.
pub const RECHECK_INTERVAL_SECS: u64 = 86_400;

/// The label of the update dialog's window.
pub const WINDOW_LABEL: &'static str = "updater";

// ---------------------------------------------------------------------------
// Model
// ---------------------------------------------------------------------------

/// The phase that a check has come to, as the windows are told. `S` is `String` at run time and
/// `Seq<char>` in contracts.
pub enum Status<S> {
    Checking { user_initiated: bool, current_version: S },
    UpToDate { user_initiated: bool, current_version: S },
    UpdateAvailable { user_initiated: bool, current_version: S, version: S, notes: Option<S> },
    Ready { user_initiated: bool, current_version: S, version: S, notes: Option<S> },
    Error { user_initiated: bool, message: S },
}

/// An update that is downloaded and not installed.
pub struct Staged<U, S> {
    pub version: S,
    pub payload: U,
}

/// The updater between two steps.
pub struct Updater<U, S> {
    /// A check runs.
    pub checking: bool,
    /// The update that waits for a restart.
    pub pending: Option<Staged<U, S>>,
    /// The phase told last.
    pub last_status: Option<Status<S>>,
}

impl View for Status<String> {
    type V = Status<Seq<char>>;

    open spec fn view(&self) -> Status<Seq<char>> {
        match *self {
            Status::Checking { user_initiated, current_version } => Status::Checking {
                user_initiated,
                current_version: current_version@,
            },
            Status::UpToDate { user_initiated, current_version } => Status::UpToDate {
                user_initiated,
                current_version: current_version@,
            },
            Status::UpdateAvailable { user_initiated, current_version, version, notes } => {
                Status::UpdateAvailable {
                    user_initiated,
                    current_version: current_version@,
                    version: version@,
                    notes: text::opt_string_view(notes),
                }
            },
            Status::Ready { user_initiated, current_version, version, notes } => Status::Ready {
                user_initiated,
                current_version: current_version@,
                version: version@,
                notes: text::opt_string_view(notes),
            },
            Status::Error { user_initiated, message } => Status::Error {
                user_initiated,
                message: message@,
            },
        }
    }
}

/// The model of an optional status.
pub open spec fn opt_status_view(s: Option<Status<String>>) -> Option<Status<Seq<char>>> {
    match s {
        Some(x) => Some(x@),
        None => None,
    }
}

/// The model of an optional staged update.
pub open spec fn opt_staged_view<U>(s: Option<Staged<U, String>>) -> Option<Staged<U, Seq<char>>> {
    match s {
        Some(x) => Some(Staged { version: x.version@, payload: x.payload }),
        None => None,
    }
}

impl<U> View for Updater<U, String> {
    type V = Updater<U, Seq<char>>;

    open spec fn view(&self) -> Updater<U, Seq<char>> {
        Updater {
            checking: self.checking,
            pending: opt_staged_view(self.pending),
            last_status: opt_status_view(self.last_status),
        }
    }
}

/// The event that tells a phase to the windows.
pub open spec fn event_of<S>(status: Status<S>) -> Seq<char> {
    match status {
        Status::Checking { .. } => "updater://checking"@,
        Status::UpToDate { .. } => "updater://up-to-date"@,
        Status::UpdateAvailable { .. } => "updater://update-available"@,
        Status::Ready { .. } => "updater://ready"@,
        Status::Error { .. } => "updater://error"@,
    }
}

/// The event that tells a phase to the windows.
pub fn event_name(status: &Status<String>) -> (r: &'static str)
    ensures
        r@ == event_of(*status),
{
    match status {
        Status::Checking { .. } => "updater://checking",
        Status::UpToDate { .. } => "updater://up-to-date",
        Status::UpdateAvailable { .. } => "updater://update-available",
        Status::Ready { .. } => "updater://ready",
        Status::Error { .. } => "updater://error",
    }
}

fn copy_notes(notes: &Option<String>) -> (r: Option<String>)
    ensures
        r == *notes,
{
    match notes {
        Some(s) => Some(s.clone()),
        None => None,
    }
}

impl Clone for Status<String> {
    fn clone(&self) -> (r: Status<String>)
        ensures
            r == *self,
    {
        match self {
            Status::Checking { user_initiated, current_version } => Status::Checking {
                user_initiated: *user_initiated,
                current_version: current_version.clone(),
            },
            Status::UpToDate { user_initiated, current_version } => Status::UpToDate {
                user_initiated: *user_initiated,
                current_version: current_version.clone(),
            },
            Status::UpdateAvailable { user_initiated, current_version, version, notes } => {
                Status::UpdateAvailable {
                    user_initiated: *user_initiated,
                    current_version: current_version.clone(),
                    version: version.clone(),
                    notes: copy_notes(notes),
                }
            },
            Status::Ready { user_initiated, current_version, version, notes } => Status::Ready {
                user_initiated: *user_initiated,
                current_version: current_version.clone(),
                version: version.clone(),
                notes: copy_notes(notes),
            },
            Status::Error { user_initiated, message } => Status::Error {
                user_initiated: *user_initiated,
                message: message.clone(),
            },
        }
    }
}

/// The updater after a phase was told.
pub open spec fn told<U>(u: Updater<U, Seq<char>>, status: Status<Seq<char>>) -> Updater<
    U,
    Seq<char>,
> {
    Updater { last_status: Some(status), ..u }
}

/// Whether a phase ends a check.
pub open spec fn is_verdict<S>(status: Status<S>) -> bool {
    status is UpToDate || status is Ready || status is Error
}

impl<U> Updater<U, String> {
    /// Nothing checked, nothing staged.
    pub fn new() -> (r: Updater<U, String>)
        ensures
            r@ == (Updater::<U, Seq<char>> { checking: false, pending: None, last_status: None }),
    {
        Updater { checking: false, pending: None, last_status: None }
    }
}

/// Remembers a phase, and gives it back to be told to the windows.
pub fn emit_status<U>(u: &mut Updater<U, String>, status: Status<String>) -> (r: Status<String>)
    ensures
        r == status,
        final(u)@ == told(old(u)@, status@),
{
    u.last_status = Some(status.clone());
    status
}

/// The phase told last, for a dialog that opens after it was told.
pub fn updater_last_status<U>(u: &Updater<U, String>) -> (r: Option<Status<String>>)
    ensures
        opt_status_view(r) == u@.last_status,
{
    match &u.last_status {
        Some(s) => Some(s.clone()),
        None => None,
    }
}

// ---------------------------------------------------------------------------
// A check
// ---------------------------------------------------------------------------

/// What a request for a check leads to.
pub enum Begin<S> {
    /// A check starts.
    Start,
    /// A check runs already: the user is told of it again.
    Announce(Status<S>),
    /// A check runs already, and nobody asked.
    Ignore,
}

impl View for Begin<String> {
    type V = Begin<Seq<char>>;

    open spec fn view(&self) -> Begin<Seq<char>> {
        match self {
            Begin::Start => Begin::Start,
            Begin::Announce(status) => Begin::Announce(status@),
            Begin::Ignore => Begin::Ignore,
        }
    }
}

/// What a request for a check leads to.
pub open spec fn begin_of<U>(
    u: Updater<U, Seq<char>>,
    user_initiated: bool,
    current_version: Seq<char>,
) -> Begin<Seq<char>> {
    if !u.checking {
        Begin::Start
    } else if user_initiated {
        Begin::Announce(Status::Checking { user_initiated: true, current_version })
    } else {
        Begin::Ignore
    }
}

/// The updater after a request for a check.
pub open spec fn begun<U>(
    u: Updater<U, Seq<char>>,
    user_initiated: bool,
    current_version: Seq<char>,
) -> Updater<U, Seq<char>> {
    match begin_of(u, user_initiated, current_version) {
        Begin::Start => Updater { checking: true, ..u },
        Begin::Announce(status) => told(u, status),
        Begin::Ignore => u,
    }
}

/// Takes a request for a check. One check runs at a time.
pub fn check_for_updates<U>(
    u: &mut Updater<U, String>,
    user_initiated: bool,
    current_version: &str,
) -> (r: Begin<String>)
    ensures
        r@ == begin_of(old(u)@, user_initiated, current_version@),
        final(u)@ == begun(old(u)@, user_initiated, current_version@),
{
    if u.checking {
        if user_initiated {
            let status: Status<String> = emit_status(
                u,
                Status::Checking {
                    user_initiated: true,
                    current_version: current_version.to_string(),
                },
            );
            Begin::Announce(status)
        } else {
            Begin::Ignore
        }
    } else {
        u.checking = true;
        Begin::Start
    }
}

/// The first step of a check: tells that it runs.
pub fn open_check<U>(u: &mut Updater<U, String>, user_initiated: bool, current_version: &str) -> (r:
    Status<String>)
    ensures
        r@ == (Status::Checking { user_initiated, current_version: current_version@ }),
        final(u)@ == told(old(u)@, r@),
{
    emit_status(
        u,
        Status::Checking { user_initiated, current_version: current_version.to_string() },
    )
}

/// What the update server answers.
pub enum Answer<S> {
    /// It could not be asked.
    Failed { message: S },
    NoUpdate,
    Found { version: S, notes: Option<S> },
}

impl View for Answer<String> {
    type V = Answer<Seq<char>>;

    open spec fn view(&self) -> Answer<Seq<char>> {
        match *self {
            Answer::Failed { message } => Answer::Failed { message: message@ },
            Answer::NoUpdate => Answer::NoUpdate,
            Answer::Found { version, notes } => Answer::Found {
                version: version@,
                notes: text::opt_string_view(notes),
            },
        }
    }
}

/// Whether a version is staged already.
pub open spec fn is_staged<U>(u: Updater<U, Seq<char>>, version: Seq<char>) -> bool {
    u.pending matches Some(p) && p.version == version
}

/// The phase that an answer leads to. Only `UpdateAvailable` goes on, to the download.
pub open spec fn answer_status<U>(
    u: Updater<U, Seq<char>>,
    user_initiated: bool,
    current_version: Seq<char>,
    answer: Answer<Seq<char>>,
) -> Status<Seq<char>> {
    match answer {
        Answer::Failed { message } => Status::Error { user_initiated, message },
        Answer::NoUpdate => Status::UpToDate { user_initiated, current_version },
        Answer::Found { version, notes } => if is_staged(u, version) {
            Status::Ready { user_initiated, current_version, version, notes }
        } else {
            Status::UpdateAvailable { user_initiated, current_version, version, notes }
        },
    }
}

/// Takes the update server's answer. A version that is staged already is ready at once; another one
/// is to be downloaded.
pub fn answered<U>(
    u: &mut Updater<U, String>,
    user_initiated: bool,
    current_version: &str,
    answer: Answer<String>,
) -> (r: Status<String>)
    ensures
        r@ == answer_status(old(u)@, user_initiated, current_version@, answer@),
        final(u)@ == told(old(u)@, r@),
{
    match answer {
        Answer::Failed { message } => emit_status(u, Status::Error { user_initiated, message }),
        Answer::NoUpdate => emit_status(
            u,
            Status::UpToDate { user_initiated, current_version: current_version.to_string() },
        ),
        Answer::Found { version, notes } => {
            let staged: bool = match &u.pending {
                Some(p) => text::same(p.version.as_str(), version.as_str()),
                None => false,
            };
            let current_version: String = current_version.to_string();
            if staged {
                emit_status(
                    u,
                    Status::Ready { user_initiated, current_version, version, notes },
                )
            } else {
                emit_status(
                    u,
                    Status::UpdateAvailable { user_initiated, current_version, version, notes },
                )
            }
        },
    }
}

/// The updater after a download came to its end.
pub open spec fn downloaded_state<U>(
    u: Updater<U, Seq<char>>,
    user_initiated: bool,
    current_version: Seq<char>,
    version: Seq<char>,
    notes: Option<Seq<char>>,
    download: Result<U, Seq<char>>,
) -> Updater<U, Seq<char>> {
    match download {
        Ok(payload) => Updater {
            pending: Some(Staged { version, payload }),
            last_status: Some(Status::Ready { user_initiated, current_version, version, notes }),
            ..u
        },
        Err(message) => told(u, Status::Error { user_initiated, message }),
    }
}

/// The model of a download's outcome.
pub open spec fn download_view<U>(download: Result<U, String>) -> Result<U, Seq<char>> {
    match download {
        Ok(payload) => Ok(payload),
        Err(message) => Err(message@),
    }
}

/// Takes the outcome of a download: the update is staged, in place of one that was staged before,
/// or the failure is told.
pub fn downloaded<U>(
    u: &mut Updater<U, String>,
    user_initiated: bool,
    current_version: &str,
    version: &str,
    notes: Option<String>,
    download: Result<U, String>,
) -> (r: Status<String>)
    ensures
        final(u)@ == downloaded_state(
            old(u)@,
            user_initiated,
            current_version@,
            version@,
            text::opt_string_view(notes),
            download_view(download),
        ),
        final(u)@.last_status == Some(r@),
{
    match download {
        Ok(payload) => {
            u.pending = Some(Staged { version: version.to_string(), payload });
            emit_status(
                u,
                Status::Ready {
                    user_initiated,
                    current_version: current_version.to_string(),
                    version: version.to_string(),
                    notes,
                },
            )
        },
        Err(message) => emit_status(u, Status::Error { user_initiated, message }),
    }
}

/// Ends a check, however it went.
pub fn end_check<U>(u: &mut Updater<U, String>)
    ensures
        final(u)@ == (Updater { checking: false, ..old(u)@ }),
{
    u.checking = false;
}

// ---------------------------------------------------------------------------
// Installing
// ---------------------------------------------------------------------------

/// The updater after the staged update was handed over to be installed.
pub open spec fn handed_over<U>(u: Updater<U, Seq<char>>) -> Updater<U, Seq<char>> {
    Updater { pending: None, ..u }
}

/// What a wish to restart leads to.
pub enum Restart<U> {
    /// The staged update is installed, and the app starts again.
    Install(Staged<U, String>),
    /// Nothing is staged: a check that the user asked for.
    Check(Begin<String>),
}

/// Takes the staged update to be installed before a restart; asks for a check where there is none.
pub fn install_pending_and_restart<U>(u: &mut Updater<U, String>, current_version: &str) -> (r:
    Restart<U>)
    ensures
        match old(u)@.pending {
            Some(p) => (r matches Restart::Install(staged) && staged.version@ == p.version
                && staged.payload == p.payload) && final(u)@ == handed_over(old(u)@),
            None => (r matches Restart::Check(begin) && begin@ == begin_of(
                old(u)@,
                true,
                current_version@,
            )) && final(u)@ == begun(old(u)@, true, current_version@),
        },
{
    match u.pending.take() {
        Some(p) => Restart::Install(p),
        None => Restart::Check(check_for_updates(u, true, current_version)),
    }
}

/// Tells that the staged update could not be installed.
pub fn install_failed<U>(u: &mut Updater<U, String>, error: &str) -> (r: Status<String>)
    ensures
        r@ == (Status::Error { user_initiated: true, message: "install failed: "@ + error@ }),
        final(u)@ == told(old(u)@, r@),
{
    let mut message: String = "install failed: ".to_string();
    message.append(error);
    emit_status(u, Status::Error { user_initiated: true, message })
}

/// Takes the staged update to be installed when the app ends.
pub fn apply_pending_on_exit<U>(u: &mut Updater<U, String>) -> (r: Option<Staged<U, String>>)
    ensures
        opt_staged_view(r) == old(u)@.pending,
        final(u)@ == handed_over(old(u)@),
{
    u.pending.take()
}

// ---------------------------------------------------------------------------
// The tray menu
// ---------------------------------------------------------------------------

/// What an item of the tray menu asks of the updater.
#[derive(PartialEq, Eq, Structural, Clone, Copy, Debug)]
pub enum MenuRequest {
    /// Open the update dialog and check.
    CheckUpdates,
    /// Install the staged update and restart.
    RestartUpdate,
}

/// What an item of the tray menu asks of the updater, if it is one of the updater's.
pub open spec fn menu_request(id: Seq<char>) -> Option<MenuRequest> {
    if id == "updater_check_updates"@ {
        Some(MenuRequest::CheckUpdates)
    } else if id == "updater_restart_update"@ {
        Some(MenuRequest::RestartUpdate)
    } else {
        None
    }
}

/// What an item of the tray menu asks of the updater, if it is one of the updater's.
pub fn handle_menu_event(id: &str) -> (r: Option<MenuRequest>)
    ensures
        r == menu_request(id@),
{
    if text::same(id, MENU_ID_CHECK_UPDATES) {
        Some(MenuRequest::CheckUpdates)
    } else if text::same(id, MENU_ID_RESTART_UPDATE) {
        Some(MenuRequest::RestartUpdate)
    } else {
        None
    }
}

// ---------------------------------------------------------------------------
// Laws
// ---------------------------------------------------------------------------

/// The updater after a whole check that started. `asked` says whether the user asked for one again
/// meanwhile, before the answer and before the end of the download.
pub open spec fn checked<U>(
    u: Updater<U, Seq<char>>,
    user_initiated: bool,
    current_version: Seq<char>,
    asked: (bool, bool),
    answer: Answer<Seq<char>>,
    download: Result<U, Seq<char>>,
) -> Updater<U, Seq<char>> {
    let started = begun(u, user_initiated, current_version);
    let opened = told(started, Status::Checking { user_initiated, current_version });
    let waited = if asked.0 {
        begun(opened, true, current_version)
    } else {
        opened
    };
    let status = answer_status(waited, user_initiated, current_version, answer);
    let after_answer = told(waited, status);
    let after_download = match status {
        Status::UpdateAvailable { version, notes, .. } => downloaded_state(
            if asked.1 {
                begun(after_answer, true, current_version)
            } else {
                after_answer
            },
            user_initiated,
            current_version,
            version,
            notes,
            download,
        ),
        _ => after_answer,
    };
    Updater { checking: false, ..after_download }
}

/// Every check leaves a verdict behind, however it went, so a dialog that opens after it never
/// waits: the phase told last is up to date, ready or an error. And the next check can start.
pub proof fn law_check_leaves_verdict<U>(
    u: Updater<U, Seq<char>>,
    user_initiated: bool,
    current_version: Seq<char>,
    asked: (bool, bool),
    answer: Answer<Seq<char>>,
    download: Result<U, Seq<char>>,
)
    requires
        !u.checking,
    ensures
        ({
            let end = checked(u, user_initiated, current_version, asked, answer, download);
            &&& end.last_status matches Some(status) && is_verdict(status)
            &&& begin_of(end, user_initiated, current_version) is Start
        }),
{
}

/// A staged update is lost to no check: after one, the same update is staged, or the one that the
/// check found and downloaded.
pub proof fn law_staged_update_kept<U>(
    u: Updater<U, Seq<char>>,
    user_initiated: bool,
    current_version: Seq<char>,
    asked: (bool, bool),
    answer: Answer<Seq<char>>,
    download: Result<U, Seq<char>>,
)
    requires
        u.pending is Some,
    ensures
        ({
            let end = checked(u, user_initiated, current_version, asked, answer, download);
            end.pending == u.pending || (answer matches Answer::Found { version, .. } && download
                matches Ok(payload) && !is_staged(u, version) && end.pending == Some(
                Staged { version, payload },
            ))
        }),
{
}

/// An update is downloaded once: after a check that staged a version, a check that finds the same
/// version again says that it is ready, and asks for no download.
pub proof fn law_downloaded_once<U>(
    u: Updater<U, Seq<char>>,
    user_initiated: bool,
    current_version: Seq<char>,
    asked: (bool, bool),
    version: Seq<char>,
    notes: Option<Seq<char>>,
    payload: U,
    later_notes: Option<Seq<char>>,
    later_user_initiated: bool,
)
    ensures
        ({
            let end = checked(
                u,
                user_initiated,
                current_version,
                asked,
                Answer::Found { version, notes },
                Ok(payload),
            );
            answer_status(
                end,
                later_user_initiated,
                current_version,
                Answer::Found { version, notes: later_notes },
            ) == (Status::Ready {
                user_initiated: later_user_initiated,
                current_version,
                version,
                notes: later_notes,
            })
        }),
{
}

/// No update is installed twice: once it was handed over, at a restart or at the end, nothing is
/// left to hand over until another download is staged. Requests for checks, their answers and
/// failed downloads stage nothing.
pub proof fn law_no_double_install<U>(
    u: Updater<U, Seq<char>>,
    user_initiated: bool,
    current_version: Seq<char>,
    asked: (bool, bool),
    answer: Answer<Seq<char>>,
    message: Seq<char>,
)
    ensures
        handed_over(u).pending is None,
        begun(handed_over(u), user_initiated, current_version).pending is None,
        checked(
            handed_over(u),
            user_initiated,
            current_version,
            asked,
            answer,
            Err(message),
        ).pending is None,
{
}

/// The phase that is told fits the answer, whoever asked: up to date exactly where the server has no
/// update, an error exactly where it could not be asked, with the reason as it was given; and of an
/// update its own version and notes, as ready exactly where that version is staged already.
pub proof fn law_phase_fits_the_answer<U>(
    u: Updater<U, Seq<char>>,
    user_initiated: bool,
    current_version: Seq<char>,
    answer: Answer<Seq<char>>,
)
    ensures
        ({
            let told = answer_status(u, user_initiated, current_version, answer);
            &&& told is UpToDate <==> answer is NoUpdate
            &&& told is Error <==> answer is Failed
            &&& !(told is Checking)
            &&& told matches Status::UpToDate { user_initiated: who, current_version: now } ==> who
                == user_initiated && now == current_version
            &&& told matches Status::Error { user_initiated: who, message } ==> who == user_initiated
                && answer == (Answer::Failed { message })
            &&& told matches Status::Ready {
                user_initiated: who,
                current_version: now,
                version,
                notes,
            } ==> who == user_initiated && now == current_version && answer == (Answer::Found {
                version,
                notes,
            }) && u.pending is Some && u.pending->0.version == version
            &&& told matches Status::UpdateAvailable {
                user_initiated: who,
                current_version: now,
                version,
                notes,
            } ==> who == user_initiated && now == current_version && answer == (Answer::Found {
                version,
                notes,
            }) && (u.pending is Some ==> u.pending->0.version != version)
        }),
{
}

/// What a download gave decides: its bytes are staged under the version that was found, in place of
/// what was staged before, and told as ready; or the failure is told with its own reason, and what
/// was staged stays. The check goes on either way until it is ended.
pub proof fn law_download_decides<U>(
    u: Updater<U, Seq<char>>,
    user_initiated: bool,
    current_version: Seq<char>,
    version: Seq<char>,
    notes: Option<Seq<char>>,
    payload: U,
    message: Seq<char>,
)
    ensures
        ({
            let ok = downloaded_state(u, user_initiated, current_version, version, notes, Ok(payload));
            let failed = downloaded_state(
                u,
                user_initiated,
                current_version,
                version,
                notes,
                Err(message),
            );
            &&& ok.pending is Some && ok.pending->0.version == version && ok.pending->0.payload
                == payload
            &&& ok.last_status == Some(
                Status::Ready { user_initiated, current_version, version, notes },
            )
            &&& failed.pending == u.pending
            &&& failed.last_status == Some(Status::Error { user_initiated, message })
            &&& ok.checking == u.checking && failed.checking == u.checking
        }),
{
}

/// A whole check ends with the verdict that its answer and its download call for.
pub proof fn law_verdict_of_a_check<U>(
    u: Updater<U, Seq<char>>,
    user_initiated: bool,
    current_version: Seq<char>,
    asked: (bool, bool),
    answer: Answer<Seq<char>>,
    download: Result<U, Seq<char>>,
)
    requires
        !u.checking,
    ensures
        ({
            let end = checked(u, user_initiated, current_version, asked, answer, download);
            &&& answer is NoUpdate ==> end.last_status == Some(
                Status::UpToDate { user_initiated, current_version },
            )
            &&& answer matches Answer::Failed { message } ==> end.last_status == Some(
                Status::Error { user_initiated, message },
            )
            &&& answer matches Answer::Found { version, notes } ==> {
                let staged = u.pending is Some && u.pending->0.version == version;
                &&& staged || download is Ok ==> end.last_status == Some(
                    Status::Ready { user_initiated, current_version, version, notes },
                )
                &&& !staged && download is Err ==> end.last_status == Some(
                    Status::Error { user_initiated, message: download->Err_0 },
                )
            }
        }),
{
}

/// One check runs at a time: a request starts one exactly where none runs; where one does, a user is
/// told again that it runs, and nothing else happens. Nothing that is staged is touched.
pub proof fn law_one_check_at_a_time<U>(
    u: Updater<U, Seq<char>>,
    user_initiated: bool,
    current_version: Seq<char>,
)
    ensures
        begin_of(u, user_initiated, current_version) is Start <==> !u.checking,
        u.checking && user_initiated ==> begin_of(u, user_initiated, current_version)
            == Begin::Announce(Status::Checking { user_initiated: true, current_version }),
        u.checking && !user_initiated ==> begin_of(u, user_initiated, current_version) is Ignore
            && begun(u, user_initiated, current_version) == u,
        begun(u, user_initiated, current_version).checking,
        begun(u, user_initiated, current_version).pending == u.pending,
        !u.checking ==> begun(u, user_initiated, current_version).last_status == u.last_status,
        u.checking && user_initiated ==> begun(u, user_initiated, current_version).last_status == Some(
            Status::Checking { user_initiated: true, current_version },
        ),
{
}

/// Telling a phase changes nothing but the phase told last, and handing an update over nothing but
/// that it is staged.
pub proof fn law_telling_changes_nothing_else<U>(
    u: Updater<U, Seq<char>>,
    status: Status<Seq<char>>,
)
    ensures
        told(u, status).last_status == Some(status),
        told(u, status).pending == u.pending,
        told(u, status).checking == u.checking,
        handed_over(u).pending is None,
        handed_over(u).last_status == u.last_status,
        handed_over(u).checking == u.checking,
{
}

/// Each phase has its own event, whatever it holds.
pub proof fn law_events_of_phases(status: Status<Seq<char>>)
    ensures
        status is Checking ==> event_of(status) == "updater://checking"@,
        status is UpToDate ==> event_of(status) == "updater://up-to-date"@,
        status is UpdateAvailable ==> event_of(status) == "updater://update-available"@,
        status is Ready ==> event_of(status) == "updater://ready"@,
        status is Error ==> event_of(status) == "updater://error"@,
{
}

/// Two items of the menu are the updater's, and no others.
pub proof fn law_items_of_the_updater(id: Seq<char>)
    ensures
        menu_request(id) == Some(MenuRequest::CheckUpdates) <==> id == MENU_ID_CHECK_UPDATES@,
        menu_request(id) == Some(MenuRequest::RestartUpdate) <==> id == MENU_ID_RESTART_UPDATE@,
{
    reveal_strlit("updater_check_updates");
    reveal_strlit("updater_restart_update");
    assert("updater_check_updates"@.len() != "updater_restart_update"@.len());
}

/// Models keep what they model: every part of a phase.
pub proof fn law_models(s: Status<String>)
    ensures
        s matches Status::Checking { user_initiated, current_version } ==> s@ == (Status::Checking {
            user_initiated,
            current_version: current_version@,
        }),
        s matches Status::UpToDate { user_initiated, current_version } ==> s@ == (Status::UpToDate {
            user_initiated,
            current_version: current_version@,
        }),
        s matches Status::UpdateAvailable { user_initiated, current_version, version, notes } ==> s@
            == (Status::UpdateAvailable {
            user_initiated,
            current_version: current_version@,
            version: version@,
            notes: text::opt_string_view(notes),
        }),
        s matches Status::Ready { user_initiated, current_version, version, notes } ==> s@
            == (Status::Ready {
            user_initiated,
            current_version: current_version@,
            version: version@,
            notes: text::opt_string_view(notes),
        }),
        s matches Status::Error { user_initiated, message } ==> s@ == (Status::Error {
            user_initiated,
            message: message@,
        }),
        opt_status_view(Some(s)) == Some(s@),
        opt_status_view(None) is None,
{
}

/// Models keep what they model: every part of the updater, of an answer and of what a request leads
/// to.
pub proof fn law_updater_models<U>(
    u: Updater<U, String>,
    a: Answer<String>,
    b: Begin<String>,
    d: Result<U, String>,
)
    ensures
        u@.checking == u.checking,
        u@.pending is Some <==> u.pending is Some,
        u.pending matches Some(p) ==> u@.pending == Some(
            Staged { version: p.version@, payload: p.payload },
        ),
        u@.last_status == opt_status_view(u.last_status),
        a matches Answer::Failed { message } ==> a@ == (Answer::Failed { message: message@ }),
        a is NoUpdate <==> a@ is NoUpdate,
        a matches Answer::Found { version, notes } ==> a@ == (Answer::Found {
            version: version@,
            notes: text::opt_string_view(notes),
        }),
        b is Start <==> b@ is Start,
        b is Ignore <==> b@ is Ignore,
        b matches Begin::Announce(s) ==> b@ == Begin::Announce(s@),
        d matches Ok(p) ==> download_view(d) == Ok::<U, Seq<char>>(p),
        d matches Err(m) ==> download_view(d) == Err::<U, Seq<char>>(m@),
{
}

} // verus!
