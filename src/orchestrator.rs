//! Runs a package operation over the usable package managers, one decision
//! at a time. The caller performs each step (a probe or a call) and reports
//! what happened; the task decides what comes next.
use vstd::prelude::*;
use crate::invocation::{
    command_line, command_words, needs_elevation, probe_command, probe_words, requires_elevation,
    running_as_root,
};
use crate::platform::Platform;
use crate::registry::{ManagerView, PackageManager, usable, usable_for, views};
use crate::text::texts;

verus! {

/// The package operations.
#[derive(Clone, Copy, Debug, PartialEq, Eq, Structural)]
pub enum Mode {
    /// Install a package: stop at the first manager that succeeds.
    Install,
    /// Search every available manager.
    Search,
    /// Update one package: stop at the first manager that succeeds.
    UpdateOne,
    /// Update everything with every available manager.
    UpdateAll,
}

/// How a call of a package manager ended.
#[derive(Clone, Copy, Debug, PartialEq, Eq, Structural)]
pub enum RunOutcome {
    /// It ran and exited with status zero.
    Success,
    /// It ran and exited otherwise, or was ended by a signal.
    Failure,
    /// It could not be started at all.
    NotStarted,
}

/// What the caller reports back after performing a step.
#[derive(Clone, Copy, Debug, PartialEq, Eq, Structural)]
pub enum Event {
    /// The probe of the current manager found it (`true`) or not.
    Probed(bool),
    /// The call of the current manager ended so.
    Exited(RunOutcome),
}

/// What the caller must do next.
#[derive(Debug)]
pub enum Step {
    /// Run this probe and report `Event::Probed` with whether it succeeded.
    Probe(Vec<String>),
    /// Run this command and report `Event::Exited`.
    Run(Vec<String>),
    /// Nothing is left to do; whether some manager did the work.
    Done(bool),
}

pub enum StepView {
    Probe(Seq<Seq<char>>),
    Run(Seq<Seq<char>>),
    Done(bool),
}

impl View for Step {
    type V = StepView;

    open spec fn view(&self) -> StepView {
        match self {
            Step::Probe(w) => StepView::Probe(texts(w@)),
            Step::Run(w) => StepView::Run(texts(w@)),
            Step::Done(b) => StepView::Done(*b),
        }
    }
}

/// One package operation in progress. `managers` are the usable managers in
/// registry order; `pos` is the one being dealt with; `ready` says that its
/// probe found it; `attempts` counts the calls made so far.
pub struct PackageTask {
    pub mode: Mode,
    pub target: String,
    pub platform: Platform,
    pub root: bool,
    pub managers: Vec<PackageManager>,
    pub pos: usize,
    pub ready: bool,
    pub finished: bool,
    pub succeeded: bool,
    pub attempts: usize,
}

pub struct TaskView {
    pub mode: Mode,
    pub target: Seq<char>,
    pub platform: Platform,
    pub root: bool,
    pub managers: Seq<ManagerView>,
    pub pos: nat,
    pub ready: bool,
    pub finished: bool,
    pub succeeded: bool,
    pub attempts: nat,
}

impl View for PackageTask {
    type V = TaskView;

    open spec fn view(&self) -> TaskView {
        TaskView {
            mode: self.mode,
            target: self.target@,
            platform: self.platform,
            root: self.root,
            managers: views(self.managers@),
            pos: self.pos as nat,
            ready: self.ready,
            finished: self.finished,
            succeeded: self.succeeded,
            attempts: self.attempts as nat,
        }
    }
}

/// Whether a call that ended with `o` counts as done work. Install and the
/// update of one package need exit status zero; a search or an update of
/// everything counts once the manager has run at all.
pub open spec fn counts(mode: Mode, o: RunOutcome) -> bool {
    match mode {
        Mode::Install | Mode::UpdateOne => o == RunOutcome::Success,
        Mode::Search | Mode::UpdateAll => o != RunOutcome::NotStarted,
    }
}

/// Whether the operation ends at the first manager whose call counts.
pub open spec fn stops_on_success(mode: Mode) -> bool {
    mode == Mode::Install || mode == Mode::UpdateOne
}

/// Whether the operation's calls may be elevated.
pub open spec fn may_elevate(mode: Mode) -> bool {
    mode == Mode::Install || mode == Mode::UpdateOne
}

pub open spec fn template_of(mode: Mode, m: ManagerView) -> Seq<char> {
    match mode {
        Mode::Install => m.install_cmd,
        Mode::Search => m.search_cmd,
        Mode::UpdateOne | Mode::UpdateAll => m.update_cmd,
    }
}

/// The call of manager `m` for the task `s`.
pub open spec fn run_words(s: TaskView, m: ManagerView) -> Seq<Seq<char>> {
    command_words(
        template_of(s.mode, m),
        if s.mode == Mode::UpdateAll {
            None
        } else {
            Some(s.target)
        },
        may_elevate(s.mode) && needs_elevation(s.platform, m.name, s.root),
    )
}

impl TaskView {
    pub open spec fn wf(self) -> bool {
        &&& self.pos <= self.managers.len()
        &&& self.attempts <= self.pos
        &&& !self.finished ==> self.pos < self.managers.len()
        &&& self.finished ==> !self.ready
    }

    /// The task at its start.
    pub open spec fn initial(
        mode: Mode,
        target: Seq<char>,
        platform: Platform,
        root: bool,
        managers: Seq<ManagerView>,
    ) -> TaskView {
        TaskView {
            mode,
            target,
            platform,
            root,
            managers,
            pos: 0,
            ready: false,
            finished: managers.len() == 0,
            succeeded: false,
            attempts: 0,
        }
    }

    /// Leaves the current manager for the next one.
    pub open spec fn skip(self) -> TaskView {
        TaskView {
            pos: self.pos + 1,
            ready: false,
            finished: self.pos + 1 >= self.managers.len(),
            ..self
        }
    }

    /// The task after the caller reports `e`. A finished task stays as it
    /// is, and so does one that gets an event it did not ask for.
    pub open spec fn after(self, e: Event) -> TaskView {
        if self.finished {
            self
        } else {
            match e {
                Event::Probed(found) => {
                    if self.ready {
                        self
                    } else if found {
                        TaskView { ready: true, ..self }
                    } else {
                        self.skip()
                    }
                },
                Event::Exited(o) => {
                    if !self.ready {
                        self
                    } else {
                        let s1 = TaskView {
                            attempts: self.attempts + 1,
                            succeeded: self.succeeded || counts(self.mode, o),
                            ..self
                        };
                        if counts(self.mode, o) && stops_on_success(self.mode) {
                            TaskView { pos: self.pos + 1, ready: false, finished: true, ..s1 }
                        } else {
                            s1.skip()
                        }
                    }
                },
            }
        }
    }

    /// What the caller must do next.
    pub open spec fn next(self) -> StepView {
        if self.finished {
            StepView::Done(self.succeeded)
        } else if !self.ready {
            StepView::Probe(probe_words(self.platform, self.managers[self.pos as int].probe))
        } else {
            StepView::Run(run_words(self, self.managers[self.pos as int]))
        }
    }
}


/// Number of managers among positions `lo..hi` whose probe finds them.
pub open spec fn count_found(found: Seq<bool>, lo: nat, hi: nat) -> nat
    decreases hi - lo,
{
    if lo >= hi {
        0
    } else {
        (if found[lo as int] {
            1nat
        } else {
            0nat
        }) + count_found(found, lo + 1, hi)
    }
}

/// The task run to its end against a host on which the probe of the
/// manager at position `k` answers `found[k]` and its call ends with
/// `outcome[k]`.
pub open spec fn drive(s: TaskView, found: Seq<bool>, outcome: Seq<RunOutcome>) -> TaskView
    decreases s.managers.len() - s.pos,
{
    if s.finished || s.pos >= s.managers.len() {
        s
    } else {
        let s1 = s.after(Event::Probed(found[s.pos as int]));
        let s2 = if s1.ready {
            s1.after(Event::Exited(outcome[s.pos as int]))
        } else {
            s1
        };
        drive(s2, found, outcome)
    }
}

/// From a task between managers, an operation that does not stop early
/// calls every manager that its probe finds.
proof fn lemma_drive_exhaustive(s: TaskView, found: Seq<bool>, outcome: Seq<RunOutcome>)
    requires
        s.wf(),
        !s.ready,
        !stops_on_success(s.mode),
        s.finished ==> s.pos >= s.managers.len(),
        found.len() >= s.managers.len(),
        outcome.len() >= s.managers.len(),
    ensures
        drive(s, found, outcome).attempts == s.attempts + count_found(
            found,
            s.pos,
            s.managers.len(),
        ),
        drive(s, found, outcome).finished,
    decreases s.managers.len() - s.pos,
{
    if s.finished || s.pos >= s.managers.len() {
    } else {
        let s1 = s.after(Event::Probed(found[s.pos as int]));
        let s2 = if s1.ready {
            s1.after(Event::Exited(outcome[s.pos as int]))
        } else {
            s1
        };
        lemma_drive_exhaustive(s2, found, outcome);
    }
}

/// From a task between managers, an operation that stops early calls the
/// managers found up to the first one whose call succeeds, and no other.
proof fn lemma_drive_stops(s: TaskView, found: Seq<bool>, outcome: Seq<RunOutcome>, k: nat)
    requires
        s.wf(),
        !s.ready,
        !s.finished,
        stops_on_success(s.mode),
        found.len() >= s.managers.len(),
        outcome.len() >= s.managers.len(),
        s.pos <= k < s.managers.len(),
        found[k as int] && outcome[k as int] == RunOutcome::Success,
        forall|j: int|
            s.pos <= j < k ==> !(#[trigger] found[j] && outcome[j] == RunOutcome::Success),
    ensures
        drive(s, found, outcome).attempts == s.attempts + count_found(found, s.pos, k + 1),
        drive(s, found, outcome).finished,
        drive(s, found, outcome).succeeded,
        drive(s, found, outcome).pos == k + 1,
    decreases s.managers.len() - s.pos,
{
    let s1 = s.after(Event::Probed(found[s.pos as int]));
    let s2 = if s1.ready {
        s1.after(Event::Exited(outcome[s.pos as int]))
    } else {
        s1
    };
    if s.pos == k {
        assert(count_found(found, s.pos + 1, k + 1) == 0);
    } else {
        lemma_drive_stops(s2, found, outcome, k);
    }
}

/// When no call succeeds, an operation that stops early calls every
/// manager its probe finds and ends without success.
proof fn lemma_drive_no_success(s: TaskView, found: Seq<bool>, outcome: Seq<RunOutcome>)
    requires
        s.wf(),
        !s.ready,
        !s.succeeded,
        stops_on_success(s.mode),
        s.finished ==> s.pos >= s.managers.len(),
        found.len() >= s.managers.len(),
        outcome.len() >= s.managers.len(),
        forall|j: int|
            s.pos <= j < s.managers.len() ==> !(#[trigger] found[j] && outcome[j]
                == RunOutcome::Success),
    ensures
        drive(s, found, outcome).attempts == s.attempts + count_found(
            found,
            s.pos,
            s.managers.len(),
        ),
        drive(s, found, outcome).finished,
        !drive(s, found, outcome).succeeded,
    decreases s.managers.len() - s.pos,
{
    if s.finished || s.pos >= s.managers.len() {
    } else {
        let s1 = s.after(Event::Probed(found[s.pos as int]));
        let s2 = if s1.ready {
            s1.after(Event::Exited(outcome[s.pos as int]))
        } else {
            s1
        };
        lemma_drive_no_success(s2, found, outcome);
    }
}

/// When the probe finds none of the usable managers, no operation calls
/// any of them, and it ends without success.
pub proof fn lemma_nothing_found_no_call(
    mode: Mode,
    target: Seq<char>,
    platform: Platform,
    root: bool,
    managers: Seq<ManagerView>,
    found: Seq<bool>,
    outcome: Seq<RunOutcome>,
)
    requires
        found.len() >= managers.len(),
        outcome.len() >= managers.len(),
        forall|j: int| 0 <= j < managers.len() ==> !#[trigger] found[j],
    ensures
        drive(TaskView::initial(mode, target, platform, root, managers), found, outcome).attempts
            == 0,
        drive(TaskView::initial(mode, target, platform, root, managers), found, outcome).finished,
        !drive(TaskView::initial(mode, target, platform, root, managers), found, outcome).succeeded,
{
    lemma_drive_none_found(TaskView::initial(mode, target, platform, root, managers), found, outcome);
}

proof fn lemma_drive_none_found(s: TaskView, found: Seq<bool>, outcome: Seq<RunOutcome>)
    requires
        s.wf(),
        !s.ready,
        !s.succeeded,
        found.len() >= s.managers.len(),
        outcome.len() >= s.managers.len(),
        forall|j: int| s.pos <= j < s.managers.len() ==> !#[trigger] found[j],
    ensures
        drive(s, found, outcome).attempts == s.attempts,
        drive(s, found, outcome).finished,
        !drive(s, found, outcome).succeeded,
    decreases s.managers.len() - s.pos,
{
    if s.finished || s.pos >= s.managers.len() {
    } else {
        lemma_drive_none_found(s.after(Event::Probed(found[s.pos as int])), found, outcome);
    }
}

/// Installing (or updating one package) stops at the first manager whose
/// call exits with status zero: the managers called are exactly those
/// found up to and including it, none after it, and the operation succeeds.
pub proof fn lemma_stops_at_first_success(
    mode: Mode,
    target: Seq<char>,
    platform: Platform,
    root: bool,
    managers: Seq<ManagerView>,
    found: Seq<bool>,
    outcome: Seq<RunOutcome>,
    k: nat,
)
    requires
        mode == Mode::Install || mode == Mode::UpdateOne,
        found.len() >= managers.len(),
        outcome.len() >= managers.len(),
        k < managers.len(),
        found[k as int] && outcome[k as int] == RunOutcome::Success,
        forall|j: int| 0 <= j < k ==> !(#[trigger] found[j] && outcome[j] == RunOutcome::Success),
    ensures
        ({
            let end = drive(TaskView::initial(mode, target, platform, root, managers), found, outcome);
            &&& end.attempts == count_found(found, 0, k + 1)
            &&& end.pos == k + 1
            &&& end.finished
            &&& end.succeeded
        }),
{
    lemma_drive_stops(TaskView::initial(mode, target, platform, root, managers), found, outcome, k);
}

/// Installing (or updating one package) when no call succeeds tries every
/// manager the probe finds, and fails.
pub proof fn lemma_no_success_tries_all(
    mode: Mode,
    target: Seq<char>,
    platform: Platform,
    root: bool,
    managers: Seq<ManagerView>,
    found: Seq<bool>,
    outcome: Seq<RunOutcome>,
)
    requires
        mode == Mode::Install || mode == Mode::UpdateOne,
        found.len() >= managers.len(),
        outcome.len() >= managers.len(),
        forall|j: int|
            0 <= j < managers.len() ==> !(#[trigger] found[j] && outcome[j] == RunOutcome::Success),
    ensures
        ({
            let end = drive(TaskView::initial(mode, target, platform, root, managers), found, outcome);
            &&& end.attempts == count_found(found, 0, managers.len())
            &&& end.finished
            &&& !end.succeeded
        }),
{
    lemma_drive_no_success(TaskView::initial(mode, target, platform, root, managers), found, outcome);
}

/// Updating everything calls every usable manager that the probe finds,
/// whatever the earlier calls returned.
pub proof fn lemma_update_all_calls_every_found(
    target: Seq<char>,
    platform: Platform,
    root: bool,
    managers: Seq<ManagerView>,
    found: Seq<bool>,
    outcome: Seq<RunOutcome>,
)
    requires
        found.len() >= managers.len(),
        outcome.len() >= managers.len(),
    ensures
        drive(
            TaskView::initial(Mode::UpdateAll, target, platform, root, managers),
            found,
            outcome,
        ).attempts == count_found(found, 0, managers.len()),
{
    lemma_drive_exhaustive(
        TaskView::initial(Mode::UpdateAll, target, platform, root, managers),
        found,
        outcome,
    );
}

/// Searching calls every usable manager that the probe finds, whatever the
/// earlier searches returned.
pub proof fn lemma_search_calls_every_found(
    target: Seq<char>,
    platform: Platform,
    root: bool,
    managers: Seq<ManagerView>,
    found: Seq<bool>,
    outcome: Seq<RunOutcome>,
)
    requires
        found.len() >= managers.len(),
        outcome.len() >= managers.len(),
    ensures
        drive(
            TaskView::initial(Mode::Search, target, platform, root, managers),
            found,
            outcome,
        ).attempts == count_found(found, 0, managers.len()),
{
    lemma_drive_exhaustive(
        TaskView::initial(Mode::Search, target, platform, root, managers),
        found,
        outcome,
    );
}

/// What the shell suggests when no manager did the work.
pub open spec fn hint_text(mode: Mode, platform: Platform) -> Seq<char> {
    match platform {
        Platform::Windows => "You may need to install a package manager first (chocolatey, winget, or scoop)."@,
        Platform::MacOS => "You may need to install a package manager first (homebrew or macports)."@,
        Platform::Linux => if mode == Mode::Search {
            "Your distribution's package manager might not be supported."@
        } else {
            "Your distribution's package manager might not be supported or you may need to run with sudo privileges."@
        },
        Platform::Any => "Please install a package manager appropriate for your platform."@,
    }
}

/// What the shell suggests when no manager did the work.
pub fn remediation_hint(mode: Mode, platform: Platform) -> (r: String)
    ensures
        r@ == hint_text(mode, platform),
{
    match platform {
        Platform::Windows => "You may need to install a package manager first (chocolatey, winget, or scoop).".to_owned(),
        Platform::MacOS => "You may need to install a package manager first (homebrew or macports).".to_owned(),
        Platform::Linux => if mode == Mode::Search {
            "Your distribution's package manager might not be supported.".to_owned()
        } else {
            "Your distribution's package manager might not be supported or you may need to run with sudo privileges.".to_owned()
        },
        Platform::Any => "Please install a package manager appropriate for your platform.".to_owned(),
    }
}

impl PackageTask {
    /// Starts `mode` for `target` (ignored when updating everything) over
    /// the managers of `registry` usable on `platform`; `root` says whether
    /// the shell runs with superuser rights.
    pub fn new(
        mode: Mode,
        target: String,
        platform: Platform,
        registry: &Vec<PackageManager>,
        root: bool,
    ) -> (r: PackageTask)
        ensures
            r@ == TaskView::initial(mode, target@, platform, root, usable(views(registry@), platform)),
            r@.wf(),
    {
        let managers = usable_for(registry, platform);
        let finished = managers.len() == 0;
        PackageTask {
            mode,
            target,
            platform,
            root,
            managers,
            pos: 0,
            ready: false,
            finished,
            succeeded: false,
            attempts: 0,
        }
    }

    /// Starts `mode` as `new` does, asking the host whether the shell runs
    /// as root.
    pub fn start(mode: Mode, target: String, platform: Platform, registry: &Vec<PackageManager>) -> (r:
        PackageTask)
        ensures
            r@ == TaskView::initial(
                mode,
                target@,
                platform,
                r@.root,
                usable(views(registry@), platform),
            ),
            r@.wf(),
    {
        let root = running_as_root();
        PackageTask::new(mode, target, platform, registry, root)
    }

    /// What the caller must do next.
    pub fn next_step(&self) -> (r: Step)
        requires
            self@.wf(),
        ensures
            r@ == self@.next(),
    {
        if self.finished {
            return Step::Done(self.succeeded);
        }
        let m = self.managers[self.pos];
        if !self.ready {
            return Step::Probe(probe_command(self.platform, m.probe));
        }
        let template = match self.mode {
            Mode::Install => m.install_cmd,
            Mode::Search => m.search_cmd,
            Mode::UpdateOne | Mode::UpdateAll => m.update_cmd,
        };
        let target = if self.mode == Mode::UpdateAll {
            None
        } else {
            Some(self.target.as_str())
        };
        let elevate = (self.mode == Mode::Install || self.mode == Mode::UpdateOne)
            && requires_elevation(self.platform, m.name, self.root);
        Step::Run(command_line(template, target, elevate))
    }

    /// Takes in what the caller observed after performing the last step.
    pub fn advance(&mut self, e: Event)
        requires
            old(self)@.wf(),
        ensures
            final(self)@ == old(self)@.after(e),
            final(self)@.wf(),
    {
        assert(views(self.managers@).len() == self.managers@.len());
        if self.finished {
            return;
        }
        let n = self.managers.len();
        assert(self.pos < n);
        match e {
            Event::Probed(found) => {
                if self.ready {
                } else if found {
                    self.ready = true;
                } else {
                    self.pos = self.pos + 1;
                    self.finished = self.pos >= n;
                }
            },
            Event::Exited(o) => {
                if self.ready {
                    let counted = match self.mode {
                        Mode::Install | Mode::UpdateOne => o == RunOutcome::Success,
                        Mode::Search | Mode::UpdateAll => o != RunOutcome::NotStarted,
                    };
                    self.attempts = self.attempts + 1;
                    self.succeeded = self.succeeded || counted;
                    self.ready = false;
                    self.pos = self.pos + 1;
                    if counted && (self.mode == Mode::Install || self.mode == Mode::UpdateOne) {
                        self.finished = true;
                    } else {
                        self.finished = self.pos >= n;
                    }
                }
            },
        }
    }
}

} // verus!
