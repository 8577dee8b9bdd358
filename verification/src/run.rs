use vstd::prelude::*;

use crate::cmd::{
    build_chmod_args, build_download_args, build_relocate_args, build_update_args,
    chmod_args_model, download_args_model, relocate_args_model, update_args_model,
};
use crate::paths::{join_under_root, joined_path};
use crate::task::{Task, TaskData, TaskDataView, TaskView};
use crate::text::{tokenize, tokens};

verus! {

// A task executes as a small state machine.  The library decides; an
// unverified runner performs.  Each transition names the next phase and the
// actions to carry out, in order; the runner performs them, reports how the
// last fallible one went, and asks for the next transition.  The run is over
// when the phase is `Done`.
//
// For a download task the phases pass through log creation, output-directory
// creation, the downloader, and — when the destination asks for relocation —
// local-directory creation, the permission sweep, and the relocator.  A
// self-update passes through log creation and one downloader invocation.
// Failures follow the error policy: log or output-directory trouble aborts
// the task before any external process runs; a failed download is recorded
// and relocation is still attempted; and whatever happens, the task's last
// action retires it from the registry.

/// How the runner reports one performed action back.
pub enum StepOutcome {
    Success,
    Failure { message: String },
}

/// Mathematical image of [`StepOutcome`].
pub enum StepOutcomeView {
    Success,
    Failure { message: Seq<char> },
}

impl View for StepOutcome {
    type V = StepOutcomeView;

    open spec fn view(&self) -> StepOutcomeView {
        match self {
            StepOutcome::Success => StepOutcomeView::Success,
            StepOutcome::Failure { message } => StepOutcomeView::Failure { message: message@ },
        }
    }
}

/// One thing the runner must do.  `CreateLog` makes the task's log file,
/// fresh; `EnsureDir` creates a directory tree as needed; `RunProcess`
/// records the command line in the log and runs the program with both output
/// streams redirected there, waiting for it to exit; `AppendLog` writes one
/// line to the log; `RemoveTask` retires the task's id from the registry.
pub enum Action {
    CreateLog { path: String },
    EnsureDir { path: String },
    RunProcess { program: String, args: Vec<String> },
    AppendLog { line: String },
    RemoveTask { id: String },
}

/// Mathematical image of [`Action`].
pub enum ActionView {
    CreateLog { path: Seq<char> },
    EnsureDir { path: Seq<char> },
    RunProcess { program: Seq<char>, args: Seq<Seq<char>> },
    AppendLog { line: Seq<char> },
    RemoveTask { id: Seq<char> },
}

impl View for Action {
    type V = ActionView;

    open spec fn view(&self) -> ActionView {
        match self {
            Action::CreateLog { path } => ActionView::CreateLog { path: path@ },
            Action::EnsureDir { path } => ActionView::EnsureDir { path: path@ },
            Action::RunProcess { program, args } => ActionView::RunProcess {
                program: program@,
                args: args.deep_view(),
            },
            Action::AppendLog { line } => ActionView::AppendLog { line: line@ },
            Action::RemoveTask { id } => ActionView::RemoveTask { id: id@ },
        }
    }
}

/// Where a run stands: which step is about to be performed, or that the run
/// is over and with what result.
#[derive(Clone, Copy, PartialEq, Eq, Structural, Debug)]
pub enum Phase {
    LogPending,
    DirPending,
    DownloadPending,
    RelocDirPending,
    ChmodPending,
    SyncPending,
    UpdatePending,
    Done { success: bool },
}

/// The next phase together with the actions that take the run there.
pub struct Transition {
    pub phase: Phase,
    pub actions: Vec<Action>,
}

/// Mathematical image of [`Transition`].
pub struct TransitionView {
    pub phase: Phase,
    pub actions: Seq<ActionView>,
}

impl View for Transition {
    type V = TransitionView;

    open spec fn view(&self) -> TransitionView {
        TransitionView {
            phase: self.phase,
            actions: self.actions@.map_values(|a: Action| a@),
        }
    }
}

/// The log line recording a failed download.
pub open spec fn download_failure_line_model(id: Seq<char>, message: Seq<char>) -> Seq<char> {
    "Download "@ + id + " failure: "@ + message
}

pub fn download_failure_line(id: &str, message: &str) -> (r: String)
    ensures
        r@ == download_failure_line_model(id@, message@),
{
    let mut out = "Download ".to_owned();
    out.append(id);
    out.append(" failure: ");
    out.append(message);
    out
}

/// The log line recording a failed step other than the download itself.
pub open spec fn failure_line_model(id: Seq<char>, message: Seq<char>) -> Seq<char> {
    "Task "@ + id + " failure: "@ + message
}

pub fn failure_line(id: &str, message: &str) -> (r: String)
    ensures
        r@ == failure_line_model(id@, message@),
{
    let mut out = "Task ".to_owned();
    out.append(id);
    out.append(" failure: ");
    out.append(message);
    out
}

/// The terminal trace line of a run.
pub open spec fn final_line_model(id: Seq<char>, success: bool) -> Seq<char> {
    "Task "@ + id + (if success {
        " completed"@
    } else {
        " failed"@
    })
}

pub fn final_line(id: &str, success: bool) -> (r: String)
    ensures
        r@ == final_line_model(id@, success),
{
    let mut out = "Task ".to_owned();
    out.append(id);
    if success {
        out.append(" completed");
    } else {
        out.append(" failed");
    }
    out
}

/// The note a failed download leaves in the log before the run moves on;
/// a successful download leaves none.
pub open spec fn note_model(id: Seq<char>, outcome: StepOutcomeView) -> Seq<ActionView> {
    match outcome {
        StepOutcomeView::Success => Seq::empty(),
        StepOutcomeView::Failure { message } => seq![
            ActionView::AppendLog { line: download_failure_line_model(id, message) },
        ],
    }
}

/// What ends a run that cannot go on: record the failure, write the
/// terminal line, retire the task.
pub open spec fn abort_actions_model(id: Seq<char>, message: Seq<char>) -> Seq<ActionView> {
    seq![
        ActionView::AppendLog { line: failure_line_model(id, message) },
        ActionView::AppendLog { line: final_line_model(id, false) },
        ActionView::RemoveTask { id: id },
    ]
}

/// What ends a run normally: write the terminal line, retire the task.
pub open spec fn finish_actions_model(id: Seq<char>, success: bool) -> Seq<ActionView> {
    seq![
        ActionView::AppendLog { line: final_line_model(id, success) },
        ActionView::RemoveTask { id: id },
    ]
}

/// Which phases belong to which kind of task — what it means for a phase to
/// be reachable in a given task's run.
pub open spec fn phase_fits(task: TaskView, phase: Phase) -> bool {
    match phase {
        Phase::LogPending => true,
        Phase::Done { .. } => true,
        Phase::DirPending | Phase::DownloadPending => task.data is Download,
        Phase::RelocDirPending => match task.data {
            TaskDataView::Download { spec } => spec.file_move_spec.destination_local is Some,
            TaskDataView::Update => false,
        },
        Phase::ChmodPending | Phase::SyncPending => match task.data {
            TaskDataView::Download { spec } => spec.file_move_spec.wants_relocation(),
            TaskDataView::Update => false,
        },
        Phase::UpdatePending => task.data is Update,
    }
}

/// A run begins by creating the task's log file — before it exists there is
/// no sink for anything else, so nothing else may happen first.
pub open spec fn start_model(task: TaskView) -> TransitionView {
    TransitionView {
        phase: Phase::LogPending,
        actions: seq![ActionView::CreateLog { path: task.log_file_path }],
    }
}

/// The transition relation of a run: given where the run stands and how the
/// last step went, where it goes next and what the runner must do.
pub open spec fn next_model(task: TaskView, phase: Phase, outcome: StepOutcomeView) -> TransitionView {
    match phase {
        Phase::LogPending => match outcome {
            StepOutcomeView::Success => match task.data {
                TaskDataView::Download { spec } => TransitionView {
                    phase: Phase::DirPending,
                    actions: seq![ActionView::EnsureDir { path: spec.output_directory }],
                },
                TaskDataView::Update => TransitionView {
                    phase: Phase::UpdatePending,
                    actions: seq![
                        ActionView::RunProcess {
                            program: task.config.ytdlp_path,
                            args: update_args_model(),
                        },
                    ],
                },
            },
            // No log file could be made: fatal, and with no sink there is
            // nothing to record; the task is retired at once.
            StepOutcomeView::Failure { .. } => TransitionView {
                phase: Phase::Done { success: false },
                actions: seq![ActionView::RemoveTask { id: task.id }],
            },
        },
        Phase::DirPending => match task.data {
            TaskDataView::Download { spec } => match outcome {
                StepOutcomeView::Success => TransitionView {
                    phase: Phase::DownloadPending,
                    actions: seq![
                        ActionView::RunProcess {
                            program: task.config.ytdlp_path,
                            args: download_args_model(
                                tokens(spec.url),
                                spec.audio_only,
                                spec.output_directory,
                                spec.subdir,
                            ),
                        },
                    ],
                },
                // The output tree could not be made: abort before any
                // external process runs.
                StepOutcomeView::Failure { message } => TransitionView {
                    phase: Phase::Done { success: false },
                    actions: abort_actions_model(task.id, message),
                },
            },
            TaskDataView::Update => arbitrary(),
        },
        // However the download went, a failure is only noted and relocation
        // is still attempted: partial output is worth moving.
        Phase::DownloadPending => match task.data {
            TaskDataView::Download { spec } => {
                let ok = outcome is Success;
                let note = note_model(task.id, outcome);
                if !spec.file_move_spec.wants_relocation() {
                    TransitionView {
                        phase: Phase::Done { success: ok },
                        actions: note + finish_actions_model(task.id, ok),
                    }
                } else if spec.file_move_spec.destination_local is Some {
                    TransitionView {
                        phase: Phase::RelocDirPending,
                        actions: note + seq![
                            ActionView::EnsureDir { path: spec.file_move_spec.destination_local->0 },
                        ],
                    }
                } else {
                    TransitionView {
                        phase: Phase::ChmodPending,
                        actions: note + seq![
                            ActionView::RunProcess {
                                program: "chmod"@,
                                args: chmod_args_model(joined_path(spec.output_directory, spec.subdir)),
                            },
                        ],
                    }
                }
            },
            TaskDataView::Update => arbitrary(),
        },
        Phase::RelocDirPending => match task.data {
            TaskDataView::Download { spec } => match outcome {
                StepOutcomeView::Success => TransitionView {
                    phase: Phase::ChmodPending,
                    actions: seq![
                        ActionView::RunProcess {
                            program: "chmod"@,
                            args: chmod_args_model(joined_path(spec.output_directory, spec.subdir)),
                        },
                    ],
                },
                StepOutcomeView::Failure { message } => TransitionView {
                    phase: Phase::Done { success: false },
                    actions: abort_actions_model(task.id, message),
                },
            },
            TaskDataView::Update => arbitrary(),
        },
        Phase::ChmodPending => match task.data {
            TaskDataView::Download { spec } => match outcome {
                StepOutcomeView::Success => TransitionView {
                    phase: Phase::SyncPending,
                    actions: seq![
                        ActionView::RunProcess {
                            program: task.config.rsync_path,
                            args: relocate_args_model(
                                spec.file_move_spec,
                                joined_path(spec.output_directory, spec.subdir),
                                task.config.delete_files_after_move,
                            )->0,
                        },
                    ],
                },
                StepOutcomeView::Failure { message } => TransitionView {
                    phase: Phase::Done { success: false },
                    actions: abort_actions_model(task.id, message),
                },
            },
            TaskDataView::Update => arbitrary(),
        },
        Phase::SyncPending => match outcome {
            StepOutcomeView::Success => TransitionView {
                phase: Phase::Done { success: true },
                actions: finish_actions_model(task.id, true),
            },
            StepOutcomeView::Failure { message } => TransitionView {
                phase: Phase::Done { success: false },
                actions: abort_actions_model(task.id, message),
            },
        },
        Phase::UpdatePending => match outcome {
            StepOutcomeView::Success => TransitionView {
                phase: Phase::Done { success: true },
                actions: finish_actions_model(task.id, true),
            },
            StepOutcomeView::Failure { message } => TransitionView {
                phase: Phase::Done { success: false },
                actions: abort_actions_model(task.id, message),
            },
        },
        Phase::Done { success } => TransitionView {
            phase: Phase::Done { success },
            actions: Seq::empty(),
        },
    }
}

/// Appends the three actions that abort a run.
fn push_abort(actions: &mut Vec<Action>, id: &String, message: &String)
    ensures
        final(actions)@.map_values(|a: Action| a@) == old(actions)@.map_values(|a: Action| a@)
            + abort_actions_model(id@, message@),
{
    let ghost pre = actions@.map_values(|a: Action| a@);
    actions.push(Action::AppendLog { line: failure_line(id.as_str(), message.as_str()) });
    actions.push(Action::AppendLog { line: final_line(id.as_str(), false) });
    actions.push(Action::RemoveTask { id: id.clone() });
    proof {
        assert(actions@.map_values(|a: Action| a@) =~= pre + abort_actions_model(id@, message@));
    }
}

/// Appends the two actions that end a run normally.
fn push_finish(actions: &mut Vec<Action>, id: &String, success: bool)
    ensures
        final(actions)@.map_values(|a: Action| a@) == old(actions)@.map_values(|a: Action| a@)
            + finish_actions_model(id@, success),
{
    let ghost pre = actions@.map_values(|a: Action| a@);
    actions.push(Action::AppendLog { line: final_line(id.as_str(), success) });
    actions.push(Action::RemoveTask { id: id.clone() });
    proof {
        assert(actions@.map_values(|a: Action| a@) =~= pre + finish_actions_model(id@, success));
    }
}

/// The first transition of a run.
pub fn start(task: &Task) -> (t: Transition)
    ensures
        t@ == start_model(task@),
        phase_fits(task@, t@.phase),
{
    let mut actions: Vec<Action> = Vec::new();
    actions.push(Action::CreateLog { path: task.log_file_path.clone() });
    let t = Transition { phase: Phase::LogPending, actions };
    proof {
        assert(t@.actions =~= start_model(task@).actions);
    }
    t
}

/// One step of the run: the runner reports how the last actions went and
/// receives the next phase and the next actions.
pub fn next(task: &Task, phase: Phase, outcome: &StepOutcome) -> (t: Transition)
    requires
        task@.wf(),
        phase_fits(task@, phase),
    ensures
        t@ == next_model(task@, phase, outcome@),
        phase_fits(task@, t@.phase),
{
    let ghost goal = next_model(task@, phase, outcome@);
    match phase {
        Phase::LogPending => match outcome {
            StepOutcome::Success => match &task.data {
                TaskData::Download { spec } => {
                    let mut actions: Vec<Action> = Vec::new();
                    actions.push(Action::EnsureDir { path: spec.output_directory.clone() });
                    let t = Transition { phase: Phase::DirPending, actions };
                    proof {
                        assert(t@.actions =~= goal.actions);
                    }
                    t
                },
                TaskData::Update => {
                    let mut actions: Vec<Action> = Vec::new();
                    actions.push(
                        Action::RunProcess {
                            program: task.config.ytdlp_path.clone(),
                            args: build_update_args(),
                        },
                    );
                    let t = Transition { phase: Phase::UpdatePending, actions };
                    proof {
                        assert(t@.actions =~= goal.actions);
                    }
                    t
                },
            },
            StepOutcome::Failure { .. } => {
                let mut actions: Vec<Action> = Vec::new();
                actions.push(Action::RemoveTask { id: task.id.clone() });
                let t = Transition { phase: Phase::Done { success: false }, actions };
                proof {
                    assert(t@.actions =~= goal.actions);
                }
                t
            },
        },
        Phase::DirPending => match &task.data {
            TaskData::Download { spec } => match outcome {
                StepOutcome::Success => {
                    let urls = tokenize(spec.url.as_str());
                    proof {
                        assert(urls.deep_view().len() == urls@.len());
                    }
                    let args = build_download_args(
                        &urls,
                        spec.audio_only,
                        spec.output_directory.as_str(),
                        spec.subdir.as_str(),
                    );
                    let mut actions: Vec<Action> = Vec::new();
                    actions.push(
                        Action::RunProcess { program: task.config.ytdlp_path.clone(), args },
                    );
                    let t = Transition { phase: Phase::DownloadPending, actions };
                    proof {
                        assert(t@.actions =~= goal.actions);
                    }
                    t
                },
                StepOutcome::Failure { message } => {
                    let mut actions: Vec<Action> = Vec::new();
                    push_abort(&mut actions, &task.id, message);
                    let t = Transition { phase: Phase::Done { success: false }, actions };
                    proof {
                        assert(t@.actions =~= goal.actions);
                    }
                    t
                },
            },
            TaskData::Update => unreached(),
        },
        Phase::DownloadPending => match &task.data {
            TaskData::Download { spec } => {
                let ok = match outcome {
                    StepOutcome::Success => true,
                    StepOutcome::Failure { .. } => false,
                };
                let mut actions: Vec<Action> = Vec::new();
                match outcome {
                    StepOutcome::Failure { message } => {
                        actions.push(
                            Action::AppendLog {
                                line: download_failure_line(task.id.as_str(), message.as_str()),
                            },
                        );
                    },
                    StepOutcome::Success => {},
                }
                proof {
                    assert(actions@.map_values(|a: Action| a@) =~= note_model(task@.id, outcome@));
                }
                let wants_local = spec.file_move_spec.destination_local.is_some();
                let wants_remote = spec.file_move_spec.destination_remote.is_some();
                if !wants_local && !wants_remote {
                    push_finish(&mut actions, &task.id, ok);
                    let t = Transition { phase: Phase::Done { success: ok }, actions };
                    proof {
                        assert(t@.actions =~= goal.actions);
                    }
                    t
                } else if wants_local {
                    let local = match &spec.file_move_spec.destination_local {
                        Some(l) => l.clone(),
                        None => unreached(),
                    };
                    actions.push(Action::EnsureDir { path: local });
                    let t = Transition { phase: Phase::RelocDirPending, actions };
                    proof {
                        assert(t@.actions =~= goal.actions);
                    }
                    t
                } else {
                    let source = join_under_root(
                        spec.output_directory.as_str(),
                        spec.subdir.as_str(),
                    );
                    actions.push(
                        Action::RunProcess {
                            program: "chmod".to_owned(),
                            args: build_chmod_args(source.as_str()),
                        },
                    );
                    let t = Transition { phase: Phase::ChmodPending, actions };
                    proof {
                        assert(t@.actions =~= goal.actions);
                    }
                    t
                }
            },
            TaskData::Update => unreached(),
        },
        Phase::RelocDirPending => match &task.data {
            TaskData::Download { spec } => match outcome {
                StepOutcome::Success => {
                    let source = join_under_root(
                        spec.output_directory.as_str(),
                        spec.subdir.as_str(),
                    );
                    let mut actions: Vec<Action> = Vec::new();
                    actions.push(
                        Action::RunProcess {
                            program: "chmod".to_owned(),
                            args: build_chmod_args(source.as_str()),
                        },
                    );
                    let t = Transition { phase: Phase::ChmodPending, actions };
                    proof {
                        assert(t@.actions =~= goal.actions);
                    }
                    t
                },
                StepOutcome::Failure { message } => {
                    let mut actions: Vec<Action> = Vec::new();
                    push_abort(&mut actions, &task.id, message);
                    let t = Transition { phase: Phase::Done { success: false }, actions };
                    proof {
                        assert(t@.actions =~= goal.actions);
                    }
                    t
                },
            },
            TaskData::Update => unreached(),
        },
        Phase::ChmodPending => match &task.data {
            TaskData::Download { spec } => match outcome {
                StepOutcome::Success => {
                    let source = join_under_root(
                        spec.output_directory.as_str(),
                        spec.subdir.as_str(),
                    );
                    let args = match build_relocate_args(
                        &spec.file_move_spec,
                        source.as_str(),
                        task.config.delete_files_after_move,
                    ) {
                        Some(args) => args,
                        None => unreached(),
                    };
                    let mut actions: Vec<Action> = Vec::new();
                    actions.push(
                        Action::RunProcess { program: task.config.rsync_path.clone(), args },
                    );
                    let t = Transition { phase: Phase::SyncPending, actions };
                    proof {
                        assert(t@.actions =~= goal.actions);
                    }
                    t
                },
                StepOutcome::Failure { message } => {
                    let mut actions: Vec<Action> = Vec::new();
                    push_abort(&mut actions, &task.id, message);
                    let t = Transition { phase: Phase::Done { success: false }, actions };
                    proof {
                        assert(t@.actions =~= goal.actions);
                    }
                    t
                },
            },
            TaskData::Update => unreached(),
        },
        Phase::SyncPending | Phase::UpdatePending => match outcome {
            StepOutcome::Success => {
                let mut actions: Vec<Action> = Vec::new();
                push_finish(&mut actions, &task.id, true);
                let t = Transition { phase: Phase::Done { success: true }, actions };
                proof {
                    assert(t@.actions =~= goal.actions);
                }
                t
            },
            StepOutcome::Failure { message } => {
                let mut actions: Vec<Action> = Vec::new();
                push_abort(&mut actions, &task.id, message);
                let t = Transition { phase: Phase::Done { success: false }, actions };
                proof {
                    assert(t@.actions =~= goal.actions);
                }
                t
            },
        },
        Phase::Done { success } => {
            let t = Transition { phase: Phase::Done { success }, actions: Vec::new() };
            proof {
                assert(t@.actions =~= goal.actions);
            }
            t
        },
    }
}

/// How far a run still has to go: every transition out of a live phase
/// strictly shrinks this, so every run reaches `Done` — and with it the
/// removal of the task — in a bounded number of steps.
pub open spec fn phase_rank(phase: Phase) -> nat {
    match phase {
        Phase::LogPending => 6,
        Phase::DirPending => 5,
        Phase::DownloadPending => 4,
        Phase::RelocDirPending => 3,
        Phase::ChmodPending => 2,
        Phase::SyncPending => 1,
        Phase::UpdatePending => 1,
        Phase::Done { .. } => 0,
    }
}

/// Termination: a live phase never transitions to a phase of equal or
/// larger rank, whatever the outcome of the step.
pub proof fn lemma_run_terminates(task: TaskView, phase: Phase, outcome: StepOutcomeView)
    requires
        phase_fits(task, phase),
        !(phase is Done),
    ensures
        phase_rank(next_model(task, phase, outcome).phase) < phase_rank(phase),
{
}

/// The task leaves the registry exactly when its run ends, as the very last
/// action, under its own id — and never before.
pub proof fn lemma_removal_at_end(task: TaskView, phase: Phase, outcome: StepOutcomeView)
    requires
        phase_fits(task, phase),
        !(phase is Done),
    ensures
        ({
            let t = next_model(task, phase, outcome);
            &&& t.phase is Done ==> t.actions.len() > 0 && t.actions.last()
                == ActionView::RemoveTask { id: task.id }
            &&& forall|k: int|
                0 <= k < t.actions.len() && t.actions[k] is RemoveTask ==> t.phase is Done && k
                    == t.actions.len() - 1
        }),
{
}

/// Defensiveness: when the destination asks for relocation, a failed
/// download does not end the run; the relocation machinery is engaged next.
pub proof fn lemma_download_failure_still_relocates(task: TaskView, message: Seq<char>)
    requires
        task.data matches TaskDataView::Download { spec } && spec.file_move_spec.wants_relocation(),
    ensures
        ({
            let t = next_model(
                task,
                Phase::DownloadPending,
                StepOutcomeView::Failure { message },
            );
            &&& !(t.phase is Done)
            &&& match task.data {
                TaskDataView::Download { spec } => if spec.file_move_spec.destination_local
                    is Some {
                    t.phase == Phase::RelocDirPending
                } else {
                    t.phase == Phase::ChmodPending
                },
                TaskDataView::Update => false,
            }
        }),
{
}

} // verus!
