//! The per-mirror update sequence, as a state machine.
//!
//! One update runs four external commands in order — clone the
//! source, register the destination as a remote, fetch from it, push
//! `HEAD` and all tags to it — inside a scratch directory the caller
//! owns. The library decides everything: which command runs next
//! ([`next_step`], [`command_for_step`]) and how the state advances
//! on a command's outcome ([`advance`]). The driver only executes
//! the command it is handed and reports how it went, so the
//! sequencing, the fail-fast policy and the error taxonomy are all
//! verified here.

use vstd::prelude::*;
use vstd::string::StringExecFns;

verus! {

/// The four external commands of one mirror update, in order.
#[derive(Clone, Copy, Debug, PartialEq, Eq, Structural)]
pub enum GitStep {
    Clone,
    AddRemote,
    Fetch,
    Push,
}

/// How one external command went: it could not be started at all, it
/// ran and reported failure, or it ran and reported success.
#[derive(Clone, Copy, Debug, PartialEq, Eq, Structural)]
pub enum CmdOutcome {
    CouldNotLaunch,
    ExitFailure,
    ExitSuccess,
}

/// Whether a step failed because the external tool could not be
/// launched, or because it ran and reported a failure status.
#[derive(Clone, Copy, Debug, PartialEq, Eq, Structural)]
pub enum FailureKind {
    LaunchError,
    StatusError,
}

/// The failing step of an update, and how it failed.
#[derive(Clone, Copy, Debug, PartialEq, Eq, Structural)]
pub struct UpdateError {
    pub step: GitStep,
    pub kind: FailureKind,
}

/// Where a command runs: at the root of the scratch directory, or
/// inside the clone subdirectory (named [`clone_dir_name`]).
#[derive(Clone, Copy, Debug, PartialEq, Eq, Structural)]
pub enum WorkDir {
    Scratch,
    CloneDir,
}

/// One command for the external tool: its arguments, and where to
/// run it.
pub struct GitCommand {
    pub args: Vec<String>,
    pub dir: WorkDir,
}

/// The state of one mirror update. `Done` and `Failed` are terminal;
/// every other phase names the work completed so far.
#[derive(Clone, Copy, Debug, PartialEq, Eq, Structural)]
pub enum UpdatePhase {
    Start,
    Cloned,
    RemoteAdded,
    Fetched,
    Done,
    Failed(UpdateError),
}

/// The step that runs next from a phase; `None` once the update is
/// over.
pub open spec fn next_step_of(p: UpdatePhase) -> Option<GitStep> {
    match p {
        UpdatePhase::Start => Some(GitStep::Clone),
        UpdatePhase::Cloned => Some(GitStep::AddRemote),
        UpdatePhase::RemoteAdded => Some(GitStep::Fetch),
        UpdatePhase::Fetched => Some(GitStep::Push),
        UpdatePhase::Done => None,
        UpdatePhase::Failed(_) => None,
    }
}

/// The phase reached when a step succeeds.
pub open spec fn phase_after_success(s: GitStep) -> UpdatePhase {
    match s {
        GitStep::Clone => UpdatePhase::Cloned,
        GitStep::AddRemote => UpdatePhase::RemoteAdded,
        GitStep::Fetch => UpdatePhase::Fetched,
        GitStep::Push => UpdatePhase::Done,
    }
}

/// The transition relation of one update: a successful command moves
/// to the next phase, any failure moves straight to `Failed`, and the
/// terminal phases absorb every outcome.
pub open spec fn advance_spec(p: UpdatePhase, o: CmdOutcome) -> UpdatePhase {
    match next_step_of(p) {
        None => p,
        Some(s) => match o {
            CmdOutcome::ExitSuccess => phase_after_success(s),
            CmdOutcome::CouldNotLaunch => UpdatePhase::Failed(
                UpdateError { step: s, kind: FailureKind::LaunchError },
            ),
            CmdOutcome::ExitFailure => UpdatePhase::Failed(
                UpdateError { step: s, kind: FailureKind::StatusError },
            ),
        },
    }
}

/// The arguments of one step's command. The clone target directory
/// and the remote name are internal constants, not derived from
/// input.
pub open spec fn step_args(s: GitStep, from: Seq<char>, to: Seq<char>) -> Seq<Seq<char>> {
    match s {
        GitStep::Clone => seq!["clone"@, from, "aknownname"@],
        GitStep::AddRemote => seq!["remote"@, "add"@, "target"@, to],
        GitStep::Fetch => seq!["fetch"@, "target"@],
        GitStep::Push => seq!["push"@, "target"@, "HEAD"@, "--tags"@],
    }
}

/// Where one step's command runs: the clone starts at the scratch
/// root, everything later runs inside the fresh clone.
pub open spec fn step_dir(s: GitStep) -> WorkDir {
    match s {
        GitStep::Clone => WorkDir::Scratch,
        _ => WorkDir::CloneDir,
    }
}

/// The name of the subdirectory the source is cloned into, inside
/// the scratch directory.
pub fn clone_dir_name() -> (r: String)
    ensures
        r@ == "aknownname"@,
{
    "aknownname".to_owned()
}

/// The name under which the destination is registered as a remote of
/// the fresh clone.
pub fn remote_name() -> (r: String)
    ensures
        r@ == "target"@,
{
    "target".to_owned()
}

/// The step that runs next from a phase; `None` once the update is
/// over.
pub fn next_step(p: &UpdatePhase) -> (r: Option<GitStep>)
    ensures
        r == next_step_of(*p),
{
    match *p {
        UpdatePhase::Start => Some(GitStep::Clone),
        UpdatePhase::Cloned => Some(GitStep::AddRemote),
        UpdatePhase::RemoteAdded => Some(GitStep::Fetch),
        UpdatePhase::Fetched => Some(GitStep::Push),
        UpdatePhase::Done => None,
        UpdatePhase::Failed(_) => None,
    }
}

/// The exact command one step runs, for the mirror `from -> to`.
pub fn command_for_step(step: GitStep, from: &str, to: &str) -> (c: GitCommand)
    ensures
        c.args@.map_values(|a: String| a@) == step_args(step, from@, to@),
        c.dir == step_dir(step),
{
    let mut args: Vec<String> = Vec::new();
    match step {
        GitStep::Clone => {
            args.push("clone".to_owned());
            args.push(from.to_owned());
            args.push("aknownname".to_owned());
        },
        GitStep::AddRemote => {
            args.push("remote".to_owned());
            args.push("add".to_owned());
            args.push("target".to_owned());
            args.push(to.to_owned());
        },
        GitStep::Fetch => {
            args.push("fetch".to_owned());
            args.push("target".to_owned());
        },
        GitStep::Push => {
            args.push("push".to_owned());
            args.push("target".to_owned());
            args.push("HEAD".to_owned());
            args.push("--tags".to_owned());
        },
    }
    proof {
        assert(args@.map_values(|a: String| a@) =~= step_args(step, from@, to@));
    }
    let dir = match step {
        GitStep::Clone => WorkDir::Scratch,
        _ => WorkDir::CloneDir,
    };
    GitCommand { args, dir }
}

/// Advances the update by one command's outcome, as
/// [`advance_spec`] says.
pub fn advance(p: UpdatePhase, o: CmdOutcome) -> (r: UpdatePhase)
    ensures
        r == advance_spec(p, o),
{
    match next_step(&p) {
        None => p,
        Some(s) => match o {
            CmdOutcome::ExitSuccess => match s {
                GitStep::Clone => UpdatePhase::Cloned,
                GitStep::AddRemote => UpdatePhase::RemoteAdded,
                GitStep::Fetch => UpdatePhase::Fetched,
                GitStep::Push => UpdatePhase::Done,
            },
            CmdOutcome::CouldNotLaunch => UpdatePhase::Failed(
                UpdateError { step: s, kind: FailureKind::LaunchError },
            ),
            CmdOutcome::ExitFailure => UpdatePhase::Failed(
                UpdateError { step: s, kind: FailureKind::StatusError },
            ),
        },
    }
}

/// The context reported for a failed update, naming the step that
/// failed; a launch failure also names the command failure itself.
pub open spec fn error_message(e: UpdateError) -> Seq<char> {
    let step_part = match e.step {
        GitStep::Clone => "Git clone failed"@,
        GitStep::AddRemote => "Git remote add failed"@,
        GitStep::Fetch => "Git fetch failed"@,
        GitStep::Push => "Git push failed"@,
    };
    match e.kind {
        FailureKind::LaunchError => step_part + ": Git command failed"@,
        FailureKind::StatusError => step_part,
    }
}

impl UpdateError {
    /// The human-readable description of this failure.
    pub fn message(&self) -> (r: String)
        ensures
            r@ == error_message(*self),
    {
        let step_part: String = match self.step {
            GitStep::Clone => "Git clone failed".to_owned(),
            GitStep::AddRemote => "Git remote add failed".to_owned(),
            GitStep::Fetch => "Git fetch failed".to_owned(),
            GitStep::Push => "Git push failed".to_owned(),
        };
        match self.kind {
            FailureKind::LaunchError => step_part.concat(": Git command failed"),
            FailureKind::StatusError => step_part,
        }
    }
}

/// The phase reached after feeding a whole sequence of command
/// outcomes to the update, first outcome first.
pub open spec fn run_from(p: UpdatePhase, outcomes: Seq<CmdOutcome>) -> UpdatePhase
    decreases outcomes.len(),
{
    if outcomes.len() == 0 {
        p
    } else {
        run_from(advance_spec(p, outcomes[0]), outcomes.drop_first())
    }
}

/// An update whose four commands all succeed reaches `Done`: the
/// sequence clone, add remote, fetch, push runs to completion.
pub proof fn lemma_successful_run_reaches_done(outcomes: Seq<CmdOutcome>)
    requires
        outcomes.len() == 4,
        forall|i: int| 0 <= i < outcomes.len() ==> outcomes[i] == CmdOutcome::ExitSuccess,
    ensures
        run_from(UpdatePhase::Start, outcomes) == UpdatePhase::Done,
{
    let o1 = outcomes.drop_first();
    let o2 = o1.drop_first();
    let o3 = o2.drop_first();
    assert(outcomes[0] == CmdOutcome::ExitSuccess);
    assert(o1[0] == CmdOutcome::ExitSuccess);
    assert(o2[0] == CmdOutcome::ExitSuccess);
    assert(o3[0] == CmdOutcome::ExitSuccess);
    assert(run_from(UpdatePhase::Start, outcomes) == run_from(UpdatePhase::Cloned, o1));
    assert(run_from(UpdatePhase::Cloned, o1) == run_from(UpdatePhase::RemoteAdded, o2));
    assert(run_from(UpdatePhase::RemoteAdded, o2) == run_from(UpdatePhase::Fetched, o3));
    assert(run_from(UpdatePhase::Fetched, o3) == run_from(UpdatePhase::Done, o3.drop_first()));
    assert(o3.drop_first().len() == 0);
    assert(run_from(UpdatePhase::Done, o3.drop_first()) == UpdatePhase::Done);
}

/// Fail-fast: when the step that runs next does not succeed, the
/// update moves straight to `Failed`, recording that step and
/// whether it failed to launch or reported a failure status. No
/// later step of this update runs.
pub proof fn lemma_failure_fails_fast(p: UpdatePhase, o: CmdOutcome)
    requires
        next_step_of(p) is Some,
        o != CmdOutcome::ExitSuccess,
    ensures
        advance_spec(p, o) matches UpdatePhase::Failed(e) && e.step == next_step_of(p)->Some_0
            && (e.kind == FailureKind::LaunchError <==> o == CmdOutcome::CouldNotLaunch),
        next_step_of(advance_spec(p, o)) is None,
{
}

/// The terminal phases absorb every further outcome: once an update
/// is `Done` or `Failed`, nothing changes it.
pub proof fn lemma_terminal_absorbs(p: UpdatePhase, outcomes: Seq<CmdOutcome>)
    requires
        next_step_of(p) is None,
    ensures
        run_from(p, outcomes) == p,
    decreases outcomes.len(),
{
    if outcomes.len() > 0 {
        lemma_terminal_absorbs(p, outcomes.drop_first());
    }
}

/// How many commands can still run from a phase; at most four.
pub open spec fn steps_remaining(p: UpdatePhase) -> nat {
    match p {
        UpdatePhase::Start => 4,
        UpdatePhase::Cloned => 3,
        UpdatePhase::RemoteAdded => 2,
        UpdatePhase::Fetched => 1,
        UpdatePhase::Done => 0,
        UpdatePhase::Failed(_) => 0,
    }
}

/// Every command brings the update strictly closer to a terminal
/// phase: an update always ends within four commands, so a driver
/// that loops on [`next_step`] terminates and its scratch directory
/// is always reached for cleanup.
pub proof fn lemma_update_terminates(p: UpdatePhase, o: CmdOutcome)
    requires
        next_step_of(p) is Some,
    ensures
        steps_remaining(advance_spec(p, o)) < steps_remaining(p),
{
}

} // verus!
