//! The launcher's two states, what moves it from one to the other, and
//! what it writes in each.

use vstd::prelude::*;
use crate::directive::{
    emission, emission_records, lemma_two_lines_per_stream, lines_on, link_name_line,
    record_views, Record, Stream,
};
use crate::invocation::cross_build;
use crate::path::{forward_slashes, is_resolved, lemma_resolved_kept, Separators};

verus! {

/// What is said of a build tool that could not be started.
pub const SPAWN_DIAGNOSTIC: &'static str = "Failed to execute command `cargo build`.";

/// What is said of a build tool that ran and reported failure.
pub const BUILD_DIAGNOSTIC: &'static str = "Build did not succeed.";

/// What became of the child process.
#[derive(Clone, Copy, Debug, PartialEq, Eq, Structural)]
pub enum ChildOutcome {
    /// The build tool could not be started.
    SpawnFailed,
    /// The build tool ran and exited, with success or without.
    Exited { success: bool },
}

/// Why a run was aborted.
#[derive(Clone, Copy, Debug, PartialEq, Eq, Structural)]
pub enum Failure {
    /// The build tool could not be started.
    Spawn,
    /// The build tool exited without success.
    Build,
}

/// How a run ends.
#[derive(Clone, Copy, Debug, PartialEq, Eq, Structural)]
pub enum Ending {
    /// The two directive lines go out.
    Emit,
    /// Nothing goes out, and the process ends abnormally.
    Abort(Failure),
}

/// State of the launcher.
#[derive(Clone, Copy, Debug, PartialEq, Eq, Structural)]
pub enum State {
    /// The child is being started or awaited.
    Running,
    /// The child is gone, and the run has its ending.
    Done(Ending),
}

/// The ending that a child's outcome calls for.
pub open spec fn ending_for(outcome: ChildOutcome) -> Ending {
    match outcome {
        ChildOutcome::SpawnFailed => Ending::Abort(Failure::Spawn),
        ChildOutcome::Exited { success: false } => Ending::Abort(Failure::Build),
        ChildOutcome::Exited { success: true } => Ending::Emit,
    }
}

/// The state after `outcome` is learned in `state`. A run that is done
/// stays as it is.
pub open spec fn next_state(state: State, outcome: ChildOutcome) -> State {
    match state {
        State::Running => State::Done(ending_for(outcome)),
        State::Done(ending) => State::Done(ending),
    }
}

/// What a launcher in `state` writes, `dir` being the output directory as
/// the host resolved it: the directive lines where the run ends with them,
/// and nothing in any other state.
pub open spec fn written(state: State, dir: Seq<char>) -> Seq<(Stream, Seq<char>)> {
    match state {
        State::Done(Ending::Emit) => emission(dir),
        _ => Seq::empty(),
    }
}

/// The failure that `state` holds, if it holds one.
pub open spec fn failure_of(state: State) -> Option<Failure> {
    match state {
        State::Done(Ending::Abort(failure)) => Some(failure),
        _ => None,
    }
}

/// The text that goes with `failure`.
pub open spec fn diagnostic_text(failure: Failure) -> Seq<char> {
    match failure {
        Failure::Spawn => SPAWN_DIAGNOSTIC@,
        Failure::Build => BUILD_DIAGNOSTIC@,
    }
}

impl Failure {
    /// The diagnostic to abort with.
    pub fn diagnostic(&self) -> (text: String)
        ensures
            text@ == diagnostic_text(*self),
    {
        match self {
            Failure::Spawn => String::from_str(SPAWN_DIAGNOSTIC),
            Failure::Build => String::from_str(BUILD_DIAGNOSTIC),
        }
    }
}

impl State {
    /// The state in which every run begins.
    pub fn start() -> (state: State)
        ensures
            state == State::Running,
    {
        State::Running
    }

    /// Takes in what became of the child.
    pub fn step(self, outcome: ChildOutcome) -> (next: State)
        ensures
            next == next_state(self, outcome),
    {
        match self {
            State::Running => match outcome {
                ChildOutcome::SpawnFailed => State::Done(Ending::Abort(Failure::Spawn)),
                ChildOutcome::Exited { success } => if success {
                    State::Done(Ending::Emit)
                } else {
                    State::Done(Ending::Abort(Failure::Build))
                },
            },
            State::Done(ending) => State::Done(ending),
        }
    }

    /// Why the run was aborted, where it was.
    pub fn failure(&self) -> (failure: Option<Failure>)
        ensures
            failure == failure_of(*self),
    {
        match self {
            State::Done(Ending::Abort(failure)) => Some(*failure),
            _ => None,
        }
    }

    /// What to write in this state, in the order of writing. `dir` is the
    /// output directory as the host resolved it.
    pub fn writes(&self, dir: &str) -> (out: Vec<Record>)
        ensures
            record_views(out@) == written(*self, dir@),
    {
        match self {
            State::Done(Ending::Emit) => emission_records(dir),
            _ => Vec::new(),
        }
    }
}

/// One step ends every run, and a run that is done stays as it is whatever
/// is learned of the child afterwards.
pub proof fn lemma_done_is_terminal(state: State, outcome: ChildOutcome)
    ensures
        next_state(state, outcome) is Done,
        state is Done ==> next_state(state, outcome) == state,
{
}

/// After a child that exited with success, each stream holds exactly two
/// lines. The first is `-L` and then the output directory with forward
/// slashes: a path without a backslash, absolute and free of `.` and `..`
/// as the directory was when the host resolved it. The second is the
/// `-l` line.
pub proof fn lemma_success_writes_two_lines(dir: Seq<char>, stream: Stream)
    requires
        is_resolved(dir, Separators::SlashOrBackslash),
    ensures
        next_state(State::Running, ChildOutcome::Exited { success: true }) == State::Done(
            Ending::Emit,
        ),
        ({
            let lines = lines_on(written(State::Done(Ending::Emit), dir), stream);
            let path = forward_slashes(dir);
            &&& lines.len() == 2
            &&& lines[0] == seq!['-', 'L'] + path
            &&& lines[1] == link_name_line()
            &&& !path.contains('\\')
            &&& is_resolved(path, Separators::Slash)
        }),
{
    lemma_two_lines_per_stream(dir, stream);
    lemma_resolved_kept(dir);
    reveal_strlit("-L");
}

/// The diagnostic of a child that could not be started names the command:
/// the build tool and the first of its arguments.
pub proof fn lemma_spawn_diagnostic_names_command()
    ensures
        diagnostic_text(Failure::Spawn) == "Failed to execute command `"@ + cross_build().program
            + " "@ + cross_build().args[0] + "`."@,
{
    reveal_strlit("Failed to execute command `cargo build`.");
    reveal_strlit("Failed to execute command `");
    reveal_strlit("cargo");
    reveal_strlit(" ");
    reveal_strlit("build");
    reveal_strlit("`.");
    assert(diagnostic_text(Failure::Spawn) =~= "Failed to execute command `"@
        + cross_build().program + " "@ + cross_build().args[0] + "`."@);
}

/// A child that ran and exited without success leaves the run aborted for
/// that reason, with no line on either stream.
pub proof fn lemma_build_failure_writes_nothing(dir: Seq<char>, stream: Stream)
    ensures
        next_state(State::Running, ChildOutcome::Exited { success: false }) == State::Done(
            Ending::Abort(Failure::Build),
        ),
        written(State::Done(Ending::Abort(Failure::Build)), dir).len() == 0,
        lines_on(written(State::Done(Ending::Abort(Failure::Build)), dir), stream).len() == 0,
{
    reveal_with_fuel(Seq::filter, 1);
}

/// A child that could not be started leaves the run aborted for that
/// reason, with no line on either stream.
pub proof fn lemma_spawn_failure_writes_nothing(dir: Seq<char>, stream: Stream)
    ensures
        next_state(State::Running, ChildOutcome::SpawnFailed) == State::Done(
            Ending::Abort(Failure::Spawn),
        ),
        written(State::Done(Ending::Abort(Failure::Spawn)), dir).len() == 0,
        lines_on(written(State::Done(Ending::Abort(Failure::Spawn)), dir), stream).len() == 0,
{
    reveal_with_fuel(Seq::filter, 1);
}

/// Two runs write the same, record for record, where the child ended
/// alike in both and the output directory resolved to the same path.
pub proof fn lemma_rerun_writes_the_same(
    first: ChildOutcome,
    first_dir: Seq<char>,
    second: ChildOutcome,
    second_dir: Seq<char>,
)
    requires
        first == second,
        first_dir == second_dir,
    ensures
        written(next_state(State::Running, first), first_dir) == written(
            next_state(State::Running, second),
            second_dir,
        ),
{
}

} // verus!
