use std::path::Path;

use build_flags::directive::{Record, Stream};
use build_flags::invocation::output_dir;
use build_flags::launcher::{
    ChildOutcome, Ending, Failure, State, BUILD_DIAGNOSTIC, SPAWN_DIAGNOSTIC,
};

const SUCCESS: ChildOutcome = ChildOutcome::Exited { success: true };
const NO_SUCCESS: ChildOutcome = ChildOutcome::Exited { success: false };

fn stream_lines(records: &[Record], stream: Stream) -> Vec<String> {
    let mut lines = Vec::new();
    for record in records {
        if record.stream == stream {
            lines.push(record.line.clone());
        }
    }
    lines
}

#[test]
fn a_run_starts_running() {
    assert_eq!(State::start(), State::Running);
}

#[test]
fn success_ends_with_the_lines() {
    assert_eq!(State::start().step(SUCCESS), State::Done(Ending::Emit));
}

#[test]
fn failed_build_ends_aborted() {
    assert_eq!(
        State::start().step(NO_SUCCESS),
        State::Done(Ending::Abort(Failure::Build))
    );
}

#[test]
fn failed_spawn_ends_aborted() {
    assert_eq!(
        State::start().step(ChildOutcome::SpawnFailed),
        State::Done(Ending::Abort(Failure::Spawn))
    );
}

#[test]
fn done_is_terminal() {
    let endings = [Ending::Emit, Ending::Abort(Failure::Spawn), Ending::Abort(Failure::Build)];
    let outcomes = [SUCCESS, NO_SUCCESS, ChildOutcome::SpawnFailed];
    for ending in endings {
        for outcome in outcomes {
            assert_eq!(State::Done(ending).step(outcome), State::Done(ending));
        }
    }
}

#[test]
fn failure_is_held_by_aborted_runs_only() {
    assert_eq!(State::Running.failure(), None);
    assert_eq!(State::Done(Ending::Emit).failure(), None);
    assert_eq!(State::Done(Ending::Abort(Failure::Spawn)).failure(), Some(Failure::Spawn));
    assert_eq!(State::Done(Ending::Abort(Failure::Build)).failure(), Some(Failure::Build));
}

#[test]
fn spawn_diagnostic_names_the_command() {
    assert_eq!(Failure::Spawn.diagnostic(), "Failed to execute command `cargo build`.");
    assert_eq!(SPAWN_DIAGNOSTIC, "Failed to execute command `cargo build`.");
}

#[test]
fn build_diagnostic_says_no_more_than_that() {
    assert_eq!(Failure::Build.diagnostic(), "Build did not succeed.");
    assert_eq!(BUILD_DIAGNOSTIC, "Build did not succeed.");
}

#[test]
fn successful_build_in_home_user_proj() {
    let dir = Path::new("/home/user/proj").join(output_dir());
    let dir = dir.to_str().unwrap();
    let records = State::start().step(SUCCESS).writes(dir);
    let expected = vec![
        String::from("-L/home/user/proj/target/avr-unknown-gnu-atmega328/release"),
        String::from("-lTODO_CRATE_NAME"),
    ];
    assert_eq!(stream_lines(&records, Stream::Stdout), expected);
    assert_eq!(stream_lines(&records, Stream::Stderr), expected);
    assert_eq!(records.len(), 4);
}

#[test]
fn successful_build_writes_two_lines_per_stream() {
    let records = State::start().step(SUCCESS).writes("C:\\proj\\target\\avr-unknown-gnu-atmega328\\release");
    let stdout = stream_lines(&records, Stream::Stdout);
    let stderr = stream_lines(&records, Stream::Stderr);
    assert_eq!(stdout.len(), 2);
    assert_eq!(stderr.len(), 2);
    assert_eq!(stdout, stderr);
    assert!(stdout[0].starts_with("-L"));
    let path = &stdout[0][2..];
    assert_eq!(path, "C:/proj/target/avr-unknown-gnu-atmega328/release");
    assert!(!path.contains('\\'));
    assert!(path.split('/').all(|name| name != "." && name != ".."));
}

#[test]
fn failed_build_writes_nothing() {
    let records = State::start().step(NO_SUCCESS).writes("/home/user/proj/target/avr-unknown-gnu-atmega328/release");
    assert_eq!(records, Vec::<Record>::new());
}

#[test]
fn failed_spawn_writes_nothing() {
    let records = State::start()
        .step(ChildOutcome::SpawnFailed)
        .writes("/home/user/proj/target/avr-unknown-gnu-atmega328/release");
    assert_eq!(records, Vec::<Record>::new());
}

#[test]
fn running_writes_nothing() {
    assert_eq!(State::Running.writes("/p"), Vec::<Record>::new());
}

#[test]
fn second_run_writes_what_the_first_wrote() {
    let dir = "/home/user/proj/target/avr-unknown-gnu-atmega328/release";
    let first = State::start().step(SUCCESS).writes(dir);
    let second = State::start().step(SUCCESS).writes(dir);
    assert_eq!(first, second);
    let first_bytes: Vec<&[u8]> = first.iter().map(|record| record.line.as_bytes()).collect();
    let second_bytes: Vec<&[u8]> = second.iter().map(|record| record.line.as_bytes()).collect();
    assert_eq!(first_bytes, second_bytes);
}
