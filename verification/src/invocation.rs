//! The one build that the launcher runs: the tool, its arguments, the
//! environment it is given, and the directory it leaves the library in.

use vstd::prelude::*;

verus! {

/// The build tool.
pub const PROGRAM: &'static str = "cargo";

/// The target that the sketch is compiled for.
pub const TARGET_TRIPLE: &'static str = "avr-unknown-gnu-atmega328";

/// Where the value of an environment variable comes from.
#[derive(Debug, PartialEq, Eq)]
pub enum EnvValue {
    /// The directory in which the launcher runs, as the host names it.
    WorkingDirectory,
    /// A fixed text.
    Text(String),
}

/// One variable set in the child's environment.
#[derive(Debug, PartialEq, Eq)]
pub struct EnvVar {
    pub name: String,
    pub value: EnvValue,
}

/// Everything needed to start the child.
#[derive(Debug, PartialEq, Eq)]
pub struct Invocation {
    pub program: String,
    pub envs: Vec<EnvVar>,
    pub args: Vec<String>,
}

/// An `EnvValue` as a plain value.
pub enum EnvValueView {
    WorkingDirectory,
    Text(Seq<char>),
}

/// An `Invocation` as a plain value.
pub struct InvocationView {
    pub program: Seq<char>,
    pub envs: Seq<(Seq<char>, EnvValueView)>,
    pub args: Seq<Seq<char>>,
}

impl View for EnvValue {
    type V = EnvValueView;

    open spec fn view(&self) -> EnvValueView {
        match self {
            EnvValue::WorkingDirectory => EnvValueView::WorkingDirectory,
            EnvValue::Text(text) => EnvValueView::Text(text@),
        }
    }
}

impl View for EnvVar {
    type V = (Seq<char>, EnvValueView);

    open spec fn view(&self) -> (Seq<char>, EnvValueView) {
        (self.name@, self.value@)
    }
}

impl View for Invocation {
    type V = InvocationView;

    open spec fn view(&self) -> InvocationView {
        InvocationView {
            program: self.program@,
            envs: self.envs@.map_values(|var: EnvVar| var@),
            args: self.args@.map_values(|arg: String| arg@),
        }
    }
}

/// The build of the sketch: in release mode, for the AVR target, with the
/// core library built from source; the target's description is looked up
/// in the working directory, and a failure inside the tool comes with a
/// backtrace.
pub open spec fn cross_build() -> InvocationView {
    InvocationView {
        program: PROGRAM@,
        envs: seq![
            ("RUST_TARGET_PATH"@, EnvValueView::WorkingDirectory),
            ("RUST_BACKTRACE"@, EnvValueView::Text("1"@)),
        ],
        args: seq![
            "build"@,
            "--release"@,
            "--target"@,
            TARGET_TRIPLE@,
            "-Z"@,
            "build-std=core"@,
        ],
    }
}

/// Where that build leaves the library, relative to the working directory.
pub open spec fn output_dir_text() -> Seq<char> {
    "target/"@ + TARGET_TRIPLE@ + "/release"@
}

impl Invocation {
    /// The build of the sketch.
    pub fn cross_build() -> (invocation: Invocation)
        ensures
            invocation@ == cross_build(),
    {
        let mut envs: Vec<EnvVar> = Vec::new();
        envs.push(
            EnvVar { name: String::from_str("RUST_TARGET_PATH"), value: EnvValue::WorkingDirectory },
        );
        envs.push(
            EnvVar {
                name: String::from_str("RUST_BACKTRACE"),
                value: EnvValue::Text(String::from_str("1")),
            },
        );
        let mut args: Vec<String> = Vec::new();
        args.push(String::from_str("build"));
        args.push(String::from_str("--release"));
        args.push(String::from_str("--target"));
        args.push(String::from_str(TARGET_TRIPLE));
        args.push(String::from_str("-Z"));
        args.push(String::from_str("build-std=core"));
        let invocation = Invocation { program: String::from_str(PROGRAM), envs, args };
        assert(invocation@.envs =~= cross_build().envs);
        assert(invocation@.args =~= cross_build().args);
        invocation
    }
}

/// The directory to resolve once the build has succeeded, relative to the
/// working directory.
pub fn output_dir() -> (dir: String)
    ensures
        dir@ == output_dir_text(),
{
    String::from_str("target/").concat(TARGET_TRIPLE).concat("/release")
}

} // verus!
