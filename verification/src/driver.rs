//! The build-stream driver's decision logic and the final aggregation.
//!
//! The build tool is spawned with a fixed argument prefix that makes its
//! standard output a stream of line-delimited JSON messages. Each line is
//! decoded independently; a line announcing a compiled artifact with an
//! executable is answered by spawning that artifact's pipeline at once, a
//! line that does not decode aborts the whole run as a protocol failure,
//! and everything else is read and discarded. Reading the stream and
//! spawning tasks is the caller's business; the functions here take a line
//! (or its decoded message) and say what to do with it.
//!
//! When the stream is drained and every spawned pipeline has been awaited,
//! [`aggregate`] folds the build tool's own exit status and the pipelines'
//! outcomes, in spawn order, into the run's single result.

use vstd::prelude::*;

use crate::pipeline::{PipelineOutcome, Stage, StageFailureKind};
use crate::strutil::str_starts_with;
use crate::toolchain::strs_view;

verus! {

/// The target specification the build is invoked for.
pub const TARGET_SPEC_NAME: &'static str = "armv7-sony-vita-newlibeabihf";

/// One decoded line of the build tool's output stream. Only an artifact
/// announcement carries anything the pipeline cares about; every other
/// well-formed message is `Other`.
#[derive(Clone, Debug, PartialEq, Eq)]
pub enum BuildMessage {
    /// The build produced an artifact; the path of its executable, when the
    /// artifact has one (libraries do not).
    CompilerArtifact { executable: Option<String> },
    /// Any other well-formed message; read and discarded.
    Other,
}

/// What the build tool's message on one line was: `None` when the line is
/// not a well-formed message of the protocol at all. This names the result
/// of the external JSON decoder; it is a function of the line alone.
pub uninterp spec fn message_of(line: Seq<char>) -> Option<BuildMessage>;

/// Relies on `serde_json` deserializing `cargo_metadata::Message`: decodes
/// one line of the build stream, keeping the artifact announcements' field
/// of interest and collapsing the other message kinds.
#[verifier::external_body]
pub(crate) fn decode_line(line: &str) -> (r: Option<BuildMessage>)
    ensures
        r == message_of(line@),
{
    match serde_json::from_str::<cargo_metadata::Message>(line) {
        Ok(cargo_metadata::Message::CompilerArtifact(a)) => Some(
            BuildMessage::CompilerArtifact { executable: a.executable.map(|p| p.into_string()) },
        ),
        Ok(_) => Some(BuildMessage::Other),
        Err(_) => None,
    }
}

/// The driver's reaction to one line of the stream.
#[derive(Clone, Debug, PartialEq, Eq)]
pub enum LineAction {
    /// Spawn the pipeline for the executable at this path, immediately,
    /// and keep reading.
    Spawn(String),
    /// Nothing to do for this line; keep reading.
    Ignore,
    /// The line is not a well-formed message: the whole run fails as a
    /// protocol mismatch, without trying to resynchronize.
    ProtocolFailure,
}

/// The reaction owed to one decoded message.
pub open spec fn line_action_spec(m: Option<BuildMessage>) -> LineAction {
    match m {
        None => LineAction::ProtocolFailure,
        Some(BuildMessage::CompilerArtifact { executable: Some(p) }) => LineAction::Spawn(p),
        Some(BuildMessage::CompilerArtifact { executable: None }) => LineAction::Ignore,
        Some(BuildMessage::Other) => LineAction::Ignore,
    }
}

/// The driver's reaction to one decoded message: spawn a pipeline for an
/// executable artifact, ignore other messages, abort on a line that did
/// not decode.
pub fn on_message(m: &Option<BuildMessage>) -> (r: LineAction)
    ensures
        r == line_action_spec(*m),
{
    match m {
        None => LineAction::ProtocolFailure,
        Some(BuildMessage::CompilerArtifact { executable: Some(p) }) => LineAction::Spawn(
            p.clone(),
        ),
        Some(BuildMessage::CompilerArtifact { executable: None }) => LineAction::Ignore,
        Some(BuildMessage::Other) => LineAction::Ignore,
    }
}

/// The driver's reaction to one raw line of the stream.
pub fn scan_line(line: &str) -> (r: LineAction)
    ensures
        r == line_action_spec(message_of(line@)),
{
    on_message(&decode_line(line))
}

/// The executable paths announced by a sequence of well-formed messages,
/// in stream order.
pub open spec fn artifacts_spec(msgs: Seq<Option<BuildMessage>>) -> Seq<Seq<char>>
    decreases msgs.len(),
{
    if msgs.len() == 0 {
        Seq::empty()
    } else {
        artifacts_spec(msgs.drop_last()) + (match msgs.last() {
            Some(BuildMessage::CompilerArtifact { executable: Some(p) }) => seq![p@],
            _ => Seq::<Seq<char>>::empty(),
        })
    }
}

/// Drives a whole (already decoded) stream: collects, in stream order, the
/// executables whose pipelines get spawned. The run degenerates to a
/// protocol failure exactly when some line did not decode — wherever in
/// the stream it sits — reported as `Err` with the index of the first such
/// line; every line before it has still been acted on.
pub fn drive_stream(msgs: Vec<Option<BuildMessage>>) -> (r: Result<Vec<String>, usize>)
    ensures
        r is Err <==> (exists|j: int| 0 <= j < msgs@.len() && msgs@[j] is None),
        r matches Err(i) ==> i < msgs@.len() && msgs@[i as int] is None && (forall|j: int|
            0 <= j < i ==> msgs@[j] is Some),
        r matches Ok(arts) ==> strs_view(arts@) == artifacts_spec(msgs@),
{
    let mut arts: Vec<String> = Vec::new();
    let mut i: usize = 0;
    assert(strs_view(arts@) =~= artifacts_spec(msgs@.take(0int)));
    while i < msgs.len()
        invariant
            i <= msgs@.len(),
            forall|j: int| 0 <= j < i ==> msgs@[j] is Some,
            strs_view(arts@) == artifacts_spec(msgs@.take(i as int)),
        decreases msgs@.len() - i,
    {
        let ghost pre = arts@;
        let m = &msgs[i];
        match on_message(m) {
            LineAction::Spawn(p) => {
                arts.push(p);
            },
            LineAction::Ignore => (),
            LineAction::ProtocolFailure => {
                return Err(i);
            },
        }
        proof {
            assert(msgs@.take(i + 1).drop_last() =~= msgs@.take(i as int));
            assert(msgs@.take(i + 1).last() == msgs@[i as int]);
            match msgs@[i as int] {
                Some(BuildMessage::CompilerArtifact { executable: Some(p) }) => {
                    assert(strs_view(arts@) =~= strs_view(pre).push(p@));
                },
                _ => {
                    assert(arts@ == pre);
                },
            }
            assert(strs_view(arts@) =~= artifacts_spec(msgs@.take(i + 1)));
        }
        i += 1;
    }
    proof {
        assert(msgs@.take(msgs@.len() as int) =~= msgs@);
    }
    Ok(arts)
}

/// The fixed prefix of the build tool's invocation, followed verbatim by
/// the caller's own arguments: the build subcommand, the flag that makes
/// the output machine-readable, the standard-library build flag, and the
/// target specification.
pub fn build_command_args(user_args: &Vec<String>) -> (r: Vec<String>)
    ensures
        strs_view(r@) == seq![
            "build"@,
            "--message-format=json-render-diagnostics"@,
            "-Zbuild-std=panic_abort,std"@,
            "--target"@,
            TARGET_SPEC_NAME@,
        ] + strs_view(user_args@),
{
    let mut r: Vec<String> = Vec::new();
    r.push("build".to_owned());
    r.push("--message-format=json-render-diagnostics".to_owned());
    r.push("-Zbuild-std=panic_abort,std".to_owned());
    r.push("--target".to_owned());
    r.push(TARGET_SPEC_NAME.to_owned());
    let ghost head = strs_view(r@);
    let mut i: usize = 0;
    assert(strs_view(r@) =~= head + strs_view(user_args@.take(0int)));
    while i < user_args.len()
        invariant
            i <= user_args@.len(),
            head == seq![
                "build"@,
                "--message-format=json-render-diagnostics"@,
                "-Zbuild-std=panic_abort,std"@,
                "--target"@,
                TARGET_SPEC_NAME@,
            ],
            strs_view(r@) == head + strs_view(user_args@.take(i as int)),
        decreases user_args@.len() - i,
    {
        let ghost pre = r@;
        r.push(user_args[i].clone());
        proof {
            assert(strs_view(r@) =~= strs_view(pre).push(user_args@[i as int]@));
            assert(strs_view(r@) =~= head + strs_view(user_args@.take(i + 1)));
        }
        i += 1;
    }
    proof {
        assert(user_args@.take(user_args@.len() as int) =~= user_args@);
    }
    r
}

/// Where one scan position of [`get_arg`] leads: the value of the flag if
/// it matches at position `i`, otherwise the verdict of the positions
/// after it. Only positions with a successor are inspected, as a value
/// could not follow a match at the very last position.
pub open spec fn get_arg_from(args: Seq<Seq<char>>, name: Seq<char>, i: int) -> Option<Seq<char>>
    decreases args.len() - i,
{
    if i < 0 || i + 1 >= args.len() {
        None
    } else if args[i] == name {
        Some(args[i + 1])
    } else if name.is_prefix_of(args[i]) && args[i].len() > name.len() && args[i][name.len() as int]
        == '=' {
        Some(args[i].skip(name.len() as int + 1))
    } else {
        get_arg_from(args, name, i + 1)
    }
}

/// The value of the command-line flag `name` in `args`, spelled either as
/// two arguments (`name value`) or as one (`name=value`); the first
/// occurrence wins.
pub fn get_arg(args: &Vec<String>, name: &str) -> (r: Option<String>)
    ensures
        match r {
            Some(v) => get_arg_from(strs_view(args@), name@, 0) == Some(v@),
            None => get_arg_from(strs_view(args@), name@, 0) is None,
        },
{
    let ghost sargs = strs_view(args@);
    let n = args.len();
    if n == 0 {
        return None;
    }
    let name_len = name.unicode_len();
    let mut i: usize = 0;
    while i + 1 < n
        invariant
            0 <= i < n == args@.len(),
            sargs == strs_view(args@),
            name_len == name@.len(),
            get_arg_from(sargs, name@, 0) == get_arg_from(sargs, name@, i as int),
        decreases n - i,
    {
        let a = &args[i];
        if crate::strutil::str_eq(a.as_str(), name) {
            let v = args[i + 1].clone();
            return Some(v);
        }
        if str_starts_with(a.as_str(), name) {
            let a_len = a.as_str().unicode_len();
            if a_len > name_len {
                if a.as_str().get_char(name_len) == '=' {
                    let v = a.as_str().substring_char(name_len + 1, a_len).to_owned();
                    proof {
                        assert(v@ =~= sargs[i as int].skip(name@.len() as int + 1));
                    }
                    return Some(v);
                }
            }
        }
        i += 1;
    }
    None
}

/// The whole build's result: the build tool's own failure takes precedence
/// over any pipeline failure; otherwise the first failed pipeline, in
/// spawn order, names the result.
#[derive(Copy, Clone, Debug, PartialEq, Eq)]
pub enum AggregatedResult {
    /// The build succeeded and every spawned pipeline succeeded.
    Success,
    /// The build tool itself exited abnormally; its exit code, if any.
    BuildFailed { exit: Option<i32> },
    /// The build succeeded but the pipeline spawned at `index` failed.
    PipelineFailed { index: usize, stage: Stage, kind: StageFailureKind },
}

/// Folds the build tool's exit status and the spawned pipelines' outcomes
/// (in spawn order, all of them awaited) into the run's single result.
///
/// A non-zero or signalled build exit is the result, whatever the
/// pipelines did. Otherwise the first failed pipeline, by spawn order, is
/// the result; success only when there is none.
pub fn aggregate(build_exit: Option<i32>, outcomes: &Vec<PipelineOutcome>) -> (r: AggregatedResult)
    ensures
        build_exit != Some(0i32) ==> r == (AggregatedResult::BuildFailed { exit: build_exit }),
        r matches AggregatedResult::BuildFailed { exit } ==> (exit == build_exit && build_exit
            != Some(0i32)),
        r is Success ==> build_exit == Some(0i32) && (forall|j: int|
            0 <= j < outcomes@.len() ==> outcomes@[j] is Success),
        r matches AggregatedResult::PipelineFailed { index, stage, kind } ==> (build_exit == Some(
            0i32,
        ) && index < outcomes@.len() && outcomes@[index as int] == (PipelineOutcome::Failed {
            stage,
            kind,
        }) && (forall|j: int| 0 <= j < index ==> outcomes@[j] is Success)),
        build_exit == Some(0i32) && (forall|j: int|
            0 <= j < outcomes@.len() ==> outcomes@[j] is Success) ==> (r is Success),
{
    let c = match build_exit {
        Some(c) => c,
        None => {
            return AggregatedResult::BuildFailed { exit: None };
        },
    };
    if c != 0 {
        return AggregatedResult::BuildFailed { exit: Some(c) };
    }
    assert(build_exit == Some(0i32));
    let mut i: usize = 0;
    while i < outcomes.len()
        invariant
            build_exit == Some(0i32),
            i <= outcomes@.len(),
            forall|j: int| 0 <= j < i ==> outcomes@[j] is Success,
        decreases outcomes@.len() - i,
    {
        match outcomes[i] {
            PipelineOutcome::Success => (),
            PipelineOutcome::Failed { stage, kind } => {
                return AggregatedResult::PipelineFailed { index: i, stage, kind };
            },
        }
        i += 1;
    }
    AggregatedResult::Success
}

} // verus!
