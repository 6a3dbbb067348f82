//! The fixed pipeline that each pairing runs in its container: clean, build,
//! run, locate the binary, inspect its dynamic dependencies.
use vstd::prelude::*;
use crate::classify::{classified, classify, TestResult};
use crate::text::{decimal, decimal_string, trim, trim_of, views};

verus! {

/// A stage of the pipeline, in the order in which the stages run.
#[derive(Clone, Copy, Debug, PartialEq, Eq, Structural)]
pub enum Stage {
    /// Removes earlier build outputs.
    Clean,
    /// Compiles for the environment's target.
    Build,
    /// Runs the binary once, to surface start-up linking failures.
    Run,
    /// Finds the binary in the output tree.
    Locate,
    /// Lists the binary's dynamic dependencies.
    Inspect,
}

/// The stage that follows `s`, if any.
pub open spec fn spec_next_stage(s: Stage) -> Option<Stage> {
    match s {
        Stage::Clean => Some(Stage::Build),
        Stage::Build => Some(Stage::Run),
        Stage::Run => Some(Stage::Locate),
        Stage::Locate => Some(Stage::Inspect),
        Stage::Inspect => None,
    }
}

/// The words of the command that a stage runs: `name` is the test's name,
/// `target` the environment's target and `binary` the located binary.
pub open spec fn stage_words(s: Stage, name: Seq<char>, target: Seq<char>, binary: Seq<char>) -> Seq<
    Seq<char>,
> {
    match s {
        Stage::Clean => seq!["cargo"@, "clean"@],
        Stage::Build => seq!["cargo"@, "build"@, "--target"@, target],
        Stage::Run => seq!["cargo"@, "run"@, "--target"@, target],
        Stage::Locate => seq!["find"@, "target"@, "-name"@, name],
        Stage::Inspect => seq!["ldd"@, binary],
    }
}

/// How a stage is named in a failure report.
pub open spec fn stage_label(s: Stage) -> Seq<char> {
    match s {
        Stage::Clean => "`cargo clean`"@,
        Stage::Build => "`cargo build`"@,
        Stage::Run => "`cargo run`"@,
        Stage::Locate => "`find`"@,
        Stage::Inspect => "`ldd`"@,
    }
}

/// The report of a stage that ended with a nonzero exit code.
pub open spec fn failure_text(s: Stage, code: nat, output: Seq<char>) -> Seq<char> {
    stage_label(s) + " terminated with exit code "@ + decimal(code) + ":\n"@ + output
}

/// The path of the binary named by the output of the locate stage: its
/// text without surrounding whitespace.
pub fn located_binary(output: &str) -> (r: String)
    ensures
        r@ == trim_of(output@),
{
    trim(output)
}

/// The stage that follows `s`, if any.
pub fn next_stage(s: Stage) -> (r: Option<Stage>)
    ensures
        r == spec_next_stage(s),
{
    match s {
        Stage::Clean => Some(Stage::Build),
        Stage::Build => Some(Stage::Run),
        Stage::Run => Some(Stage::Locate),
        Stage::Locate => Some(Stage::Inspect),
        Stage::Inspect => None,
    }
}

/// The words of the command that stage `s` runs.
pub fn stage_command(s: Stage, name: &str, target: &str, binary: &str) -> (r: Vec<String>)
    ensures
        views(r@) == stage_words(s, name@, target@, binary@),
{
    let r = match s {
        Stage::Clean => vec![String::from_str("cargo"), String::from_str("clean")],
        Stage::Build => vec![
            String::from_str("cargo"),
            String::from_str("build"),
            String::from_str("--target"),
            String::from_str(target),
        ],
        Stage::Run => vec![
            String::from_str("cargo"),
            String::from_str("run"),
            String::from_str("--target"),
            String::from_str(target),
        ],
        Stage::Locate => vec![
            String::from_str("find"),
            String::from_str("target"),
            String::from_str("-name"),
            String::from_str(name),
        ],
        Stage::Inspect => vec![String::from_str("ldd"), String::from_str(binary)],
    };
    assert(views(r@) =~= stage_words(s, name@, target@, binary@));
    r
}

fn label_of(s: Stage) -> (r: &'static str)
    ensures
        r@ == stage_label(s),
{
    match s {
        Stage::Clean => "`cargo clean`",
        Stage::Build => "`cargo build`",
        Stage::Run => "`cargo run`",
        Stage::Locate => "`find`",
        Stage::Inspect => "`ldd`",
    }
}

/// The report of stage `s` ending with exit code `code` after printing
/// `output`.
pub fn failure_report(s: Stage, code: u64, output: &str) -> (r: String)
    ensures
        r@ == failure_text(s, code as nat, output@),
{
    let mut r = String::from_str(label_of(s));
    r.append(" terminated with exit code ");
    r.append(decimal_string(code).as_str());
    r.append(":\n");
    r.append(output);
    r
}

/// What a finished stage decides: a nonzero exit code ends the pairing with
/// a failure report; a zero exit code moves on to the next stage, except
/// after the inspection, whose output is classified.
pub open spec fn stage_verdict(s: Stage, code: nat, output: Seq<char>, r: Option<TestResult>) -> bool {
    if code != 0 {
        r matches Some(TestResult::Failed { output: o }) && o@ == failure_text(s, code, output)
    } else if s == Stage::Inspect {
        r matches Some(t) && classified(output, t)
    } else {
        r is None
    }
}

/// Judges a finished stage by its exit code and its output.
pub fn after_stage(s: Stage, exit_code: u64, output: &str) -> (r: Option<TestResult>)
    ensures
        stage_verdict(s, exit_code as nat, output@, r),
{
    if exit_code != 0 {
        Some(TestResult::Failed { output: failure_report(s, exit_code, output) })
    } else {
        match s {
            Stage::Inspect => Some(classify(output)),
            _ => None,
        }
    }
}

} // verus!
