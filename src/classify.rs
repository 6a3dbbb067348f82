//! Turns the output of the dynamic-dependency inspection into a verdict.
use vstd::prelude::*;
use crate::text::{contains, has_substring, lines_of, split_lines, views};

verus! {

/// The outcome of building one test case in one environment.
#[derive(Clone, Debug, PartialEq, Eq)]
pub enum TestResult {
    /// The build succeeded and the binary needs no shared library.
    StaticBinary,
    /// The build succeeded, but the binary loads these shared libraries.
    NonStaticBinary { deps: Vec<String> },
    /// A stage of the build pipeline failed; its excerpt.
    Failed { output: String },
}

/// The inspection output says that the binary has no dynamic dependencies.
pub open spec fn has_static_phrase(s: Seq<char>) -> bool {
    has_substring(s, "not a dynamic executable"@) || has_substring(s, "statically linked"@)
}

/// `t` is the verdict for inspection output `s`.
pub open spec fn classified(s: Seq<char>, t: TestResult) -> bool {
    if has_static_phrase(s) {
        t is StaticBinary
    } else {
        t matches TestResult::NonStaticBinary { deps } && views(deps@) == lines_of(s)
    }
}

/// Classifies the output of the inspection utility: a binary is static when
/// the output says so; otherwise every line of the output is a dependency.
pub fn classify(output: &str) -> (r: TestResult)
    ensures
        classified(output@, r),
{
    if contains(output, "not a dynamic executable") || contains(output, "statically linked") {
        TestResult::StaticBinary
    } else {
        TestResult::NonStaticBinary { deps: split_lines(output) }
    }
}

/// Outputs that report no dynamic dependencies classify as static; every
/// other output classifies as non-static, with one dependency per line of
/// the output, in order.
pub proof fn lemma_classification(s: Seq<char>, t: TestResult)
    requires
        classified(s, t),
    ensures
        has_static_phrase(s) <==> t is StaticBinary,
        !has_static_phrase(s) ==> (t matches TestResult::NonStaticBinary { deps } && deps@.len()
            == lines_of(s).len() && forall|i: int|
            0 <= i < deps@.len() ==> #[trigger] deps@[i]@ == lines_of(s)[i]),
{
    if !has_static_phrase(s) {
        if let TestResult::NonStaticBinary { deps } = t {
            assert forall|i: int| 0 <= i < deps@.len() implies #[trigger] deps@[i]@ == lines_of(
                s,
            )[i] by {
                assert(views(deps@)[i] == deps@[i]@);
            }
        }
    }
}

} // verus!
