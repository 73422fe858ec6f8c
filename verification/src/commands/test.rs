//! `jav test`.
use crate::commands::{invocation, CommandError, Invocation};
use crate::project::ProjectKind;
use vstd::prelude::*;

verus! {

/// What testing a project of the given kind runs.
pub open spec fn spec_test(kind: ProjectKind) -> Result<(Seq<char>, Seq<Seq<char>>), CommandError> {
    match kind {
        ProjectKind::Maven => Ok(("mvn"@, seq!["test"@])),
        ProjectKind::Gradle => Ok(("gradle"@, seq!["test"@])),
        ProjectKind::Simple => Err(CommandError::SimpleTestUnsupported),
    }
}

/// Decides how to test a project of the given kind: `mvn test` or
/// `gradle test`; simple projects have no test support.
pub fn run(kind: ProjectKind) -> (r: Result<Invocation, CommandError>)
    ensures
        match r {
            Ok(i) => spec_test(kind) == Ok::<(Seq<char>, Seq<Seq<char>>), CommandError>(i@),
            Err(e) => spec_test(kind) == Err::<(Seq<char>, Seq<Seq<char>>), CommandError>(e),
        },
{
    match kind {
        ProjectKind::Maven => {
            let i = invocation("mvn", &["test"]);
            assert(i@.1 =~= seq!["test"@]);
            Ok(i)
        },
        ProjectKind::Gradle => {
            let i = invocation("gradle", &["test"]);
            assert(i@.1 =~= seq!["test"@]);
            Ok(i)
        },
        ProjectKind::Simple => Err(CommandError::SimpleTestUnsupported),
    }
}

} // verus!
