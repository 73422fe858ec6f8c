//! `jav clean`.
use crate::commands::{invocation, Invocation};
use crate::project::ProjectKind;
use vstd::prelude::*;

verus! {

/// What cleaning a project does.
#[derive(Debug, Clone)]
pub enum CleanAction {
    /// Run the build tool.
    Invoke(Invocation),
    /// Remove the `out` directory of a simple project, if it exists.
    RemoveOutputDir,
}

/// Decides how to clean a project of the given kind: `mvn clean`,
/// `gradle clean`, or removing `out` for a simple project.
pub fn run(kind: ProjectKind) -> (r: CleanAction)
    ensures
        match kind {
            ProjectKind::Maven => (r matches CleanAction::Invoke(i) && i@ == ("mvn"@, seq!["clean"@])),
            ProjectKind::Gradle => (r matches CleanAction::Invoke(i) && i@ == (
                "gradle"@,
                seq!["clean"@],
            )),
            ProjectKind::Simple => r matches CleanAction::RemoveOutputDir,
        },
{
    match kind {
        ProjectKind::Maven => {
            let i = invocation("mvn", &["clean"]);
            assert(i@.1 =~= seq!["clean"@]);
            CleanAction::Invoke(i)
        },
        ProjectKind::Gradle => {
            let i = invocation("gradle", &["clean"]);
            assert(i@.1 =~= seq!["clean"@]);
            CleanAction::Invoke(i)
        },
        ProjectKind::Simple => CleanAction::RemoveOutputDir,
    }
}

} // verus!
