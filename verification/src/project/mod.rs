//! Kinds of Java projects and how they are recognised.
pub mod detect;
pub mod sources;

use vstd::prelude::*;

verus! {

/// The build system of a Java project.
#[derive(Debug, Clone, Copy, PartialEq, Eq, Structural)]
pub enum ProjectKind {
    Maven,
    Gradle,
    Simple,
}

/// The display name of a project kind.
pub open spec fn spec_kind_name(kind: ProjectKind) -> Seq<char> {
    match kind {
        ProjectKind::Maven => "Maven"@,
        ProjectKind::Gradle => "Gradle"@,
        ProjectKind::Simple => "simple Java"@,
    }
}

impl ProjectKind {
    /// The display name of the project kind.
    pub fn name(self) -> (r: &'static str)
        ensures
            r@ == spec_kind_name(self),
    {
        match self {
            ProjectKind::Maven => "Maven",
            ProjectKind::Gradle => "Gradle",
            ProjectKind::Simple => "simple Java",
        }
    }
}

} // verus!
