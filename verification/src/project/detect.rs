//! Recognising the kind of a Java project from the files it holds.
use crate::project::ProjectKind;
use vstd::prelude::*;

verus! {

/// Which of the marker files and directories exist in a project directory.
#[derive(Debug, Clone, Copy, PartialEq, Eq, Structural)]
pub struct ProjectFiles {
    /// `pom.xml` is a file.
    pub pom_xml: bool,
    /// `build.gradle.kts` is a file.
    pub build_gradle_kts: bool,
    /// `build.gradle` is a file.
    pub build_gradle: bool,
    /// `settings.gradle.kts` is a file.
    pub settings_gradle_kts: bool,
    /// `settings.gradle` is a file.
    pub settings_gradle: bool,
    /// `src/main/java` is a directory.
    pub src_main_java: bool,
}

/// The directory is not a Java project.
#[derive(Debug, Clone, Copy, PartialEq, Eq, Structural)]
pub enum DetectError {
    NotAJavaProject,
}

impl DetectError {
    /// The message shown for the error.
    pub fn message(&self) -> (r: String)
        ensures
            r@ == "not in a Java project; expected pom.xml, build.gradle, or src/main/java"@,
    {
        "not in a Java project; expected pom.xml, build.gradle, or src/main/java".to_owned()
    }
}

/// The kind of project a directory holds: Maven wins over Gradle, which wins
/// over a plain `src/main/java` tree.
pub open spec fn spec_detect(files: ProjectFiles) -> Result<ProjectKind, DetectError> {
    if files.pom_xml {
        Ok(ProjectKind::Maven)
    } else if files.build_gradle_kts || files.build_gradle || files.settings_gradle_kts
        || files.settings_gradle {
        Ok(ProjectKind::Gradle)
    } else if files.src_main_java {
        Ok(ProjectKind::Simple)
    } else {
        Err(DetectError::NotAJavaProject)
    }
}

/// A directory with `pom.xml` is a Maven project; without it, any one of
/// `build.gradle.kts`, `build.gradle`, `settings.gradle.kts` and
/// `settings.gradle` makes it a Gradle project; a directory with none of
/// them is a simple project exactly when it has `src/main/java`, and
/// otherwise no Java project at all.
pub proof fn lemma_detect_by_markers(files: ProjectFiles)
    ensures
        files.pom_xml ==> spec_detect(files) == Ok::<ProjectKind, DetectError>(ProjectKind::Maven),
        !files.pom_xml && files.build_gradle_kts ==> spec_detect(files) == Ok::<
            ProjectKind,
            DetectError,
        >(ProjectKind::Gradle),
        !files.pom_xml && files.build_gradle ==> spec_detect(files) == Ok::<
            ProjectKind,
            DetectError,
        >(ProjectKind::Gradle),
        !files.pom_xml && files.settings_gradle_kts ==> spec_detect(files) == Ok::<
            ProjectKind,
            DetectError,
        >(ProjectKind::Gradle),
        !files.pom_xml && files.settings_gradle ==> spec_detect(files) == Ok::<
            ProjectKind,
            DetectError,
        >(ProjectKind::Gradle),
        spec_detect(files) == Ok::<ProjectKind, DetectError>(ProjectKind::Simple) <==> (
        files.src_main_java && !files.pom_xml && !files.build_gradle_kts && !files.build_gradle
            && !files.settings_gradle_kts && !files.settings_gradle),
        spec_detect(files) is Err <==> (!files.src_main_java && !files.pom_xml
            && !files.build_gradle_kts && !files.build_gradle && !files.settings_gradle_kts
            && !files.settings_gradle),
{
}

/// Detects the kind of project from the marker files present.
pub fn detect(files: &ProjectFiles) -> (r: Result<ProjectKind, DetectError>)
    ensures
        r == spec_detect(*files),
        files.pom_xml ==> r == Ok::<ProjectKind, DetectError>(ProjectKind::Maven),
        !files.pom_xml && files.build_gradle_kts ==> r == Ok::<ProjectKind, DetectError>(
            ProjectKind::Gradle,
        ),
        !files.pom_xml && files.build_gradle ==> r == Ok::<ProjectKind, DetectError>(
            ProjectKind::Gradle,
        ),
        !files.pom_xml && files.settings_gradle_kts ==> r == Ok::<ProjectKind, DetectError>(
            ProjectKind::Gradle,
        ),
        !files.pom_xml && files.settings_gradle ==> r == Ok::<ProjectKind, DetectError>(
            ProjectKind::Gradle,
        ),
        r == Ok::<ProjectKind, DetectError>(ProjectKind::Simple) <==> (files.src_main_java
            && !files.pom_xml && !files.build_gradle_kts && !files.build_gradle
            && !files.settings_gradle_kts && !files.settings_gradle),
        r is Err <==> (!files.src_main_java && !files.pom_xml && !files.build_gradle_kts
            && !files.build_gradle && !files.settings_gradle_kts && !files.settings_gradle),
{
    if files.pom_xml {
        return Ok(ProjectKind::Maven);
    }
    if files.build_gradle_kts || files.build_gradle || files.settings_gradle_kts
        || files.settings_gradle {
        return Ok(ProjectKind::Gradle);
    }
    if files.src_main_java {
        return Ok(ProjectKind::Simple);
    }
    Err(DetectError::NotAJavaProject)
}

} // verus!
