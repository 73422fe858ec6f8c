use jav::project::detect::{detect, DetectError, ProjectFiles};
use jav::project::ProjectKind;

fn none() -> ProjectFiles {
    ProjectFiles {
        pom_xml: false,
        build_gradle_kts: false,
        build_gradle: false,
        settings_gradle_kts: false,
        settings_gradle: false,
        src_main_java: false,
    }
}

#[test]
fn detects_maven_project() {
    let files = ProjectFiles { pom_xml: true, ..none() };
    assert_eq!(detect(&files).unwrap(), ProjectKind::Maven);
}

#[test]
fn detects_gradle_project() {
    let files = ProjectFiles { build_gradle_kts: true, ..none() };
    assert_eq!(detect(&files).unwrap(), ProjectKind::Gradle);
}

#[test]
fn detects_simple_project() {
    let files = ProjectFiles { src_main_java: true, ..none() };
    assert_eq!(detect(&files).unwrap(), ProjectKind::Simple);
}

#[test]
fn maven_wins_and_empty_directories_are_refused() {
    let all = ProjectFiles {
        pom_xml: true,
        build_gradle_kts: true,
        build_gradle: true,
        settings_gradle_kts: true,
        settings_gradle: true,
        src_main_java: true,
    };
    assert_eq!(detect(&all).unwrap(), ProjectKind::Maven);
    let gradle = ProjectFiles { settings_gradle: true, src_main_java: true, ..none() };
    assert_eq!(detect(&gradle).unwrap(), ProjectKind::Gradle);
    let error = detect(&none()).unwrap_err();
    assert_eq!(error, DetectError::NotAJavaProject);
    assert_eq!(
        error.message(),
        "not in a Java project; expected pom.xml, build.gradle, or src/main/java"
    );
}

#[test]
fn project_kinds_have_names() {
    assert_eq!(ProjectKind::Maven.name(), "Maven");
    assert_eq!(ProjectKind::Gradle.name(), "Gradle");
    assert_eq!(ProjectKind::Simple.name(), "simple Java");
}
