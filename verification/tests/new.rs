use jav::cli::NewArgs;
use jav::commands::new::{
    default_package, describe_lines, list_lines, run, validate_package_name,
    validate_project_name, mode, NameError, NewError, NewMode,
};
use jav::templates::render::RenderError;

fn args() -> NewArgs {
    NewArgs {
        template: None,
        verbose: false,
        describe: false,
        name: None,
        package: None,
        output: None,
        build_tool: None,
        no_flake: false,
        java_version: "21".to_string(),
        features: Vec::new(),
        spring_boot_version: "3.5.0".to_string(),
    }
}

fn paths(project: &jav::commands::new::NewProject) -> Vec<String> {
    project.files.iter().map(|f| f.path.clone()).collect()
}

#[test]
fn validates_package_names() {
    assert!(validate_package_name("dev.example.demo").is_ok());
    assert!(validate_package_name("dev..demo").is_err());
    assert!(validate_package_name("dev.1demo").is_err());
}

#[test]
fn package_errors_name_the_segment() {
    match validate_package_name("dev.1demo") {
        Err(NameError::PackageSegmentStart(s)) => assert_eq!(s, "1demo"),
        other => panic!("unexpected {:?}", other),
    }
    match validate_package_name("dev.de-mo") {
        Err(e @ NameError::PackageSegmentChars(_)) => {
            assert_eq!(e.message(), "package segment 'de-mo' contains invalid characters")
        }
        other => panic!("unexpected {:?}", other),
    }
    assert!(matches!(validate_package_name(""), Err(NameError::EmptyPackageSegment)));
    assert!(matches!(validate_package_name("dev."), Err(NameError::EmptyPackageSegment)));
    assert!(validate_package_name("_dev.a_1").is_ok());
    assert_eq!(
        validate_package_name("9a.b-c").unwrap_err().message(),
        "package segment '9a' must start with a letter or underscore"
    );
}

#[test]
fn validates_project_names() {
    assert!(validate_project_name("Demo").is_ok());
    assert!(matches!(validate_project_name("  \t"), Err(NameError::EmptyProjectName)));
    assert!(matches!(validate_project_name(""), Err(NameError::EmptyProjectName)));
    assert!(matches!(validate_project_name("a/b"), Err(NameError::ProjectNameHasSeparator)));
    assert!(matches!(validate_project_name("a\\b"), Err(NameError::ProjectNameHasSeparator)));
    assert_eq!(
        validate_project_name("\u{3000}").unwrap_err().message(),
        "project name cannot be empty"
    );
}

#[test]
fn proposes_default_packages() {
    assert_eq!(default_package("Demo"), "com.example.demo");
    assert_eq!(default_package("My Cool-App"), "com.example.my.cool.app");
    assert_eq!(default_package("..A__b.."), "com.example.a.b");
    assert_eq!(default_package(""), "com.example.");
    assert_eq!(default_package("Été2"), "com.example.t.2");
}

#[test]
fn default_package_passes_the_check_when_runs_start_with_letters() {
    for name in ["Demo", "My App", "x1 y2", "Hello-World"] {
        assert!(validate_package_name(&default_package(name)).is_ok(), "{name}");
    }
    for name in ["", "---", "2fast", "my 2app"] {
        assert!(validate_package_name(&default_package(name)).is_err(), "{name}");
    }
}

#[test]
fn new_console_creates_maven_project() {
    let project = run(&args(), "console", "Demo", "dev.example.demo", false).unwrap();
    assert_eq!(project.destination, "Demo");
    let paths = paths(&project);
    assert!(paths.contains(&"pom.xml".to_string()));
    assert!(paths.contains(&"src/main/java/dev/example/demo/Main.java".to_string()));
    assert!(paths.contains(&"src/test/java/dev/example/demo/MainTest.java".to_string()));
    assert!(paths.contains(&"flake.nix".to_string()));
    let main = project
        .files
        .iter()
        .find(|f| f.path == "src/main/java/dev/example/demo/Main.java")
        .unwrap();
    assert!(main.content.starts_with("package dev.example.demo;"));
}

#[test]
fn new_library_rejects_invalid_package() {
    let error = run(&args(), "library", "Bad", "dev.1bad", false).unwrap_err();
    assert!(error.message().contains("package segment"));
    assert!(matches!(error, NewError::Name(NameError::PackageSegmentStart(_))));
}

#[test]
fn new_honours_output_build_tool_and_flake() {
    let mut a = args();
    a.output = Some("out/dir".to_string());
    a.build_tool = Some("gradle".to_string());
    a.no_flake = true;
    let project = run(&a, "classlib", "Core", "dev.core", false).unwrap();
    assert_eq!(project.destination, "out/dir");
    let paths = paths(&project);
    assert_eq!(
        paths,
        vec![
            ".gitignore",
            "README.md",
            "settings.gradle.kts",
            "build.gradle.kts",
            "src/main/java/dev/core/Library.java",
            "src/test/java/dev/core/LibraryTest.java",
        ]
    );
}

#[test]
fn new_rejects_unknown_build_tools_and_templates() {
    let mut a = args();
    a.build_tool = Some("ant".to_string());
    let error = run(&a, "console", "Demo", "dev.demo", false).unwrap_err();
    assert_eq!(error.message(), "unsupported build tool 'ant'; expected maven or gradle");
    let error = run(&args(), "nope", "Demo", "dev.demo", false).unwrap_err();
    match error {
        NewError::Render { template, error: RenderError::UnknownTemplate(t) } => {
            assert_eq!(template, "nope");
            assert_eq!(t, "nope");
        }
        other => panic!("unexpected {:?}", other),
    }
}

#[test]
fn new_refuses_an_existing_destination() {
    let error = run(&args(), "console", "Demo", "dev.demo", true).unwrap_err();
    match error {
        NewError::Render { error: RenderError::DestinationExists(d), .. } => assert_eq!(d, "Demo"),
        other => panic!("unexpected {:?}", other),
    }
}

#[test]
fn new_springweb_uses_default_features() {
    let project = run(&args(), "webapi", "Api", "dev.api", false).unwrap();
    let paths = paths(&project);
    assert!(paths.contains(&"src/main/java/dev/api/HelloController.java".to_string()));
    assert!(paths.contains(&"build.gradle.kts".to_string()));
    let build = project.files.iter().find(|f| f.path == "build.gradle.kts").unwrap();
    assert!(build.content.contains("implementation(\"org.springframework.boot:spring-boot-starter-web\")"));
    assert!(build.content.contains("spring-boot-starter-actuator"));
    assert!(build.content.contains("version \"3.5.0\""));
}

#[test]
fn lists_and_describes_templates() {
    let lines = list_lines(false);
    assert_eq!(lines.len(), 10);
    assert_eq!(lines[0], "console - Executable Java app with JUnit tests");
    let verbose = list_lines(true);
    assert_eq!(
        verbose[3],
        "library - Reusable Java library (default build tool: maven; aliases: classlib)"
    );
    let described = describe_lines("webapi", false).unwrap();
    assert_eq!(
        described,
        vec!["Spring Web API (springweb)", "Spring REST API", "default build tool: gradle"]
    );
    assert!(matches!(describe_lines("list", false), Err(NewError::UnknownTemplate(_))));
}

#[test]
fn new_lists_describes_or_creates() {
    let mut a = args();
    assert_eq!(mode("list", &a), NewMode::List);
    assert_eq!(mode("springweb", &a), NewMode::Create);
    a.describe = true;
    assert_eq!(mode("springweb", &a), NewMode::Describe);
    assert_eq!(mode("list", &a), NewMode::List);
}
