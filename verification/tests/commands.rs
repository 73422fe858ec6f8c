use jav::cli::{BuildArgs, Configuration, RunArgs};
use jav::commands::run::{self, RunDefaults};
use jav::commands::building;
use jav::commands::clean::{self, CleanAction};
use jav::commands::doctor::{self, DoctorLine};
use jav::commands::CommandError;
use jav::project::sources::java_sources;
use jav::project::ProjectKind;

fn strings(v: &[&str]) -> Vec<String> {
    v.iter().map(|s| s.to_string()).collect()
}

#[test]
fn configurations_have_names() {
    assert_eq!(Configuration::Debug.as_str(), "debug");
    assert_eq!(Configuration::Release.as_str(), "release");
}

#[test]
fn maven_builds_with_profiles() {
    let args = BuildArgs { configuration: Configuration::Release, no_tests: true };
    let plan = building::run(&args, ProjectKind::Maven, Vec::new()).unwrap();
    assert!(!plan.create_output_dir);
    assert_eq!(plan.invocation.program, "mvn");
    assert_eq!(plan.invocation.args, strings(&["package", "-Prelease", "-DskipTests"]));
    let args = BuildArgs { configuration: Configuration::Debug, no_tests: false };
    let plan = building::run(&args, ProjectKind::Maven, Vec::new()).unwrap();
    assert_eq!(plan.invocation.args, strings(&["package", "-Pdebug"]));
}

#[test]
fn gradle_builds_with_the_configuration_property() {
    let args = BuildArgs { configuration: Configuration::Debug, no_tests: true };
    let plan = building::run(&args, ProjectKind::Gradle, Vec::new()).unwrap();
    assert_eq!(plan.invocation.program, "gradle");
    assert_eq!(
        plan.invocation.args,
        strings(&["build", "-Pjav.configuration=debug", "-x", "test"])
    );
}

#[test]
fn simple_builds_compile_the_sorted_sources() {
    let args = BuildArgs { configuration: Configuration::Release, no_tests: false };
    let files = strings(&[
        "src/main/java/b/B.java",
        "src/main/java/notes.txt",
        "src/main/java/a-b/C.java",
        "src/main/java/a/A.java",
    ]);
    let plan = building::run(&args, ProjectKind::Simple, files).unwrap();
    assert!(plan.create_output_dir);
    assert_eq!(plan.invocation.program, "javac");
    assert_eq!(
        plan.invocation.args,
        strings(&[
            "-g:none",
            "-d",
            "out",
            "src/main/java/a/A.java",
            "src/main/java/a-b/C.java",
            "src/main/java/b/B.java",
        ])
    );
}

#[test]
fn simple_builds_need_sources() {
    let args = BuildArgs { configuration: Configuration::Debug, no_tests: false };
    let error = building::run(&args, ProjectKind::Simple, strings(&["src/main/java/.java"]))
        .unwrap_err();
    assert_eq!(error, CommandError::NoJavaSources);
    assert_eq!(error.message(), "no Java source files found under src/main/java");
}

#[test]
fn java_sources_keep_java_files_in_path_order() {
    let files = strings(&["z/Z.java", "a/.java", "a.java", "a/b.JAVA", "a/x/Y.java", "a/X.java"]);
    assert_eq!(java_sources(files), strings(&["a/X.java", "a/x/Y.java", "a.java", "z/Z.java"]));
    let twice = strings(&["B.java", "A.java", "B.java"]);
    assert_eq!(java_sources(twice), strings(&["A.java", "B.java", "B.java"]));
}

#[test]
fn test_and_run_use_the_build_tool() {
    let t = jav::commands::test::run(ProjectKind::Maven).unwrap();
    assert_eq!((t.program.as_str(), t.args.clone()), ("mvn", strings(&["test"])));
    let t = jav::commands::test::run(ProjectKind::Gradle).unwrap();
    assert_eq!((t.program.as_str(), t.args.clone()), ("gradle", strings(&["test"])));
    let e = jav::commands::test::run(ProjectKind::Simple).unwrap_err();
    assert_eq!(
        e.message(),
        "simple Java projects do not have test support yet; use Maven or Gradle"
    );
}

fn run_args(configuration: Configuration, no_build: bool, args: &[&str]) -> RunArgs {
    RunArgs { configuration, no_build, main_class: None, args: strings(args) }
}

fn no_defaults() -> RunDefaults {
    RunDefaults { main_class: None, maven_goal: None, gradle_task: None }
}

#[test]
fn run_builds_first_when_sources_are_newer() {
    let args = run_args(Configuration::Debug, false, &[]);
    let p = run::run(&args, ProjectKind::Maven, &no_defaults(), true).unwrap();
    let b = p.build.unwrap();
    assert_eq!((b.program.as_str(), b.args), ("mvn", strings(&["package", "-Pdebug", "-DskipTests"])));
    assert_eq!(
        (p.invocation.program.as_str(), p.invocation.args),
        ("mvn", strings(&["exec:java", "-Pdebug"]))
    );
    let p = run::run(&args, ProjectKind::Gradle, &no_defaults(), true).unwrap();
    let b = p.build.unwrap();
    assert_eq!(
        (b.program.as_str(), b.args),
        ("gradle", strings(&["build", "-Pjav.configuration=debug", "-x", "test"]))
    );
    assert!(run::run(&args, ProjectKind::Gradle, &no_defaults(), false).unwrap().build.is_none());
}

#[test]
fn run_skips_the_build_with_no_build() {
    let args = run_args(Configuration::Release, true, &[]);
    let p = run::run(&args, ProjectKind::Maven, &no_defaults(), true).unwrap();
    assert!(p.build.is_none());
    assert_eq!(p.invocation.args, strings(&["exec:java", "-Prelease"]));
}

#[test]
fn run_passes_the_application_arguments() {
    let args = run_args(Configuration::Debug, true, &["hello", "world"]);
    let p = run::run(&args, ProjectKind::Gradle, &no_defaults(), false).unwrap();
    assert_eq!(
        (p.invocation.program.as_str(), p.invocation.args),
        ("gradle", strings(&["run", "-Pjav.configuration=debug", "--args=hello world"]))
    );
    let defaults = RunDefaults {
        main_class: Some("dev.example.demo.Main".to_string()),
        maven_goal: Some("exec:java".to_string()),
        gradle_task: None,
    };
    let p = run::run(&args, ProjectKind::Maven, &defaults, false).unwrap();
    assert_eq!(
        p.invocation.args,
        strings(&[
            "exec:java",
            "-Pdebug",
            "-Dexec.mainClass=dev.example.demo.Main",
            "-Dexec.args=hello world"
        ])
    );
    let spring = RunDefaults {
        main_class: Some("dev.example.demo.Application".to_string()),
        maven_goal: Some("spring-boot:run".to_string()),
        gradle_task: Some("bootRun".to_string()),
    };
    let p = run::run(&args, ProjectKind::Maven, &spring, false).unwrap();
    assert_eq!(
        p.invocation.args,
        strings(&["spring-boot:run", "-Pdebug", "-Dspring-boot.run.arguments=hello world"])
    );
    let p = run::run(&args, ProjectKind::Gradle, &spring, false).unwrap();
    assert_eq!(p.invocation.args[0], "bootRun");
    assert_eq!(
        run::run(&args, ProjectKind::Simple, &spring, true).unwrap_err(),
        CommandError::SimpleRunUnsupported
    );
}

#[test]
fn clean_uses_the_build_tool_or_removes_out() {
    match clean::run(ProjectKind::Maven) {
        CleanAction::Invoke(i) => assert_eq!((i.program, i.args), ("mvn".to_string(), strings(&["clean"]))),
        other => panic!("unexpected {:?}", other),
    }
    match clean::run(ProjectKind::Gradle) {
        CleanAction::Invoke(i) => assert_eq!(i.program, "gradle"),
        other => panic!("unexpected {:?}", other),
    }
    assert!(matches!(clean::run(ProjectKind::Simple), CleanAction::RemoveOutputDir));
}

#[test]
fn java_sources_do_not_depend_on_listing_order() {
    let a = strings(&["src/b/B.java", "src/a/A.java", "README.md", "src/a-b/C.java"]);
    let b = strings(&["src/a-b/C.java", "README.md", "src/a/A.java", "src/b/B.java"]);
    assert_eq!(java_sources(a), java_sources(b));
}

struct FixedRunner {
    installed: Vec<&'static str>,
}

impl jav::process::CommandRunner for FixedRunner {
    fn run(&self, _program: &str, _args: &[&str]) -> Result<(), String> {
        Ok(())
    }

    fn program_exists(&self, program: &str) -> bool {
        self.installed.contains(&program)
    }
}

fn line_text(line: &DoctorLine) -> String {
    match line {
        DoctorLine::Status(label, value) => format!("status {label} {value}"),
        DoctorLine::Warning(message) => format!("warning {message}"),
    }
}

#[test]
fn doctor_reports_tools_java_home_and_project() {
    let lines = doctor::report(&[true, true, false, true], Some("/opt/jdk"), Some(ProjectKind::Gradle));
    let text: Vec<String> = lines.iter().map(line_text).collect();
    assert_eq!(
        text,
        vec![
            "status jav 0.1.0",
            "status java found",
            "status javac found",
            "warning mvn was not found on PATH",
            "status gradle found",
            "status JAVA_HOME /opt/jdk",
            "status project Gradle",
        ]
    );
}

#[test]
fn doctor_warns_without_java_home_or_project() {
    let runner = FixedRunner { installed: vec!["java"] };
    let lines = doctor::run(&runner, None, None);
    let text: Vec<String> = lines.iter().map(line_text).collect();
    assert_eq!(
        text,
        vec![
            "status jav 0.1.0",
            "status java found",
            "warning javac was not found on PATH",
            "warning mvn was not found on PATH",
            "warning gradle was not found on PATH",
            "warning JAVA_HOME is not set",
            "warning no Java project detected in the current directory",
        ]
    );
    assert_eq!(doctor::tools(), vec!["java", "javac", "mvn", "gradle"]);
}
