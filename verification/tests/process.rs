use jav::process::CommandRunner;
use std::cell::RefCell;

#[derive(Default)]
struct RecordingRunner {
    commands: RefCell<Vec<(String, Vec<String>)>>,
    available: Vec<String>,
}

impl CommandRunner for RecordingRunner {
    fn run(&self, program: &str, args: &[&str]) -> Result<(), String> {
        self.commands.borrow_mut().push((
            program.to_string(),
            args.iter().map(|arg| arg.to_string()).collect(),
        ));
        Ok(())
    }

    fn program_exists(&self, program: &str) -> bool {
        self.available.iter().any(|available| available == program)
    }
}

#[test]
fn recording_runner_records_commands_without_running_them() {
    let runner = RecordingRunner::default();

    runner.run("mvn", &["test"]).unwrap();

    assert_eq!(
        runner.commands.borrow().as_slice(),
        &[("mvn".to_string(), vec!["test".to_string()])]
    );
}

#[test]
fn run_owned_passes_the_arguments_through() {
    let runner = RecordingRunner { available: vec!["javac".to_string()], ..Default::default() };
    runner
        .run_owned("javac", &["-g".to_string(), "-d".to_string(), "out".to_string()])
        .unwrap();
    assert_eq!(
        runner.commands.borrow().as_slice(),
        &[("javac".to_string(), vec!["-g".to_string(), "-d".to_string(), "out".to_string()])]
    );
    assert!(runner.program_exists("javac"));
    assert!(!runner.program_exists("mvn"));
}
