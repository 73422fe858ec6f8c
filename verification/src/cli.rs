//! The command line of `jav`, as plain values.
//!
//! The parser itself lives outside the verified library; it fills these
//! types, which the verified commands take.
use vstd::prelude::*;

verus! {

/// A parsed `jav` invocation.
#[derive(Debug, Clone)]
pub struct Cli {
    pub command: Commands,
}

/// The subcommands of `jav`.
#[derive(Debug, Clone)]
pub enum Commands {
    /// Inspect the Java tooling available on this machine.
    Doctor,
    /// Upgrade jav from the latest GitHub release.
    Upgrade(UpgradeArgs),
    /// Create a new Java project from a template.
    New(NewArgs),
    /// Build the current Java project.
    Build(BuildArgs),
    /// Test the current Java project.
    Test,
    /// Run the current Java project.
    Run(RunArgs),
    /// Clean build outputs for the current Java project.
    Clean,
}

/// Arguments of `jav upgrade`.
#[derive(Debug, Clone)]
pub struct UpgradeArgs {
    /// Print release metadata without downloading anything.
    pub check: bool,
    /// Override the runtime identifier to upgrade.
    pub rid: Option<String>,
}

/// A build configuration.
#[derive(Debug, Clone, Copy, PartialEq, Eq, Structural)]
pub enum Configuration {
    Debug,
    Release,
}

/// The name of a configuration on the command line.
pub open spec fn spec_configuration_str(c: Configuration) -> Seq<char> {
    match c {
        Configuration::Debug => "debug"@,
        Configuration::Release => "release"@,
    }
}

impl Configuration {
    /// The name of the configuration: `debug` or `release`.
    pub fn as_str(self) -> (r: &'static str)
        ensures
            r@ == spec_configuration_str(self),
    {
        match self {
            Configuration::Debug => "debug",
            Configuration::Release => "release",
        }
    }
}

/// Arguments of `jav build`.
#[derive(Debug, Clone)]
pub struct BuildArgs {
    /// Build configuration.
    pub configuration: Configuration,
    /// Skip running tests during the build when supported.
    pub no_tests: bool,
}

/// Arguments of `jav run`.
#[derive(Debug, Clone)]
pub struct RunArgs {
    /// Build configuration used before running.
    pub configuration: Configuration,
    /// Run without checking whether the project needs to be rebuilt.
    pub no_build: bool,
    /// Main class for simple Java projects.
    pub main_class: Option<String>,
    /// Arguments passed to the application.
    pub args: Vec<String>,
}

/// Arguments of `jav new`.
#[derive(Debug, Clone)]
pub struct NewArgs {
    /// Template to create, such as console or library; `list` shows the
    /// installed templates.
    pub template: Option<String>,
    /// Show detailed template information when listing or describing.
    pub verbose: bool,
    /// Describe a template without creating a project.
    pub describe: bool,
    /// Project name.
    pub name: Option<String>,
    /// Java package name.
    pub package: Option<String>,
    /// Output directory; defaults to the project name.
    pub output: Option<String>,
    /// Build tool to generate: maven or gradle; defaults depend on the template.
    pub build_tool: Option<String>,
    /// Do not generate a Nix flake for the project.
    pub no_flake: bool,
    /// Java language version.
    pub java_version: String,
    /// Spring Boot dependency features.
    pub features: Vec<String>,
    /// Spring Boot version.
    pub spring_boot_version: String,
}

} // verus!
