//! The decisions behind the `jav` subcommands.
//!
//! Each command decides, from the project kind and its arguments, which
//! program to run with which arguments; running it is left to the caller.
pub mod building;
pub mod clean;
pub mod doctor;
pub mod new;
pub mod run;
pub mod test;
pub mod upgrade;

use crate::text::{str_views, strings_of, views};
use vstd::prelude::*;

verus! {

/// A program to run and its arguments.
#[derive(Debug, Clone)]
pub struct Invocation {
    pub program: String,
    pub args: Vec<String>,
}

impl View for Invocation {
    type V = (Seq<char>, Seq<Seq<char>>);

    open spec fn view(&self) -> (Seq<char>, Seq<Seq<char>>) {
        (self.program@, views(self.args@))
    }
}

/// An invocation from string slices.
pub fn invocation(program: &str, args: &[&str]) -> (r: Invocation)
    ensures
        r@ == (program@, str_views(args@)),
{
    Invocation { program: program.to_owned(), args: strings_of(args) }
}

/// Why a command cannot go ahead.
#[derive(Debug, Clone, Copy, PartialEq, Eq, Structural)]
pub enum CommandError {
    /// A simple project has no Java sources to compile.
    NoJavaSources,
    /// Simple projects cannot be tested.
    SimpleTestUnsupported,
    /// Simple projects cannot be run.
    SimpleRunUnsupported,
}

/// The message shown for a command error.
pub open spec fn spec_command_message(e: CommandError) -> Seq<char> {
    match e {
        CommandError::NoJavaSources => "no Java source files found under src/main/java"@,
        CommandError::SimpleTestUnsupported =>
            "simple Java projects do not have test support yet; use Maven or Gradle"@,
        CommandError::SimpleRunUnsupported =>
            "simple Java projects do not have run support yet; use Maven or Gradle"@,
    }
}

impl CommandError {
    /// The message shown for the error.
    pub fn message(&self) -> (r: String)
        ensures
            r@ == spec_command_message(*self),
    {
        match self {
            CommandError::NoJavaSources => "no Java source files found under src/main/java".to_owned(),
            CommandError::SimpleTestUnsupported =>
                "simple Java projects do not have test support yet; use Maven or Gradle".to_owned(),
            CommandError::SimpleRunUnsupported =>
                "simple Java projects do not have run support yet; use Maven or Gradle".to_owned(),
        }
    }
}

} // verus!
