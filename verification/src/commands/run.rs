//! `jav run`: build first when the sources are newer than the outputs,
//! then start the application with its arguments.
use crate::cli::{spec_configuration_str, BuildArgs, RunArgs};
use crate::commands::building::{
    self, gradle_build_args, gradle_configuration_flag, maven_build_args, maven_profile_flag,
    spec_profile,
};
use crate::commands::{CommandError, Invocation};
use crate::project::ProjectKind;
use crate::text::{concat2, join_strings, opt_string_view, owned, spec_join, str_eq, views};
use vstd::prelude::*;

verus! {

/// The run defaults a project keeps in the `[run]` table of its `jav.toml`;
/// each is absent when the file or the key is.
#[derive(Debug, Clone)]
pub struct RunDefaults {
    /// The fully qualified main class.
    pub main_class: Option<String>,
    /// The Maven goal that starts the application.
    pub maven_goal: Option<String>,
    /// The Gradle task that starts the application.
    pub gradle_task: Option<String>,
}

/// What `jav run` does: an optional build, then the run itself.
#[derive(Debug, Clone)]
pub struct RunPlan {
    pub build: Option<Invocation>,
    pub invocation: Invocation,
}

/// The Maven goal that starts the application: the project's, else
/// `exec:java`.
pub open spec fn spec_maven_goal(d: RunDefaults) -> Seq<char> {
    match d.maven_goal {
        Some(g) => g@,
        None => "exec:java"@,
    }
}

/// The Gradle task that starts the application: the project's, else `run`.
pub open spec fn spec_gradle_task(d: RunDefaults) -> Seq<char> {
    match d.gradle_task {
        Some(t) => t@,
        None => "run"@,
    }
}

/// The main class: the one given on the command line, else the project's.
pub open spec fn spec_main_class(args: RunArgs, d: RunDefaults) -> Option<Seq<char>> {
    match args.main_class {
        Some(c) => Some(c@),
        None => opt_string_view(d.main_class),
    }
}

/// The application's arguments, separated by spaces.
pub open spec fn joined_args(args: RunArgs) -> Seq<char> {
    spec_join(views(args.args@), " "@)
}

/// The Maven arguments of a run: the goal and the configuration's profile;
/// for `exec:java` the main class when one is known; then the application's
/// arguments, if any, in the property the goal reads them from.
pub open spec fn maven_run_args(args: RunArgs, d: RunDefaults) -> Seq<Seq<char>> {
    let goal = spec_maven_goal(d);
    seq![goal, spec_profile(args.configuration)] + (if goal == "exec:java"@ {
        match spec_main_class(args, d) {
            Some(c) => seq!["-Dexec.mainClass="@ + c],
            None => Seq::empty(),
        }
    } else {
        Seq::empty()
    }) + (if args.args.len() == 0 {
        Seq::empty()
    } else if goal == "spring-boot:run"@ {
        seq!["-Dspring-boot.run.arguments="@ + joined_args(args)]
    } else {
        seq!["-Dexec.args="@ + joined_args(args)]
    })
}

/// The Gradle arguments of a run: the task, the configuration, then the
/// application's arguments, if any.
pub open spec fn gradle_run_args(args: RunArgs, d: RunDefaults) -> Seq<Seq<char>> {
    seq![spec_gradle_task(d), "-Pjav.configuration="@ + spec_configuration_str(args.configuration)]
        + (if args.args.len() == 0 {
        Seq::empty()
    } else {
        seq!["--args="@ + joined_args(args)]
    })
}

/// The build that comes first: the project's build for the run's
/// configuration, without tests.
pub open spec fn run_build_args(args: RunArgs) -> BuildArgs {
    BuildArgs { configuration: args.configuration, no_tests: true }
}

/// What `jav run` does for a project of the given kind, given whether its
/// sources are newer than its outputs (`stale`).
pub open spec fn spec_run(args: RunArgs, kind: ProjectKind, d: RunDefaults, stale: bool) -> Result<
    (Option<(Seq<char>, Seq<Seq<char>>)>, (Seq<char>, Seq<Seq<char>>)),
    CommandError,
> {
    let builds = stale && !args.no_build;
    match kind {
        ProjectKind::Maven => Ok(
            (
                if builds {
                    Some(("mvn"@, maven_build_args(run_build_args(args))))
                } else {
                    None
                },
                ("mvn"@, maven_run_args(args, d)),
            ),
        ),
        ProjectKind::Gradle => Ok(
            (
                if builds {
                    Some(("gradle"@, gradle_build_args(run_build_args(args))))
                } else {
                    None
                },
                ("gradle"@, gradle_run_args(args, d)),
            ),
        ),
        ProjectKind::Simple => Err(CommandError::SimpleRunUnsupported),
    }
}

/// The build that comes before a run, when there is one, is the project's
/// build for the run's own configuration without tests, and it comes
/// exactly when the sources are newer than the outputs and `--no-build` is
/// not given; the run itself uses that same configuration, and Gradle gets
/// the application's arguments last.
pub proof fn lemma_run_builds_with_its_configuration(
    args: RunArgs,
    kind: ProjectKind,
    d: RunDefaults,
    stale: bool,
)
    ensures
        kind == ProjectKind::Simple ==> spec_run(args, kind, d, stale) == Err::<
            (Option<(Seq<char>, Seq<Seq<char>>)>, (Seq<char>, Seq<Seq<char>>)),
            CommandError,
        >(CommandError::SimpleRunUnsupported),
        kind != ProjectKind::Simple ==> (spec_run(args, kind, d, stale) matches Ok((build, run)) && {
            &&& (build is Some <==> stale && !args.no_build)
            &&& kind == ProjectKind::Maven ==> {
                &&& build matches Some(b) ==> b == ("mvn"@, seq![
                    "package"@,
                    maven_profile_flag(args.configuration),
                    "-DskipTests"@,
                ])
                &&& run.0 == "mvn"@
                &&& run.1.len() >= 2
                &&& run.1[1] == maven_profile_flag(args.configuration)
            }
            &&& kind == ProjectKind::Gradle ==> {
                &&& build matches Some(b) ==> b == ("gradle"@, seq![
                    "build"@,
                    gradle_configuration_flag(args.configuration),
                    "-x"@,
                    "test"@,
                ])
                &&& run.0 == "gradle"@
                &&& run.1.len() >= 2
                &&& run.1[1] == gradle_configuration_flag(args.configuration)
                &&& args.args.len() > 0 ==> run.1.last() == "--args="@ + spec_join(
                    views(args.args@),
                    " "@,
                )
            }
        }),
{
    building::lemma_build_skips_tests_only_when_asked(run_build_args(args));
}

/// The view of an optional invocation.
pub open spec fn opt_invocation_view(o: Option<Invocation>) -> Option<(Seq<char>, Seq<Seq<char>>)> {
    match o {
        Some(i) => Some(i@),
        None => None,
    }
}

/// An optional owned string, copied.
fn copy_opt(o: &Option<String>) -> (r: Option<String>)
    ensures
        opt_string_view(r) == opt_string_view(*o),
{
    match o {
        Some(s) => Some(owned(s.as_str())),
        None => None,
    }
}

/// The Maven arguments of a run.
fn maven_args(args: &RunArgs, d: &RunDefaults) -> (r: Vec<String>)
    ensures
        views(r@) == maven_run_args(*args, *d),
{
    let goal = match &d.maven_goal {
        Some(g) => owned(g.as_str()),
        None => owned("exec:java"),
    };
    let exec = str_eq(goal.as_str(), "exec:java");
    let boot = str_eq(goal.as_str(), "spring-boot:run");
    let main = match &args.main_class {
        Some(c) => Some(owned(c.as_str())),
        None => copy_opt(&d.main_class),
    };
    let mut r: Vec<String> = Vec::new();
    r.push(goal);
    r.push(owned(building::profile(args.configuration)));
    let ghost head = views(r@);
    assert(head =~= seq![spec_maven_goal(*d), spec_profile(args.configuration)]);
    if exec {
        match main {
            Some(c) => {
                r.push(concat2("-Dexec.mainClass=", c.as_str()));
            },
            None => {},
        }
    }
    if args.args.len() > 0 {
        let joined = join_strings(&args.args, " ");
        if boot {
            r.push(concat2("-Dspring-boot.run.arguments=", joined.as_str()));
        } else {
            r.push(concat2("-Dexec.args=", joined.as_str()));
        }
    }
    assert(views(r@) =~= maven_run_args(*args, *d));
    r
}

/// The Gradle arguments of a run.
fn gradle_args(args: &RunArgs, d: &RunDefaults) -> (r: Vec<String>)
    ensures
        views(r@) == gradle_run_args(*args, *d),
{
    let task = match &d.gradle_task {
        Some(t) => owned(t.as_str()),
        None => owned("run"),
    };
    let mut r: Vec<String> = Vec::new();
    r.push(task);
    r.push(concat2("-Pjav.configuration=", args.configuration.as_str()));
    if args.args.len() > 0 {
        let joined = join_strings(&args.args, " ");
        r.push(concat2("--args=", joined.as_str()));
    }
    assert(views(r@) =~= gradle_run_args(*args, *d));
    r
}

/// Decides how to run a project of the given kind.  Unless `--no-build` is
/// given, the project is built first for the run's configuration when
/// `stale` tells that its sources are newer than its outputs.  The
/// application then starts through Maven or Gradle, with the project's run
/// defaults and the arguments given after `--`.  Simple projects have no
/// run support.
pub fn run(args: &RunArgs, kind: ProjectKind, defaults: &RunDefaults, stale: bool) -> (r: Result<
    RunPlan,
    CommandError,
>)
    ensures
        match r {
            Ok(p) => spec_run(*args, kind, *defaults, stale) == Ok::<
                (Option<(Seq<char>, Seq<Seq<char>>)>, (Seq<char>, Seq<Seq<char>>)),
                CommandError,
            >((opt_invocation_view(p.build), p.invocation@)),
            Err(e) => spec_run(*args, kind, *defaults, stale) == Err::<
                (Option<(Seq<char>, Seq<Seq<char>>)>, (Seq<char>, Seq<Seq<char>>)),
                CommandError,
            >(e),
        },
        kind == ProjectKind::Simple ==> r == Err::<RunPlan, CommandError>(
            CommandError::SimpleRunUnsupported,
        ),
        kind != ProjectKind::Simple ==> (r matches Ok(p) && {
            &&& (p.build is Some <==> stale && !args.no_build)
            &&& kind == ProjectKind::Maven ==> {
                &&& p.build matches Some(b) ==> b@ == ("mvn"@, seq![
                    "package"@,
                    maven_profile_flag(args.configuration),
                    "-DskipTests"@,
                ])
                &&& p.invocation@.0 == "mvn"@
                &&& p.invocation@.1.len() >= 2
                &&& p.invocation@.1[1] == maven_profile_flag(args.configuration)
            }
            &&& kind == ProjectKind::Gradle ==> {
                &&& p.build matches Some(b) ==> b@ == ("gradle"@, seq![
                    "build"@,
                    gradle_configuration_flag(args.configuration),
                    "-x"@,
                    "test"@,
                ])
                &&& p.invocation@.0 == "gradle"@
                &&& p.invocation@.1.len() >= 2
                &&& p.invocation@.1[1] == gradle_configuration_flag(args.configuration)
                &&& args.args.len() > 0 ==> p.invocation@.1.last() == "--args="@ + spec_join(
                    views(args.args@),
                    " "@,
                )
            }
        }),
{
    proof {
        lemma_run_builds_with_its_configuration(*args, kind, *defaults, stale);
    }
    let invocation = match kind {
        ProjectKind::Maven => Invocation { program: owned("mvn"), args: maven_args(args, defaults) },
        ProjectKind::Gradle => Invocation {
            program: owned("gradle"),
            args: gradle_args(args, defaults),
        },
        ProjectKind::Simple => return Err(CommandError::SimpleRunUnsupported),
    };
    let build = if stale && !args.no_build {
        let build_args = BuildArgs { configuration: args.configuration, no_tests: true };
        match building::run(&build_args, kind, Vec::new()) {
            Ok(plan) => Some(plan.invocation),
            Err(e) => return Err(e),
        }
    } else {
        None
    };
    Ok(RunPlan { build, invocation })
}

} // verus!
