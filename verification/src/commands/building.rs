//! `jav build`.
use crate::cli::{spec_configuration_str, BuildArgs, Configuration};
use crate::commands::{CommandError, Invocation};
use crate::project::sources::{java_paths, java_sources, path_sorted};
use crate::project::ProjectKind;
use crate::text::{concat2, owned, views};
use vstd::prelude::*;

verus! {

broadcast use vstd::seq_lib::group_to_multiset_ensures;

/// The Maven profile of a configuration.
pub open spec fn spec_profile(c: Configuration) -> Seq<char> {
    match c {
        Configuration::Debug => "-Pdebug"@,
        Configuration::Release => "-Prelease"@,
    }
}

/// The Maven profile of a configuration.
pub fn profile(configuration: Configuration) -> (r: &'static str)
    ensures
        r@ == spec_profile(configuration),
{
    match configuration {
        Configuration::Debug => "-Pdebug",
        Configuration::Release => "-Prelease",
    }
}

/// The Maven profile flag of a configuration, spelt out.
pub open spec fn maven_profile_flag(c: Configuration) -> Seq<char> {
    match c {
        Configuration::Debug => "-Pdebug"@,
        Configuration::Release => "-Prelease"@,
    }
}

/// The Gradle property that names a configuration, spelt out.
pub open spec fn gradle_configuration_flag(c: Configuration) -> Seq<char> {
    match c {
        Configuration::Debug => "-Pjav.configuration="@ + "debug"@,
        Configuration::Release => "-Pjav.configuration="@ + "release"@,
    }
}

/// A Maven build runs `package` with the configuration's profile and skips
/// the tests (`-DskipTests`) exactly when asked to; a Gradle build runs
/// `build` with the configuration's property and skips the tests (`-x
/// test`) exactly when asked to.
pub proof fn lemma_build_skips_tests_only_when_asked(args: BuildArgs)
    ensures
        maven_build_args(args) == if args.no_tests {
            seq!["package"@, maven_profile_flag(args.configuration), "-DskipTests"@]
        } else {
            seq!["package"@, maven_profile_flag(args.configuration)]
        },
        gradle_build_args(args) == if args.no_tests {
            seq!["build"@, gradle_configuration_flag(args.configuration), "-x"@, "test"@]
        } else {
            seq!["build"@, gradle_configuration_flag(args.configuration)]
        },
{
    assert(maven_build_args(args) =~= if args.no_tests {
        seq!["package"@, maven_profile_flag(args.configuration), "-DskipTests"@]
    } else {
        seq!["package"@, maven_profile_flag(args.configuration)]
    });
    assert(gradle_build_args(args) =~= if args.no_tests {
        seq!["build"@, gradle_configuration_flag(args.configuration), "-x"@, "test"@]
    } else {
        seq!["build"@, gradle_configuration_flag(args.configuration)]
    });
}

/// The `javac` debug flag of a configuration.
pub open spec fn spec_debug_flag(c: Configuration) -> Seq<char> {
    match c {
        Configuration::Debug => "-g"@,
        Configuration::Release => "-g:none"@,
    }
}

/// A build: whether the `out` directory must be created first, and what to run.
#[derive(Debug, Clone)]
pub struct BuildPlan {
    pub create_output_dir: bool,
    pub invocation: Invocation,
}

/// The Maven arguments of a build.
pub open spec fn maven_build_args(args: BuildArgs) -> Seq<Seq<char>> {
    seq!["package"@, spec_profile(args.configuration)] + if args.no_tests {
        seq!["-DskipTests"@]
    } else {
        Seq::empty()
    }
}

/// The Gradle arguments of a build.
pub open spec fn gradle_build_args(args: BuildArgs) -> Seq<Seq<char>> {
    seq!["build"@, "-Pjav.configuration="@ + spec_configuration_str(args.configuration)]
        + if args.no_tests {
        seq!["-x"@, "test"@]
    } else {
        Seq::empty()
    }
}

/// The `javac` arguments of a simple build: the debug flag, the output
/// directory `out`, then the sources.
pub open spec fn javac_args(args: BuildArgs, sources: Seq<Seq<char>>) -> Seq<Seq<char>> {
    seq![spec_debug_flag(args.configuration), "-d"@, "out"@] + sources
}

/// Decides how to build a project of the given kind.  `files` lists the
/// files under `src/main/java`; only a simple project uses it, compiling its
/// Java sources in path order with `javac` into `out`, which must be created
/// first.
pub fn run(args: &BuildArgs, kind: ProjectKind, files: Vec<String>) -> (r: Result<
    BuildPlan,
    CommandError,
>)
    ensures
        kind == ProjectKind::Maven ==> (r matches Ok(p) && !p.create_output_dir && p.invocation@
            == ("mvn"@, maven_build_args(*args))),
        kind == ProjectKind::Maven ==> (r matches Ok(p) && p.invocation@.0 == "mvn"@ && (
        p.invocation@.1 == if args.no_tests {
            seq!["package"@, maven_profile_flag(args.configuration), "-DskipTests"@]
        } else {
            seq!["package"@, maven_profile_flag(args.configuration)]
        })),
        kind == ProjectKind::Gradle ==> (r matches Ok(p) && p.invocation@.0 == "gradle"@ && (
        p.invocation@.1 == if args.no_tests {
            seq!["build"@, gradle_configuration_flag(args.configuration), "-x"@, "test"@]
        } else {
            seq!["build"@, gradle_configuration_flag(args.configuration)]
        })),
        kind == ProjectKind::Gradle ==> (r matches Ok(p) && !p.create_output_dir
            && p.invocation@ == ("gradle"@, gradle_build_args(*args))),
        kind == ProjectKind::Simple ==> (r is Err <==> java_paths(views(files@)).len() == 0),
        kind == ProjectKind::Simple ==> (r matches Err(e) ==> e == CommandError::NoJavaSources),
        kind == ProjectKind::Simple ==> (r matches Ok(p) ==> {
            &&& p.create_output_dir
            &&& p.invocation@.0 == "javac"@
            &&& exists|sources: Seq<Seq<char>>|
                {
                    &&& sources.to_multiset() == java_paths(views(files@)).to_multiset()
                    &&& path_sorted(sources)
                    &&& #[trigger] javac_args(*args, sources) == p.invocation@.1
                }
        }),
{
    proof {
        lemma_build_skips_tests_only_when_asked(*args);
    }
    match kind {
        ProjectKind::Maven => {
            let mut a: Vec<String> = Vec::new();
            a.push(owned("package"));
            a.push(owned(profile(args.configuration)));
            if args.no_tests {
                a.push(owned("-DskipTests"));
            }
            assert(views(a@) =~= maven_build_args(*args));
            Ok(BuildPlan {
                create_output_dir: false,
                invocation: Invocation { program: owned("mvn"), args: a },
            })
        },
        ProjectKind::Gradle => {
            let mut a: Vec<String> = Vec::new();
            a.push(owned("build"));
            a.push(concat2("-Pjav.configuration=", args.configuration.as_str()));
            if args.no_tests {
                a.push(owned("-x"));
                a.push(owned("test"));
            }
            assert(views(a@) =~= gradle_build_args(*args));
            Ok(BuildPlan {
                create_output_dir: false,
                invocation: Invocation { program: owned("gradle"), args: a },
            })
        },
        ProjectKind::Simple => {
            let sources = java_sources(files);
            if sources.len() == 0 {
                assert(views(sources@).len() == 0);
                assert(java_paths(views(files@)).to_multiset().len() == 0);
                return Err(CommandError::NoJavaSources);
            }
            assert(java_paths(views(files@)).to_multiset().len() > 0);
            let debug_flag = match args.configuration {
                Configuration::Debug => "-g",
                Configuration::Release => "-g:none",
            };
            let mut a: Vec<String> = Vec::new();
            a.push(owned(debug_flag));
            a.push(owned("-d"));
            a.push(owned("out"));
            let ghost head = views(a@);
            let mut i: usize = 0;
            while i < sources.len()
                invariant
                    i <= sources@.len(),
                    views(a@) == head + views(sources@).take(i as int),
                decreases sources@.len() - i,
            {
                let ghost before = a@;
                a.push(sources[i].clone());
                assert(views(a@) =~= views(before).push(sources@[i as int]@));
                assert(views(sources@).take(i + 1) =~= views(sources@).take(i as int).push(
                    sources@[i as int]@,
                ));
                i = i + 1;
            }
            assert(views(sources@).take(sources@.len() as int) =~= views(sources@));
            assert(views(a@) =~= javac_args(*args, views(sources@)));
            Ok(BuildPlan {
                create_output_dir: true,
                invocation: Invocation { program: owned("javac"), args: a },
            })
        },
    }
}

} // verus!
