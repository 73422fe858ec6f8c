//! Project templates: their manifests, the optional Spring features, and the
//! files each template is made of.
pub mod content;
pub mod render;

use crate::templates::content::{
    COMMON_FLAKE_NIX, COMMON_GITIGNORE, COMMON_PLAIN_JAV_TOML, COMMON_README, COMMON_SPRING_JAV_TOML,
    CONSOLE_BUILD_GRADLE_KTS, CONSOLE_MAIN_JAVA, CONSOLE_MAIN_TEST_JAVA, CONSOLE_POM_XML,
    CONSOLE_SETTINGS_GRADLE_KTS, CLI_COMMAND_APP_JAVA, CLI_COMMAND_APP_TEST_JAVA, JUNIT_CALCULATOR_JAVA,
    JUNIT_CALCULATOR_TEST_JAVA, LIBRARY_BUILD_GRADLE_KTS, LIBRARY_JAVA, LIBRARY_POM_XML,
    LIBRARY_SETTINGS_GRADLE_KTS, LIBRARY_TEST_JAVA, SPRING_APPLICATION_JAVA, SPRING_APPLICATION_PROPERTIES,
    SPRING_APPLICATION_TESTS_JAVA, SPRING_BATCH_JOB_CONFIG_JAVA, SPRING_BUILD_GRADLE_KTS,
    SPRING_CUSTOMER_JAVA, SPRING_CUSTOMER_REPOSITORY_JAVA, SPRING_HELLO_CONTROLLER_JAVA, SPRING_POM_XML,
    SPRING_SECURITY_CONFIG_JAVA, SPRING_SETTINGS_GRADLE_KTS, WORKER_JAVA, WORKER_TEST_JAVA,
};
use crate::text::{
    opt_owned, opt_string_view, opt_view, pair_views, str_eq, str_views, strings_of, views,
};
use vstd::prelude::*;

verus! {

/// The metadata of a project template.
#[derive(Debug, Clone)]
pub struct TemplateManifest {
    pub id: String,
    pub name: String,
    pub description: String,
    pub short_name: String,
    pub aliases: Vec<String>,
    pub language: String,
    pub tags: Vec<String>,
    pub default_build_tool: String,
    pub renderer: String,
    pub main_class: Option<String>,
    pub default_features: Vec<String>,
    pub supported_features: Vec<String>,
}

/// A template manifest as plain sequences.
pub struct TemplateManifestView {
    pub id: Seq<char>,
    pub name: Seq<char>,
    pub description: Seq<char>,
    pub short_name: Seq<char>,
    pub aliases: Seq<Seq<char>>,
    pub language: Seq<char>,
    pub tags: Seq<Seq<char>>,
    pub default_build_tool: Seq<char>,
    pub renderer: Seq<char>,
    pub main_class: Option<Seq<char>>,
    pub default_features: Seq<Seq<char>>,
    pub supported_features: Seq<Seq<char>>,
}

impl View for TemplateManifest {
    type V = TemplateManifestView;

    open spec fn view(&self) -> TemplateManifestView {
        TemplateManifestView {
            id: self.id@,
            name: self.name@,
            description: self.description@,
            short_name: self.short_name@,
            aliases: views(self.aliases@),
            language: self.language@,
            tags: views(self.tags@),
            default_build_tool: self.default_build_tool@,
            renderer: self.renderer@,
            main_class: opt_string_view(self.main_class),
            default_features: views(self.default_features@),
            supported_features: views(self.supported_features@),
        }
    }
}

/// An optional Spring Boot feature: the dependencies it adds and the files
/// it brings into a project.
#[derive(Debug, Clone)]
pub struct SpringFeature {
    pub id: &'static str,
    pub description: &'static str,
    pub maven_dependency: Option<&'static str>,
    pub gradle_dependency: Option<&'static str>,
    pub runtime_maven_dependency: Option<&'static str>,
    pub runtime_gradle_dependency: Option<&'static str>,
    pub files: Vec<(&'static str, &'static str)>,
}

/// A Spring feature as plain sequences.
pub struct SpringFeatureView {
    pub id: Seq<char>,
    pub description: Seq<char>,
    pub maven_dependency: Option<Seq<char>>,
    pub gradle_dependency: Option<Seq<char>>,
    pub runtime_maven_dependency: Option<Seq<char>>,
    pub runtime_gradle_dependency: Option<Seq<char>>,
    pub files: Seq<(Seq<char>, Seq<char>)>,
}

impl View for SpringFeature {
    type V = SpringFeatureView;

    open spec fn view(&self) -> SpringFeatureView {
        SpringFeatureView {
            id: self.id@,
            description: self.description@,
            maven_dependency: opt_view(self.maven_dependency),
            gradle_dependency: opt_view(self.gradle_dependency),
            runtime_maven_dependency: opt_view(self.runtime_maven_dependency),
            runtime_gradle_dependency: opt_view(self.runtime_gradle_dependency),
            files: pair_views(self.files@),
        }
    }
}

/// The values a template is rendered with.
#[derive(Debug, Clone)]
pub struct TemplateContext {
    pub project_name: String,
    pub package_name: String,
    pub package_path: String,
    pub java_version: String,
    pub build_tool: String,
    pub spring_boot_version: String,
    pub spring_features: Vec<String>,
    pub main_class: String,
    pub include_flake: bool,
}

/// A template context as plain sequences.
pub struct TemplateContextView {
    pub project_name: Seq<char>,
    pub package_name: Seq<char>,
    pub package_path: Seq<char>,
    pub java_version: Seq<char>,
    pub build_tool: Seq<char>,
    pub spring_boot_version: Seq<char>,
    pub spring_features: Seq<Seq<char>>,
    pub main_class: Seq<char>,
    pub include_flake: bool,
}

impl View for TemplateContext {
    type V = TemplateContextView;

    open spec fn view(&self) -> TemplateContextView {
        TemplateContextView {
            project_name: self.project_name@,
            package_name: self.package_name@,
            package_path: self.package_path@,
            java_version: self.java_version@,
            build_tool: self.build_tool@,
            spring_boot_version: self.spring_boot_version@,
            spring_features: views(self.spring_features@),
            main_class: self.main_class@,
            include_flake: self.include_flake,
        }
    }
}

// ---------------------------------------------------------------------------
// Template manifests
// ---------------------------------------------------------------------------

/// The installed templates, in listing order.
pub open spec fn spec_template_ids() -> Seq<Seq<char>> {
    seq![
        "console"@,
        "cli"@,
        "worker"@,
        "library"@,
        "junit"@,
        "springboot"@,
        "springweb"@,
        "springdata"@,
        "springsecurity"@,
        "springbatch"@,
    ]
}

/// The installed templates, in listing order.
pub fn template_ids() -> (r: Vec<&'static str>)
    ensures
        str_views(r@) == spec_template_ids(),
{
    let r = vec![
        "console",
        "cli",
        "worker",
        "library",
        "junit",
        "springboot",
        "springweb",
        "springdata",
        "springsecurity",
        "springbatch",
    ];
    assert(str_views(r@) =~= spec_template_ids());
    r
}

/// The manifest of the template with the given id, if it is installed.
pub open spec fn spec_manifest_by_id(id: Seq<char>) -> Option<TemplateManifestView> {
    if id == "console"@ {
        Some(TemplateManifestView {
            id: "console"@,
            name: "Console App"@,
            description: "Executable Java app with JUnit tests"@,
            short_name: "console"@,
            aliases: str_views(seq![]),
            language: "Java"@,
            tags: str_views(seq!["Common", "Console"]),
            default_build_tool: "maven"@,
            renderer: "plain-app"@,
            main_class: Some("Main"@),
            default_features: str_views(seq![]),
            supported_features: str_views(seq![]),
        })
    }
    else if id == "cli"@ {
        Some(TemplateManifestView {
            id: "cli"@,
            name: "Command-Line App"@,
            description: "Command-line app skeleton"@,
            short_name: "cli"@,
            aliases: str_views(seq![]),
            language: "Java"@,
            tags: str_views(seq!["Common", "Console", "CLI"]),
            default_build_tool: "gradle"@,
            renderer: "plain-app"@,
            main_class: Some("CommandApp"@),
            default_features: str_views(seq![]),
            supported_features: str_views(seq![]),
        })
    }
    else if id == "worker"@ {
        Some(TemplateManifestView {
            id: "worker"@,
            name: "Worker Service"@,
            description: "Long-running/background worker skeleton"@,
            short_name: "worker"@,
            aliases: str_views(seq![]),
            language: "Java"@,
            tags: str_views(seq!["Common", "Worker", "Service"]),
            default_build_tool: "gradle"@,
            renderer: "plain-app"@,
            main_class: Some("Worker"@),
            default_features: str_views(seq![]),
            supported_features: str_views(seq![]),
        })
    }
    else if id == "library"@ {
        Some(TemplateManifestView {
            id: "library"@,
            name: "Class Library"@,
            description: "Reusable Java library"@,
            short_name: "library"@,
            aliases: str_views(seq!["classlib"]),
            language: "Java"@,
            tags: str_views(seq!["Common", "Library"]),
            default_build_tool: "maven"@,
            renderer: "library"@,
            main_class: None,
            default_features: str_views(seq![]),
            supported_features: str_views(seq![]),
        })
    }
    else if id == "junit"@ {
        Some(TemplateManifestView {
            id: "junit"@,
            name: "JUnit Test Project"@,
            description: "Focused JUnit 5 test project"@,
            short_name: "junit"@,
            aliases: str_views(seq![]),
            language: "Java"@,
            tags: str_views(seq!["Test", "JUnit"]),
            default_build_tool: "maven"@,
            renderer: "plain-app"@,
            main_class: Some("Calculator"@),
            default_features: str_views(seq![]),
            supported_features: str_views(seq![]),
        })
    }
    else if id == "springboot"@ {
        Some(TemplateManifestView {
            id: "springboot"@,
            name: "Spring Boot App"@,
            description: "Configurable Spring Boot app"@,
            short_name: "springboot"@,
            aliases: str_views(seq!["spring"]),
            language: "Java"@,
            tags: str_views(seq!["Web", "Spring", "Cloud"]),
            default_build_tool: "gradle"@,
            renderer: "springboot"@,
            main_class: Some("Application"@),
            default_features: str_views(seq![]),
            supported_features: str_views(seq!["web", "actuator", "data-jpa", "security", "lombok", "postgresql", "batch"]),
        })
    }
    else if id == "springweb"@ {
        Some(TemplateManifestView {
            id: "springweb"@,
            name: "Spring Web API"@,
            description: "Spring REST API"@,
            short_name: "springweb"@,
            aliases: str_views(seq!["webapi"]),
            language: "Java"@,
            tags: str_views(seq!["Web", "Spring", "API"]),
            default_build_tool: "gradle"@,
            renderer: "springboot"@,
            main_class: Some("Application"@),
            default_features: str_views(seq!["web", "actuator"]),
            supported_features: str_views(seq!["web", "actuator", "data-jpa", "security", "lombok", "postgresql", "batch"]),
        })
    }
    else if id == "springdata"@ {
        Some(TemplateManifestView {
            id: "springdata"@,
            name: "Spring Data API"@,
            description: "Spring API with JPA/PostgreSQL scaffolding"@,
            short_name: "springdata"@,
            aliases: str_views(seq![]),
            language: "Java"@,
            tags: str_views(seq!["Web", "Spring", "Data"]),
            default_build_tool: "gradle"@,
            renderer: "springboot"@,
            main_class: Some("Application"@),
            default_features: str_views(seq!["web", "data-jpa", "postgresql"]),
            supported_features: str_views(seq!["web", "actuator", "data-jpa", "security", "lombok", "postgresql", "batch"]),
        })
    }
    else if id == "springsecurity"@ {
        Some(TemplateManifestView {
            id: "springsecurity"@,
            name: "Spring Security API"@,
            description: "Spring API with security defaults"@,
            short_name: "springsecurity"@,
            aliases: str_views(seq![]),
            language: "Java"@,
            tags: str_views(seq!["Web", "Spring", "Security"]),
            default_build_tool: "gradle"@,
            renderer: "springboot"@,
            main_class: Some("Application"@),
            default_features: str_views(seq!["web", "security"]),
            supported_features: str_views(seq!["web", "actuator", "data-jpa", "security", "lombok", "postgresql", "batch"]),
        })
    }
    else if id == "springbatch"@ {
        Some(TemplateManifestView {
            id: "springbatch"@,
            name: "Spring Batch Job"@,
            description: "Spring Batch job starter"@,
            short_name: "springbatch"@,
            aliases: str_views(seq![]),
            language: "Java"@,
            tags: str_views(seq!["Spring", "Batch"]),
            default_build_tool: "gradle"@,
            renderer: "springboot"@,
            main_class: Some("Application"@),
            default_features: str_views(seq!["batch"]),
            supported_features: str_views(seq!["web", "actuator", "data-jpa", "security", "lombok", "postgresql", "batch"]),
        })
    } else {
        None
    }
}

/// A manifest from its fields.
fn make_manifest(
    id: &str,
    name: &str,
    description: &str,
    short_name: &str,
    aliases: &[&str],
    language: &str,
    tags: &[&str],
    default_build_tool: &str,
    renderer: &str,
    main_class: Option<&str>,
    default_features: &[&str],
    supported_features: &[&str],
) -> (m: TemplateManifest)
    ensures
        m@ == (TemplateManifestView {
            id: id@,
            name: name@,
            description: description@,
            short_name: short_name@,
            aliases: str_views(aliases@),
            language: language@,
            tags: str_views(tags@),
            default_build_tool: default_build_tool@,
            renderer: renderer@,
            main_class: opt_view(main_class),
            default_features: str_views(default_features@),
            supported_features: str_views(supported_features@),
        }),
{
    TemplateManifest {
        id: id.to_owned(),
        name: name.to_owned(),
        description: description.to_owned(),
        short_name: short_name.to_owned(),
        aliases: strings_of(aliases),
        language: language.to_owned(),
        tags: strings_of(tags),
        default_build_tool: default_build_tool.to_owned(),
        renderer: renderer.to_owned(),
        main_class: opt_owned(main_class),
        default_features: strings_of(default_features),
        supported_features: strings_of(supported_features),
    }
}

/// The manifest of the template with the given id, if it is installed.
fn manifest_by_id(id: &str) -> (r: Option<TemplateManifest>)
    ensures
        match r {
            Some(m) => spec_manifest_by_id(id@) == Some(m@),
            None => spec_manifest_by_id(id@) is None,
        },
{
    if str_eq(id, "console") {
        let aliases: &[&str] = &[];
        let tags: &[&str] = &["Common", "Console"];
        let defaults: &[&str] = &[];
        let supported: &[&str] = &[];
        assert(aliases@ =~= Seq::<&str>::empty());
        assert(tags@ == seq!["Common", "Console"]);
        assert(defaults@ =~= Seq::<&str>::empty());
        assert(supported@ =~= Seq::<&str>::empty());
        Some(
            make_manifest(
                "console",
                "Console App",
                "Executable Java app with JUnit tests",
                "console",
                aliases,
                "Java",
                tags,
                "maven",
                "plain-app",
                Some("Main"),
                defaults,
                supported,
            ),
        )
    }
    else if str_eq(id, "cli") {
        let aliases: &[&str] = &[];
        let tags: &[&str] = &["Common", "Console", "CLI"];
        let defaults: &[&str] = &[];
        let supported: &[&str] = &[];
        assert(aliases@ =~= Seq::<&str>::empty());
        assert(tags@ == seq!["Common", "Console", "CLI"]);
        assert(defaults@ =~= Seq::<&str>::empty());
        assert(supported@ =~= Seq::<&str>::empty());
        Some(
            make_manifest(
                "cli",
                "Command-Line App",
                "Command-line app skeleton",
                "cli",
                aliases,
                "Java",
                tags,
                "gradle",
                "plain-app",
                Some("CommandApp"),
                defaults,
                supported,
            ),
        )
    }
    else if str_eq(id, "worker") {
        let aliases: &[&str] = &[];
        let tags: &[&str] = &["Common", "Worker", "Service"];
        let defaults: &[&str] = &[];
        let supported: &[&str] = &[];
        assert(aliases@ =~= Seq::<&str>::empty());
        assert(tags@ == seq!["Common", "Worker", "Service"]);
        assert(defaults@ =~= Seq::<&str>::empty());
        assert(supported@ =~= Seq::<&str>::empty());
        Some(
            make_manifest(
                "worker",
                "Worker Service",
                "Long-running/background worker skeleton",
                "worker",
                aliases,
                "Java",
                tags,
                "gradle",
                "plain-app",
                Some("Worker"),
                defaults,
                supported,
            ),
        )
    }
    else if str_eq(id, "library") {
        let aliases: &[&str] = &["classlib"];
        let tags: &[&str] = &["Common", "Library"];
        let defaults: &[&str] = &[];
        let supported: &[&str] = &[];
        assert(aliases@ == seq!["classlib"]);
        assert(tags@ == seq!["Common", "Library"]);
        assert(defaults@ =~= Seq::<&str>::empty());
        assert(supported@ =~= Seq::<&str>::empty());
        Some(
            make_manifest(
                "library",
                "Class Library",
                "Reusable Java library",
                "library",
                aliases,
                "Java",
                tags,
                "maven",
                "library",
                None,
                defaults,
                supported,
            ),
        )
    }
    else if str_eq(id, "junit") {
        let aliases: &[&str] = &[];
        let tags: &[&str] = &["Test", "JUnit"];
        let defaults: &[&str] = &[];
        let supported: &[&str] = &[];
        assert(aliases@ =~= Seq::<&str>::empty());
        assert(tags@ == seq!["Test", "JUnit"]);
        assert(defaults@ =~= Seq::<&str>::empty());
        assert(supported@ =~= Seq::<&str>::empty());
        Some(
            make_manifest(
                "junit",
                "JUnit Test Project",
                "Focused JUnit 5 test project",
                "junit",
                aliases,
                "Java",
                tags,
                "maven",
                "plain-app",
                Some("Calculator"),
                defaults,
                supported,
            ),
        )
    }
    else if str_eq(id, "springboot") {
        let aliases: &[&str] = &["spring"];
        let tags: &[&str] = &["Web", "Spring", "Cloud"];
        let defaults: &[&str] = &[];
        let supported: &[&str] = &["web", "actuator", "data-jpa", "security", "lombok", "postgresql", "batch"];
        assert(aliases@ == seq!["spring"]);
        assert(tags@ == seq!["Web", "Spring", "Cloud"]);
        assert(defaults@ =~= Seq::<&str>::empty());
        assert(supported@ == seq!["web", "actuator", "data-jpa", "security", "lombok", "postgresql", "batch"]);
        Some(
            make_manifest(
                "springboot",
                "Spring Boot App",
                "Configurable Spring Boot app",
                "springboot",
                aliases,
                "Java",
                tags,
                "gradle",
                "springboot",
                Some("Application"),
                defaults,
                supported,
            ),
        )
    }
    else if str_eq(id, "springweb") {
        let aliases: &[&str] = &["webapi"];
        let tags: &[&str] = &["Web", "Spring", "API"];
        let defaults: &[&str] = &["web", "actuator"];
        let supported: &[&str] = &["web", "actuator", "data-jpa", "security", "lombok", "postgresql", "batch"];
        assert(aliases@ == seq!["webapi"]);
        assert(tags@ == seq!["Web", "Spring", "API"]);
        assert(defaults@ == seq!["web", "actuator"]);
        assert(supported@ == seq!["web", "actuator", "data-jpa", "security", "lombok", "postgresql", "batch"]);
        Some(
            make_manifest(
                "springweb",
                "Spring Web API",
                "Spring REST API",
                "springweb",
                aliases,
                "Java",
                tags,
                "gradle",
                "springboot",
                Some("Application"),
                defaults,
                supported,
            ),
        )
    }
    else if str_eq(id, "springdata") {
        let aliases: &[&str] = &[];
        let tags: &[&str] = &["Web", "Spring", "Data"];
        let defaults: &[&str] = &["web", "data-jpa", "postgresql"];
        let supported: &[&str] = &["web", "actuator", "data-jpa", "security", "lombok", "postgresql", "batch"];
        assert(aliases@ =~= Seq::<&str>::empty());
        assert(tags@ == seq!["Web", "Spring", "Data"]);
        assert(defaults@ == seq!["web", "data-jpa", "postgresql"]);
        assert(supported@ == seq!["web", "actuator", "data-jpa", "security", "lombok", "postgresql", "batch"]);
        Some(
            make_manifest(
                "springdata",
                "Spring Data API",
                "Spring API with JPA/PostgreSQL scaffolding",
                "springdata",
                aliases,
                "Java",
                tags,
                "gradle",
                "springboot",
                Some("Application"),
                defaults,
                supported,
            ),
        )
    }
    else if str_eq(id, "springsecurity") {
        let aliases: &[&str] = &[];
        let tags: &[&str] = &["Web", "Spring", "Security"];
        let defaults: &[&str] = &["web", "security"];
        let supported: &[&str] = &["web", "actuator", "data-jpa", "security", "lombok", "postgresql", "batch"];
        assert(aliases@ =~= Seq::<&str>::empty());
        assert(tags@ == seq!["Web", "Spring", "Security"]);
        assert(defaults@ == seq!["web", "security"]);
        assert(supported@ == seq!["web", "actuator", "data-jpa", "security", "lombok", "postgresql", "batch"]);
        Some(
            make_manifest(
                "springsecurity",
                "Spring Security API",
                "Spring API with security defaults",
                "springsecurity",
                aliases,
                "Java",
                tags,
                "gradle",
                "springboot",
                Some("Application"),
                defaults,
                supported,
            ),
        )
    }
    else if str_eq(id, "springbatch") {
        let aliases: &[&str] = &[];
        let tags: &[&str] = &["Spring", "Batch"];
        let defaults: &[&str] = &["batch"];
        let supported: &[&str] = &["web", "actuator", "data-jpa", "security", "lombok", "postgresql", "batch"];
        assert(aliases@ =~= Seq::<&str>::empty());
        assert(tags@ == seq!["Spring", "Batch"]);
        assert(defaults@ == seq!["batch"]);
        assert(supported@ == seq!["web", "actuator", "data-jpa", "security", "lombok", "postgresql", "batch"]);
        Some(
            make_manifest(
                "springbatch",
                "Spring Batch Job",
                "Spring Batch job starter",
                "springbatch",
                aliases,
                "Java",
                tags,
                "gradle",
                "springboot",
                Some("Application"),
                defaults,
                supported,
            ),
        )
    } else {
        None
    }
}

/// The manifests of the listed templates that are installed, in order.
pub open spec fn manifests_of(ids: Seq<Seq<char>>) -> Seq<TemplateManifestView>
    decreases ids.len(),
{
    if ids.len() == 0 {
        Seq::empty()
    } else {
        match spec_manifest_by_id(ids.last()) {
            Some(m) => manifests_of(ids.drop_last()).push(m),
            None => manifests_of(ids.drop_last()),
        }
    }
}

/// The manifests of all installed templates, in listing order.
pub open spec fn spec_manifests() -> Seq<TemplateManifestView> {
    manifests_of(spec_template_ids())
}

/// The views of a sequence of manifests.
pub open spec fn manifest_views(v: Seq<TemplateManifest>) -> Seq<TemplateManifestView> {
    v.map_values(|m: TemplateManifest| m@)
}

/// The manifests of all installed templates, in listing order.
pub fn manifests() -> (r: Vec<TemplateManifest>)
    ensures
        manifest_views(r@) == spec_manifests(),
{
    let ids = template_ids();
    let mut r: Vec<TemplateManifest> = Vec::new();
    let mut i: usize = 0;
    while i < ids.len()
        invariant
            str_views(ids@) == spec_template_ids(),
            i <= ids@.len(),
            manifest_views(r@) == manifests_of(str_views(ids@).take(i as int)),
        decreases ids@.len() - i,
    {
        assert(str_views(ids@).take(i + 1).drop_last() =~= str_views(ids@).take(i as int));
        assert(str_views(ids@).take(i + 1).last() == ids@[i as int]@);
        match manifest_by_id(ids[i]) {
            Some(m) => {
                let ghost before = r@;
                r.push(m);
                assert(manifest_views(r@) =~= manifest_views(before).push(r@.last()@));
            },
            None => {},
        }
        i = i + 1;
    }
    assert(str_views(ids@).take(ids@.len() as int) =~= spec_template_ids());
    r
}

/// A template is called `name` by its id or one of its aliases.
pub open spec fn answers_to(m: TemplateManifestView, name: Seq<char>) -> bool {
    m.id == name || m.aliases.contains(name)
}

/// The first of `ms` that answers to `name`.
pub open spec fn first_answering(ms: Seq<TemplateManifestView>, name: Seq<char>) -> Option<
    TemplateManifestView,
>
    decreases ms.len(),
{
    if ms.len() == 0 {
        None
    } else if answers_to(ms[0], name) {
        Some(ms[0])
    } else {
        first_answering(ms.drop_first(), name)
    }
}

/// The installed template that answers to `template`, by id or alias.
pub open spec fn spec_manifest(template: Seq<char>) -> Option<TemplateManifestView> {
    first_answering(spec_manifests(), template)
}

/// Whether one of `names` equals `name`.
fn contains_string(names: &Vec<String>, name: &str) -> (r: bool)
    ensures
        r == views(names@).contains(name@),
{
    let mut i: usize = 0;
    while i < names.len()
        invariant
            i <= names@.len(),
            forall|j: int| 0 <= j < i ==> names@[j]@ != name@,
        decreases names@.len() - i,
    {
        if str_eq(names[i].as_str(), name) {
            assert(views(names@)[i as int] == name@);
            return true;
        }
        i = i + 1;
    }
    assert forall|j: int| 0 <= j < views(names@).len() implies views(names@)[j] != name@ by {
        assert(views(names@)[j] == names@[j]@);
    }
    false
}

/// The installed template that answers to `template`, by id or alias.
pub fn manifest(template: &str) -> (r: Option<TemplateManifest>)
    ensures
        match r {
            Some(m) => spec_manifest(template@) == Some(m@),
            None => spec_manifest(template@) is None,
        },
{
    let mut all = manifests();
    let mut i: usize = 0;
    assert(spec_manifests().skip(0) =~= spec_manifests());
    while i < all.len()
        invariant
            manifest_views(all@) == spec_manifests(),
            i <= all@.len(),
            first_answering(spec_manifests(), template@) == first_answering(
                spec_manifests().skip(i as int),
                template@,
            ),
        decreases all@.len() - i,
    {
        let m = &all[i];
        let ghost rest = spec_manifests().skip(i as int);
        assert(rest[0] == m@);
        assert(rest.drop_first() =~= spec_manifests().skip(i + 1));
        if str_eq(m.id.as_str(), template) || contains_string(&m.aliases, template) {
            return Some(all.remove(i));
        }
        i = i + 1;
    }
    None
}

// ---------------------------------------------------------------------------
// Spring features
// ---------------------------------------------------------------------------

/// The Spring feature with the given id, if there is one.
pub open spec fn spec_feature(id: Seq<char>) -> Option<SpringFeatureView> {
    if id == "web"@ {
        Some(SpringFeatureView {
            id: "web"@,
            description: "Spring MVC REST endpoints with embedded Tomcat."@,
            maven_dependency: Some("spring-boot-starter-web"@),
            gradle_dependency: Some("org.springframework.boot:spring-boot-starter-web"@),
            runtime_maven_dependency: None,
            runtime_gradle_dependency: None,
            files: seq![
                ("src/main/java/{{package_path}}/HelloController.java"@, SPRING_HELLO_CONTROLLER_JAVA@),
            ],
        })
    } else if id == "actuator"@ {
        Some(SpringFeatureView {
            id: "actuator"@,
            description: "Production health, info, metrics, and management endpoints."@,
            maven_dependency: Some("spring-boot-starter-actuator"@),
            gradle_dependency: Some("org.springframework.boot:spring-boot-starter-actuator"@),
            runtime_maven_dependency: None,
            runtime_gradle_dependency: None,
            files: seq![],
        })
    } else if id == "data-jpa"@ {
        Some(SpringFeatureView {
            id: "data-jpa"@,
            description: "Spring Data JPA repositories and entity support."@,
            maven_dependency: Some("spring-boot-starter-data-jpa"@),
            gradle_dependency: Some("org.springframework.boot:spring-boot-starter-data-jpa"@),
            runtime_maven_dependency: None,
            runtime_gradle_dependency: None,
            files: seq![
                ("src/main/java/{{package_path}}/Customer.java"@, SPRING_CUSTOMER_JAVA@),
                (
                    "src/main/java/{{package_path}}/CustomerRepository.java"@,
                    SPRING_CUSTOMER_REPOSITORY_JAVA@,
                ),
            ],
        })
    } else if id == "security"@ {
        Some(SpringFeatureView {
            id: "security"@,
            description: "Spring Security with HTTP Basic defaults."@,
            maven_dependency: Some("spring-boot-starter-security"@),
            gradle_dependency: Some("org.springframework.boot:spring-boot-starter-security"@),
            runtime_maven_dependency: None,
            runtime_gradle_dependency: None,
            files: seq![
                ("src/main/java/{{package_path}}/SecurityConfig.java"@, SPRING_SECURITY_CONFIG_JAVA@),
            ],
        })
    } else if id == "lombok"@ {
        Some(SpringFeatureView {
            id: "lombok"@,
            description: "Lombok annotations and annotation processing setup."@,
            maven_dependency: None,
            gradle_dependency: None,
            runtime_maven_dependency: None,
            runtime_gradle_dependency: None,
            files: seq![],
        })
    } else if id == "postgresql"@ {
        Some(SpringFeatureView {
            id: "postgresql"@,
            description: "PostgreSQL JDBC driver as a runtime dependency."@,
            maven_dependency: None,
            gradle_dependency: None,
            runtime_maven_dependency: Some("postgresql"@),
            runtime_gradle_dependency: Some("org.postgresql:postgresql"@),
            files: seq![],
        })
    } else if id == "batch"@ {
        Some(SpringFeatureView {
            id: "batch"@,
            description: "Spring Batch job and step infrastructure."@,
            maven_dependency: Some("spring-boot-starter-batch"@),
            gradle_dependency: Some("org.springframework.boot:spring-boot-starter-batch"@),
            runtime_maven_dependency: None,
            runtime_gradle_dependency: None,
            files: seq![
                ("src/main/java/{{package_path}}/BatchJobConfig.java"@, SPRING_BATCH_JOB_CONFIG_JAVA@),
            ],
        })
    } else {
        None
    }
}

/// The Spring feature with the given id, if there is one.
pub fn feature(id: &str) -> (r: Option<SpringFeature>)
    ensures
        match r {
            Some(f) => spec_feature(id@) == Some(f@),
            None => spec_feature(id@) is None,
        },
{
    if str_eq(id, "web") {
        let files = vec![
            ("src/main/java/{{package_path}}/HelloController.java", SPRING_HELLO_CONTROLLER_JAVA),
        ];
        assert(pair_views(files@) =~= spec_feature(id@).unwrap().files);
        Some(SpringFeature {
            id: "web",
            description: "Spring MVC REST endpoints with embedded Tomcat.",
            maven_dependency: Some("spring-boot-starter-web"),
            gradle_dependency: Some("org.springframework.boot:spring-boot-starter-web"),
            runtime_maven_dependency: None,
            runtime_gradle_dependency: None,
            files,
        })
    } else if str_eq(id, "actuator") {
        let files = vec![];
        assert(pair_views(files@) =~= spec_feature(id@).unwrap().files);
        Some(SpringFeature {
            id: "actuator",
            description: "Production health, info, metrics, and management endpoints.",
            maven_dependency: Some("spring-boot-starter-actuator"),
            gradle_dependency: Some("org.springframework.boot:spring-boot-starter-actuator"),
            runtime_maven_dependency: None,
            runtime_gradle_dependency: None,
            files,
        })
    } else if str_eq(id, "data-jpa") {
        let files = vec![
            ("src/main/java/{{package_path}}/Customer.java", SPRING_CUSTOMER_JAVA),
            (
                "src/main/java/{{package_path}}/CustomerRepository.java",
                SPRING_CUSTOMER_REPOSITORY_JAVA,
            ),
        ];
        assert(pair_views(files@) =~= spec_feature(id@).unwrap().files);
        Some(SpringFeature {
            id: "data-jpa",
            description: "Spring Data JPA repositories and entity support.",
            maven_dependency: Some("spring-boot-starter-data-jpa"),
            gradle_dependency: Some("org.springframework.boot:spring-boot-starter-data-jpa"),
            runtime_maven_dependency: None,
            runtime_gradle_dependency: None,
            files,
        })
    } else if str_eq(id, "security") {
        let files = vec![
            ("src/main/java/{{package_path}}/SecurityConfig.java", SPRING_SECURITY_CONFIG_JAVA),
        ];
        assert(pair_views(files@) =~= spec_feature(id@).unwrap().files);
        Some(SpringFeature {
            id: "security",
            description: "Spring Security with HTTP Basic defaults.",
            maven_dependency: Some("spring-boot-starter-security"),
            gradle_dependency: Some("org.springframework.boot:spring-boot-starter-security"),
            runtime_maven_dependency: None,
            runtime_gradle_dependency: None,
            files,
        })
    } else if str_eq(id, "lombok") {
        let files = vec![];
        assert(pair_views(files@) =~= spec_feature(id@).unwrap().files);
        Some(SpringFeature {
            id: "lombok",
            description: "Lombok annotations and annotation processing setup.",
            maven_dependency: None,
            gradle_dependency: None,
            runtime_maven_dependency: None,
            runtime_gradle_dependency: None,
            files,
        })
    } else if str_eq(id, "postgresql") {
        let files = vec![];
        assert(pair_views(files@) =~= spec_feature(id@).unwrap().files);
        Some(SpringFeature {
            id: "postgresql",
            description: "PostgreSQL JDBC driver as a runtime dependency.",
            maven_dependency: None,
            gradle_dependency: None,
            runtime_maven_dependency: Some("postgresql"),
            runtime_gradle_dependency: Some("org.postgresql:postgresql"),
            files,
        })
    } else if str_eq(id, "batch") {
        let files = vec![
            ("src/main/java/{{package_path}}/BatchJobConfig.java", SPRING_BATCH_JOB_CONFIG_JAVA),
        ];
        assert(pair_views(files@) =~= spec_feature(id@).unwrap().files);
        Some(SpringFeature {
            id: "batch",
            description: "Spring Batch job and step infrastructure.",
            maven_dependency: Some("spring-boot-starter-batch"),
            gradle_dependency: Some("org.springframework.boot:spring-boot-starter-batch"),
            runtime_maven_dependency: None,
            runtime_gradle_dependency: None,
            files,
        })
    } else {
        None
    }
}

// ---------------------------------------------------------------------------
// Template files
// ---------------------------------------------------------------------------

/// The main class source of a plain application template.
pub open spec fn spec_plain_main_file(template: Seq<char>) -> Seq<char> {
    if template == "cli"@ {
        CLI_COMMAND_APP_JAVA@
    } else if template == "worker"@ {
        WORKER_JAVA@
    } else if template == "junit"@ {
        JUNIT_CALCULATOR_JAVA@
    } else {
        CONSOLE_MAIN_JAVA@
    }
}

/// The test source of a plain application template.
pub open spec fn spec_plain_test_file(template: Seq<char>) -> Seq<char> {
    if template == "cli"@ {
        CLI_COMMAND_APP_TEST_JAVA@
    } else if template == "worker"@ {
        WORKER_TEST_JAVA@
    } else if template == "junit"@ {
        JUNIT_CALCULATOR_TEST_JAVA@
    } else {
        CONSOLE_MAIN_TEST_JAVA@
    }
}

/// The main class source of a plain application template.
pub fn plain_main_file(template: &str) -> (r: &'static str)
    ensures
        r@ == spec_plain_main_file(template@),
{
    if str_eq(template, "cli") {
        CLI_COMMAND_APP_JAVA
    } else if str_eq(template, "worker") {
        WORKER_JAVA
    } else if str_eq(template, "junit") {
        JUNIT_CALCULATOR_JAVA
    } else {
        CONSOLE_MAIN_JAVA
    }
}

/// The test source of a plain application template.
pub fn plain_test_file(template: &str) -> (r: &'static str)
    ensures
        r@ == spec_plain_test_file(template@),
{
    if str_eq(template, "cli") {
        CLI_COMMAND_APP_TEST_JAVA
    } else if str_eq(template, "worker") {
        WORKER_TEST_JAVA
    } else if str_eq(template, "junit") {
        JUNIT_CALCULATOR_TEST_JAVA
    } else {
        CONSOLE_MAIN_TEST_JAVA
    }
}

/// The files of a plain application built with Gradle.
pub open spec fn plain_gradle_files(template: Seq<char>) -> Seq<(Seq<char>, Seq<char>)> {
    seq![
        (".gitignore"@, COMMON_GITIGNORE@),
        ("README.md"@, COMMON_README@),
        ("jav.toml"@, COMMON_PLAIN_JAV_TOML@),
        ("settings.gradle.kts"@, CONSOLE_SETTINGS_GRADLE_KTS@),
        ("build.gradle.kts"@, CONSOLE_BUILD_GRADLE_KTS@),
        ("src/main/java/{{package_path}}/{{main_class}}.java"@, spec_plain_main_file(template)),
        ("src/test/java/{{package_path}}/{{main_class}}Test.java"@, spec_plain_test_file(template)),
    ]
}

/// The files of a plain application built with Maven.
pub open spec fn plain_maven_files(template: Seq<char>) -> Seq<(Seq<char>, Seq<char>)> {
    seq![
        (".gitignore"@, COMMON_GITIGNORE@),
        ("README.md"@, COMMON_README@),
        ("jav.toml"@, COMMON_PLAIN_JAV_TOML@),
        ("pom.xml"@, CONSOLE_POM_XML@),
        ("src/main/java/{{package_path}}/{{main_class}}.java"@, spec_plain_main_file(template)),
        ("src/test/java/{{package_path}}/{{main_class}}Test.java"@, spec_plain_test_file(template)),
    ]
}

/// The files of a library built with Gradle.
pub open spec fn library_gradle_files() -> Seq<(Seq<char>, Seq<char>)> {
    seq![
        (".gitignore"@, COMMON_GITIGNORE@),
        ("README.md"@, COMMON_README@),
        ("settings.gradle.kts"@, LIBRARY_SETTINGS_GRADLE_KTS@),
        ("build.gradle.kts"@, LIBRARY_BUILD_GRADLE_KTS@),
        ("src/main/java/{{package_path}}/Library.java"@, LIBRARY_JAVA@),
        ("src/test/java/{{package_path}}/LibraryTest.java"@, LIBRARY_TEST_JAVA@),
    ]
}

/// The files of a library built with Maven.
pub open spec fn library_maven_files() -> Seq<(Seq<char>, Seq<char>)> {
    seq![
        (".gitignore"@, COMMON_GITIGNORE@),
        ("README.md"@, COMMON_README@),
        ("pom.xml"@, LIBRARY_POM_XML@),
        ("src/main/java/{{package_path}}/Library.java"@, LIBRARY_JAVA@),
        ("src/test/java/{{package_path}}/LibraryTest.java"@, LIBRARY_TEST_JAVA@),
    ]
}

/// The build files of a Spring Boot application built with Gradle.
pub open spec fn spring_gradle_files() -> Seq<(Seq<char>, Seq<char>)> {
    seq![
        (".gitignore"@, COMMON_GITIGNORE@),
        ("README.md"@, COMMON_README@),
        ("jav.toml"@, COMMON_SPRING_JAV_TOML@),
        ("settings.gradle.kts"@, SPRING_SETTINGS_GRADLE_KTS@),
        ("build.gradle.kts"@, SPRING_BUILD_GRADLE_KTS@),
    ]
}

/// The build files of a Spring Boot application built with Maven.
pub open spec fn spring_maven_files() -> Seq<(Seq<char>, Seq<char>)> {
    seq![
        (".gitignore"@, COMMON_GITIGNORE@),
        ("README.md"@, COMMON_README@),
        ("jav.toml"@, COMMON_SPRING_JAV_TOML@),
        ("pom.xml"@, SPRING_POM_XML@),
    ]
}

/// The sources every Spring Boot application has.
pub open spec fn spring_app_files() -> Seq<(Seq<char>, Seq<char>)> {
    seq![
        ("src/main/java/{{package_path}}/Application.java"@, SPRING_APPLICATION_JAVA@),
        ("src/main/resources/application.properties"@, SPRING_APPLICATION_PROPERTIES@),
        ("src/test/java/{{package_path}}/ApplicationTests.java"@, SPRING_APPLICATION_TESTS_JAVA@),
    ]
}

/// The files that the selected features bring, feature by feature; ids that
/// name no feature bring nothing.
pub open spec fn spec_feature_files(selected: Seq<Seq<char>>) -> Seq<(Seq<char>, Seq<char>)>
    decreases selected.len(),
{
    if selected.len() == 0 {
        Seq::empty()
    } else {
        spec_feature_files(selected.drop_last()) + match spec_feature(selected.last()) {
            Some(f) => f.files,
            None => Seq::empty(),
        }
    }
}

/// The files of a template before the optional Nix flake, or `None` when
/// the manifest names no known renderer.  Any build tool other than
/// `gradle` gets the Maven files.
pub open spec fn spec_base_files(m: TemplateManifestView, c: TemplateContextView) -> Option<
    Seq<(Seq<char>, Seq<char>)>,
> {
    if m.renderer == "plain-app"@ {
        Some(
            if c.build_tool == "gradle"@ {
                plain_gradle_files(m.id)
            } else {
                plain_maven_files(m.id)
            },
        )
    } else if m.renderer == "library"@ {
        Some(
            if c.build_tool == "gradle"@ {
                library_gradle_files()
            } else {
                library_maven_files()
            },
        )
    } else if m.renderer == "springboot"@ {
        Some(
            (if c.build_tool == "gradle"@ {
                spring_gradle_files()
            } else {
                spring_maven_files()
            }) + spring_app_files() + spec_feature_files(c.spring_features),
        )
    } else {
        None
    }
}

/// The files of a template, as pairs of a path template and a content
/// template, with `flake.nix` last when the context asks for it.
pub open spec fn spec_files(m: TemplateManifestView, c: TemplateContextView) -> Option<
    Seq<(Seq<char>, Seq<char>)>,
> {
    match spec_base_files(m, c) {
        Some(fs) => Some(
            if c.include_flake {
                fs.push(("flake.nix"@, COMMON_FLAKE_NIX@))
            } else {
                fs
            },
        ),
        None => None,
    }
}

/// The files of a template, as pairs of a path template and a content
/// template, or `None` when the manifest names no known renderer.
pub fn files(manifest: &TemplateManifest, context: &TemplateContext) -> (r: Option<
    Vec<(&'static str, &'static str)>,
>)
    ensures
        match r {
            Some(v) => spec_files(manifest@, context@) == Some(pair_views(v@)),
            None => spec_files(manifest@, context@) is None,
        },
{
    let gradle = str_eq(context.build_tool.as_str(), "gradle");
    let mut files: Vec<(&'static str, &'static str)>;
    if str_eq(manifest.renderer.as_str(), "plain-app") {
        let main = plain_main_file(manifest.id.as_str());
        let test = plain_test_file(manifest.id.as_str());
        if gradle {
            files = vec![
                (".gitignore", COMMON_GITIGNORE),
                ("README.md", COMMON_README),
                ("jav.toml", COMMON_PLAIN_JAV_TOML),
                ("settings.gradle.kts", CONSOLE_SETTINGS_GRADLE_KTS),
                ("build.gradle.kts", CONSOLE_BUILD_GRADLE_KTS),
                ("src/main/java/{{package_path}}/{{main_class}}.java", main),
                ("src/test/java/{{package_path}}/{{main_class}}Test.java", test),
            ];
            assert(pair_views(files@) =~= plain_gradle_files(manifest@.id));
        } else {
            files = vec![
                (".gitignore", COMMON_GITIGNORE),
                ("README.md", COMMON_README),
                ("jav.toml", COMMON_PLAIN_JAV_TOML),
                ("pom.xml", CONSOLE_POM_XML),
                ("src/main/java/{{package_path}}/{{main_class}}.java", main),
                ("src/test/java/{{package_path}}/{{main_class}}Test.java", test),
            ];
            assert(pair_views(files@) =~= plain_maven_files(manifest@.id));
        }
    } else if str_eq(manifest.renderer.as_str(), "library") {
        if gradle {
            files = vec![
                (".gitignore", COMMON_GITIGNORE),
                ("README.md", COMMON_README),
                ("settings.gradle.kts", LIBRARY_SETTINGS_GRADLE_KTS),
                ("build.gradle.kts", LIBRARY_BUILD_GRADLE_KTS),
                ("src/main/java/{{package_path}}/Library.java", LIBRARY_JAVA),
                ("src/test/java/{{package_path}}/LibraryTest.java", LIBRARY_TEST_JAVA),
            ];
            assert(pair_views(files@) =~= library_gradle_files());
        } else {
            files = vec![
                (".gitignore", COMMON_GITIGNORE),
                ("README.md", COMMON_README),
                ("pom.xml", LIBRARY_POM_XML),
                ("src/main/java/{{package_path}}/Library.java", LIBRARY_JAVA),
                ("src/test/java/{{package_path}}/LibraryTest.java", LIBRARY_TEST_JAVA),
            ];
            assert(pair_views(files@) =~= library_maven_files());
        }
    } else if str_eq(manifest.renderer.as_str(), "springboot") {
        if gradle {
            files = vec![
                (".gitignore", COMMON_GITIGNORE),
                ("README.md", COMMON_README),
                ("jav.toml", COMMON_SPRING_JAV_TOML),
                ("settings.gradle.kts", SPRING_SETTINGS_GRADLE_KTS),
                ("build.gradle.kts", SPRING_BUILD_GRADLE_KTS),
            ];
            assert(pair_views(files@) =~= spring_gradle_files());
        } else {
            files = vec![
                (".gitignore", COMMON_GITIGNORE),
                ("README.md", COMMON_README),
                ("jav.toml", COMMON_SPRING_JAV_TOML),
                ("pom.xml", SPRING_POM_XML),
            ];
            assert(pair_views(files@) =~= spring_maven_files());
        }
        let ghost head = pair_views(files@);
        let mut app = vec![
            ("src/main/java/{{package_path}}/Application.java", SPRING_APPLICATION_JAVA),
            ("src/main/resources/application.properties", SPRING_APPLICATION_PROPERTIES),
            ("src/test/java/{{package_path}}/ApplicationTests.java", SPRING_APPLICATION_TESTS_JAVA),
        ];
        assert(pair_views(app@) =~= spring_app_files());
        files.append(&mut app);
        assert(pair_views(files@) =~= head + spring_app_files());
        let ghost before = pair_views(files@);
        let selected = &context.spring_features;
        let mut i: usize = 0;
        while i < selected.len()
            invariant
                i <= selected@.len(),
                pair_views(files@) == before + spec_feature_files(views(selected@).take(i as int)),
            decreases selected@.len() - i,
        {
            let ghost prefix = views(selected@).take(i as int);
            assert(views(selected@).take(i + 1).drop_last() =~= prefix);
            assert(views(selected@).take(i + 1).last() == selected@[i as int]@);
            match feature(selected[i].as_str()) {
                Some(f) => {
                    let mut extra = f.files;
                    let ghost added = pair_views(extra@);
                    let ghost prior = files@;
                    files.append(&mut extra);
                    assert(pair_views(files@) =~= pair_views(prior) + added);
                    assert(pair_views(files@) =~= before + spec_feature_files(
                        views(selected@).take(i + 1),
                    ));
                },
                None => {
                    assert(spec_feature_files(views(selected@).take(i + 1)) =~= spec_feature_files(
                        prefix,
                    ));
                },
            }
            i = i + 1;
        }
        assert(views(selected@).take(selected@.len() as int) =~= views(selected@));
    } else {
        return None;
    }
    if context.include_flake {
        let ghost prior = files@;
        files.push(("flake.nix", COMMON_FLAKE_NIX));
        assert(pair_views(files@) =~= pair_views(prior).push(("flake.nix"@, COMMON_FLAKE_NIX@)));
    }
    Some(files)
}

// ---------------------------------------------------------------------------
// What every project gets
// ---------------------------------------------------------------------------

/// Some file of `fs` has the path template `p`.
pub open spec fn has_path(fs: Seq<(Seq<char>, Seq<char>)>, p: Seq<char>) -> bool {
    exists|i: int| 0 <= i < fs.len() && (#[trigger] fs[i]).0 == p
}

/// Every path of `fs` is non-empty and starts with a character other than `c`.
pub open spec fn no_path_starts_with(fs: Seq<(Seq<char>, Seq<char>)>, c: char) -> bool {
    forall|i: int| 0 <= i < fs.len() ==> (#[trigger] fs[i]).0.len() > 0 && fs[i].0[0] != c
}

/// Every path of `fs` starts with `src/`'s first letter.
pub open spec fn all_paths_in_src(fs: Seq<(Seq<char>, Seq<char>)>) -> bool {
    forall|i: int| 0 <= i < fs.len() ==> (#[trigger] fs[i]).0.len() > 0 && fs[i].0[0] == 's'
}

/// A path that starts with another character than `p` is not `p`.
proof fn lemma_absent_by_first_char(fs: Seq<(Seq<char>, Seq<char>)>, p: Seq<char>)
    requires
        p.len() > 0,
        no_path_starts_with(fs, p[0]),
    ensures
        !has_path(fs, p),
{
    if has_path(fs, p) {
        let i = choose|i: int| 0 <= i < fs.len() && (#[trigger] fs[i]).0 == p;
        assert(fs[i].0[0] == p[0]);
    }
}

/// The files the features bring all live under `src`.
proof fn lemma_feature_files_in_src(selected: Seq<Seq<char>>)
    ensures
        all_paths_in_src(spec_feature_files(selected)),
    decreases selected.len(),
{
    reveal_strlit("src/main/java/{{package_path}}/HelloController.java");
    reveal_strlit("src/main/java/{{package_path}}/Customer.java");
    reveal_strlit("src/main/java/{{package_path}}/CustomerRepository.java");
    reveal_strlit("src/main/java/{{package_path}}/SecurityConfig.java");
    reveal_strlit("src/main/java/{{package_path}}/BatchJobConfig.java");
    if selected.len() > 0 {
        lemma_feature_files_in_src(selected.drop_last());
        let prev = spec_feature_files(selected.drop_last());
        let extra = match spec_feature(selected.last()) {
            Some(f) => f.files,
            None => Seq::empty(),
        };
        assert(all_paths_in_src(extra));
        assert forall|i: int| 0 <= i < (prev + extra).len() implies (#[trigger] (prev
            + extra)[i]).0.len() > 0 && (prev + extra)[i].0[0] == 's' by {
            if i >= prev.len() {
                assert((prev + extra)[i] == extra[i - prev.len()]);
            }
        }
    }
}

/// The first characters of the path templates that the laws below tell apart.
proof fn lemma_path_first_chars()
    ensures
        ".gitignore"@.len() > 0 && ".gitignore"@[0] == '.',
        "README.md"@.len() > 0 && "README.md"@[0] == 'R',
        "jav.toml"@.len() > 0 && "jav.toml"@[0] == 'j',
        "pom.xml"@.len() > 0 && "pom.xml"@[0] == 'p',
        "settings.gradle.kts"@.len() > 0 && "settings.gradle.kts"@[0] == 's',
        "build.gradle.kts"@.len() > 0 && "build.gradle.kts"@[0] == 'b',
        "flake.nix"@.len() > 0 && "flake.nix"@[0] == 'f',
        "src/main/java/{{package_path}}/{{main_class}}.java"@.len() > 0
            && "src/main/java/{{package_path}}/{{main_class}}.java"@[0] == 's',
        "src/test/java/{{package_path}}/{{main_class}}Test.java"@.len() > 0
            && "src/test/java/{{package_path}}/{{main_class}}Test.java"@[0] == 's',
        "src/main/java/{{package_path}}/Library.java"@.len() > 0
            && "src/main/java/{{package_path}}/Library.java"@[0] == 's',
        "src/test/java/{{package_path}}/LibraryTest.java"@.len() > 0
            && "src/test/java/{{package_path}}/LibraryTest.java"@[0] == 's',
        "src/main/java/{{package_path}}/Application.java"@.len() > 0
            && "src/main/java/{{package_path}}/Application.java"@[0] == 's',
        "src/main/resources/application.properties"@.len() > 0
            && "src/main/resources/application.properties"@[0] == 's',
        "src/test/java/{{package_path}}/ApplicationTests.java"@.len() > 0
            && "src/test/java/{{package_path}}/ApplicationTests.java"@[0] == 's',
{
    reveal_strlit(".gitignore");
    reveal_strlit("README.md");
    reveal_strlit("jav.toml");
    reveal_strlit("pom.xml");
    reveal_strlit("settings.gradle.kts");
    reveal_strlit("build.gradle.kts");
    reveal_strlit("flake.nix");
    reveal_strlit("src/main/java/{{package_path}}/{{main_class}}.java");
    reveal_strlit("src/test/java/{{package_path}}/{{main_class}}Test.java");
    reveal_strlit("src/main/java/{{package_path}}/Library.java");
    reveal_strlit("src/test/java/{{package_path}}/LibraryTest.java");
    reveal_strlit("src/main/java/{{package_path}}/Application.java");
    reveal_strlit("src/main/resources/application.properties");
    reveal_strlit("src/test/java/{{package_path}}/ApplicationTests.java");
}

/// The first characters of the paths of the template files, before the
/// flake: which of `.`, `R`, `j`, `p`, `s` and `b` occur.
proof fn lemma_base_first_chars(m: TemplateManifestView, c: TemplateContextView)
    requires
        spec_base_files(m, c) is Some,
    ensures
        no_path_starts_with(spec_base_files(m, c).unwrap(), 'f'),
        m.renderer == "library"@ ==> no_path_starts_with(spec_base_files(m, c).unwrap(), 'j'),
        c.build_tool == "gradle"@ ==> no_path_starts_with(spec_base_files(m, c).unwrap(), 'p'),
        c.build_tool != "gradle"@ ==> no_path_starts_with(spec_base_files(m, c).unwrap(), 'b'),
{
    lemma_path_first_chars();
    lemma_feature_files_in_src(c.spring_features);
    reveal_strlit("library");
    reveal_strlit("plain-app");
    assert("library"@[0] != "plain-app"@[0]);
    let fs = spec_base_files(m, c).unwrap();
    if m.renderer == "springboot"@ && m.renderer != "plain-app"@ && m.renderer != "library"@ {
        let head = if c.build_tool == "gradle"@ {
            spring_gradle_files()
        } else {
            spring_maven_files()
        };
        let tail = spring_app_files() + spec_feature_files(c.spring_features);
        assert(fs == head + tail);
        assert forall|i: int| 0 <= i < tail.len() implies (#[trigger] tail[i]).0.len() > 0
            && tail[i].0[0] == 's' by {
            if i >= 3 {
                assert(tail[i] == spec_feature_files(c.spring_features)[i - 3]);
            }
        }
        assert forall|i: int| 0 <= i < fs.len() implies (#[trigger] fs[i]).0.len() > 0 && (
        fs[i].0[0] == '.' || fs[i].0[0] == 'R' || fs[i].0[0] == 'j' || fs[i].0[0] == 's' || (
        fs[i].0[0] == 'p' && c.build_tool != "gradle"@) || (fs[i].0[0] == 'b' && c.build_tool
            == "gradle"@)) by {
            if i >= head.len() {
                assert(fs[i] == tail[i - head.len()]);
            }
        }
    }
}

/// The Nix flake is among the files of a template exactly when the context
/// asks for it.
pub proof fn lemma_flake_iff_requested(m: TemplateManifestView, c: TemplateContextView)
    requires
        spec_files(m, c) is Some,
    ensures
        has_path(spec_files(m, c).unwrap(), "flake.nix"@) <==> c.include_flake,
{
    lemma_path_first_chars();
    lemma_base_first_chars(m, c);
    let base = spec_base_files(m, c).unwrap();
    let fs = spec_files(m, c).unwrap();
    if c.include_flake {
        assert(fs[fs.len() - 1].0 == "flake.nix"@);
    } else {
        lemma_absent_by_first_char(base, "flake.nix"@);
    }
}

/// Runnable templates get a `jav.toml` with their run defaults; libraries
/// do not.
pub proof fn lemma_run_config_iff_runnable(m: TemplateManifestView, c: TemplateContextView)
    requires
        spec_files(m, c) is Some,
    ensures
        has_path(spec_files(m, c).unwrap(), "jav.toml"@) <==> m.renderer != "library"@,
{
    lemma_path_first_chars();
    lemma_base_first_chars(m, c);
    let base = spec_base_files(m, c).unwrap();
    let fs = spec_files(m, c).unwrap();
    if m.renderer == "library"@ {
        lemma_absent_by_first_char(base, "jav.toml"@);
        if c.include_flake {
            assert(no_path_starts_with(fs, 'j')) by {
                assert forall|i: int| 0 <= i < fs.len() implies (#[trigger] fs[i]).0.len() > 0
                    && fs[i].0[0] != 'j' by {
                    if i < base.len() {
                        assert(fs[i] == base[i]);
                    }
                }
            }
        }
        lemma_absent_by_first_char(fs, "jav.toml"@);
    } else {
        assert(fs[2] == base[2]);
        assert(fs[2].0 == "jav.toml"@);
    }
}

/// A Gradle project gets `build.gradle.kts` and no `pom.xml`; any other
/// build tool gets `pom.xml` and no `build.gradle.kts`.
pub proof fn lemma_build_file_follows_build_tool(m: TemplateManifestView, c: TemplateContextView)
    requires
        spec_files(m, c) is Some,
    ensures
        has_path(spec_files(m, c).unwrap(), "build.gradle.kts"@) <==> c.build_tool == "gradle"@,
        has_path(spec_files(m, c).unwrap(), "pom.xml"@) <==> c.build_tool != "gradle"@,
{
    lemma_path_first_chars();
    lemma_base_first_chars(m, c);
    let base = spec_base_files(m, c).unwrap();
    let fs = spec_files(m, c).unwrap();
    assert forall|i: int| 0 <= i < base.len() implies fs[i] == base[i] by {}
    let gradle = c.build_tool == "gradle"@;
    let absent = if gradle {
        'p'
    } else {
        'b'
    };
    assert(no_path_starts_with(fs, absent)) by {
        assert forall|i: int| 0 <= i < fs.len() implies (#[trigger] fs[i]).0.len() > 0
            && fs[i].0[0] != absent by {
            if i < base.len() {
                assert(fs[i] == base[i]);
            } else {
                assert(fs[i].0 == "flake.nix"@);
            }
        }
    }
    if gradle {
        lemma_absent_by_first_char(fs, "pom.xml"@);
        if m.renderer == "library"@ {
            assert(fs[3].0 == "build.gradle.kts"@);
        } else {
            assert(fs[4].0 == "build.gradle.kts"@);
        }
    } else {
        lemma_absent_by_first_char(fs, "build.gradle.kts"@);
        if m.renderer == "library"@ {
            assert(fs[2].0 == "pom.xml"@);
        } else {
            assert(fs[3].0 == "pom.xml"@);
        }
    }
}


// ---------------------------------------------------------------------------
// Every installed template answers to its own names
// ---------------------------------------------------------------------------

/// Enough of a name to tell the installed template names apart: its
/// length and its first, second and seventh characters.
spec fn name_key(s: Seq<char>) -> (nat, char, char, char) {
    (s.len(), s[0], s[1], if s.len() > 6 { s[6] } else { ' ' })
}

/// The keys of the installed template names.
proof fn lemma_name_keys()
    ensures
        name_key("console"@) == (7nat, 'c', 'o', 'e'),
        name_key("cli"@) == (3nat, 'c', 'l', ' '),
        name_key("worker"@) == (6nat, 'w', 'o', ' '),
        name_key("library"@) == (7nat, 'l', 'i', 'y'),
        name_key("junit"@) == (5nat, 'j', 'u', ' '),
        name_key("springboot"@) == (10nat, 's', 'p', 'b'),
        name_key("springweb"@) == (9nat, 's', 'p', 'w'),
        name_key("springdata"@) == (10nat, 's', 'p', 'd'),
        name_key("springsecurity"@) == (14nat, 's', 'p', 's'),
        name_key("springbatch"@) == (11nat, 's', 'p', 'b'),
        name_key("classlib"@) == (8nat, 'c', 'l', 'i'),
        name_key("spring"@) == (6nat, 's', 'p', ' '),
        name_key("webapi"@) == (6nat, 'w', 'e', ' '),
{
    reveal_strlit("console");
    reveal_strlit("cli");
    reveal_strlit("worker");
    reveal_strlit("library");
    reveal_strlit("junit");
    reveal_strlit("springboot");
    reveal_strlit("springweb");
    reveal_strlit("springdata");
    reveal_strlit("springsecurity");
    reveal_strlit("springbatch");
    reveal_strlit("classlib");
    reveal_strlit("spring");
    reveal_strlit("webapi");
}

/// The names a template answers to: its id, then its aliases.
pub open spec fn names_of(m: TemplateManifestView) -> Seq<Seq<char>> {
    seq![m.id] + m.aliases
}

/// The installed manifests, by id, in listing order.
spec fn installed_by_id() -> Seq<TemplateManifestView> {
    spec_template_ids().map_values(|id: Seq<char>| spec_manifest_by_id(id).unwrap())
}

/// When every id names a manifest, `manifests_of` is that list.
proof fn lemma_manifests_of_all(ids: Seq<Seq<char>>)
    requires
        forall|k: int| 0 <= k < ids.len() ==> (#[trigger] spec_manifest_by_id(ids[k])) is Some,
    ensures
        manifests_of(ids) == ids.map_values(|id: Seq<char>| spec_manifest_by_id(id).unwrap()),
    decreases ids.len(),
{
    if ids.len() > 0 {
        assert(spec_manifest_by_id(ids[ids.len() - 1]) is Some);
        lemma_manifests_of_all(ids.drop_last());
        assert(ids.map_values(|id: Seq<char>| spec_manifest_by_id(id).unwrap()) =~= ids.drop_last().map_values(
            |id: Seq<char>| spec_manifest_by_id(id).unwrap(),
        ).push(spec_manifest_by_id(ids.last()).unwrap()));
    }
}

/// The first manifest that answers to `name` is the one at `k` when no
/// earlier one does.
proof fn lemma_first_answering_at(ms: Seq<TemplateManifestView>, name: Seq<char>, k: int)
    requires
        0 <= k < ms.len(),
        answers_to(ms[k], name),
        forall|j: int| 0 <= j < k ==> !answers_to(#[trigger] ms[j], name),
    ensures
        first_answering(ms, name) == Some(ms[k]),
    decreases k,
{
    if k > 0 {
        assert(!answers_to(ms[0], name));
        assert forall|j: int| 0 <= j < k - 1 implies !answers_to(#[trigger] ms.drop_first()[j], name) by {
            assert(ms.drop_first()[j] == ms[j + 1]);
        }
        lemma_first_answering_at(ms.drop_first(), name, k - 1);
    }
}

/// The installed manifests, explicitly, and their names.
proof fn lemma_installed_manifests()
    ensures
        spec_manifests() == installed_by_id(),
        installed_by_id().len() == 10,
        forall|k: int| 0 <= k < 10 ==> #[trigger] installed_by_id()[k].id == spec_template_ids()[k],
        installed_by_id()[0].aliases == Seq::<Seq<char>>::empty(),
        installed_by_id()[1].aliases == Seq::<Seq<char>>::empty(),
        installed_by_id()[2].aliases == Seq::<Seq<char>>::empty(),
        installed_by_id()[3].aliases == seq!["classlib"@],
        installed_by_id()[4].aliases == Seq::<Seq<char>>::empty(),
        installed_by_id()[5].aliases == seq!["spring"@],
        installed_by_id()[6].aliases == seq!["webapi"@],
        installed_by_id()[7].aliases == Seq::<Seq<char>>::empty(),
        installed_by_id()[8].aliases == Seq::<Seq<char>>::empty(),
        installed_by_id()[9].aliases == Seq::<Seq<char>>::empty(),
{
    lemma_name_keys();
    let ids = spec_template_ids();
    assert forall|k: int| 0 <= k < ids.len() implies (#[trigger] spec_manifest_by_id(ids[k])) is Some by {}
    lemma_manifests_of_all(ids);
    let ms = installed_by_id();
    assert(ms[3].aliases =~= seq!["classlib"@]);
    assert(ms[5].aliases =~= seq!["spring"@]);
    assert(ms[6].aliases =~= seq!["webapi"@]);
    assert(ms[0].aliases =~= Seq::<Seq<char>>::empty());
    assert(ms[1].aliases =~= Seq::<Seq<char>>::empty());
    assert(ms[2].aliases =~= Seq::<Seq<char>>::empty());
    assert(ms[4].aliases =~= Seq::<Seq<char>>::empty());
    assert(ms[7].aliases =~= Seq::<Seq<char>>::empty());
    assert(ms[8].aliases =~= Seq::<Seq<char>>::empty());
    assert(ms[9].aliases =~= Seq::<Seq<char>>::empty());
}

/// Each installed template answers to its id and to each of its aliases:
/// looking any of them up gives that template.  So an alias, such as
/// `webapi` for `springweb`, resolves exactly as the template's id does.
pub proof fn lemma_names_resolve_to_their_template()
    ensures
        forall|k: int, name: Seq<char>|
            0 <= k < spec_manifests().len() && #[trigger] names_of(spec_manifests()[k]).contains(
                name,
            ) ==> spec_manifest(name) == Some(spec_manifests()[k]),
{
    lemma_installed_manifests();
    lemma_name_keys();
    let ms = spec_manifests();
    assert forall|k: int, name: Seq<char>|
        0 <= k < ms.len() && #[trigger] names_of(ms[k]).contains(name) implies spec_manifest(name)
        == Some(ms[k]) by {
        let i = choose|i: int| 0 <= i < names_of(ms[k]).len() && names_of(ms[k])[i] == name;
        assert(answers_to(ms[k], name)) by {
            if i > 0 {
                assert(ms[k].aliases[i - 1] == name);
            }
        }
        assert forall|j: int| 0 <= j < k implies !answers_to(#[trigger] ms[j], name) by {
            if answers_to(ms[j], name) {
                if ms[j].aliases.contains(name) {
                    let a = choose|a: int| 0 <= a < ms[j].aliases.len() && ms[j].aliases[a] == name;
                    assert(name_key(ms[j].aliases[a]) == name_key(name));
                }
                assert(name_key(names_of(ms[k])[i]) == name_key(name));
            }
        }
        lemma_first_answering_at(ms, name, k);
    }
}


// ---------------------------------------------------------------------------
// Selected features bring their files
// ---------------------------------------------------------------------------

/// Every file of a selected feature is among the files the selection brings.
proof fn lemma_selected_feature_files(selected: Seq<Seq<char>>, k: int, j: int)
    requires
        0 <= k < selected.len(),
        spec_feature(selected[k]) is Some,
        0 <= j < spec_feature(selected[k]).unwrap().files.len(),
    ensures
        spec_feature_files(selected).contains(spec_feature(selected[k]).unwrap().files[j]),
    decreases selected.len(),
{
    let prev = spec_feature_files(selected.drop_last());
    let extra = match spec_feature(selected.last()) {
        Some(f) => f.files,
        None => Seq::empty(),
    };
    assert(spec_feature_files(selected) == prev + extra);
    if k == selected.len() - 1 {
        assert((prev + extra)[prev.len() + j] == extra[j]);
    } else {
        assert(selected.drop_last()[k] == selected[k]);
        lemma_selected_feature_files(selected.drop_last(), k, j);
        let i = choose|i: int| 0 <= i < prev.len() && prev[i] == spec_feature(selected[k]).unwrap().files[j];
        assert((prev + extra)[i] == prev[i]);
    }
}

/// A Spring Boot project gets every file of every Spring feature it is
/// rendered with, such as `HelloController.java` for `web`.
pub proof fn lemma_spring_features_bring_their_files(
    m: TemplateManifestView,
    c: TemplateContextView,
    k: int,
    j: int,
)
    requires
        m.renderer == "springboot"@,
        0 <= k < c.spring_features.len(),
        spec_feature(c.spring_features[k]) is Some,
        0 <= j < spec_feature(c.spring_features[k]).unwrap().files.len(),
    ensures
        spec_files(m, c) is Some,
        spec_files(m, c).unwrap().contains(spec_feature(c.spring_features[k]).unwrap().files[j]),
{
    reveal_strlit("springboot");
    reveal_strlit("plain-app");
    reveal_strlit("library");
    assert("springboot"@[0] != "plain-app"@[0]);
    assert("springboot"@[0] != "library"@[0]);
    lemma_selected_feature_files(c.spring_features, k, j);
    let file = spec_feature(c.spring_features[k]).unwrap().files[j];
    let head = if c.build_tool == "gradle"@ {
        spring_gradle_files()
    } else {
        spring_maven_files()
    };
    let tail = spec_feature_files(c.spring_features);
    let base = spec_base_files(m, c).unwrap();
    assert(base == head + spring_app_files() + tail);
    let i = choose|i: int| 0 <= i < tail.len() && tail[i] == file;
    let at = head.len() + spring_app_files().len() + i;
    assert(base[at] == file);
    let fs = spec_files(m, c).unwrap();
    assert(fs[at] == file);
}

} // verus!
