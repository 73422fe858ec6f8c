//! Rendering a template into the files of a new project.
//!
//! Paths and contents are Tera templates.  The variables they are rendered
//! with are computed here from a `TemplateContext`; the rendering itself is
//! Tera's.  Writing the files is left to the caller.
use crate::templates::content::{
    COMMON_GITIGNORE, COMMON_README, COMMON_PLAIN_JAV_TOML, COMMON_SPRING_JAV_TOML, COMMON_FLAKE_NIX, CONSOLE_POM_XML, CONSOLE_SETTINGS_GRADLE_KTS, CONSOLE_BUILD_GRADLE_KTS, CONSOLE_MAIN_JAVA, CONSOLE_MAIN_TEST_JAVA, CLI_COMMAND_APP_JAVA, CLI_COMMAND_APP_TEST_JAVA, WORKER_JAVA, WORKER_TEST_JAVA, JUNIT_CALCULATOR_JAVA, JUNIT_CALCULATOR_TEST_JAVA, LIBRARY_POM_XML, LIBRARY_SETTINGS_GRADLE_KTS, LIBRARY_BUILD_GRADLE_KTS, LIBRARY_JAVA, LIBRARY_TEST_JAVA, SPRING_POM_XML, SPRING_SETTINGS_GRADLE_KTS, SPRING_BUILD_GRADLE_KTS, SPRING_APPLICATION_JAVA, SPRING_APPLICATION_PROPERTIES, SPRING_APPLICATION_TESTS_JAVA, SPRING_HELLO_CONTROLLER_JAVA, SPRING_CUSTOMER_JAVA, SPRING_CUSTOMER_REPOSITORY_JAVA, SPRING_SECURITY_CONFIG_JAVA, SPRING_BATCH_JOB_CONFIG_JAVA,
};
use crate::templates::{
    answers_to, files, first_answering, lemma_names_resolve_to_their_template, names_of, spec_base_files, spec_feature_files, spring_app_files, spring_gradle_files, spring_maven_files, plain_gradle_files, plain_maven_files, library_gradle_files, library_maven_files, manifest, manifests_of, spec_manifest_by_id, spec_manifests, spec_template_ids, spec_feature, spec_files, spec_manifest, feature, SpringFeatureView,
    TemplateContext, TemplateContextView, TemplateManifestView,
};
use crate::text::{is_blank, owned, spec_is_blank, spec_is_whitespace, str_eq, str_views, views};
use vstd::prelude::*;

verus! {

// ---------------------------------------------------------------------------
// Tera
// ---------------------------------------------------------------------------

#[verifier::external_type_specification]
#[verifier::external_body]
pub struct ExTeraContext(tera::Context);

/// The value of a template variable.
pub enum ContextValue {
    Text(Seq<char>),
    Flag(bool),
    List(Seq<Seq<char>>),
}

/// The variables a Tera context holds, by name.
pub uninterp spec fn context_entries(context: tera::Context) -> Map<Seq<char>, ContextValue>;

/// What `tera::Tera::one_off` renders from a template and the variables of
/// its context, or `None` where it fails.
pub uninterp spec fn tera_one_off(
    input: Seq<char>,
    entries: Map<Seq<char>, ContextValue>,
    autoescape: bool,
) -> Option<Seq<char>>;

/// No variables at all.
pub open spec fn no_entries() -> Map<Seq<char>, ContextValue> {
    Map::empty()
}

/// An empty context.
///
/// Trusted: `tera::Context::new`, which builds a context over an empty map.
#[verifier::external_body]
fn context_new() -> (c: tera::Context)
    ensures
        context_entries(c) == no_entries(),
{
    tera::Context::new()
}

/// Sets a text variable.
///
/// Trusted: `tera::Context::insert` with a `&str` value, which stores the
/// value under the key as a JSON string, replacing what the key held.
#[verifier::external_body]
fn context_insert_text(context: &mut tera::Context, key: &str, value: &str)
    ensures
        context_entries(*final(context)) == context_entries(*old(context)).insert(
            key@,
            ContextValue::Text(value@),
        ),
{
    context.insert(key, value);
}

/// Sets a boolean variable.
///
/// Trusted: `tera::Context::insert` with a `bool` value, which stores the
/// value under the key as a JSON boolean, replacing what the key held.
#[verifier::external_body]
fn context_insert_flag(context: &mut tera::Context, key: &str, value: bool)
    ensures
        context_entries(*final(context)) == context_entries(*old(context)).insert(
            key@,
            ContextValue::Flag(value),
        ),
{
    context.insert(key, &value);
}

/// Sets a list variable.
///
/// Trusted: `tera::Context::insert` with a `Vec<&str>` value, which stores
/// the value under the key as a JSON array of strings in the same order,
/// replacing what the key held.
#[verifier::external_body]
fn context_insert_list(context: &mut tera::Context, key: &str, value: &Vec<&str>)
    ensures
        context_entries(*final(context)) == context_entries(*old(context)).insert(
            key@,
            ContextValue::List(str_views(value@)),
        ),
{
    context.insert(key, value);
}

/// The texts of this library's own templates: every path template and
/// every content template that a template's files are made of.
pub open spec fn spec_template_texts() -> Seq<Seq<char>> {
    seq![
        ".gitignore"@,
        "README.md"@,
        "jav.toml"@,
        "pom.xml"@,
        "settings.gradle.kts"@,
        "build.gradle.kts"@,
        "flake.nix"@,
        "src/main/java/{{package_path}}/{{main_class}}.java"@,
        "src/test/java/{{package_path}}/{{main_class}}Test.java"@,
        "src/main/java/{{package_path}}/Library.java"@,
        "src/test/java/{{package_path}}/LibraryTest.java"@,
        "src/main/java/{{package_path}}/Application.java"@,
        "src/main/resources/application.properties"@,
        "src/test/java/{{package_path}}/ApplicationTests.java"@,
        "src/main/java/{{package_path}}/HelloController.java"@,
        "src/main/java/{{package_path}}/Customer.java"@,
        "src/main/java/{{package_path}}/CustomerRepository.java"@,
        "src/main/java/{{package_path}}/SecurityConfig.java"@,
        "src/main/java/{{package_path}}/BatchJobConfig.java"@,
        COMMON_GITIGNORE@,
        COMMON_README@,
        COMMON_PLAIN_JAV_TOML@,
        COMMON_SPRING_JAV_TOML@,
        COMMON_FLAKE_NIX@,
        CONSOLE_POM_XML@,
        CONSOLE_SETTINGS_GRADLE_KTS@,
        CONSOLE_BUILD_GRADLE_KTS@,
        CONSOLE_MAIN_JAVA@,
        CONSOLE_MAIN_TEST_JAVA@,
        CLI_COMMAND_APP_JAVA@,
        CLI_COMMAND_APP_TEST_JAVA@,
        WORKER_JAVA@,
        WORKER_TEST_JAVA@,
        JUNIT_CALCULATOR_JAVA@,
        JUNIT_CALCULATOR_TEST_JAVA@,
        LIBRARY_POM_XML@,
        LIBRARY_SETTINGS_GRADLE_KTS@,
        LIBRARY_BUILD_GRADLE_KTS@,
        LIBRARY_JAVA@,
        LIBRARY_TEST_JAVA@,
        SPRING_POM_XML@,
        SPRING_SETTINGS_GRADLE_KTS@,
        SPRING_BUILD_GRADLE_KTS@,
        SPRING_APPLICATION_JAVA@,
        SPRING_APPLICATION_PROPERTIES@,
        SPRING_APPLICATION_TESTS_JAVA@,
        SPRING_HELLO_CONTROLLER_JAVA@,
        SPRING_CUSTOMER_JAVA@,
        SPRING_CUSTOMER_REPOSITORY_JAVA@,
        SPRING_SECURITY_CONFIG_JAVA@,
        SPRING_BATCH_JOB_CONFIG_JAVA@,
    ]
}

/// The texts of this library's own templates.
pub fn template_texts() -> (r: Vec<&'static str>)
    ensures
        str_views(r@) == spec_template_texts(),
{
    let r = vec![
        ".gitignore",
        "README.md",
        "jav.toml",
        "pom.xml",
        "settings.gradle.kts",
        "build.gradle.kts",
        "flake.nix",
        "src/main/java/{{package_path}}/{{main_class}}.java",
        "src/test/java/{{package_path}}/{{main_class}}Test.java",
        "src/main/java/{{package_path}}/Library.java",
        "src/test/java/{{package_path}}/LibraryTest.java",
        "src/main/java/{{package_path}}/Application.java",
        "src/main/resources/application.properties",
        "src/test/java/{{package_path}}/ApplicationTests.java",
        "src/main/java/{{package_path}}/HelloController.java",
        "src/main/java/{{package_path}}/Customer.java",
        "src/main/java/{{package_path}}/CustomerRepository.java",
        "src/main/java/{{package_path}}/SecurityConfig.java",
        "src/main/java/{{package_path}}/BatchJobConfig.java",
        COMMON_GITIGNORE,
        COMMON_README,
        COMMON_PLAIN_JAV_TOML,
        COMMON_SPRING_JAV_TOML,
        COMMON_FLAKE_NIX,
        CONSOLE_POM_XML,
        CONSOLE_SETTINGS_GRADLE_KTS,
        CONSOLE_BUILD_GRADLE_KTS,
        CONSOLE_MAIN_JAVA,
        CONSOLE_MAIN_TEST_JAVA,
        CLI_COMMAND_APP_JAVA,
        CLI_COMMAND_APP_TEST_JAVA,
        WORKER_JAVA,
        WORKER_TEST_JAVA,
        JUNIT_CALCULATOR_JAVA,
        JUNIT_CALCULATOR_TEST_JAVA,
        LIBRARY_POM_XML,
        LIBRARY_SETTINGS_GRADLE_KTS,
        LIBRARY_BUILD_GRADLE_KTS,
        LIBRARY_JAVA,
        LIBRARY_TEST_JAVA,
        SPRING_POM_XML,
        SPRING_SETTINGS_GRADLE_KTS,
        SPRING_BUILD_GRADLE_KTS,
        SPRING_APPLICATION_JAVA,
        SPRING_APPLICATION_PROPERTIES,
        SPRING_APPLICATION_TESTS_JAVA,
        SPRING_HELLO_CONTROLLER_JAVA,
        SPRING_CUSTOMER_JAVA,
        SPRING_CUSTOMER_REPOSITORY_JAVA,
        SPRING_SECURITY_CONFIG_JAVA,
        SPRING_BATCH_JOB_CONFIG_JAVA,
    ];
    assert(str_views(r@) =~= spec_template_texts());
    r
}

/// Whether `text` is one of this library's own template texts.
pub fn is_template_text(text: &str) -> (r: bool)
    ensures
        r == spec_template_texts().contains(text@),
{
    let texts = template_texts();
    let mut i: usize = 0;
    while i < texts.len()
        invariant
            str_views(texts@) == spec_template_texts(),
            i <= texts@.len(),
            forall|j: int| 0 <= j < i ==> texts@[j]@ != text@,
        decreases texts@.len() - i,
    {
        if str_eq(texts[i], text) {
            assert(spec_template_texts()[i as int] == text@);
            return true;
        }
        i = i + 1;
    }
    assert forall|j: int| 0 <= j < spec_template_texts().len() implies spec_template_texts()[j]
        != text@ by {
        assert(spec_template_texts()[j] == texts@[j]@);
    }
    false
}

/// Renders a template once.
///
/// Trusted: `tera::Tera::one_off`, whose result is named `tera_one_off`
/// over the template, the variables of the context and the autoescape flag.
/// `requires` admits only this library's own template texts
/// (`spec_template_texts`).  They use nothing but variables, `if` on a
/// variable with `else`, and `for` over a variable, never nested deeper
/// than one level: no function call, filter, arithmetic, include or macro.
/// On such a text Tera returns, and what it returns depends on the text,
/// the variables and the flag alone.  The text of a rendering error is not
/// stated.
#[verifier::external_body]
fn one_off(input: &str, context: &tera::Context, autoescape: bool) -> (r: Result<String, String>)
    requires
        spec_template_texts().contains(input@),
    ensures
        r is Ok <==> tera_one_off(input@, context_entries(*context), autoescape) is Some,
        r matches Ok(s) ==> tera_one_off(input@, context_entries(*context), autoescape) == Some(
            s@,
        ),
{
    tera::Tera::one_off(input, context, autoescape).map_err(|e| e.to_string())
}

// ---------------------------------------------------------------------------
// Template variables
// ---------------------------------------------------------------------------

/// Which dependency of a Spring feature is wanted.
#[derive(Debug, Clone, Copy, PartialEq, Eq, Structural)]
pub enum DependencyKind {
    Maven,
    Gradle,
    RuntimeMaven,
    RuntimeGradle,
}

/// The wanted dependency of a feature, if it has one.
pub open spec fn dependency_of(f: SpringFeatureView, kind: DependencyKind) -> Option<Seq<char>> {
    match kind {
        DependencyKind::Maven => f.maven_dependency,
        DependencyKind::Gradle => f.gradle_dependency,
        DependencyKind::RuntimeMaven => f.runtime_maven_dependency,
        DependencyKind::RuntimeGradle => f.runtime_gradle_dependency,
    }
}

/// The wanted dependencies of the selected features, in order; unknown
/// features and features without such a dependency add nothing.
pub open spec fn spec_spring_values(selected: Seq<Seq<char>>, kind: DependencyKind) -> Seq<
    Seq<char>,
>
    decreases selected.len(),
{
    if selected.len() == 0 {
        Seq::empty()
    } else {
        let rest = spec_spring_values(selected.drop_last(), kind);
        match spec_feature(selected.last()) {
            Some(f) => match dependency_of(f, kind) {
                Some(d) => rest.push(d),
                None => rest,
            },
            None => rest,
        }
    }
}

/// The wanted dependencies of the features of the context, in order.
pub fn spring_values(context: &TemplateContext, kind: DependencyKind) -> (r: Vec<&'static str>)
    ensures
        str_views(r@) == spec_spring_values(context@.spring_features, kind),
{
    let selected = &context.spring_features;
    let mut r: Vec<&'static str> = Vec::new();
    let mut i: usize = 0;
    while i < selected.len()
        invariant
            i <= selected@.len(),
            selected@ == context.spring_features@,
            str_views(r@) == spec_spring_values(views(selected@).take(i as int), kind),
        decreases selected@.len() - i,
    {
        assert(views(selected@).take(i + 1).drop_last() =~= views(selected@).take(i as int));
        assert(views(selected@).take(i + 1).last() == selected@[i as int]@);
        match feature(selected[i].as_str()) {
            Some(f) => {
                let d = match kind {
                    DependencyKind::Maven => f.maven_dependency,
                    DependencyKind::Gradle => f.gradle_dependency,
                    DependencyKind::RuntimeMaven => f.runtime_maven_dependency,
                    DependencyKind::RuntimeGradle => f.runtime_gradle_dependency,
                };
                match d {
                    Some(dep) => {
                        let ghost before = r@;
                        r.push(dep);
                        assert(str_views(r@) =~= str_views(before).push(dep@));
                    },
                    None => {},
                }
            },
            None => {},
        }
        i = i + 1;
    }
    assert(views(selected@).take(selected@.len() as int) =~= views(selected@));
    r
}

/// A feature that makes the project a Spring application.
pub open spec fn is_spring_starter(id: Seq<char>) -> bool {
    id == "web"@ || id == "actuator"@ || id == "data-jpa"@ || id == "security"@ || id
        == "postgresql"@ || id == "batch"@
}

/// Some selected feature makes the project a Spring application.
pub open spec fn spec_is_spring(selected: Seq<Seq<char>>) -> bool {
    exists|i: int| 0 <= i < selected.len() && is_spring_starter(#[trigger] selected[i])
}

fn is_spring(selected: &Vec<String>) -> (r: bool)
    ensures
        r == spec_is_spring(views(selected@)),
{
    let mut i: usize = 0;
    while i < selected.len()
        invariant
            i <= selected@.len(),
            forall|j: int| 0 <= j < i ==> !is_spring_starter(#[trigger] views(selected@)[j]),
        decreases selected@.len() - i,
    {
        let s = selected[i].as_str();
        assert(views(selected@)[i as int] == s@);
        if str_eq(s, "web") || str_eq(s, "actuator") || str_eq(s, "data-jpa") || str_eq(
            s,
            "security",
        ) || str_eq(s, "postgresql") || str_eq(s, "batch") {
            return true;
        }
        i = i + 1;
    }
    false
}

fn has_feature(selected: &Vec<String>, id: &str) -> (r: bool)
    ensures
        r == views(selected@).contains(id@),
{
    let mut i: usize = 0;
    while i < selected.len()
        invariant
            i <= selected@.len(),
            forall|j: int| 0 <= j < i ==> #[trigger] views(selected@)[j] != id@,
        decreases selected@.len() - i,
    {
        assert(views(selected@)[i as int] == selected@[i as int]@);
        if str_eq(selected[i].as_str(), id) {
            return true;
        }
        i = i + 1;
    }
    false
}

/// The variables every template is rendered with.
pub open spec fn spec_template_vars(c: TemplateContextView) -> Map<Seq<char>, ContextValue> {
    no_entries().insert(
        "project_name"@,
        ContextValue::Text(c.project_name),
    ).insert("package_name"@, ContextValue::Text(c.package_name)).insert(
        "package_path"@,
        ContextValue::Text(c.package_path),
    ).insert("java_version"@, ContextValue::Text(c.java_version)).insert(
        "build_tool"@,
        ContextValue::Text(c.build_tool),
    ).insert("is_maven"@, ContextValue::Flag(c.build_tool == "maven"@)).insert(
        "is_gradle"@,
        ContextValue::Flag(c.build_tool == "gradle"@),
    ).insert("is_spring"@, ContextValue::Flag(spec_is_spring(c.spring_features))).insert(
        "spring_boot_version"@,
        ContextValue::Text(c.spring_boot_version),
    ).insert("main_class"@, ContextValue::Text(c.main_class)).insert(
        "spring_maven_dependencies"@,
        ContextValue::List(spec_spring_values(c.spring_features, DependencyKind::Maven)),
    ).insert(
        "spring_gradle_dependencies"@,
        ContextValue::List(spec_spring_values(c.spring_features, DependencyKind::Gradle)),
    ).insert(
        "spring_runtime_maven_dependencies"@,
        ContextValue::List(spec_spring_values(c.spring_features, DependencyKind::RuntimeMaven)),
    ).insert(
        "spring_runtime_gradle_dependencies"@,
        ContextValue::List(spec_spring_values(c.spring_features, DependencyKind::RuntimeGradle)),
    ).insert("spring_has_web"@, ContextValue::Flag(c.spring_features.contains("web"@))).insert(
        "spring_has_actuator"@,
        ContextValue::Flag(c.spring_features.contains("actuator"@)),
    ).insert(
        "spring_has_data_jpa"@,
        ContextValue::Flag(c.spring_features.contains("data-jpa"@)),
    ).insert(
        "spring_has_security"@,
        ContextValue::Flag(c.spring_features.contains("security"@)),
    ).insert("spring_has_lombok"@, ContextValue::Flag(c.spring_features.contains("lombok"@))).insert(
        "spring_has_postgresql"@,
        ContextValue::Flag(c.spring_features.contains("postgresql"@)),
    ).insert("spring_has_batch"@, ContextValue::Flag(c.spring_features.contains("batch"@)))
}

/// The Tera context a template context is rendered with.
pub fn tera_context(context: &TemplateContext) -> (r: tera::Context)
    ensures
        context_entries(r) == spec_template_vars(context@),
{
    let features = &context.spring_features;
    let mut t = context_new();
    context_insert_text(&mut t, "project_name", context.project_name.as_str());
    context_insert_text(&mut t, "package_name", context.package_name.as_str());
    context_insert_text(&mut t, "package_path", context.package_path.as_str());
    context_insert_text(&mut t, "java_version", context.java_version.as_str());
    context_insert_text(&mut t, "build_tool", context.build_tool.as_str());
    context_insert_flag(&mut t, "is_maven", str_eq(context.build_tool.as_str(), "maven"));
    context_insert_flag(&mut t, "is_gradle", str_eq(context.build_tool.as_str(), "gradle"));
    context_insert_flag(&mut t, "is_spring", is_spring(features));
    context_insert_text(&mut t, "spring_boot_version", context.spring_boot_version.as_str());
    context_insert_text(&mut t, "main_class", context.main_class.as_str());
    let maven = spring_values(context, DependencyKind::Maven);
    context_insert_list(&mut t, "spring_maven_dependencies", &maven);
    let gradle = spring_values(context, DependencyKind::Gradle);
    context_insert_list(&mut t, "spring_gradle_dependencies", &gradle);
    let runtime_maven = spring_values(context, DependencyKind::RuntimeMaven);
    context_insert_list(&mut t, "spring_runtime_maven_dependencies", &runtime_maven);
    let runtime_gradle = spring_values(context, DependencyKind::RuntimeGradle);
    context_insert_list(&mut t, "spring_runtime_gradle_dependencies", &runtime_gradle);
    context_insert_flag(&mut t, "spring_has_web", has_feature(features, "web"));
    context_insert_flag(&mut t, "spring_has_actuator", has_feature(features, "actuator"));
    context_insert_flag(&mut t, "spring_has_data_jpa", has_feature(features, "data-jpa"));
    context_insert_flag(&mut t, "spring_has_security", has_feature(features, "security"));
    context_insert_flag(&mut t, "spring_has_lombok", has_feature(features, "lombok"));
    context_insert_flag(&mut t, "spring_has_postgresql", has_feature(features, "postgresql"));
    context_insert_flag(&mut t, "spring_has_batch", has_feature(features, "batch"));
    t
}

// ---------------------------------------------------------------------------
// Rendering a project
// ---------------------------------------------------------------------------

/// A rendered file: its path relative to the destination, and its content.
#[derive(Debug, Clone)]
pub struct RenderedFile {
    pub path: String,
    pub content: String,
}

/// Why a template could not be rendered.
#[derive(Debug, Clone)]
pub enum RenderError {
    /// No installed template answers to the name.
    UnknownTemplate(String),
    /// A required manifest field is blank, or the manifest has no tags.
    IncompleteMetadata(String),
    /// The destination directory exists already.
    DestinationExists(String),
    /// The manifest names no known renderer.
    NoFiles(String),
    /// Tera could not render a path or a content.
    Template(String),
}

/// A render error as plain sequences; the text of a Tera error is left out.
pub enum RenderErrorView {
    UnknownTemplate(Seq<char>),
    IncompleteMetadata(Seq<char>),
    DestinationExists(Seq<char>),
    NoFiles(Seq<char>),
    Template,
}

impl View for RenderError {
    type V = RenderErrorView;

    open spec fn view(&self) -> RenderErrorView {
        match self {
            RenderError::UnknownTemplate(t) => RenderErrorView::UnknownTemplate(t@),
            RenderError::IncompleteMetadata(t) => RenderErrorView::IncompleteMetadata(t@),
            RenderError::DestinationExists(d) => RenderErrorView::DestinationExists(d@),
            RenderError::NoFiles(t) => RenderErrorView::NoFiles(t@),
            RenderError::Template(_) => RenderErrorView::Template,
        }
    }
}

/// The message shown for a render error.
pub open spec fn spec_render_message(e: RenderErrorView) -> Option<Seq<char>> {
    match e {
        RenderErrorView::UnknownTemplate(t) => Some("unknown template '"@ + t + "'"@),
        RenderErrorView::IncompleteMetadata(t) => Some(
            "template '"@ + t + "' has incomplete metadata"@,
        ),
        RenderErrorView::DestinationExists(d) => Some("destination already exists: "@ + d),
        RenderErrorView::NoFiles(t) => Some("template '"@ + t + "' has no files"@),
        RenderErrorView::Template => None,
    }
}

impl RenderError {
    /// The message shown for the error; for a Tera error, Tera's own text.
    pub fn message(&self) -> (r: String)
        ensures
            spec_render_message(self@) matches Some(m) ==> r@ == m,
            self matches RenderError::Template(t) ==> r@ == t@,
    {
        match self {
            RenderError::UnknownTemplate(t) => {
                let mut r = owned("unknown template '");
                r.append(t.as_str());
                r.append("'");
                r
            },
            RenderError::IncompleteMetadata(t) => {
                let mut r = owned("template '");
                r.append(t.as_str());
                r.append("' has incomplete metadata");
                r
            },
            RenderError::DestinationExists(d) => {
                let mut r = owned("destination already exists: ");
                r.append(d.as_str());
                r
            },
            RenderError::NoFiles(t) => {
                let mut r = owned("template '");
                r.append(t.as_str());
                r.append("' has no files");
                r
            },
            RenderError::Template(t) => t.clone(),
        }
    }
}

/// A required manifest field is blank, or the manifest has no tags.
pub open spec fn incomplete_metadata(m: TemplateManifestView) -> bool {
    spec_is_blank(m.name) || spec_is_blank(m.description) || spec_is_blank(m.short_name)
        || spec_is_blank(m.language) || spec_is_blank(m.default_build_tool) || spec_is_blank(
        m.renderer,
    ) || m.tags.len() == 0
}

/// A template text that this library refuses to hand to Tera: any text
/// but its own templates.
pub open spec fn refused_text(t: Seq<char>) -> bool {
    !spec_template_texts().contains(t)
}

/// What one template text renders to: nothing for a refused text, else
/// what Tera renders.
pub open spec fn spec_render_text(t: Seq<char>, entries: Map<Seq<char>, ContextValue>) -> Option<
    Seq<char>,
> {
    if refused_text(t) {
        None
    } else {
        tera_one_off(t, entries, false)
    }
}

/// Renders every file in order, paths and contents; the first failure
/// stops the rendering.
pub open spec fn render_all(
    fs: Seq<(Seq<char>, Seq<char>)>,
    entries: Map<Seq<char>, ContextValue>,
) -> Option<Seq<(Seq<char>, Seq<char>)>>
    decreases fs.len(),
{
    if fs.len() == 0 {
        Some(Seq::empty())
    } else {
        match render_all(fs.drop_last(), entries) {
            None => None,
            Some(done) => match spec_render_text(fs.last().0, entries) {
                None => None,
                Some(path) => match spec_render_text(fs.last().1, entries) {
                    None => None,
                    Some(content) => Some(done.push((path, content))),
                },
            },
        }
    }
}

/// Once a prefix of the files fails to render, every longer prefix does.
proof fn lemma_render_all_failure_persists(
    fs: Seq<(Seq<char>, Seq<char>)>,
    entries: Map<Seq<char>, ContextValue>,
    k: int,
    j: int,
)
    requires
        0 <= k <= j <= fs.len(),
        render_all(fs.take(k), entries) is None,
    ensures
        render_all(fs.take(j), entries) is None,
    decreases j - k,
{
    if j > k {
        lemma_render_all_failure_persists(fs, entries, k, j - 1);
        assert(fs.take(j).drop_last() =~= fs.take(j - 1));
    }
}

/// The rendering of a template into `destination`: the checks in order,
/// then the files, or the error that stopped it.
pub open spec fn spec_render(
    template: Seq<char>,
    destination: Seq<char>,
    destination_exists: bool,
    c: TemplateContextView,
) -> Result<Seq<(Seq<char>, Seq<char>)>, RenderErrorView> {
    match spec_manifest(template) {
        None => Err(RenderErrorView::UnknownTemplate(template)),
        Some(m) => if incomplete_metadata(m) {
            Err(RenderErrorView::IncompleteMetadata(template))
        } else if destination_exists {
            Err(RenderErrorView::DestinationExists(destination))
        } else {
            match spec_files(m, c) {
                None => Err(RenderErrorView::NoFiles(template)),
                Some(fs) => match render_all(fs, spec_template_vars(c)) {
                    None => Err(RenderErrorView::Template),
                    Some(out) => Ok(out),
                },
            }
        },
    }
}

/// The views of rendered files.
pub open spec fn rendered_views(v: Seq<RenderedFile>) -> Seq<(Seq<char>, Seq<char>)> {
    v.map_values(|f: RenderedFile| (f.path@, f.content@))
}

/// Renders one of this library's own template texts with the variables of
/// `context`; any other text is refused.
pub fn render_text(text: &str, context: &tera::Context) -> (r: Result<String, RenderError>)
    ensures
        match r {
            Ok(s) => spec_render_text(text@, context_entries(*context)) == Some(s@),
            Err(e) => spec_render_text(text@, context_entries(*context)) is None && e@
                == RenderErrorView::Template,
        },
{
    if !is_template_text(text) {
        return Err(RenderError::Template(owned("not a template of this library")));
    }
    match one_off(text, context, false) {
        Ok(s) => Ok(s),
        Err(e) => Err(RenderError::Template(e)),
    }
}

/// Renders the template `template` with `context`, for a project to be
/// created in `destination`; `destination_exists` tells whether that
/// directory exists already.  The result holds each file of the template,
/// its path rendered relative to the destination and its content rendered.
pub fn render(
    template: &str,
    destination: &str,
    destination_exists: bool,
    context: &TemplateContext,
) -> (r: Result<Vec<RenderedFile>, RenderError>)
    ensures
        match r {
            Ok(v) => spec_render(template@, destination@, destination_exists, context@) == Ok::<
                Seq<(Seq<char>, Seq<char>)>,
                RenderErrorView,
            >(rendered_views(v@)),
            Err(e) => spec_render(template@, destination@, destination_exists, context@) == Err::<
                Seq<(Seq<char>, Seq<char>)>,
                RenderErrorView,
            >(e@),
        },
{
    let m = match manifest(template) {
        Some(m) => m,
        None => return Err(RenderError::UnknownTemplate(owned(template))),
    };
    if is_blank(m.name.as_str()) || is_blank(m.description.as_str()) || is_blank(
        m.short_name.as_str(),
    ) || is_blank(m.language.as_str()) || is_blank(m.default_build_tool.as_str()) || is_blank(
        m.renderer.as_str(),
    ) || m.tags.len() == 0 {
        return Err(RenderError::IncompleteMetadata(owned(template)));
    }
    if destination_exists {
        return Err(RenderError::DestinationExists(owned(destination)));
    }
    let fs = match files(&m, context) {
        Some(fs) => fs,
        None => return Err(RenderError::NoFiles(owned(template))),
    };
    let t = tera_context(context);
    let ghost entries = context_entries(t);
    let mut out: Vec<RenderedFile> = Vec::new();
    let mut i: usize = 0;
    while i < fs.len()
        invariant
            i <= fs@.len(),
            entries == context_entries(t),
            entries == spec_template_vars(context@),
            spec_manifest(template@) == Some(m@),
            !incomplete_metadata(m@),
            !destination_exists,
            spec_files(m@, context@) == Some(crate::text::pair_views(fs@)),
            render_all(crate::text::pair_views(fs@).take(i as int), entries) == Some(
                rendered_views(out@),
            ),
        decreases fs@.len() - i,
    {
        let ghost prefix = crate::text::pair_views(fs@).take(i + 1);
        assert(prefix.drop_last() =~= crate::text::pair_views(fs@).take(i as int));
        assert(prefix.last() == (fs@[i as int].0@, fs@[i as int].1@));
        let (p, c) = fs[i];
        let path = match render_text(p, &t) {
            Ok(path) => path,
            Err(e) => {
                proof {
                    assert(render_all(prefix, entries) is None);
                    lemma_render_all_failure_persists(
                        crate::text::pair_views(fs@),
                        entries,
                        i + 1,
                        fs@.len() as int,
                    );
                    assert(crate::text::pair_views(fs@).take(fs@.len() as int)
                        =~= crate::text::pair_views(fs@));
                }
                assert(render_all(crate::text::pair_views(fs@), entries) is None);
                return Err(e);
            },
        };
        let content = match render_text(c, &t) {
            Ok(content) => content,
            Err(e) => {
                proof {
                    assert(render_all(prefix, entries) is None);
                    lemma_render_all_failure_persists(
                        crate::text::pair_views(fs@),
                        entries,
                        i + 1,
                        fs@.len() as int,
                    );
                    assert(crate::text::pair_views(fs@).take(fs@.len() as int)
                        =~= crate::text::pair_views(fs@));
                }
                assert(render_all(crate::text::pair_views(fs@), entries) is None);
                return Err(e);
            },
        };
        let ghost before = out@;
        out.push(RenderedFile { path, content });
        assert(rendered_views(out@) =~= rendered_views(before).push((path@, content@)));
        i = i + 1;
    }
    assert(crate::text::pair_views(fs@).take(fs@.len() as int) =~= crate::text::pair_views(fs@));
    Ok(out)
}


// ---------------------------------------------------------------------------
// The installed templates render
// ---------------------------------------------------------------------------

/// A manifest that `render` takes: complete metadata, a known renderer, and
/// Maven or Gradle as its default build tool.
pub open spec fn installable(m: TemplateManifestView) -> bool {
    &&& !incomplete_metadata(m)
    &&& (m.renderer == "plain-app"@ || m.renderer == "library"@ || m.renderer == "springboot"@)
    &&& (m.default_build_tool == "maven"@ || m.default_build_tool == "gradle"@)
}

/// A non-empty text whose first character is not white space is not blank.
proof fn lemma_not_blank(s: Seq<char>)
    requires
        s.len() > 0,
        !spec_is_whitespace(s[0]),
    ensures
        !spec_is_blank(s),
{
}

/// Each manifest of `manifests_of(ids)` is that of one of the `ids`.
proof fn lemma_manifests_of_from_ids(ids: Seq<Seq<char>>)
    ensures
        forall|i: int|
            0 <= i < manifests_of(ids).len() ==> exists|j: int|
                0 <= j < ids.len() && spec_manifest_by_id(ids[j]) == Some(
                    #[trigger] manifests_of(ids)[i],
                ),
    decreases ids.len(),
{
    if ids.len() > 0 {
        let prev = ids.drop_last();
        lemma_manifests_of_from_ids(prev);
        assert forall|i: int| 0 <= i < manifests_of(ids).len() implies exists|j: int|
            0 <= j < ids.len() && spec_manifest_by_id(ids[j]) == Some(
                #[trigger] manifests_of(ids)[i],
            ) by {
            if i < manifests_of(prev).len() {
                let j = choose|j: int|
                    0 <= j < prev.len() && spec_manifest_by_id(prev[j]) == Some(
                        #[trigger] manifests_of(prev)[i],
                    );
                assert(ids[j] == prev[j]);
            } else {
                assert(spec_manifest_by_id(ids[ids.len() - 1]) == Some(manifests_of(ids)[i]));
            }
        }
    }
}

/// Every manifest the library knows by id is installable.
proof fn lemma_manifest_by_id_installable(id: Seq<char>)
    requires
        spec_manifest_by_id(id) is Some,
    ensures
        installable(spec_manifest_by_id(id).unwrap()),
{
    reveal_strlit("Class Library");
    reveal_strlit("Command-Line App");
    reveal_strlit("Command-line app skeleton");
    reveal_strlit("Configurable Spring Boot app");
    reveal_strlit("Console App");
    reveal_strlit("Executable Java app with JUnit tests");
    reveal_strlit("Focused JUnit 5 test project");
    reveal_strlit("JUnit Test Project");
    reveal_strlit("Java");
    reveal_strlit("Long-running/background worker skeleton");
    reveal_strlit("Reusable Java library");
    reveal_strlit("Spring API with JPA/PostgreSQL scaffolding");
    reveal_strlit("Spring API with security defaults");
    reveal_strlit("Spring Batch Job");
    reveal_strlit("Spring Batch job starter");
    reveal_strlit("Spring Boot App");
    reveal_strlit("Spring Data API");
    reveal_strlit("Spring REST API");
    reveal_strlit("Spring Security API");
    reveal_strlit("Spring Web API");
    reveal_strlit("Worker Service");
    reveal_strlit("cli");
    reveal_strlit("console");
    reveal_strlit("gradle");
    reveal_strlit("junit");
    reveal_strlit("library");
    reveal_strlit("maven");
    reveal_strlit("plain-app");
    reveal_strlit("springbatch");
    reveal_strlit("springboot");
    reveal_strlit("springdata");
    reveal_strlit("springsecurity");
    reveal_strlit("springweb");
    reveal_strlit("worker");
    let m = spec_manifest_by_id(id).unwrap();
    lemma_not_blank(m.name);
    lemma_not_blank(m.description);
    lemma_not_blank(m.short_name);
    lemma_not_blank(m.language);
    lemma_not_blank(m.default_build_tool);
    lemma_not_blank(m.renderer);
}

/// Every installed template has complete metadata, a known renderer and
/// Maven or Gradle as its default build tool, so rendering it never stops
/// on its metadata or for want of files.
pub proof fn lemma_installed_templates_installable()
    ensures
        forall|i: int| 0 <= i < spec_manifests().len() ==> installable(#[trigger] spec_manifests()[i]),
        forall|i: int, c: TemplateContextView|
            0 <= i < spec_manifests().len() ==> (#[trigger] spec_files(spec_manifests()[i], c)) is Some,
{
    lemma_manifests_of_from_ids(spec_template_ids());
    assert forall|i: int| 0 <= i < spec_manifests().len() implies installable(
        #[trigger] spec_manifests()[i],
    ) by {
        let j = choose|j: int|
            0 <= j < spec_template_ids().len() && spec_manifest_by_id(spec_template_ids()[j])
                == Some(#[trigger] manifests_of(spec_template_ids())[i]);
        lemma_manifest_by_id_installable(spec_template_ids()[j]);
    }
    assert forall|i: int, c: TemplateContextView|
        0 <= i < spec_manifests().len() implies (#[trigger] spec_files(spec_manifests()[i], c)) is Some by {
        assert(installable(spec_manifests()[i]));
    }
}

/// What `first_answering` finds is one of the manifests searched.
proof fn lemma_first_answering_member(ms: Seq<TemplateManifestView>, name: Seq<char>)
    requires
        first_answering(ms, name) is Some,
    ensures
        exists|i: int| 0 <= i < ms.len() && ms[i] == first_answering(ms, name).unwrap(),
    decreases ms.len(),
{
    if !answers_to(ms[0], name) {
        lemma_first_answering_member(ms.drop_first(), name);
        let i = choose|i: int|
            0 <= i < ms.drop_first().len() && ms.drop_first()[i] == first_answering(
                ms.drop_first(),
                name,
            ).unwrap();
        assert(ms[i + 1] == ms.drop_first()[i]);
    } else {
        assert(ms[0] == first_answering(ms, name).unwrap());
    }
}

/// Two names that resolve to the same installed template, such as an alias
/// and the template's id, render the same files with the same contents, or
/// fail alike.
pub proof fn lemma_same_template_same_rendering(
    t1: Seq<char>,
    t2: Seq<char>,
    destination: Seq<char>,
    destination_exists: bool,
    c: TemplateContextView,
)
    requires
        spec_manifest(t1) is Some,
        spec_manifest(t1) == spec_manifest(t2),
    ensures
        spec_render(t1, destination, destination_exists, c) == spec_render(
            t2,
            destination,
            destination_exists,
            c,
        ),
{
    lemma_first_answering_member(spec_manifests(), t1);
    lemma_installed_templates_installable();
    let i = choose|i: int|
        0 <= i < spec_manifests().len() && spec_manifests()[i] == spec_manifest(t1).unwrap();
    assert(installable(spec_manifests()[i]));
    assert(spec_files(spec_manifests()[i], c) is Some);
}

// ---------------------------------------------------------------------------
// Every file of a template is one of the library's template texts
// ---------------------------------------------------------------------------

/// Every path and content of `fs` is one of the library's template texts.
pub open spec fn known_files(fs: Seq<(Seq<char>, Seq<char>)>) -> bool {
    forall|i: int|
        0 <= i < fs.len() ==> spec_template_texts().contains(#[trigger] fs[i].0)
            && spec_template_texts().contains(fs[i].1)
}

/// Each template text is among the library's template texts.
proof fn lemma_known_texts()
    ensures
        spec_template_texts().contains(".gitignore"@),
        spec_template_texts().contains("README.md"@),
        spec_template_texts().contains("jav.toml"@),
        spec_template_texts().contains("pom.xml"@),
        spec_template_texts().contains("settings.gradle.kts"@),
        spec_template_texts().contains("build.gradle.kts"@),
        spec_template_texts().contains("flake.nix"@),
        spec_template_texts().contains("src/main/java/{{package_path}}/{{main_class}}.java"@),
        spec_template_texts().contains("src/test/java/{{package_path}}/{{main_class}}Test.java"@),
        spec_template_texts().contains("src/main/java/{{package_path}}/Library.java"@),
        spec_template_texts().contains("src/test/java/{{package_path}}/LibraryTest.java"@),
        spec_template_texts().contains("src/main/java/{{package_path}}/Application.java"@),
        spec_template_texts().contains("src/main/resources/application.properties"@),
        spec_template_texts().contains("src/test/java/{{package_path}}/ApplicationTests.java"@),
        spec_template_texts().contains("src/main/java/{{package_path}}/HelloController.java"@),
        spec_template_texts().contains("src/main/java/{{package_path}}/Customer.java"@),
        spec_template_texts().contains("src/main/java/{{package_path}}/CustomerRepository.java"@),
        spec_template_texts().contains("src/main/java/{{package_path}}/SecurityConfig.java"@),
        spec_template_texts().contains("src/main/java/{{package_path}}/BatchJobConfig.java"@),
        spec_template_texts().contains(COMMON_GITIGNORE@),
        spec_template_texts().contains(COMMON_README@),
        spec_template_texts().contains(COMMON_PLAIN_JAV_TOML@),
        spec_template_texts().contains(COMMON_SPRING_JAV_TOML@),
        spec_template_texts().contains(COMMON_FLAKE_NIX@),
        spec_template_texts().contains(CONSOLE_POM_XML@),
        spec_template_texts().contains(CONSOLE_SETTINGS_GRADLE_KTS@),
        spec_template_texts().contains(CONSOLE_BUILD_GRADLE_KTS@),
        spec_template_texts().contains(CONSOLE_MAIN_JAVA@),
        spec_template_texts().contains(CONSOLE_MAIN_TEST_JAVA@),
        spec_template_texts().contains(CLI_COMMAND_APP_JAVA@),
        spec_template_texts().contains(CLI_COMMAND_APP_TEST_JAVA@),
        spec_template_texts().contains(WORKER_JAVA@),
        spec_template_texts().contains(WORKER_TEST_JAVA@),
        spec_template_texts().contains(JUNIT_CALCULATOR_JAVA@),
        spec_template_texts().contains(JUNIT_CALCULATOR_TEST_JAVA@),
        spec_template_texts().contains(LIBRARY_POM_XML@),
        spec_template_texts().contains(LIBRARY_SETTINGS_GRADLE_KTS@),
        spec_template_texts().contains(LIBRARY_BUILD_GRADLE_KTS@),
        spec_template_texts().contains(LIBRARY_JAVA@),
        spec_template_texts().contains(LIBRARY_TEST_JAVA@),
        spec_template_texts().contains(SPRING_POM_XML@),
        spec_template_texts().contains(SPRING_SETTINGS_GRADLE_KTS@),
        spec_template_texts().contains(SPRING_BUILD_GRADLE_KTS@),
        spec_template_texts().contains(SPRING_APPLICATION_JAVA@),
        spec_template_texts().contains(SPRING_APPLICATION_PROPERTIES@),
        spec_template_texts().contains(SPRING_APPLICATION_TESTS_JAVA@),
        spec_template_texts().contains(SPRING_HELLO_CONTROLLER_JAVA@),
        spec_template_texts().contains(SPRING_CUSTOMER_JAVA@),
        spec_template_texts().contains(SPRING_CUSTOMER_REPOSITORY_JAVA@),
        spec_template_texts().contains(SPRING_SECURITY_CONFIG_JAVA@),
        spec_template_texts().contains(SPRING_BATCH_JOB_CONFIG_JAVA@),
{
    assert(spec_template_texts()[0] == ".gitignore"@);
    assert(spec_template_texts()[1] == "README.md"@);
    assert(spec_template_texts()[2] == "jav.toml"@);
    assert(spec_template_texts()[3] == "pom.xml"@);
    assert(spec_template_texts()[4] == "settings.gradle.kts"@);
    assert(spec_template_texts()[5] == "build.gradle.kts"@);
    assert(spec_template_texts()[6] == "flake.nix"@);
    assert(spec_template_texts()[7] == "src/main/java/{{package_path}}/{{main_class}}.java"@);
    assert(spec_template_texts()[8] == "src/test/java/{{package_path}}/{{main_class}}Test.java"@);
    assert(spec_template_texts()[9] == "src/main/java/{{package_path}}/Library.java"@);
    assert(spec_template_texts()[10] == "src/test/java/{{package_path}}/LibraryTest.java"@);
    assert(spec_template_texts()[11] == "src/main/java/{{package_path}}/Application.java"@);
    assert(spec_template_texts()[12] == "src/main/resources/application.properties"@);
    assert(spec_template_texts()[13] == "src/test/java/{{package_path}}/ApplicationTests.java"@);
    assert(spec_template_texts()[14] == "src/main/java/{{package_path}}/HelloController.java"@);
    assert(spec_template_texts()[15] == "src/main/java/{{package_path}}/Customer.java"@);
    assert(spec_template_texts()[16] == "src/main/java/{{package_path}}/CustomerRepository.java"@);
    assert(spec_template_texts()[17] == "src/main/java/{{package_path}}/SecurityConfig.java"@);
    assert(spec_template_texts()[18] == "src/main/java/{{package_path}}/BatchJobConfig.java"@);
    assert(spec_template_texts()[19] == COMMON_GITIGNORE@);
    assert(spec_template_texts()[20] == COMMON_README@);
    assert(spec_template_texts()[21] == COMMON_PLAIN_JAV_TOML@);
    assert(spec_template_texts()[22] == COMMON_SPRING_JAV_TOML@);
    assert(spec_template_texts()[23] == COMMON_FLAKE_NIX@);
    assert(spec_template_texts()[24] == CONSOLE_POM_XML@);
    assert(spec_template_texts()[25] == CONSOLE_SETTINGS_GRADLE_KTS@);
    assert(spec_template_texts()[26] == CONSOLE_BUILD_GRADLE_KTS@);
    assert(spec_template_texts()[27] == CONSOLE_MAIN_JAVA@);
    assert(spec_template_texts()[28] == CONSOLE_MAIN_TEST_JAVA@);
    assert(spec_template_texts()[29] == CLI_COMMAND_APP_JAVA@);
    assert(spec_template_texts()[30] == CLI_COMMAND_APP_TEST_JAVA@);
    assert(spec_template_texts()[31] == WORKER_JAVA@);
    assert(spec_template_texts()[32] == WORKER_TEST_JAVA@);
    assert(spec_template_texts()[33] == JUNIT_CALCULATOR_JAVA@);
    assert(spec_template_texts()[34] == JUNIT_CALCULATOR_TEST_JAVA@);
    assert(spec_template_texts()[35] == LIBRARY_POM_XML@);
    assert(spec_template_texts()[36] == LIBRARY_SETTINGS_GRADLE_KTS@);
    assert(spec_template_texts()[37] == LIBRARY_BUILD_GRADLE_KTS@);
    assert(spec_template_texts()[38] == LIBRARY_JAVA@);
    assert(spec_template_texts()[39] == LIBRARY_TEST_JAVA@);
    assert(spec_template_texts()[40] == SPRING_POM_XML@);
    assert(spec_template_texts()[41] == SPRING_SETTINGS_GRADLE_KTS@);
    assert(spec_template_texts()[42] == SPRING_BUILD_GRADLE_KTS@);
    assert(spec_template_texts()[43] == SPRING_APPLICATION_JAVA@);
    assert(spec_template_texts()[44] == SPRING_APPLICATION_PROPERTIES@);
    assert(spec_template_texts()[45] == SPRING_APPLICATION_TESTS_JAVA@);
    assert(spec_template_texts()[46] == SPRING_HELLO_CONTROLLER_JAVA@);
    assert(spec_template_texts()[47] == SPRING_CUSTOMER_JAVA@);
    assert(spec_template_texts()[48] == SPRING_CUSTOMER_REPOSITORY_JAVA@);
    assert(spec_template_texts()[49] == SPRING_SECURITY_CONFIG_JAVA@);
    assert(spec_template_texts()[50] == SPRING_BATCH_JOB_CONFIG_JAVA@);
}

/// The files the selected Spring features bring are template texts.
proof fn lemma_feature_files_known(selected: Seq<Seq<char>>)
    ensures
        known_files(spec_feature_files(selected)),
    decreases selected.len(),
{
    lemma_known_texts();
    if selected.len() > 0 {
        lemma_feature_files_known(selected.drop_last());
        let prev = spec_feature_files(selected.drop_last());
        let extra = match spec_feature(selected.last()) {
            Some(f) => f.files,
            None => Seq::empty(),
        };
        assert(known_files(extra));
        assert forall|i: int| 0 <= i < (prev + extra).len() implies spec_template_texts().contains(
            #[trigger] (prev + extra)[i].0,
        ) && spec_template_texts().contains((prev + extra)[i].1) by {
            if i >= prev.len() {
                assert((prev + extra)[i] == extra[i - prev.len()]);
            }
        }
    }
}

/// The files of `plain_gradle_files` are template texts.
proof fn lemma_plain_gradle_files_known(t: Seq<char>)
    ensures
        known_files(plain_gradle_files(t)),
{
    lemma_known_texts();
    let fs = plain_gradle_files(t);
    assert forall|i: int| 0 <= i < fs.len() implies spec_template_texts().contains(
        #[trigger] fs[i].0,
    ) && spec_template_texts().contains(fs[i].1) by {}
}

/// The files of `plain_maven_files` are template texts.
proof fn lemma_plain_maven_files_known(t: Seq<char>)
    ensures
        known_files(plain_maven_files(t)),
{
    lemma_known_texts();
    let fs = plain_maven_files(t);
    assert forall|i: int| 0 <= i < fs.len() implies spec_template_texts().contains(
        #[trigger] fs[i].0,
    ) && spec_template_texts().contains(fs[i].1) by {}
}

/// The files of `library_gradle_files` are template texts.
proof fn lemma_library_gradle_files_known()
    ensures
        known_files(library_gradle_files()),
{
    lemma_known_texts();
    let fs = library_gradle_files();
    assert forall|i: int| 0 <= i < fs.len() implies spec_template_texts().contains(
        #[trigger] fs[i].0,
    ) && spec_template_texts().contains(fs[i].1) by {}
}

/// The files of `library_maven_files` are template texts.
proof fn lemma_library_maven_files_known()
    ensures
        known_files(library_maven_files()),
{
    lemma_known_texts();
    let fs = library_maven_files();
    assert forall|i: int| 0 <= i < fs.len() implies spec_template_texts().contains(
        #[trigger] fs[i].0,
    ) && spec_template_texts().contains(fs[i].1) by {}
}

/// The files of `spring_gradle_files` are template texts.
proof fn lemma_spring_gradle_files_known()
    ensures
        known_files(spring_gradle_files()),
{
    lemma_known_texts();
    let fs = spring_gradle_files();
    assert forall|i: int| 0 <= i < fs.len() implies spec_template_texts().contains(
        #[trigger] fs[i].0,
    ) && spec_template_texts().contains(fs[i].1) by {}
}

/// The files of `spring_maven_files` are template texts.
proof fn lemma_spring_maven_files_known()
    ensures
        known_files(spring_maven_files()),
{
    lemma_known_texts();
    let fs = spring_maven_files();
    assert forall|i: int| 0 <= i < fs.len() implies spec_template_texts().contains(
        #[trigger] fs[i].0,
    ) && spec_template_texts().contains(fs[i].1) by {}
}

/// The files of `spring_app_files` are template texts.
proof fn lemma_spring_app_files_known()
    ensures
        known_files(spring_app_files()),
{
    lemma_known_texts();
    let fs = spring_app_files();
    assert forall|i: int| 0 <= i < fs.len() implies spec_template_texts().contains(
        #[trigger] fs[i].0,
    ) && spec_template_texts().contains(fs[i].1) by {}
}

/// Every path and content of a template's files is one of the library's
/// template texts, so rendering them is never refused.
pub proof fn lemma_template_files_known(m: TemplateManifestView, c: TemplateContextView)
    requires
        spec_files(m, c) is Some,
    ensures
        known_files(spec_files(m, c).unwrap()),
{
    let base = spec_base_files(m, c).unwrap();
    if m.renderer == "plain-app"@ {
        lemma_plain_gradle_files_known(m.id);
        lemma_plain_maven_files_known(m.id);
        if c.build_tool == "gradle"@ {
            assert(base == plain_gradle_files(m.id));
        } else {
            assert(base == plain_maven_files(m.id));
        }
    } else if m.renderer == "library"@ {
        lemma_library_gradle_files_known();
        lemma_library_maven_files_known();
        if c.build_tool == "gradle"@ {
            assert(base == library_gradle_files());
        } else {
            assert(base == library_maven_files());
        }
    } else {
        lemma_spring_gradle_files_known();
        lemma_spring_maven_files_known();
        lemma_spring_app_files_known();
        lemma_feature_files_known(c.spring_features);
        let head = if c.build_tool == "gradle"@ {
            spring_gradle_files()
        } else {
            spring_maven_files()
        };
        let mid = head + spring_app_files();
        assert(known_files(mid)) by {
            assert forall|i: int| 0 <= i < mid.len() implies spec_template_texts().contains(
                #[trigger] mid[i].0,
            ) && spec_template_texts().contains(mid[i].1) by {
                if i >= head.len() {
                    assert(mid[i] == spring_app_files()[i - head.len()]);
                } else {
                    assert(mid[i] == head[i]);
                }
            }
        }
        let tail = spec_feature_files(c.spring_features);
        assert(base == mid + tail);
        assert forall|i: int| 0 <= i < base.len() implies spec_template_texts().contains(
            #[trigger] base[i].0,
        ) && spec_template_texts().contains(base[i].1) by {
            if i >= mid.len() {
                assert(base[i] == tail[i - mid.len()]);
            } else {
                assert(base[i] == mid[i]);
            }
        }
        assert(known_files(base));
    }
    assert(known_files(base));
    lemma_known_texts();
    let fs = spec_files(m, c).unwrap();
    assert forall|i: int| 0 <= i < fs.len() implies spec_template_texts().contains(
        #[trigger] fs[i].0,
    ) && spec_template_texts().contains(fs[i].1) by {
        if i < base.len() {
            assert(fs[i] == base[i]);
        } else {
            assert(c.include_flake && fs == base.push(("flake.nix"@, COMMON_FLAKE_NIX@)));
            assert(fs[i] == ("flake.nix"@, COMMON_FLAKE_NIX@));
        }
    }
}

/// Rendering through any name of an installed template, such as the alias
/// `webapi`, gives what rendering through the template's id gives.
pub proof fn lemma_alias_renders_like_its_template(
    k: int,
    name: Seq<char>,
    destination: Seq<char>,
    destination_exists: bool,
    c: TemplateContextView,
)
    requires
        0 <= k < spec_manifests().len(),
        names_of(spec_manifests()[k]).contains(name),
    ensures
        spec_render(name, destination, destination_exists, c) == spec_render(
            spec_manifests()[k].id,
            destination,
            destination_exists,
            c,
        ),
{
    lemma_names_resolve_to_their_template();
    let m = spec_manifests()[k];
    assert(names_of(m)[0] == m.id);
    assert(names_of(m).contains(m.id));
    lemma_same_template_same_rendering(name, m.id, destination, destination_exists, c);
}

} // verus!
