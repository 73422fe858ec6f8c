use jav::templates::content::{COMMON_FLAKE_NIX, CONSOLE_POM_XML, SPRING_CUSTOMER_JAVA};
use jav::templates::render::{
    render, render_text, spring_values, template_texts, tera_context, DependencyKind, RenderError,
};
use jav::templates::{
    feature, files, manifest, manifests, plain_main_file, plain_test_file, template_ids,
    TemplateContext,
};

fn context(build_tool: &str, features: &[&str], include_flake: bool) -> TemplateContext {
    TemplateContext {
        project_name: "Demo".to_string(),
        package_name: "dev.example.demo".to_string(),
        package_path: "dev/example/demo".to_string(),
        java_version: "21".to_string(),
        build_tool: build_tool.to_string(),
        spring_boot_version: "3.5.0".to_string(),
        spring_features: features.iter().map(|f| f.to_string()).collect(),
        main_class: "Main".to_string(),
        include_flake,
    }
}

#[test]
fn every_installed_template_has_a_manifest() {
    let ids = template_ids();
    let all = manifests();
    assert_eq!(all.len(), ids.len());
    for (m, id) in all.iter().zip(ids.iter()) {
        assert_eq!(&m.id, id);
        assert_eq!(manifest(id).unwrap().id, *id);
        assert!(!m.tags.is_empty());
    }
    assert_eq!(ids[0], "console");
    assert_eq!(ids[9], "springbatch");
}

#[test]
fn aliases_resolve_to_their_template() {
    assert_eq!(manifest("webapi").unwrap().id, "springweb");
    assert_eq!(manifest("classlib").unwrap().id, "library");
    assert!(manifest("list").is_none());
    assert_eq!(manifest("console").unwrap().default_build_tool, "maven");
    assert_eq!(manifest("cli").unwrap().default_build_tool, "gradle");
    assert_eq!(manifest("springdata").unwrap().default_features, vec!["web", "data-jpa", "postgresql"]);
}

#[test]
fn features_are_found_by_id() {
    let web = feature("web").unwrap();
    assert_eq!(web.maven_dependency, Some("spring-boot-starter-web"));
    assert_eq!(web.files.len(), 1);
    let pg = feature("postgresql").unwrap();
    assert_eq!(pg.maven_dependency, None);
    assert_eq!(pg.runtime_gradle_dependency, Some("org.postgresql:postgresql"));
    let jpa = feature("data-jpa").unwrap();
    assert_eq!(jpa.files[0].1, SPRING_CUSTOMER_JAVA);
    assert!(feature("graphql").is_none());
}

#[test]
fn plain_templates_pick_their_main_class() {
    assert!(plain_main_file("cli").contains("class CommandApp"));
    assert!(plain_main_file("worker").contains("class Worker"));
    assert!(plain_main_file("junit").contains("class Calculator"));
    assert!(plain_main_file("console").contains("class Main"));
    assert!(plain_test_file("junit").contains("class CalculatorTest"));
    assert!(plain_test_file("anything").contains("class MainTest"));
}

#[test]
fn console_maven_files() {
    let m = manifest("console").unwrap();
    let f = files(&m, &context("maven", &[], true)).unwrap();
    let paths: Vec<&str> = f.iter().map(|p| p.0).collect();
    assert_eq!(
        paths,
        vec![
            ".gitignore",
            "README.md",
            "jav.toml",
            "pom.xml",
            "src/main/java/{{package_path}}/{{main_class}}.java",
            "src/test/java/{{package_path}}/{{main_class}}Test.java",
            "flake.nix",
        ]
    );
    assert_eq!(f[3].1, CONSOLE_POM_XML);
    assert_eq!(f[6].1, COMMON_FLAKE_NIX);
}

#[test]
fn spring_files_follow_the_features() {
    let m = manifest("springboot").unwrap();
    let f = files(&m, &context("gradle", &["security", "unknown", "web"], false)).unwrap();
    let paths: Vec<&str> = f.iter().map(|p| p.0).collect();
    assert_eq!(
        paths,
        vec![
            ".gitignore",
            "README.md",
            "jav.toml",
            "settings.gradle.kts",
            "build.gradle.kts",
            "src/main/java/{{package_path}}/Application.java",
            "src/main/resources/application.properties",
            "src/test/java/{{package_path}}/ApplicationTests.java",
            "src/main/java/{{package_path}}/SecurityConfig.java",
            "src/main/java/{{package_path}}/HelloController.java",
        ]
    );
}

#[test]
fn unknown_renderers_have_no_files() {
    let mut m = manifest("console").unwrap();
    m.renderer = "mystery".to_string();
    assert!(files(&m, &context("maven", &[], true)).is_none());
}

#[test]
fn spring_values_collect_the_dependencies_in_order() {
    let c = context("maven", &["postgresql", "web", "lombok", "batch"], false);
    assert_eq!(
        spring_values(&c, DependencyKind::Maven),
        vec!["spring-boot-starter-web", "spring-boot-starter-batch"]
    );
    assert_eq!(spring_values(&c, DependencyKind::RuntimeMaven), vec!["postgresql"]);
    assert_eq!(
        spring_values(&c, DependencyKind::RuntimeGradle),
        vec!["org.postgresql:postgresql"]
    );
    assert!(spring_values(&context("maven", &[], false), DependencyKind::Gradle).is_empty());
}

#[test]
fn tera_context_holds_the_template_variables() {
    let t = tera_context(&context("gradle", &["lombok", "actuator"], false));
    let json = t.into_json();
    assert_eq!(json["project_name"], "Demo");
    assert_eq!(json["is_gradle"], true);
    assert_eq!(json["is_maven"], false);
    assert_eq!(json["is_spring"], true);
    assert_eq!(json["spring_has_lombok"], true);
    assert_eq!(json["spring_has_web"], false);
    assert_eq!(json["spring_gradle_dependencies"][0], "org.springframework.boot:spring-boot-starter-actuator");
    let lombok_only = tera_context(&context("maven", &["lombok"], false)).into_json();
    assert_eq!(lombok_only["is_spring"], false);
}

#[test]
fn render_renders_paths_and_contents() {
    let out = render("console", "Demo", false, &context("maven", &[], false)).unwrap();
    assert_eq!(out.len(), 6);
    assert_eq!(out[4].path, "src/main/java/dev/example/demo/Main.java");
    assert!(out[3].content.contains("<artifactId>Demo</artifactId>"));
    assert!(out[2].content.contains("main_class = \"dev.example.demo.Main\""));
    assert!(out[2].content.contains("maven_goal = \"exec:java\""));
}

#[test]
fn render_checks_come_in_order() {
    let c = context("maven", &[], false);
    match render("nothing", "D", false, &c).unwrap_err() {
        RenderError::UnknownTemplate(t) => assert_eq!(t, "nothing"),
        other => panic!("unexpected {:?}", other),
    }
    let e = render("console", "D", true, &c).unwrap_err();
    assert_eq!(e.message(), "destination already exists: D");
}

#[test]
fn render_takes_aliases_like_their_template() {
    let c = context("gradle", &["web", "actuator"], false);
    let by_alias = render("webapi", "D", false, &c).unwrap();
    let by_id = render("springweb", "D", false, &c).unwrap();
    assert_eq!(by_alias.len(), by_id.len());
    for (a, b) in by_alias.iter().zip(by_id.iter()) {
        assert_eq!(a.path, b.path);
        assert_eq!(a.content, b.content);
    }
}

#[test]
fn render_text_takes_only_the_library_templates() {
    let t = tera_context(&context("maven", &[], false));
    assert_eq!(
        render_text("src/main/java/{{package_path}}/{{main_class}}.java", &t).unwrap(),
        "src/main/java/dev/example/demo/Main.java"
    );
    for text in [
        "Hello {{ project_name }}",
        "{% macro f() %}{{ self::f() }}{% endmacro f %}{{ self::f() }}",
        "{{ get_env(name=\"HOME\") }}",
        "{{ -9223372036854775808 % -1 }}",
        "{% include \"__tera_one_off\" %}",
    ] {
        match render_text(text, &t).unwrap_err() {
            RenderError::Template(message) => assert_eq!(message, "not a template of this library"),
            other => panic!("unexpected {:?}", other),
        }
    }
    assert!(template_texts().contains(&CONSOLE_POM_XML));
}

#[test]
fn flake_run_config_and_build_file_follow_the_context() {
    for id in ["console", "library", "springbatch"] {
        let m = manifest(id).unwrap();
        for tool in ["maven", "gradle"] {
            for flake in [false, true] {
                let f = files(&m, &context(tool, &["web"], flake)).unwrap();
                let has = |p: &str| f.iter().any(|(path, _)| *path == p);
                assert_eq!(has("flake.nix"), flake);
                assert_eq!(has("jav.toml"), id != "library");
                assert_eq!(has("pom.xml"), tool != "gradle");
                assert_eq!(has("build.gradle.kts"), tool == "gradle");
            }
        }
    }
}
