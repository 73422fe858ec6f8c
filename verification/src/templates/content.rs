//! The files that project templates are made of.
//!
//! Each constant is a Tera template; paths and contents are rendered with
//! the variables of a `TemplateContext` (see `templates::render`).
use vstd::prelude::*;

verus! {

pub const COMMON_GITIGNORE: &'static str = r#"target/
build/
out/
.gradle/
.idea/
*.iml
.vscode/
result
"#;

pub const COMMON_README: &'static str = r#"# {{ project_name }}

Generated by `jav`.

```bash
jav build
jav test
jav run
```
"#;

pub const COMMON_PLAIN_JAV_TOML: &'static str = r#"[run]
main_class = "{{ package_name }}.{{ main_class }}"
{% if is_maven %}maven_goal = "exec:java"{% else %}gradle_task = "run"{% endif %}
"#;

pub const COMMON_SPRING_JAV_TOML: &'static str = r#"[run]
main_class = "{{ package_name }}.Application"
{% if is_maven %}maven_goal = "spring-boot:run"{% else %}gradle_task = "bootRun"{% endif %}
"#;

pub const COMMON_FLAKE_NIX: &'static str = r#"{
  description = "{{ project_name }} development environment";

  inputs.nixpkgs.url = "github:NixOS/nixpkgs/nixos-unstable";

  outputs = { self, nixpkgs }:
    let
      systems = [ "x86_64-linux" "aarch64-linux" "x86_64-darwin" "aarch64-darwin" ];
      forAllSystems = f: nixpkgs.lib.genAttrs systems (system: f nixpkgs.legacyPackages.${system});
    in
    {
      devShells = forAllSystems (pkgs: {
        default = pkgs.mkShell {
          packages = [ pkgs.jdk{{ java_version }} {% if is_maven %}pkgs.maven{% else %}pkgs.gradle{% endif %} ];
        };
      });
    };
}
"#;

pub const CONSOLE_POM_XML: &'static str = r#"<?xml version="1.0" encoding="UTF-8"?>
<project xmlns="http://maven.apache.org/POM/4.0.0"
         xmlns:xsi="http://www.w3.org/2001/XMLSchema-instance"
         xsi:schemaLocation="http://maven.apache.org/POM/4.0.0 https://maven.apache.org/xsd/maven-4.0.0.xsd">
  <modelVersion>4.0.0</modelVersion>

  <groupId>{{ package_name }}</groupId>
  <artifactId>{{ project_name }}</artifactId>
  <version>0.1.0</version>

  <properties>
    <maven.compiler.release>{{ java_version }}</maven.compiler.release>
    <project.build.sourceEncoding>UTF-8</project.build.sourceEncoding>
    <exec.mainClass>{{ package_name }}.{{ main_class }}</exec.mainClass>
  </properties>

  <dependencies>
    <dependency>
      <groupId>org.junit.jupiter</groupId>
      <artifactId>junit-jupiter</artifactId>
      <version>5.11.4</version>
      <scope>test</scope>
    </dependency>
  </dependencies>

  <profiles>
    <profile>
      <id>debug</id>
      <properties><maven.compiler.debug>true</maven.compiler.debug></properties>
    </profile>
    <profile>
      <id>release</id>
      <properties><maven.compiler.debug>false</maven.compiler.debug></properties>
    </profile>
  </profiles>

  <build>
    <plugins>
      <plugin>
        <groupId>org.apache.maven.plugins</groupId>
        <artifactId>maven-surefire-plugin</artifactId>
        <version>3.5.2</version>
      </plugin>
      <plugin>
        <groupId>org.codehaus.mojo</groupId>
        <artifactId>exec-maven-plugin</artifactId>
        <version>3.5.0</version>
      </plugin>
    </plugins>
  </build>
</project>
"#;

pub const CONSOLE_SETTINGS_GRADLE_KTS: &'static str = r#"rootProject.name = "{{ project_name }}"
"#;

pub const CONSOLE_BUILD_GRADLE_KTS: &'static str = r#"plugins {
    application
}

group = "{{ package_name }}"
version = "0.1.0"

repositories {
    mavenCentral()
}

java {
    toolchain {
        languageVersion = JavaLanguageVersion.of({{ java_version }})
    }
}

dependencies {
    testImplementation(platform("org.junit:junit-bom:5.11.4"))
    testImplementation("org.junit.jupiter:junit-jupiter")
    testRuntimeOnly("org.junit.platform:junit-platform-launcher")
}

application {
    mainClass = "{{ package_name }}.{{ main_class }}"
}

val javConfiguration = (findProperty("jav.configuration") as String?) ?: "debug"

tasks.withType<JavaCompile> {
    options.isDebug = javConfiguration != "release"
}

tasks.test {
    useJUnitPlatform()
}
"#;

pub const CONSOLE_MAIN_JAVA: &'static str = r#"package {{ package_name }};

public final class Main {
    private Main() {
    }

    public static String greeting() {
        return "Hello from {{ project_name }}!";
    }

    public static void main(String[] args) {
        System.out.println(greeting());
    }
}
"#;

pub const CONSOLE_MAIN_TEST_JAVA: &'static str = r#"package {{ package_name }};

import static org.junit.jupiter.api.Assertions.assertEquals;

import org.junit.jupiter.api.Test;

class MainTest {
    @Test
    void greets() {
        assertEquals("Hello from {{ project_name }}!", Main.greeting());
    }
}
"#;

pub const CLI_COMMAND_APP_JAVA: &'static str = r#"package {{ package_name }};

import java.util.Arrays;

public final class CommandApp {
    private CommandApp() {
    }

    public static int execute(String[] args) {
        if (args.length == 0) {
            System.out.println("usage: {{ project_name }} <command> [arguments...]");
            return 2;
        }
        String command = args[0];
        String[] rest = Arrays.copyOfRange(args, 1, args.length);
        if (command.equals("echo")) {
            System.out.println(String.join(" ", rest));
            return 0;
        }
        System.err.println("unknown command: " + command);
        return 1;
    }

    public static void main(String[] args) {
        System.exit(execute(args));
    }
}
"#;

pub const CLI_COMMAND_APP_TEST_JAVA: &'static str = r#"package {{ package_name }};

import static org.junit.jupiter.api.Assertions.assertEquals;

import org.junit.jupiter.api.Test;

class CommandAppTest {
    @Test
    void rejectsMissingCommand() {
        assertEquals(2, CommandApp.execute(new String[0]));
    }

    @Test
    void echoes() {
        assertEquals(0, CommandApp.execute(new String[] {"echo", "hi"}));
    }
}
"#;

pub const WORKER_JAVA: &'static str = r#"package {{ package_name }};

import java.util.concurrent.CountDownLatch;

public final class Worker implements Runnable {
    private final CountDownLatch stopped = new CountDownLatch(1);
    private volatile int ticks;

    public int ticks() {
        return ticks;
    }

    public void tick() {
        ticks++;
    }

    public void stop() {
        stopped.countDown();
    }

    @Override
    public void run() {
        try {
            while (!stopped.await(1, java.util.concurrent.TimeUnit.SECONDS)) {
                tick();
            }
        } catch (InterruptedException interrupted) {
            Thread.currentThread().interrupt();
        }
    }

    public static void main(String[] args) {
        Worker worker = new Worker();
        Runtime.getRuntime().addShutdownHook(new Thread(worker::stop));
        System.out.println("{{ project_name }} worker started");
        worker.run();
    }
}
"#;

pub const WORKER_TEST_JAVA: &'static str = r#"package {{ package_name }};

import static org.junit.jupiter.api.Assertions.assertEquals;

import org.junit.jupiter.api.Test;

class WorkerTest {
    @Test
    void counts() {
        Worker worker = new Worker();
        worker.tick();
        assertEquals(1, worker.ticks());
    }
}
"#;

pub const JUNIT_CALCULATOR_JAVA: &'static str = r#"package {{ package_name }};

public final class Calculator {
    public int add(int left, int right) {
        return left + right;
    }

    public static void main(String[] args) {
        System.out.println(new Calculator().add(2, 3));
    }
}
"#;

pub const JUNIT_CALCULATOR_TEST_JAVA: &'static str = r#"package {{ package_name }};

import static org.junit.jupiter.api.Assertions.assertEquals;

import org.junit.jupiter.params.ParameterizedTest;
import org.junit.jupiter.params.provider.CsvSource;

class CalculatorTest {
    @ParameterizedTest
    @CsvSource({"1, 1, 2", "2, 3, 5", "-1, 1, 0"})
    void adds(int left, int right, int expected) {
        assertEquals(expected, new Calculator().add(left, right));
    }
}
"#;

pub const LIBRARY_POM_XML: &'static str = r#"<?xml version="1.0" encoding="UTF-8"?>
<project xmlns="http://maven.apache.org/POM/4.0.0"
         xmlns:xsi="http://www.w3.org/2001/XMLSchema-instance"
         xsi:schemaLocation="http://maven.apache.org/POM/4.0.0 https://maven.apache.org/xsd/maven-4.0.0.xsd">
  <modelVersion>4.0.0</modelVersion>

  <groupId>{{ package_name }}</groupId>
  <artifactId>{{ project_name }}</artifactId>
  <version>0.1.0</version>
  <packaging>jar</packaging>

  <properties>
    <maven.compiler.release>{{ java_version }}</maven.compiler.release>
    <project.build.sourceEncoding>UTF-8</project.build.sourceEncoding>
  </properties>

  <dependencies>
    <dependency>
      <groupId>org.junit.jupiter</groupId>
      <artifactId>junit-jupiter</artifactId>
      <version>5.11.4</version>
      <scope>test</scope>
    </dependency>
  </dependencies>

  <profiles>
    <profile>
      <id>debug</id>
      <properties><maven.compiler.debug>true</maven.compiler.debug></properties>
    </profile>
    <profile>
      <id>release</id>
      <properties><maven.compiler.debug>false</maven.compiler.debug></properties>
    </profile>
  </profiles>

  <build>
    <plugins>
      <plugin>
        <groupId>org.apache.maven.plugins</groupId>
        <artifactId>maven-surefire-plugin</artifactId>
        <version>3.5.2</version>
      </plugin>
    </plugins>
  </build>
</project>
"#;

pub const LIBRARY_SETTINGS_GRADLE_KTS: &'static str = r#"rootProject.name = "{{ project_name }}"
"#;

pub const LIBRARY_BUILD_GRADLE_KTS: &'static str = r#"plugins {
    `java-library`
}

group = "{{ package_name }}"
version = "0.1.0"

repositories {
    mavenCentral()
}

java {
    toolchain {
        languageVersion = JavaLanguageVersion.of({{ java_version }})
    }
}

dependencies {
    testImplementation(platform("org.junit:junit-bom:5.11.4"))
    testImplementation("org.junit.jupiter:junit-jupiter")
    testRuntimeOnly("org.junit.platform:junit-platform-launcher")
}

val javConfiguration = (findProperty("jav.configuration") as String?) ?: "debug"

tasks.withType<JavaCompile> {
    options.isDebug = javConfiguration != "release"
}

tasks.test {
    useJUnitPlatform()
}
"#;

pub const LIBRARY_JAVA: &'static str = r#"package {{ package_name }};

public final class Library {
    public boolean someLibraryMethod() {
        return true;
    }
}
"#;

pub const LIBRARY_TEST_JAVA: &'static str = r#"package {{ package_name }};

import static org.junit.jupiter.api.Assertions.assertTrue;

import org.junit.jupiter.api.Test;

class LibraryTest {
    @Test
    void someLibraryMethodReturnsTrue() {
        assertTrue(new Library().someLibraryMethod());
    }
}
"#;

pub const SPRING_POM_XML: &'static str = r#"<?xml version="1.0" encoding="UTF-8"?>
<project xmlns="http://maven.apache.org/POM/4.0.0"
         xmlns:xsi="http://www.w3.org/2001/XMLSchema-instance"
         xsi:schemaLocation="http://maven.apache.org/POM/4.0.0 https://maven.apache.org/xsd/maven-4.0.0.xsd">
  <modelVersion>4.0.0</modelVersion>

  <parent>
    <groupId>org.springframework.boot</groupId>
    <artifactId>spring-boot-starter-parent</artifactId>
    <version>{{ spring_boot_version }}</version>
    <relativePath/>
  </parent>

  <groupId>{{ package_name }}</groupId>
  <artifactId>{{ project_name }}</artifactId>
  <version>0.1.0</version>

  <properties>
    <java.version>{{ java_version }}</java.version>
  </properties>

  <dependencies>
    <dependency>
      <groupId>org.springframework.boot</groupId>
      <artifactId>spring-boot-starter</artifactId>
    </dependency>
{% for dependency in spring_maven_dependencies %}    <dependency>
      <groupId>org.springframework.boot</groupId>
      <artifactId>{{ dependency }}</artifactId>
    </dependency>
{% endfor %}{% for dependency in spring_runtime_maven_dependencies %}    <dependency>
      <groupId>org.postgresql</groupId>
      <artifactId>{{ dependency }}</artifactId>
      <scope>runtime</scope>
    </dependency>
{% endfor %}{% if spring_has_lombok %}    <dependency>
      <groupId>org.projectlombok</groupId>
      <artifactId>lombok</artifactId>
      <optional>true</optional>
    </dependency>
{% endif %}    <dependency>
      <groupId>org.springframework.boot</groupId>
      <artifactId>spring-boot-starter-test</artifactId>
      <scope>test</scope>
    </dependency>
  </dependencies>

  <profiles>
    <profile>
      <id>debug</id>
      <properties><maven.compiler.debug>true</maven.compiler.debug></properties>
    </profile>
    <profile>
      <id>release</id>
      <properties><maven.compiler.debug>false</maven.compiler.debug></properties>
    </profile>
  </profiles>

  <build>
    <plugins>
      <plugin>
        <groupId>org.springframework.boot</groupId>
        <artifactId>spring-boot-maven-plugin</artifactId>
      </plugin>
    </plugins>
  </build>
</project>
"#;

pub const SPRING_SETTINGS_GRADLE_KTS: &'static str = r#"rootProject.name = "{{ project_name }}"
"#;

pub const SPRING_BUILD_GRADLE_KTS: &'static str = r#"plugins {
    java
    id("org.springframework.boot") version "{{ spring_boot_version }}"
    id("io.spring.dependency-management") version "1.1.7"
}

group = "{{ package_name }}"
version = "0.1.0"

repositories {
    mavenCentral()
}

java {
    toolchain {
        languageVersion = JavaLanguageVersion.of({{ java_version }})
    }
}

dependencies {
    implementation("org.springframework.boot:spring-boot-starter")
{% for dependency in spring_gradle_dependencies %}    implementation("{{ dependency }}")
{% endfor %}{% for dependency in spring_runtime_gradle_dependencies %}    runtimeOnly("{{ dependency }}")
{% endfor %}{% if spring_has_lombok %}    compileOnly("org.projectlombok:lombok")
    annotationProcessor("org.projectlombok:lombok")
{% endif %}    testImplementation("org.springframework.boot:spring-boot-starter-test")
    testRuntimeOnly("org.junit.platform:junit-platform-launcher")
}

val javConfiguration = (findProperty("jav.configuration") as String?) ?: "debug"

tasks.withType<JavaCompile> {
    options.isDebug = javConfiguration != "release"
}

tasks.test {
    useJUnitPlatform()
}
"#;

pub const SPRING_APPLICATION_JAVA: &'static str = r#"package {{ package_name }};

import org.springframework.boot.SpringApplication;
import org.springframework.boot.autoconfigure.SpringBootApplication;

@SpringBootApplication
public class Application {
    public static void main(String[] args) {
        SpringApplication.run(Application.class, args);
    }
}
"#;

pub const SPRING_APPLICATION_PROPERTIES: &'static str = r#"spring.application.name={{ project_name }}
{% if spring_has_actuator %}management.endpoints.web.exposure.include=health,info
{% endif %}{% if spring_has_postgresql %}spring.datasource.url=jdbc:postgresql://localhost:5432/{{ project_name }}
spring.datasource.username=postgres
spring.datasource.password=postgres
{% endif %}{% if spring_has_data_jpa %}spring.jpa.hibernate.ddl-auto=update
{% endif %}{% if spring_has_batch %}spring.batch.jdbc.initialize-schema=always
{% endif %}"#;

pub const SPRING_APPLICATION_TESTS_JAVA: &'static str = r#"package {{ package_name }};

import org.junit.jupiter.api.Test;
import org.springframework.boot.test.context.SpringBootTest;

@SpringBootTest
class ApplicationTests {
    @Test
    void contextLoads() {
    }
}
"#;

pub const SPRING_HELLO_CONTROLLER_JAVA: &'static str = r#"package {{ package_name }};

import org.springframework.web.bind.annotation.GetMapping;
import org.springframework.web.bind.annotation.RestController;

@RestController
public class HelloController {
    @GetMapping("/hello")
    public String hello() {
        return "Hello from {{ project_name }}!";
    }
}
"#;

pub const SPRING_CUSTOMER_JAVA: &'static str = r#"package {{ package_name }};

import jakarta.persistence.Entity;
import jakarta.persistence.GeneratedValue;
import jakarta.persistence.Id;

@Entity
public class Customer {
    @Id
    @GeneratedValue
    private Long id;

    private String name;

    protected Customer() {
    }

    public Customer(String name) {
        this.name = name;
    }

    public Long getId() {
        return id;
    }

    public String getName() {
        return name;
    }
}
"#;

pub const SPRING_CUSTOMER_REPOSITORY_JAVA: &'static str = r#"package {{ package_name }};

import org.springframework.data.jpa.repository.JpaRepository;

public interface CustomerRepository extends JpaRepository<Customer, Long> {
}
"#;

pub const SPRING_SECURITY_CONFIG_JAVA: &'static str = r#"package {{ package_name }};

import static org.springframework.security.config.Customizer.withDefaults;

import org.springframework.context.annotation.Bean;
import org.springframework.context.annotation.Configuration;
import org.springframework.security.config.annotation.web.builders.HttpSecurity;
import org.springframework.security.web.SecurityFilterChain;

@Configuration
public class SecurityConfig {
    @Bean
    SecurityFilterChain securityFilterChain(HttpSecurity http) throws Exception {
        http.authorizeHttpRequests(requests -> requests.anyRequest().authenticated())
            .httpBasic(withDefaults());
        return http.build();
    }
}
"#;

pub const SPRING_BATCH_JOB_CONFIG_JAVA: &'static str = r#"package {{ package_name }};

import org.springframework.batch.core.Job;
import org.springframework.batch.core.Step;
import org.springframework.batch.core.job.builder.JobBuilder;
import org.springframework.batch.core.repository.JobRepository;
import org.springframework.batch.core.step.builder.StepBuilder;
import org.springframework.batch.repeat.RepeatStatus;
import org.springframework.context.annotation.Bean;
import org.springframework.context.annotation.Configuration;
import org.springframework.transaction.PlatformTransactionManager;

@Configuration
public class BatchJobConfig {
    @Bean
    Step helloStep(JobRepository jobRepository, PlatformTransactionManager transactionManager) {
        return new StepBuilder("helloStep", jobRepository)
            .tasklet((contribution, chunkContext) -> {
                System.out.println("Hello from {{ project_name }} batch!");
                return RepeatStatus.FINISHED;
            }, transactionManager)
            .build();
    }

    @Bean
    Job helloJob(JobRepository jobRepository, Step helloStep) {
        return new JobBuilder("helloJob", jobRepository).start(helloStep).build();
    }
}
"#;

} // verus!
