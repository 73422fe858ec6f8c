//! `jav doctor`: which Java tools are installed, whether `JAVA_HOME` is set,
//! and what kind of project the current directory holds.
use crate::process::CommandRunner;
use crate::project::{spec_kind_name, ProjectKind};
use crate::text::{concat2, opt_view, owned, str_views};
use crate::upgrade::{current_version, VERSION};
use vstd::prelude::*;

verus! {

/// One line of the doctor's report.
#[derive(Debug, Clone)]
pub enum DoctorLine {
    /// A check that passed: a label and what was found.
    Status(String, String),
    /// A check that did not pass, with its message.
    Warning(String),
}

/// A report line as plain sequences.
pub enum DoctorLineView {
    Status(Seq<char>, Seq<char>),
    Warning(Seq<char>),
}

impl View for DoctorLine {
    type V = DoctorLineView;

    open spec fn view(&self) -> DoctorLineView {
        match self {
            DoctorLine::Status(label, value) => DoctorLineView::Status(label@, value@),
            DoctorLine::Warning(message) => DoctorLineView::Warning(message@),
        }
    }
}

/// The views of a sequence of report lines.
pub open spec fn line_views(v: Seq<DoctorLine>) -> Seq<DoctorLineView> {
    v.map_values(|l: DoctorLine| l@)
}

/// The programs the doctor looks for, in order.
pub open spec fn spec_tools() -> Seq<Seq<char>> {
    seq!["java"@, "javac"@, "mvn"@, "gradle"@]
}

/// The programs the doctor looks for, in order.
pub fn tools() -> (r: Vec<&'static str>)
    ensures
        str_views(r@) == spec_tools(),
{
    let r = vec!["java", "javac", "mvn", "gradle"];
    assert(str_views(r@) =~= spec_tools());
    r
}

/// The line for one program: found, or a warning that it is not on `PATH`.
pub open spec fn tool_line(tool: Seq<char>, found: bool) -> DoctorLineView {
    if found {
        DoctorLineView::Status(tool, "found"@)
    } else {
        DoctorLineView::Warning(tool + " was not found on PATH"@)
    }
}

/// The line for `JAVA_HOME`.
pub open spec fn java_home_line(java_home: Option<Seq<char>>) -> DoctorLineView {
    match java_home {
        Some(v) => DoctorLineView::Status("JAVA_HOME"@, v),
        None => DoctorLineView::Warning("JAVA_HOME is not set"@),
    }
}

/// The line for the project in the current directory.
pub open spec fn project_line(project: Option<ProjectKind>) -> DoctorLineView {
    match project {
        Some(k) => DoctorLineView::Status("project"@, spec_kind_name(k)),
        None => DoctorLineView::Warning("no Java project detected in the current directory"@),
    }
}

/// The report: the version of `jav`, one line per program of `spec_tools`
/// (`found[i]` telling whether the `i`-th is installed), `JAVA_HOME`, and
/// the project.
pub open spec fn spec_report(
    found: Seq<bool>,
    java_home: Option<Seq<char>>,
    project: Option<ProjectKind>,
) -> Seq<DoctorLineView> {
    seq![DoctorLineView::Status("jav"@, VERSION@)] + Seq::new(
        spec_tools().len(),
        |i: int| tool_line(spec_tools()[i], found[i]),
    ) + seq![java_home_line(java_home), project_line(project)]
}

/// The line for one program.
fn tool_report_line(tool: &str, found: bool) -> (r: DoctorLine)
    ensures
        r@ == tool_line(tool@, found),
{
    if found {
        DoctorLine::Status(owned(tool), "found".to_owned())
    } else {
        DoctorLine::Warning(concat2(tool, " was not found on PATH"))
    }
}

/// The doctor's report, given which of the programs of `tools` were found,
/// the value of `JAVA_HOME` and the detected project, if any.
pub fn report(found: &[bool], java_home: Option<&str>, project: Option<ProjectKind>) -> (r: Vec<
    DoctorLine,
>)
    requires
        found@.len() == spec_tools().len(),
    ensures
        line_views(r@) == spec_report(found@, opt_view(java_home), project),
{
    let names = tools();
    let mut r: Vec<DoctorLine> = Vec::new();
    r.push(DoctorLine::Status("jav".to_owned(), owned(current_version())));
    let ghost head = seq![DoctorLineView::Status("jav"@, VERSION@)];
    let ghost all_tools = Seq::new(
        spec_tools().len(),
        |i: int| tool_line(spec_tools()[i], found@[i]),
    );
    assert(line_views(r@) =~= head);
    let mut i: usize = 0;
    while i < names.len()
        invariant
            str_views(names@) == spec_tools(),
            found@.len() == spec_tools().len(),
            i <= names@.len(),
            all_tools == Seq::new(
                spec_tools().len(),
                |i: int| tool_line(spec_tools()[i], found@[i]),
            ),
            head == seq![DoctorLineView::Status("jav"@, VERSION@)],
            line_views(r@) == head + all_tools.take(i as int),
        decreases names@.len() - i,
    {
        let line = tool_report_line(names[i], found[i]);
        let ghost before = r@;
        r.push(line);
        assert(names@[i as int]@ == spec_tools()[i as int]);
        assert(all_tools.take(i + 1) =~= all_tools.take(i as int).push(all_tools[i as int]));
        assert(line_views(r@) =~= line_views(before).push(r@.last()@));
        i = i + 1;
    }
    assert(all_tools.take(names@.len() as int) =~= all_tools);
    let home = match java_home {
        Some(v) => DoctorLine::Status("JAVA_HOME".to_owned(), owned(v)),
        None => DoctorLine::Warning("JAVA_HOME is not set".to_owned()),
    };
    let place = match project {
        Some(k) => DoctorLine::Status("project".to_owned(), owned(k.name())),
        None => DoctorLine::Warning("no Java project detected in the current directory".to_owned()),
    };
    let ghost before = r@;
    r.push(home);
    r.push(place);
    assert(line_views(r@) =~= line_views(before) + seq![
        java_home_line(opt_view(java_home)),
        project_line(project),
    ]);
    r
}

/// `answer` is something `runner.program_exists` can give for the name of
/// the `i`-th program of `spec_tools`.
pub open spec fn answer_for<R: CommandRunner>(runner: &R, i: int, answer: bool) -> bool {
    exists|p: &str| p@ == spec_tools()[i] && #[trigger] call_ensures(R::program_exists, (runner, p), answer)
}

/// `found` holds, for each program of `spec_tools` in order, an answer
/// that `runner.program_exists` can give for that program's name.
pub open spec fn answers_of<R: CommandRunner>(runner: &R, found: Seq<bool>) -> bool {
    &&& found.len() == spec_tools().len()
    &&& forall|i: int| 0 <= i < found.len() ==> #[trigger] answer_for(runner, i, found[i])
}

/// Asks `runner` whether each program of `tools` is installed, in order,
/// and makes the report from the answers, the value of `JAVA_HOME` and the
/// detected project.
pub fn run<R: CommandRunner>(runner: &R, java_home: Option<&str>, project: Option<
    ProjectKind,
>) -> (r: Vec<DoctorLine>)
    ensures
        exists|found: Seq<bool>|
            answers_of(runner, found) && line_views(r@) == spec_report(
                found,
                opt_view(java_home),
                project,
            ),
{
    let names = tools();
    let mut found: Vec<bool> = Vec::new();
    let mut i: usize = 0;
    while i < names.len()
        invariant
            str_views(names@) == spec_tools(),
            i <= names@.len(),
            found@.len() == i,
            forall|j: int| 0 <= j < i ==> #[trigger] answer_for(runner, j, found@[j]),
        decreases names@.len() - i,
    {
        let name = names[i];
        let answer = runner.program_exists(name);
        assert(name@ == spec_tools()[i as int]) by {
            assert(str_views(names@)[i as int] == names@[i as int]@);
        }
        assert(call_ensures(R::program_exists, (runner, name), answer));
        assert(answer_for(runner, i as int, answer));
        let ghost old_found = found@;
        found.push(answer);
        assert forall|j: int| 0 <= j < i + 1 implies #[trigger] answer_for(runner, j, found@[j]) by {
            if j < i {
                assert(found@[j] == old_found[j]);
            }
        }
        i = i + 1;
    }
    assert(found@.len() == spec_tools().len()) by {
        assert(str_views(names@).len() == names@.len());
    }
    let r = report(found.as_slice(), java_home, project);
    assert(answers_of(runner, found@));
    r
}

} // verus!
