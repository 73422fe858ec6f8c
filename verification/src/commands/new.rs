//! `jav new`: checking names and turning a template into project files.
use crate::text::{
    ascii_lower, chars_of, contains_char, from_chars, is_ascii_alnum, is_ascii_alpha, is_blank,
    lemma_split_nonempty, nonempty_pieces, owned, spec_ascii_lower, spec_is_ascii_alnum,
    spec_is_ascii_alpha, spec_is_blank, spec_join, spec_split, split_chars,
};
use crate::cli::NewArgs;
use crate::templates::render::{render, spec_render, RenderError, RenderErrorView, RenderedFile, rendered_views};
use crate::templates::{manifest, manifests, manifest_views, spec_manifest, spec_manifests, TemplateContext, TemplateContextView, TemplateManifest, TemplateManifestView};
use crate::text::{concat2, copy_strings, join_strings, opt_string_view, replace_char, spec_replace_char, str_eq, views};
use vstd::prelude::*;

verus! {

// ---------------------------------------------------------------------------
// Errors
// ---------------------------------------------------------------------------

/// Why a name given to `jav new` was refused.
#[derive(Debug, Clone)]
pub enum NameError {
    /// The project name is empty or white space.
    EmptyProjectName,
    /// The project name holds `/` or `\`.
    ProjectNameHasSeparator,
    /// The package name has an empty segment.
    EmptyPackageSegment,
    /// A package segment starts with something else than a letter or `_`.
    PackageSegmentStart(String),
    /// A package segment holds something else than letters, digits and `_`.
    PackageSegmentChars(String),
}

/// A name error as plain sequences.
pub enum NameErrorView {
    EmptyProjectName,
    ProjectNameHasSeparator,
    EmptyPackageSegment,
    PackageSegmentStart(Seq<char>),
    PackageSegmentChars(Seq<char>),
}

impl View for NameError {
    type V = NameErrorView;

    open spec fn view(&self) -> NameErrorView {
        match self {
            NameError::EmptyProjectName => NameErrorView::EmptyProjectName,
            NameError::ProjectNameHasSeparator => NameErrorView::ProjectNameHasSeparator,
            NameError::EmptyPackageSegment => NameErrorView::EmptyPackageSegment,
            NameError::PackageSegmentStart(s) => NameErrorView::PackageSegmentStart(s@),
            NameError::PackageSegmentChars(s) => NameErrorView::PackageSegmentChars(s@),
        }
    }
}

/// The message shown for a name error.
pub open spec fn spec_name_message(e: NameErrorView) -> Seq<char> {
    match e {
        NameErrorView::EmptyProjectName => "project name cannot be empty"@,
        NameErrorView::ProjectNameHasSeparator => "project name cannot contain path separators"@,
        NameErrorView::EmptyPackageSegment => "package name cannot contain empty segments"@,
        NameErrorView::PackageSegmentStart(s) => "package segment '"@ + s
            + "' must start with a letter or underscore"@,
        NameErrorView::PackageSegmentChars(s) => "package segment '"@ + s
            + "' contains invalid characters"@,
    }
}

impl NameError {
    /// The message shown for the error.
    pub fn message(&self) -> (r: String)
        ensures
            r@ == spec_name_message(self@),
    {
        match self {
            NameError::EmptyProjectName => owned("project name cannot be empty"),
            NameError::ProjectNameHasSeparator => owned(
                "project name cannot contain path separators",
            ),
            NameError::EmptyPackageSegment => owned("package name cannot contain empty segments"),
            NameError::PackageSegmentStart(s) => {
                let mut r = owned("package segment '");
                r.append(s.as_str());
                r.append("' must start with a letter or underscore");
                r
            },
            NameError::PackageSegmentChars(s) => {
                let mut r = owned("package segment '");
                r.append(s.as_str());
                r.append("' contains invalid characters");
                r
            },
        }
    }
}

// ---------------------------------------------------------------------------
// Project and package names
// ---------------------------------------------------------------------------

/// A character of a project name as it goes into the default package:
/// ASCII letters and digits in lower case, anything else a dot.
pub open spec fn package_char(c: char) -> char {
    if spec_is_ascii_alnum(c) {
        spec_ascii_lower(c)
    } else {
        '.'
    }
}

/// The segments of the default package that a project name gives: the
/// runs of ASCII letters and digits of the name, in lower case.
pub open spec fn name_segments(name: Seq<char>) -> Seq<Seq<char>> {
    nonempty_pieces(spec_split(name.map_values(|c: char| package_char(c)), '.'))
}

/// The package proposed for a project: `com.example.` followed by the
/// segments of the name joined with dots.
pub open spec fn spec_default_package(name: Seq<char>) -> Seq<char> {
    "com.example."@ + spec_join(name_segments(name), seq!['.'])
}

/// The package proposed for a project named `name`.
pub fn default_package(name: &str) -> (r: String)
    ensures
        r@ == spec_default_package(name@),
{
    let chars = chars_of(name);
    let ghost mapped_spec = name@.map_values(|c: char| package_char(c));
    let mut mapped: Vec<char> = Vec::new();
    let mut i: usize = 0;
    while i < chars.len()
        invariant
            chars@ == name@,
            mapped_spec == name@.map_values(|c: char| package_char(c)),
            i <= chars@.len(),
            mapped@ == mapped_spec.take(i as int),
        decreases chars@.len() - i,
    {
        let c = chars[i];
        let d = if is_ascii_alnum(c) {
            ascii_lower(c)
        } else {
            '.'
        };
        mapped.push(d);
        assert(mapped@ =~= mapped_spec.take(i + 1));
        i = i + 1;
    }
    assert(mapped@ =~= mapped_spec);
    let pieces = split_chars(&mapped, '.');
    let ghost pieces_spec = spec_split(mapped_spec, '.');
    // Keep the non-empty pieces.
    let mut kept: Vec<Vec<char>> = Vec::new();
    let mut k: usize = 0;
    while k < pieces.len()
        invariant
            pieces@.len() == pieces_spec.len(),
            forall|j: int| 0 <= j < pieces@.len() ==> #[trigger] pieces@[j]@ == pieces_spec[j],
            k <= pieces@.len(),
            kept@.len() == nonempty_pieces(pieces_spec.take(k as int)).len(),
            forall|j: int|
                0 <= j < kept@.len() ==> #[trigger] kept@[j]@ == nonempty_pieces(
                    pieces_spec.take(k as int),
                )[j],
        decreases pieces@.len() - k,
    {
        assert(pieces_spec.take(k + 1).drop_last() =~= pieces_spec.take(k as int));
        assert(pieces_spec.take(k + 1).last() == pieces@[k as int]@);
        if pieces[k].len() > 0 {
            let p = pieces[k].clone();
            kept.push(p);
        }
        k = k + 1;
    }
    assert(pieces_spec.take(pieces@.len() as int) =~= pieces_spec);
    let ghost segs = nonempty_pieces(pieces_spec);
    // Join them with dots.
    let mut out: Vec<char> = Vec::new();
    let mut m: usize = 0;
    while m < kept.len()
        invariant
            kept@.len() == segs.len(),
            forall|j: int| 0 <= j < kept@.len() ==> #[trigger] kept@[j]@ == segs[j],
            m <= kept@.len(),
            out@ == spec_join(segs.take(m as int), seq!['.']),
        decreases kept@.len() - m,
    {
        let ghost before = out@;
        assert(segs.take(m + 1).drop_last() =~= segs.take(m as int));
        if m > 0 {
            out.push('.');
        }
        let piece = &kept[m];
        let mut q: usize = 0;
        let ghost mid = out@;
        while q < piece.len()
            invariant
                q <= piece@.len(),
                out@ == mid + piece@.take(q as int),
            decreases piece@.len() - q,
        {
            out.push(piece[q]);
            assert(out@ =~= mid + piece@.take(q + 1));
            q = q + 1;
        }
        assert(piece@.take(piece@.len() as int) =~= piece@);
        if m == 0 {
            assert(out@ =~= segs.take(1)[0]);
        } else {
            assert(out@ =~= before + seq!['.'] + segs.take(m + 1).last());
        }
        m = m + 1;
    }
    assert(segs.take(kept@.len() as int) =~= segs);
    let mut r = owned("com.example.");
    let tail = from_chars(out.as_slice());
    r.append(tail.as_str());
    r
}

/// Why a project name is refused, if it is.
pub open spec fn spec_validate_project_name(name: Seq<char>) -> Result<(), NameErrorView> {
    if spec_is_blank(name) {
        Err(NameErrorView::EmptyProjectName)
    } else if name.contains('/') || name.contains('\\') {
        Err(NameErrorView::ProjectNameHasSeparator)
    } else {
        Ok(())
    }
}

/// Checks a project name: it must not be blank, and must not hold a path
/// separator.
pub fn validate_project_name(name: &str) -> (r: Result<(), NameError>)
    ensures
        match r {
            Ok(()) => spec_validate_project_name(name@) == Ok::<(), NameErrorView>(()),
            Err(e) => spec_validate_project_name(name@) == Err::<(), NameErrorView>(e@),
        },
{
    if is_blank(name) {
        return Err(NameError::EmptyProjectName);
    }
    if contains_char(name, '/') || contains_char(name, '\\') {
        return Err(NameError::ProjectNameHasSeparator);
    }
    Ok(())
}

/// A character allowed after the first one of a package segment.
pub open spec fn segment_char(c: char) -> bool {
    spec_is_ascii_alnum(c) || c == '_'
}

/// What is wrong with one package segment, if anything.
pub open spec fn segment_issue(seg: Seq<char>) -> Option<NameErrorView> {
    if seg.len() == 0 {
        Some(NameErrorView::EmptyPackageSegment)
    } else if !(spec_is_ascii_alpha(seg[0]) || seg[0] == '_') {
        Some(NameErrorView::PackageSegmentStart(seg))
    } else if exists|i: int| 1 <= i < seg.len() && !segment_char(#[trigger] seg[i]) {
        Some(NameErrorView::PackageSegmentChars(seg))
    } else {
        None
    }
}

/// The issue of the first faulty segment, if any.
pub open spec fn first_segment_issue(segs: Seq<Seq<char>>) -> Option<NameErrorView>
    decreases segs.len(),
{
    if segs.len() == 0 {
        None
    } else {
        match segment_issue(segs[0]) {
            Some(e) => Some(e),
            None => first_segment_issue(segs.drop_first()),
        }
    }
}

/// Why a package name is refused, if it is: the dot-separated segments are
/// checked in order and the first faulty one decides.
pub open spec fn spec_validate_package_name(package: Seq<char>) -> Result<(), NameErrorView> {
    match first_segment_issue(spec_split(package, '.')) {
        Some(e) => Err(e),
        None => Ok(()),
    }
}

/// Checks one segment.
fn check_segment(seg: &Vec<char>) -> (r: Result<(), NameError>)
    ensures
        match r {
            Ok(()) => segment_issue(seg@) is None,
            Err(e) => segment_issue(seg@) == Some(e@),
        },
{
    if seg.len() == 0 {
        return Err(NameError::EmptyPackageSegment);
    }
    let first = seg[0];
    if !(is_ascii_alpha(first) || first == '_') {
        return Err(NameError::PackageSegmentStart(from_chars(seg.as_slice())));
    }
    let mut i: usize = 1;
    while i < seg.len()
        invariant
            1 <= i <= seg@.len(),
            spec_is_ascii_alpha(seg@[0]) || seg@[0] == '_',
            forall|j: int| 1 <= j < i ==> segment_char(#[trigger] seg@[j]),
        decreases seg@.len() - i,
    {
        let c = seg[i];
        if !(is_ascii_alnum(c) || c == '_') {
            assert(!segment_char(seg@[i as int]));
            assert(exists|j: int| 1 <= j < seg@.len() && !segment_char(#[trigger] seg@[j]));
            return Err(NameError::PackageSegmentChars(from_chars(seg.as_slice())));
        }
        i = i + 1;
    }
    Ok(())
}

/// Checks a package name: every dot-separated segment must be non-empty,
/// start with an ASCII letter or `_`, and hold only ASCII letters, digits
/// and `_`.
pub fn validate_package_name(package_name: &str) -> (r: Result<(), NameError>)
    ensures
        match r {
            Ok(()) => spec_validate_package_name(package_name@) == Ok::<(), NameErrorView>(()),
            Err(e) => spec_validate_package_name(package_name@) == Err::<(), NameErrorView>(e@),
        },
{
    let chars = chars_of(package_name);
    let segs = split_chars(&chars, '.');
    let ghost spec_segs = spec_split(package_name@, '.');
    let mut i: usize = 0;
    assert(spec_segs.skip(0) =~= spec_segs);
    while i < segs.len()
        invariant
            spec_segs == spec_split(package_name@, '.'),
            segs@.len() == spec_segs.len(),
            forall|j: int| 0 <= j < segs@.len() ==> #[trigger] segs@[j]@ == spec_segs[j],
            i <= segs@.len(),
            first_segment_issue(spec_segs) == first_segment_issue(spec_segs.skip(i as int)),
        decreases segs@.len() - i,
    {
        assert(spec_segs.skip(i as int)[0] == segs@[i as int]@);
        assert(spec_segs.skip(i as int).drop_first() =~= spec_segs.skip(i + 1));
        match check_segment(&segs[i]) {
            Ok(()) => {},
            Err(e) => return Err(e),
        }
        i = i + 1;
    }
    assert(spec_segs.skip(segs@.len() as int) =~= Seq::<Seq<char>>::empty());
    Ok(())
}

// ---------------------------------------------------------------------------
// The proposed package and the package check
// ---------------------------------------------------------------------------

/// Splitting at a separator placed between two texts splits each side.
proof fn lemma_split_concat(a: Seq<char>, b: Seq<char>, sep: char)
    ensures
        spec_split(a + seq![sep] + b, sep) == spec_split(a, sep) + spec_split(b, sep),
    decreases b.len(),
{
    if b.len() == 0 {
        assert(a + seq![sep] + b =~= a.push(sep));
        assert((a + seq![sep] + b).drop_last() =~= a);
        assert(spec_split(b, sep) =~= seq![Seq::<char>::empty()]);
    } else {
        lemma_split_concat(a, b.drop_last(), sep);
        assert((a + seq![sep] + b).drop_last() =~= a + seq![sep] + b.drop_last());
        lemma_split_nonempty(b.drop_last(), sep);
        lemma_split_nonempty(a, sep);
        let left = spec_split(a, sep);
        let right = spec_split(b.drop_last(), sep);
        if b.last() == sep {
            assert((left + right).push(Seq::empty()) =~= left + right.push(Seq::empty()));
        } else {
            assert((left + right).update(
                (left + right).len() - 1,
                (left + right).last().push(b.last()),
            ) =~= left + right.update(right.len() - 1, right.last().push(b.last())));
        }
    }
}

/// A text without the separator is a single piece.
proof fn lemma_split_single(s: Seq<char>, sep: char)
    requires
        !s.contains(sep),
    ensures
        spec_split(s, sep) == seq![s],
    decreases s.len(),
{
    if s.len() > 0 {
        assert(!s.drop_last().contains(sep)) by {
            if s.drop_last().contains(sep) {
                let i = choose|i: int| 0 <= i < s.drop_last().len() && s.drop_last()[i] == sep;
                assert(s[i] == sep);
            }
        }
        lemma_split_single(s.drop_last(), sep);
        assert(s.last() != sep) by {
            assert(s[s.len() - 1] == s.last());
        }
        assert(s.drop_last().push(s.last()) =~= s);
    } else {
        assert(s =~= Seq::<char>::empty());
    }
}

/// Splitting pieces joined with the separator gives the pieces back, when
/// no piece holds the separator.
proof fn lemma_split_join(pieces: Seq<Seq<char>>, sep: char)
    requires
        pieces.len() >= 1,
        forall|i: int| 0 <= i < pieces.len() ==> !(#[trigger] pieces[i]).contains(sep),
    ensures
        spec_split(spec_join(pieces, seq![sep]), sep) == pieces,
    decreases pieces.len(),
{
    if pieces.len() == 1 {
        lemma_split_single(pieces[0], sep);
        assert(pieces =~= seq![pieces[0]]);
    } else {
        let init = pieces.drop_last();
        assert forall|i: int| 0 <= i < init.len() implies !(#[trigger] init[i]).contains(sep) by {
            assert(init[i] == pieces[i]);
        }
        lemma_split_join(init, sep);
        lemma_split_concat(spec_join(init, seq![sep]), pieces.last(), sep);
        lemma_split_single(pieces.last(), sep);
        assert(pieces.last() == pieces[pieces.len() - 1]);
        assert(init + seq![pieces.last()] =~= pieces);
    }
}

/// Every character of every piece is a character of the text other than
/// the separator.
proof fn lemma_split_chars(s: Seq<char>, sep: char, i: int, j: int)
    requires
        0 <= i < spec_split(s, sep).len(),
        0 <= j < spec_split(s, sep)[i].len(),
    ensures
        spec_split(s, sep)[i][j] != sep,
        s.contains(spec_split(s, sep)[i][j]),
    decreases s.len(),
{
    lemma_split_nonempty(s, sep);
    if s.len() > 0 {
        let prev = spec_split(s.drop_last(), sep);
        lemma_split_nonempty(s.drop_last(), sep);
        if s.last() == sep {
            lemma_split_chars(s.drop_last(), sep, i, j);
            let c = spec_split(s, sep)[i][j];
            let k = choose|k: int| 0 <= k < s.drop_last().len() && s.drop_last()[k] == c;
            assert(s[k] == c);
        } else if i == prev.len() - 1 && j == prev.last().len() {
            assert(spec_split(s, sep)[i][j] == s.last());
            assert(s[s.len() - 1] == s.last());
        } else {
            assert(spec_split(s, sep)[i][j] == prev[i][j]);
            lemma_split_chars(s.drop_last(), sep, i, j);
            let c = prev[i][j];
            let k = choose|k: int| 0 <= k < s.drop_last().len() && s.drop_last()[k] == c;
            assert(s[k] == c);
        }
    }
}

/// The pieces kept by `nonempty_pieces` are pieces of the original, in a
/// subsequence, each non-empty.
proof fn lemma_nonempty_pieces(pieces: Seq<Seq<char>>, i: int)
    requires
        0 <= i < nonempty_pieces(pieces).len(),
    ensures
        nonempty_pieces(pieces)[i].len() > 0,
        pieces.contains(nonempty_pieces(pieces)[i]),
    decreases pieces.len(),
{
    if pieces.len() > 0 {
        let rest = nonempty_pieces(pieces.drop_last());
        if pieces.last().len() == 0 || i < rest.len() {
            lemma_nonempty_pieces(pieces.drop_last(), i);
            let p = nonempty_pieces(pieces)[i];
            let k = choose|k: int| 0 <= k < pieces.drop_last().len() && pieces.drop_last()[k] == p;
            assert(pieces[k] == p);
        } else {
            assert(pieces[pieces.len() - 1] == pieces.last());
        }
    }
}

/// A segment of the proposed package is non-empty and made of lower-case
/// ASCII letters and digits.
proof fn lemma_name_segment_chars(name: Seq<char>, i: int, j: int)
    requires
        0 <= i < name_segments(name).len(),
        0 <= j < name_segments(name)[i].len(),
    ensures
        name_segments(name)[i].len() > 0,
        spec_is_ascii_alnum(name_segments(name)[i][j]),
        name_segments(name)[i][j] != '.',
{
    let mapped = name.map_values(|c: char| package_char(c));
    let pieces = spec_split(mapped, '.');
    lemma_nonempty_pieces(pieces, i);
    let seg = name_segments(name)[i];
    let k = choose|k: int| 0 <= k < pieces.len() && pieces[k] == seg;
    lemma_split_chars(mapped, '.', k, j);
    let c = seg[j];
    let m = choose|m: int| 0 <= m < mapped.len() && mapped[m] == c;
    assert(mapped[m] == package_char(name[m]));
    if spec_is_ascii_alnum(name[m]) {
        let x = name[m];
        assert(spec_is_ascii_alnum(spec_ascii_lower(x)));
    }
}

/// The proposed package passes the package check exactly when the project
/// name has at least one run of ASCII letters and digits, and every such
/// run starts with a letter.
pub proof fn lemma_default_package_valid(name: Seq<char>)
    ensures
        spec_validate_package_name(spec_default_package(name)) is Ok <==> (name_segments(
            name,
        ).len() > 0 && forall|i: int|
            0 <= i < name_segments(name).len() ==> spec_is_ascii_alpha(
                #[trigger] name_segments(name)[i][0],
            )),
{
    let segs = name_segments(name);
    let joined = spec_join(segs, seq!['.']);
    reveal_strlit("com.example.");
    let com: Seq<char> = seq!['c', 'o', 'm'];
    let example: Seq<char> = seq!['e', 'x', 'a', 'm', 'p', 'l', 'e'];
    assert("com.example."@ + joined =~= com + seq!['.'] + (example + seq!['.'] + joined));
    lemma_split_concat(com, example + seq!['.'] + joined, '.');
    lemma_split_concat(example, joined, '.');
    lemma_split_single(com, '.');
    lemma_split_single(example, '.');
    let all = spec_split(spec_default_package(name), '.');
    assert(segment_issue(com) is None);
    assert(segment_issue(example) is None);
    if segs.len() == 0 {
        assert(joined =~= Seq::<char>::empty());
        assert(spec_split(joined, '.') =~= seq![Seq::<char>::empty()]);
        assert(all =~= seq![com, example, Seq::<char>::empty()]);
        assert(all.drop_first().drop_first() =~= seq![Seq::<char>::empty()]);
        assert(all.drop_first() =~= seq![example, Seq::<char>::empty()]);
        assert(all[0] == com);
        assert(all.drop_first()[0] == example);
        assert(first_segment_issue(all) == first_segment_issue(all.drop_first()));
        assert(first_segment_issue(all.drop_first()) == first_segment_issue(
            all.drop_first().drop_first(),
        ));
        assert(first_segment_issue(all.drop_first().drop_first()) is Some);
    } else {
        assert forall|i: int| 0 <= i < segs.len() implies !(#[trigger] segs[i]).contains('.') by {
            if segs[i].contains('.') {
                let j = choose|j: int| 0 <= j < segs[i].len() && segs[i][j] == '.';
                lemma_name_segment_chars(name, i, j);
            }
        }
        lemma_split_join(segs, '.');
        assert(all =~= seq![com, example] + segs);
        assert(all.drop_first().drop_first() =~= segs);
        assert(all.drop_first() =~= seq![example] + segs);
        lemma_first_issue_of_segments(name, 0);
        assert(segs.skip(0) =~= segs);
        assert(all[0] == com);
        assert(all.drop_first()[0] == example);
        assert(first_segment_issue(all) == first_segment_issue(all.drop_first()));
        assert(first_segment_issue(all.drop_first()) == first_segment_issue(segs));
    }
}

/// Of the segments of the proposed package from `k` on, the first with an
/// issue is the first that starts with a digit.
proof fn lemma_first_issue_of_segments(name: Seq<char>, k: int)
    requires
        0 <= k <= name_segments(name).len(),
    ensures
        first_segment_issue(name_segments(name).skip(k)) is None <==> forall|i: int|
            k <= i < name_segments(name).len() ==> spec_is_ascii_alpha(
                #[trigger] name_segments(name)[i][0],
            ),
    decreases name_segments(name).len() - k,
{
    let segs = name_segments(name);
    if k < segs.len() {
        lemma_first_issue_of_segments(name, k + 1);
        assert(segs.skip(k).drop_first() =~= segs.skip(k + 1));
        assert(segs.skip(k)[0] == segs[k]);
        let seg = segs[k];
        lemma_nonempty_pieces(spec_split(name.map_values(|c: char| package_char(c)), '.'), k);
        lemma_name_segment_chars(name, k, 0);
        assert forall|j: int| 1 <= j < seg.len() implies segment_char(#[trigger] seg[j]) by {
            lemma_name_segment_chars(name, k, j);
        }
        if !spec_is_ascii_alpha(seg[0]) {
            assert(seg[0] != '_');
        }
    } else {
        assert(segs.skip(k) =~= Seq::<Seq<char>>::empty());
    }
}

// ---------------------------------------------------------------------------
// Creating a project
// ---------------------------------------------------------------------------

/// Why `jav new` could not create a project.
#[derive(Debug, Clone)]
pub enum NewError {
    /// The project or package name was refused.
    Name(NameError),
    /// The build tool is neither `maven` nor `gradle`.
    UnsupportedBuildTool(String),
    /// No installed template answers to the name.
    UnknownTemplate(String),
    /// The template could not be rendered.
    Render { template: String, error: RenderError },
}

/// A `jav new` error as plain sequences.
pub enum NewErrorView {
    Name(NameErrorView),
    UnsupportedBuildTool(Seq<char>),
    UnknownTemplate(Seq<char>),
    Render { template: Seq<char>, error: RenderErrorView },
}

impl View for NewError {
    type V = NewErrorView;

    open spec fn view(&self) -> NewErrorView {
        match self {
            NewError::Name(e) => NewErrorView::Name(e@),
            NewError::UnsupportedBuildTool(b) => NewErrorView::UnsupportedBuildTool(b@),
            NewError::UnknownTemplate(t) => NewErrorView::UnknownTemplate(t@),
            NewError::Render { template, error } => NewErrorView::Render {
                template: template@,
                error: error@,
            },
        }
    }
}

/// The message shown for a `jav new` error; a render error is reported as
/// having failed the template, with the render error as its cause.
pub open spec fn spec_new_message(e: NewErrorView) -> Seq<char> {
    match e {
        NewErrorView::Name(n) => spec_name_message(n),
        NewErrorView::UnsupportedBuildTool(b) => "unsupported build tool '"@ + b
            + "'; expected maven or gradle"@,
        NewErrorView::UnknownTemplate(t) => "unknown template '"@ + t + "'"@,
        NewErrorView::Render { template, error } => "failed to create project from template '"@
            + template + "'"@,
    }
}

impl NewError {
    /// The message shown for the error.
    pub fn message(&self) -> (r: String)
        ensures
            r@ == spec_new_message(self@),
    {
        match self {
            NewError::Name(e) => e.message(),
            NewError::UnsupportedBuildTool(b) => {
                let mut r = owned("unsupported build tool '");
                r.append(b.as_str());
                r.append("'; expected maven or gradle");
                r
            },
            NewError::UnknownTemplate(t) => {
                let mut r = owned("unknown template '");
                r.append(t.as_str());
                r.append("'");
                r
            },
            NewError::Render { template, error } => {
                let mut r = owned("failed to create project from template '");
                r.append(template.as_str());
                r.append("'");
                r
            },
        }
    }
}

/// The directory a project goes to: the output given, else the project name.
pub open spec fn spec_destination(output: Option<Seq<char>>, name: Seq<char>) -> Seq<char> {
    match output {
        Some(o) => o,
        None => name,
    }
}

/// The directory a project goes to: the output given, else the project name.
pub fn destination(args: &NewArgs, name: &str) -> (r: String)
    ensures
        r@ == spec_destination(opt_string_view(args.output), name@),
{
    match &args.output {
        Some(o) => o.clone(),
        None => owned(name),
    }
}

/// The build tool of a new project: the one asked for, else the default of
/// the template.
pub open spec fn spec_build_tool(requested: Option<Seq<char>>, m: TemplateManifestView) -> Seq<
    char,
> {
    match requested {
        Some(b) => b,
        None => m.default_build_tool,
    }
}

/// The context a new project is rendered with.  The package path is the
/// package with dots turned into slashes; the Spring features are those
/// asked for, else the defaults of the template; the main class is that of
/// the template, else `Main`.
pub open spec fn spec_new_context(
    args: NewArgs,
    m: TemplateManifestView,
    name: Seq<char>,
    package_name: Seq<char>,
    build_tool: Seq<char>,
) -> TemplateContextView {
    TemplateContextView {
        project_name: name,
        package_name: package_name,
        package_path: spec_replace_char(package_name, '.', '/'),
        java_version: args.java_version@,
        build_tool: build_tool,
        spring_boot_version: args.spring_boot_version@,
        spring_features: if args.features@.len() > 0 {
            views(args.features@)
        } else {
            m.default_features
        },
        main_class: match m.main_class {
            Some(c) => c,
            None => "Main"@,
        },
        include_flake: !args.no_flake,
    }
}

/// The Spring features a project is rendered with are those given on the
/// command line whenever any is given; only with none given are the
/// template's default features used.  The names, versions, build tool and
/// flake choice are those given.
pub proof fn lemma_features_given_are_used(
    args: NewArgs,
    m: TemplateManifestView,
    name: Seq<char>,
    package_name: Seq<char>,
    build_tool: Seq<char>,
)
    ensures
        args.features@.len() > 0 ==> spec_new_context(args, m, name, package_name, build_tool).spring_features
            == views(args.features@),
        args.features@.len() == 0 ==> spec_new_context(args, m, name, package_name, build_tool).spring_features
            == m.default_features,
        spec_new_context(args, m, name, package_name, build_tool).project_name == name,
        spec_new_context(args, m, name, package_name, build_tool).package_name == package_name,
        spec_new_context(args, m, name, package_name, build_tool).build_tool == build_tool,
        spec_new_context(args, m, name, package_name, build_tool).java_version == args.java_version@,
        spec_new_context(args, m, name, package_name, build_tool).spring_boot_version
            == args.spring_boot_version@,
        spec_new_context(args, m, name, package_name, build_tool).include_flake == !args.no_flake,
{
}

/// The context a new project is rendered with.
pub fn new_context(
    args: &NewArgs,
    m: &TemplateManifest,
    name: &str,
    package_name: &str,
    build_tool: &str,
) -> (r: TemplateContext)
    ensures
        r@ == spec_new_context(*args, m@, name@, package_name@, build_tool@),
        args.features@.len() > 0 ==> views(r.spring_features@) == views(args.features@),
        args.features@.len() == 0 ==> views(r.spring_features@) == m@.default_features,
        r.project_name@ == name@,
        r.package_name@ == package_name@,
        r.build_tool@ == build_tool@,
        r.java_version@ == args.java_version@,
        r.spring_boot_version@ == args.spring_boot_version@,
        r.include_flake == !args.no_flake,
{
    proof {
        lemma_features_given_are_used(*args, m@, name@, package_name@, build_tool@);
    }
    let spring_features = if args.features.len() > 0 {
        copy_strings(&args.features)
    } else {
        copy_strings(&m.default_features)
    };
    let main_class = match &m.main_class {
        Some(c) => c.clone(),
        None => owned("Main"),
    };
    TemplateContext {
        project_name: owned(name),
        package_name: owned(package_name),
        package_path: replace_char(package_name, '.', '/'),
        java_version: args.java_version.clone(),
        build_tool: owned(build_tool),
        spring_boot_version: args.spring_boot_version.clone(),
        spring_features,
        main_class,
        include_flake: !args.no_flake,
    }
}

/// A project ready to be written: its directory and its files.
#[derive(Debug, Clone)]
pub struct NewProject {
    pub destination: String,
    pub files: Vec<RenderedFile>,
}

/// What `jav new` makes of its arguments: the names are checked, the
/// template is looked up by id or alias, the build tool must be `maven` or
/// `gradle`, and the template is rendered into the destination.
pub open spec fn spec_new(
    args: NewArgs,
    template: Seq<char>,
    name: Seq<char>,
    package_name: Seq<char>,
    destination_exists: bool,
) -> Result<(Seq<char>, Seq<(Seq<char>, Seq<char>)>), NewErrorView> {
    let dest = spec_destination(opt_string_view(args.output), name);
    if spec_validate_project_name(name) is Err {
        Err(NewErrorView::Name(spec_validate_project_name(name)->Err_0))
    } else if spec_validate_package_name(package_name) is Err {
        Err(NewErrorView::Name(spec_validate_package_name(package_name)->Err_0))
    } else {
        match spec_manifest(template) {
            None => Err(
                NewErrorView::Render {
                    template,
                    error: RenderErrorView::UnknownTemplate(template),
                },
            ),
            Some(m) => {
                let bt = spec_build_tool(opt_string_view(args.build_tool), m);
                if bt != "maven"@ && bt != "gradle"@ {
                    Err(NewErrorView::UnsupportedBuildTool(bt))
                } else {
                    match spec_render(
                        m.id,
                        dest,
                        destination_exists,
                        spec_new_context(args, m, name, package_name, bt),
                    ) {
                        Ok(files) => Ok((dest, files)),
                        Err(e) => Err(NewErrorView::Render { template, error: e }),
                    }
                }
            },
        }
    }
}

/// Creates the files of a new project from `template` (an id or an alias),
/// named `name`, in package `package_name`; `destination_exists` tells
/// whether the destination directory exists already.  Whether `jav new`
/// creates a project at all, rather than listing or describing templates,
/// is decided before, by `mode`.
pub fn run(
    args: &NewArgs,
    template: &str,
    name: &str,
    package_name: &str,
    destination_exists: bool,
) -> (r: Result<NewProject, NewError>)
    ensures
        match r {
            Ok(p) => spec_new(*args, template@, name@, package_name@, destination_exists) == Ok::<
                (Seq<char>, Seq<(Seq<char>, Seq<char>)>),
                NewErrorView,
            >((p.destination@, rendered_views(p.files@))),
            Err(e) => spec_new(*args, template@, name@, package_name@, destination_exists) == Err::<
                (Seq<char>, Seq<(Seq<char>, Seq<char>)>),
                NewErrorView,
            >(e@),
        },
{
    match validate_project_name(name) {
        Ok(()) => {},
        Err(e) => return Err(NewError::Name(e)),
    }
    match validate_package_name(package_name) {
        Ok(()) => {},
        Err(e) => return Err(NewError::Name(e)),
    }
    let dest = destination(args, name);
    let m = match manifest(template) {
        Some(m) => m,
        None => {
            return Err(
                NewError::Render {
                    template: owned(template),
                    error: RenderError::UnknownTemplate(owned(template)),
                },
            )
        },
    };
    let build_tool = match &args.build_tool {
        Some(b) => b.clone(),
        None => m.default_build_tool.clone(),
    };
    if !str_eq(build_tool.as_str(), "maven") && !str_eq(build_tool.as_str(), "gradle") {
        return Err(NewError::UnsupportedBuildTool(build_tool));
    }
    let context = new_context(args, &m, name, package_name, build_tool.as_str());
    match render(m.id.as_str(), dest.as_str(), destination_exists, &context) {
        Ok(files) => Ok(NewProject { destination: dest, files }),
        Err(e) => Err(NewError::Render { template: owned(template), error: e }),
    }
}

// ---------------------------------------------------------------------------
// Listing and describing templates
// ---------------------------------------------------------------------------

/// The line that lists one template; the verbose form adds the default
/// build tool and the aliases.
pub open spec fn spec_list_line(m: TemplateManifestView, verbose: bool) -> Seq<char> {
    let base = m.id + " - "@ + m.description;
    if !verbose {
        base
    } else if m.aliases.len() == 0 {
        base + " (default build tool: "@ + m.default_build_tool + ")"@
    } else {
        base + " (default build tool: "@ + m.default_build_tool + "; aliases: "@ + spec_join(
            m.aliases,
            ", "@,
        ) + ")"@
    }
}

/// The line that lists one template.
fn list_line(m: &TemplateManifest, verbose: bool) -> (r: String)
    ensures
        r@ == spec_list_line(m@, verbose),
{
    let mut r = m.id.clone();
    r.append(" - ");
    r.append(m.description.as_str());
    if verbose {
        r.append(" (default build tool: ");
        r.append(m.default_build_tool.as_str());
        if m.aliases.len() > 0 {
            r.append("; aliases: ");
            let aliases = join_strings(&m.aliases, ", ");
            r.append(aliases.as_str());
        }
        r.append(")");
    }
    r
}

/// The lines of `jav new list`: one per installed template, in listing order.
pub fn list_lines(verbose: bool) -> (r: Vec<String>)
    ensures
        views(r@) == spec_manifests().map_values(|m: TemplateManifestView| spec_list_line(m, verbose)),
{
    let all = manifests();
    let ghost target = spec_manifests().map_values(|m: TemplateManifestView| spec_list_line(m, verbose));
    let mut r: Vec<String> = Vec::new();
    let mut i: usize = 0;
    while i < all.len()
        invariant
            manifest_views(all@) == spec_manifests(),
            target == spec_manifests().map_values(|m: TemplateManifestView| spec_list_line(m, verbose)),
            i <= all@.len(),
            views(r@) == target.take(i as int),
        decreases all@.len() - i,
    {
        let ghost before = r@;
        r.push(list_line(&all[i], verbose));
        assert(views(r@) =~= views(before).push(target[i as int]));
        assert(target.take(i + 1) =~= target.take(i as int).push(target[i as int]));
        i = i + 1;
    }
    assert(target.take(all@.len() as int) =~= target);
    r
}

/// The lines of `jav new <template> --describe`: the name and id, the
/// description and the default build tool; the verbose form adds the
/// aliases, the tags and the supported features.
pub open spec fn spec_describe_lines(m: TemplateManifestView, verbose: bool) -> Seq<Seq<char>> {
    let base = seq![
        m.name + " ("@ + m.id + ")"@,
        m.description,
        "default build tool: "@ + m.default_build_tool,
    ];
    if verbose {
        base + seq![
            "aliases: "@ + spec_join(m.aliases, ", "@),
            "tags: "@ + spec_join(m.tags, ", "@),
            "features: "@ + spec_join(m.supported_features, ", "@),
        ]
    } else {
        base
    }
}

/// Describes the template that answers to `template`.
pub fn describe_lines(template: &str, verbose: bool) -> (r: Result<Vec<String>, NewError>)
    ensures
        match spec_manifest(template@) {
            Some(m) => r matches Ok(lines) && views(lines@) == spec_describe_lines(m, verbose),
            None => r matches Err(e) && e@ == NewErrorView::UnknownTemplate(template@),
        },
{
    let m = match manifest(template) {
        Some(m) => m,
        None => return Err(NewError::UnknownTemplate(owned(template))),
    };
    let mut lines: Vec<String> = Vec::new();
    let mut first = m.name.clone();
    first.append(" (");
    first.append(m.id.as_str());
    first.append(")");
    lines.push(first);
    lines.push(m.description.clone());
    lines.push(concat2("default build tool: ", m.default_build_tool.as_str()));
    if verbose {
        let aliases = join_strings(&m.aliases, ", ");
        lines.push(concat2("aliases: ", aliases.as_str()));
        let tags = join_strings(&m.tags, ", ");
        lines.push(concat2("tags: ", tags.as_str()));
        let features = join_strings(&m.supported_features, ", ");
        lines.push(concat2("features: ", features.as_str()));
    }
    assert(views(lines@) =~= spec_describe_lines(m@, verbose));
    Ok(lines)
}

// ---------------------------------------------------------------------------
// What `jav new` does
// ---------------------------------------------------------------------------

/// What `jav new` is asked to do.
#[derive(Debug, Clone, Copy, PartialEq, Eq, Structural)]
pub enum NewMode {
    /// List the installed templates (`jav new list`); nothing is created.
    List,
    /// Describe the template (`--describe`); nothing is created.
    Describe,
    /// Create a project from the template.
    Create,
}

/// What `jav new` does with the template `template`: `list` lists the
/// templates, `--describe` describes the template, and otherwise a project
/// is created.
pub open spec fn spec_mode(template: Seq<char>, describe: bool) -> NewMode {
    if template == "list"@ {
        NewMode::List
    } else if describe {
        NewMode::Describe
    } else {
        NewMode::Create
    }
}

/// Decides what `jav new` does with the template `template` and the
/// arguments: list, describe, or create.  Only `Create` goes on to ask for
/// a name and to call `run`.
pub fn mode(template: &str, args: &NewArgs) -> (r: NewMode)
    ensures
        r == spec_mode(template@, args.describe),
{
    if str_eq(template, "list") {
        NewMode::List
    } else if args.describe {
        NewMode::Describe
    } else {
        NewMode::Create
    }
}

} // verus!
