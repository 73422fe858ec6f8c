//! Choosing and ordering the Java sources of a simple project.
//!
//! The directory walk that lists the files is done by the caller; the
//! library keeps the `.java` files and puts them in path order.
use crate::text::{chars_of, ends_with, spec_ends_with, views};
use vstd::prelude::*;

verus! {

broadcast use vstd::seq_lib::group_to_multiset_ensures;

/// A path whose file name has the extension `java`: the path ends with
/// `.java` and the file name has at least one character before that dot
/// (`Path::extension` gives no extension to a file named `.java`).
pub open spec fn spec_is_java_source(p: Seq<char>) -> bool {
    &&& spec_ends_with(p, ".java"@)
    &&& p.len() > ".java"@.len()
    &&& p[p.len() - ".java"@.len() - 1] != '/'
}

/// The paths of `ps` that are Java sources, in their order.
pub open spec fn java_paths(ps: Seq<Seq<char>>) -> Seq<Seq<char>>
    decreases ps.len(),
{
    if ps.len() == 0 {
        Seq::empty()
    } else if spec_is_java_source(ps.last()) {
        java_paths(ps.drop_last()).push(ps.last())
    } else {
        java_paths(ps.drop_last())
    }
}

/// `x` comes before `y` when paths are compared: the separator `/` comes
/// before every other character, so that comparing characters in turn
/// compares the paths component by component, as the order of `Path` does; other
/// characters compare by code point, as the bytes of their UTF-8 encodings do.
pub open spec fn path_char_lt(x: char, y: char) -> bool {
    if x == '/' {
        y != '/'
    } else if y == '/' {
        false
    } else {
        x < y
    }
}

/// `a` comes no later than `b` in path order.
pub open spec fn path_le(a: Seq<char>, b: Seq<char>) -> bool
    decreases a.len(),
{
    if a.len() == 0 {
        true
    } else if b.len() == 0 {
        false
    } else if a[0] == b[0] {
        path_le(a.drop_first(), b.drop_first())
    } else {
        path_char_lt(a[0], b[0])
    }
}

/// Paths in non-decreasing path order.
pub open spec fn path_sorted(ps: Seq<Seq<char>>) -> bool {
    forall|i: int, j: int| 0 <= i < j < ps.len() ==> path_le(#[trigger] ps[i], #[trigger] ps[j])
}

/// Any two paths are ordered one way or the other.
pub proof fn lemma_path_le_total(a: Seq<char>, b: Seq<char>)
    ensures
        path_le(a, b) || path_le(b, a),
    decreases a.len(),
{
    if a.len() > 0 && b.len() > 0 {
        if a[0] == b[0] {
            lemma_path_le_total(a.drop_first(), b.drop_first());
        }
    }
}

/// Path order is transitive.
pub proof fn lemma_path_le_trans(a: Seq<char>, b: Seq<char>, c: Seq<char>)
    requires
        path_le(a, b),
        path_le(b, c),
    ensures
        path_le(a, c),
    decreases a.len(),
{
    if a.len() > 0 && b.len() > 0 && c.len() > 0 {
        if a[0] == b[0] && b[0] == c[0] {
            lemma_path_le_trans(a.drop_first(), b.drop_first(), c.drop_first());
        }
    }
}

/// Two paths ordered both ways are the same path.
pub proof fn lemma_path_le_antisymmetric(a: Seq<char>, b: Seq<char>)
    requires
        path_le(a, b),
        path_le(b, a),
    ensures
        a == b,
    decreases a.len(),
{
    if a.len() == 0 {
        assert(b.len() == 0);
        assert(a =~= b);
    } else {
        assert(b.len() > 0);
        if a[0] == b[0] {
            lemma_path_le_antisymmetric(a.drop_first(), b.drop_first());
            assert(a =~= seq![a[0]] + a.drop_first());
            assert(b =~= seq![b[0]] + b.drop_first());
        }
    }
}

/// `a <= b` in path order.
fn path_le_exec(a: &Vec<char>, b: &Vec<char>) -> (r: bool)
    ensures
        r == path_le(a@, b@),
{
    let mut i: usize = 0;
    assert(a@.skip(0) =~= a@);
    assert(b@.skip(0) =~= b@);
    while i < a.len() && i < b.len()
        invariant
            i <= a@.len(),
            i <= b@.len(),
            path_le(a@, b@) == path_le(a@.skip(i as int), b@.skip(i as int)),
        decreases a@.len() - i,
    {
        let x = a[i];
        let y = b[i];
        assert(a@.skip(i as int)[0] == x);
        assert(b@.skip(i as int)[0] == y);
        if x != y {
            if x == '/' {
                return true;
            }
            if y == '/' {
                return false;
            }
            return x < y;
        }
        assert(a@.skip(i as int).drop_first() =~= a@.skip(i + 1));
        assert(b@.skip(i as int).drop_first() =~= b@.skip(i + 1));
        i = i + 1;
    }
    i == a.len()
}

/// The Java sources among `files`, in path order: the `.java` files of the
/// list, each as often as it occurs, sorted.
pub fn java_sources(files: Vec<String>) -> (r: Vec<String>)
    ensures
        views(r@).to_multiset() == java_paths(views(files@)).to_multiset(),
        path_sorted(views(r@)),
{
    let ext = chars_of(".java");
    // Keep the Java sources.
    let mut kept: Vec<String> = Vec::new();
    let mut i: usize = 0;
    while i < files.len()
        invariant
            ext@ == ".java"@,
            i <= files@.len(),
            views(kept@) == java_paths(views(files@.take(i as int))),
        decreases files@.len() - i,
    {
        let f = &files[i];
        let fc = chars_of(f.as_str());
        let is_java = ends_with(f.as_str(), ".java") && fc.len() > ext.len() && fc[fc.len()
            - ext.len() - 1] != '/';
        assert(views(files@.take(i + 1)).drop_last() =~= views(files@.take(i as int)));
        assert(views(files@.take(i + 1)).last() == f@);
        if is_java {
            kept.push(f.clone());
            assert(views(kept@) =~= java_paths(views(files@.take(i as int))).push(f@));
        }
        i = i + 1;
    }
    assert(files@.take(files@.len() as int) =~= files@);
    // Insertion sort, keeping equal paths in their order.
    let mut sorted: Vec<String> = Vec::new();
    let mut keys: Vec<Vec<char>> = Vec::new();
    let mut k: usize = 0;
    while k < kept.len()
        invariant
            k <= kept@.len(),
            keys@.len() == sorted@.len(),
            forall|j: int| 0 <= j < keys@.len() ==> #[trigger] keys@[j]@ == sorted@[j]@,
            views(sorted@).to_multiset() == views(kept@.take(k as int)).to_multiset(),
            path_sorted(views(sorted@)),
        decreases kept@.len() - k,
    {
        let item = kept[k].clone();
        let key = chars_of(item.as_str());
        let mut p: usize = 0;
        while p < keys.len() && path_le_exec(&keys[p], &key)
            invariant
                p <= keys@.len(),
                keys@.len() == sorted@.len(),
                forall|j: int| 0 <= j < keys@.len() ==> #[trigger] keys@[j]@ == sorted@[j]@,
                forall|j: int| 0 <= j < p ==> path_le(#[trigger] views(sorted@)[j], key@),
            decreases keys@.len() - p,
        {
            p = p + 1;
        }
        let ghost old_sorted = sorted@;
        let ghost old_keys = keys@;
        proof {
            if p < keys@.len() {
                lemma_path_le_total(key@, keys@[p as int]@);
            }
            assert forall|j: int| p <= j < old_sorted.len() implies path_le(
                key@,
                #[trigger] views(old_sorted)[j],
            ) by {
                if j > p {
                    lemma_path_le_trans(key@, views(old_sorted)[p as int], views(old_sorted)[j]);
                }
            }
        }
        sorted.insert(p, item);
        keys.insert(p, key);
        proof {
            assert(views(sorted@) =~= views(old_sorted).insert(p as int, kept@[k as int]@));
            vstd::seq_lib::to_multiset_insert(views(old_sorted), p as int, kept@[k as int]@);
            assert(views(kept@.take(k + 1)) =~= views(kept@.take(k as int)).push(kept@[k as int]@));
            assert forall|a: int, b: int|
                0 <= a < b < views(sorted@).len() implies path_le(
                #[trigger] views(sorted@)[a],
                #[trigger] views(sorted@)[b],
            ) by {
                if b < p {
                } else if a < p && b == p {
                } else if a < p && b > p {
                    lemma_path_le_trans(views(old_sorted)[a], key@, views(old_sorted)[b - 1]);
                } else if a == p {
                } else {
                }
            }
            assert forall|j: int| 0 <= j < keys@.len() implies #[trigger] keys@[j]@
                == sorted@[j]@ by {
                if j < p {
                } else if j == p {
                } else {
                    assert(keys@[j] == old_keys[j - 1]);
                }
            }
        }
        k = k + 1;
    }
    assert(kept@.take(kept@.len() as int) =~= kept@);
    sorted
}

/// Path order, as a relation.
pub open spec fn path_order() -> spec_fn(Seq<char>, Seq<char>) -> bool {
    |a: Seq<char>, b: Seq<char>| path_le(a, b)
}

/// Path order is a total order.
proof fn lemma_path_order_total()
    ensures
        vstd::relations::total_ordering(path_order()),
{
    assert forall|x: Seq<char>| #[trigger] path_order()(x, x) by {
        lemma_path_le_total(x, x);
    }
    assert forall|x: Seq<char>, y: Seq<char>|
        #[trigger] path_order()(x, y) && #[trigger] path_order()(y, x) implies x == y by {
        lemma_path_le_antisymmetric(x, y);
    }
    assert forall|x: Seq<char>, y: Seq<char>, z: Seq<char>|
        #[trigger] path_order()(x, y) && #[trigger] path_order()(y, z) implies path_order()(
        x,
        z,
    ) by {
        lemma_path_le_trans(x, y, z);
    }
    assert forall|x: Seq<char>, y: Seq<char>|
        #[trigger] path_order()(x, y) || #[trigger] path_order()(y, x) by {
        lemma_path_le_total(x, y);
    }
}

/// Two listings of paths, each sorted in path order, that hold the same
/// paths as often are the same listing: the order of `java_sources` leaves
/// nothing open.
pub proof fn lemma_sorted_paths_unique(a: Seq<Seq<char>>, b: Seq<Seq<char>>)
    requires
        path_sorted(a),
        path_sorted(b),
        a.to_multiset() == b.to_multiset(),
    ensures
        a == b,
{
    lemma_path_order_total();
    assert(vstd::relations::sorted_by(a, path_order()));
    assert(vstd::relations::sorted_by(b, path_order()));
    vstd::seq_lib::lemma_sorted_unique(a, b, path_order());
}

/// The Java sources of a listing, counted: those of the listing, each as
/// often as it occurs.
proof fn lemma_java_paths_multiset(ps: Seq<Seq<char>>)
    ensures
        java_paths(ps).to_multiset() == ps.to_multiset().filter(
            |p: Seq<char>| spec_is_java_source(p),
        ),
    decreases ps.len(),
{
    broadcast use vstd::multiset::group_multiset_axioms;

    if ps.len() == 0 {
        assert(java_paths(ps).to_multiset() =~= ps.to_multiset().filter(
            |p: Seq<char>| spec_is_java_source(p),
        ));
    } else {
        lemma_java_paths_multiset(ps.drop_last());
        assert(ps =~= ps.drop_last().push(ps.last()));
        assert(java_paths(ps).to_multiset() =~= ps.to_multiset().filter(
            |p: Seq<char>| spec_is_java_source(p),
        ));
    }
}

/// Which Java sources a listing yields, and in which order, depends only on
/// which files are listed and how often, not on the order of the listing:
/// two listings with the same files give the same Java sources.
pub proof fn lemma_java_sources_order_independent(
    files1: Seq<Seq<char>>,
    files2: Seq<Seq<char>>,
    sources1: Seq<Seq<char>>,
    sources2: Seq<Seq<char>>,
)
    requires
        files1.to_multiset() == files2.to_multiset(),
        sources1.to_multiset() == java_paths(files1).to_multiset(),
        path_sorted(sources1),
        sources2.to_multiset() == java_paths(files2).to_multiset(),
        path_sorted(sources2),
    ensures
        sources1 == sources2,
{
    lemma_java_paths_multiset(files1);
    lemma_java_paths_multiset(files2);
    lemma_sorted_paths_unique(sources1, sources2);
}

} // verus!
