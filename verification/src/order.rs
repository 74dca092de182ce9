//! The order in which a batch takes its files: paths are ordered component
//! by component, names by their characters, and a path comes before those
//! that extend it.

use vstd::prelude::*;
use vstd::string::*;
use vstd::multiset::Multiset;
use vstd::seq_lib::*;
use crate::path::{Component, ComponentView, FilePath};

verus! {

/// `a` comes before `b` or is `b`, given that they agree below `i`:
/// the first character that differs decides, and a prefix comes first.
pub open spec fn text_le_from(a: Seq<char>, b: Seq<char>, i: int) -> bool
    decreases a.len() - i,
{
    if i >= a.len() {
        true
    } else if i >= b.len() {
        false
    } else if a[i] != b[i] {
        a[i] < b[i]
    } else {
        text_le_from(a, b, i + 1)
    }
}

/// The lexicographic order of names by their characters.
pub open spec fn text_le(a: Seq<char>, b: Seq<char>) -> bool {
    text_le_from(a, b, 0)
}

/// The place of a kind of component among the kinds: the root first, then
/// `.`, then `..`, then names.
pub open spec fn rank(c: ComponentView) -> int {
    match c {
        ComponentView::Root => 0,
        ComponentView::Current => 1,
        ComponentView::Parent => 2,
        ComponentView::Normal(_) => 3,
    }
}

/// The order of components: by kind, and names among themselves by their
/// characters.
pub open spec fn component_le(a: ComponentView, b: ComponentView) -> bool {
    match (a, b) {
        (ComponentView::Normal(x), ComponentView::Normal(y)) => text_le(x, y),
        _ => rank(a) <= rank(b),
    }
}

/// `a` comes before `b` or is `b`, given that they agree below `i`.
pub open spec fn path_le_from(a: Seq<ComponentView>, b: Seq<ComponentView>, i: int) -> bool
    decreases a.len() - i,
{
    if i >= a.len() {
        true
    } else if i >= b.len() {
        false
    } else if a[i] != b[i] {
        component_le(a[i], b[i])
    } else {
        path_le_from(a, b, i + 1)
    }
}

/// The lexicographic order of paths by their components.
pub open spec fn path_le(a: Seq<ComponentView>, b: Seq<ComponentView>) -> bool {
    path_le_from(a, b, 0)
}

/// Each path of the list comes before those behind it, or equals them.
pub open spec fn ordered(files: Seq<FilePath>) -> bool {
    forall|i: int, j: int| 0 <= i < j < files.len() ==> path_le(#[trigger] files[i]@, #[trigger] files[j]@)
}

/// Of two names one comes before the other, or they are equal.
pub proof fn lemma_text_total(a: Seq<char>, b: Seq<char>, i: int)
    requires
        0 <= i,
    ensures
        text_le_from(a, b, i) || text_le_from(b, a, i),
    decreases a.len() - i,
{
    if i < a.len() && i < b.len() {
        if a[i] == b[i] {
            lemma_text_total(a, b, i + 1);
        } else {
            assert(a[i] < b[i] || b[i] < a[i]);
        }
    }
}

/// Names that come before each other are equal from `i` on.
pub proof fn lemma_text_antisymmetric(a: Seq<char>, b: Seq<char>, i: int)
    requires
        0 <= i <= a.len(),
        i <= b.len(),
        text_le_from(a, b, i),
        text_le_from(b, a, i),
    ensures
        a.len() == b.len(),
        forall|k: int| i <= k < a.len() ==> a[k] == b[k],
    decreases a.len() - i,
{
    if i < a.len() && i < b.len() {
        lemma_text_antisymmetric(a, b, i + 1);
    }
}

/// The order of names is transitive.
pub proof fn lemma_text_transitive(a: Seq<char>, b: Seq<char>, c: Seq<char>, i: int)
    requires
        0 <= i,
        text_le_from(a, b, i),
        text_le_from(b, c, i),
    ensures
        text_le_from(a, c, i),
    decreases a.len() - i,
{
    if i < a.len() && i < b.len() && i < c.len() {
        if a[i] == b[i] && b[i] == c[i] {
            lemma_text_transitive(a, b, c, i + 1);
        }
    }
}

/// Of two components one comes before the other, or they are equal.
pub proof fn lemma_component_total(a: ComponentView, b: ComponentView)
    ensures
        component_le(a, b) || component_le(b, a),
{
    if let ComponentView::Normal(x) = a {
        if let ComponentView::Normal(y) = b {
            lemma_text_total(x, y, 0);
        }
    }
}

/// Components that come before each other are the same.
pub proof fn lemma_component_antisymmetric(a: ComponentView, b: ComponentView)
    requires
        component_le(a, b),
        component_le(b, a),
    ensures
        a == b,
{
    if let ComponentView::Normal(x) = a {
        if let ComponentView::Normal(y) = b {
            lemma_text_antisymmetric(x, y, 0);
            assert(x =~= y);
        }
    }
}

/// The order of components is transitive.
pub proof fn lemma_component_transitive(a: ComponentView, b: ComponentView, c: ComponentView)
    requires
        component_le(a, b),
        component_le(b, c),
    ensures
        component_le(a, c),
{
    if let ComponentView::Normal(x) = a {
        if let ComponentView::Normal(y) = b {
            if let ComponentView::Normal(z) = c {
                lemma_text_transitive(x, y, z, 0);
            }
        }
    }
}

/// Of two paths one comes before the other, or they are equal.
pub proof fn lemma_path_total(a: Seq<ComponentView>, b: Seq<ComponentView>, i: int)
    requires
        0 <= i,
    ensures
        path_le_from(a, b, i) || path_le_from(b, a, i),
    decreases a.len() - i,
{
    if i < a.len() && i < b.len() {
        if a[i] == b[i] {
            lemma_path_total(a, b, i + 1);
        } else {
            lemma_component_total(a[i], b[i]);
        }
    }
}

/// The order of paths is transitive.
pub proof fn lemma_path_transitive(
    a: Seq<ComponentView>,
    b: Seq<ComponentView>,
    c: Seq<ComponentView>,
    i: int,
)
    requires
        0 <= i,
        path_le_from(a, b, i),
        path_le_from(b, c, i),
    ensures
        path_le_from(a, c, i),
    decreases a.len() - i,
{
    if i < a.len() && i < b.len() && i < c.len() {
        if a[i] == b[i] && b[i] == c[i] {
            lemma_path_transitive(a, b, c, i + 1);
        } else if a[i] != b[i] && b[i] != c[i] {
            lemma_component_transitive(a[i], b[i], c[i]);
            if a[i] == c[i] {
                lemma_component_antisymmetric(a[i], b[i]);
            }
        }
    }
}

/// Whether `a` comes before `b` or is `b`, in the order of names.
fn text_precedes(a: &str, b: &str) -> (r: bool)
    ensures
        r == text_le(a@, b@),
{
    let a_len: usize = a.unicode_len();
    let b_len: usize = b.unicode_len();
    let mut i: usize = 0;
    while i < a_len
        invariant
            a_len == a@.len(),
            b_len == b@.len(),
            i <= a_len,
            text_le(a@, b@) == text_le_from(a@, b@, i as int),
        decreases a_len - i,
    {
        if i >= b_len {
            return false;
        }
        let x: char = a.get_char(i);
        let y: char = b.get_char(i);
        if x != y {
            return x < y;
        }
        i = i + 1;
    }
    true
}

/// Whether two components are the same.
fn same_component(a: &Component, b: &Component) -> (r: bool)
    ensures
        r == (a@ == b@),
{
    match (a, b) {
        (Component::Root, Component::Root) => true,
        (Component::Current, Component::Current) => true,
        (Component::Parent, Component::Parent) => true,
        (Component::Normal(x), Component::Normal(y)) => {
            x.eq(y)
        },
        _ => false,
    }
}

/// The place of a kind of component among the kinds.
fn rank_of(c: &Component) -> (r: u8)
    ensures
        r == rank(c@),
{
    match c {
        Component::Root => 0,
        Component::Current => 1,
        Component::Parent => 2,
        Component::Normal(_) => 3,
    }
}

/// Whether `a` comes before `b` or is `b`, in the order of components.
fn component_precedes(a: &Component, b: &Component) -> (r: bool)
    ensures
        r == component_le(a@, b@),
{
    match (a, b) {
        (Component::Normal(x), Component::Normal(y)) => text_precedes(x.as_str(), y.as_str()),
        _ => rank_of(a) <= rank_of(b),
    }
}

/// Whether `a` comes before `b` or is `b`, in the order of paths.
pub fn precedes(a: &FilePath, b: &FilePath) -> (r: bool)
    ensures
        r == path_le(a@, b@),
{
    let a_len: usize = a.components.len();
    let b_len: usize = b.components.len();
    let mut i: usize = 0;
    while i < a_len
        invariant
            a_len == a@.len(),
            b_len == b@.len(),
            a_len == a.components@.len(),
            b_len == b.components@.len(),
            i <= a_len,
            path_le(a@, b@) == path_le_from(a@, b@, i as int),
        decreases a_len - i,
    {
        if i >= b_len {
            return false;
        }
        assert(a@[i as int] == a.components@[i as int]@);
        assert(b@[i as int] == b.components@[i as int]@);
        if !same_component(&a.components[i], &b.components[i]) {
            return component_precedes(&a.components[i], &b.components[i]);
        }
        i = i + 1;
    }
    true
}

/// Sorts paths into the order of paths. Nothing is added and nothing is
/// lost: the result holds the paths that came in, each as often as it came.
pub fn sort_paths(files: Vec<FilePath>) -> (sorted: Vec<FilePath>)
    ensures
        sorted@.to_multiset() == files@.to_multiset(),
        ordered(sorted@),
{
    let mut rest: Vec<FilePath> = files;
    let mut sorted: Vec<FilePath> = Vec::new();
    proof {
        broadcast use group_to_multiset_ensures;
        assert(sorted@.to_multiset() =~= Multiset::<FilePath>::empty());
        assert(sorted@.to_multiset().add(rest@.to_multiset()) =~= files@.to_multiset());
    }
    while rest.len() > 0
        invariant
            sorted@.to_multiset().add(rest@.to_multiset()) == files@.to_multiset(),
            ordered(sorted@),
        decreases rest@.len(),
    {
        let ghost before: Seq<FilePath> = rest@;
        let ghost done: Seq<FilePath> = sorted@;
        let file: FilePath = rest.pop().unwrap();
        // The place of the file: behind all that come before it.
        let mut at: usize = 0;
        while at < sorted.len() && precedes(&sorted[at], &file)
            invariant
                at <= sorted@.len(),
                sorted@ == done,
                forall|k: int| 0 <= k < at ==> path_le(#[trigger] sorted@[k]@, file@),
            decreases sorted@.len() - at,
        {
            at = at + 1;
        }
        proof {
            if at < done.len() {
                lemma_path_total(done[at as int]@, file@, 0);
                assert forall|k: int| at <= k < done.len() implies path_le(
                    file@,
                    #[trigger] done[k]@,
                ) by {
                    if at < k {
                        lemma_path_transitive(file@, done[at as int]@, done[k]@, 0);
                    }
                }
            }
            to_multiset_insert(done, at as int, file);
            assert(before =~= rest@.push(file));
            to_multiset_build(rest@, file);
            assert(done.insert(at as int, file).to_multiset().add(rest@.to_multiset())
                =~= done.to_multiset().add(before.to_multiset()));
        }
        sorted.insert(at, file);
        assert forall|i: int, j: int| 0 <= i < j < sorted@.len() implies path_le(
            #[trigger] sorted@[i]@,
            #[trigger] sorted@[j]@,
        ) by {
            let from_i: int = if i < at { i } else { i - 1 };
            let from_j: int = if j < at { j } else { j - 1 };
            if i != at {
                assert(sorted@[i] == done[from_i]);
            }
            if j != at {
                assert(sorted@[j] == done[from_j]);
            }
        }
    }
    proof {
        broadcast use group_to_multiset_ensures;
        assert(rest@.to_multiset() =~= Multiset::<FilePath>::empty());
        assert(sorted@.to_multiset().add(rest@.to_multiset()) =~= sorted@.to_multiset());
    }
    sorted
}

} // verus!
