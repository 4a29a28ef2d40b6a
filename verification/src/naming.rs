//! Where a received file goes: its name inside the download directory, kept
//! from escaping it and from colliding with a name already in use.

use crate::text::{
    basename, contains_text, file_leaf, lemma_numbered_name_injective, make_numbered_name,
    numbered_name, separator_free, text_eq,
};
use vstd::prelude::*;
use vstd::string::*;

verus! {

/// Whether a name can stand for a file directly inside a directory: not
/// empty, not `.` or `..`, and without separators.
pub open spec fn safe_leaf(leaf: Seq<char>) -> bool {
    &&& leaf.len() > 0
    &&& leaf != "."@
    &&& leaf != ".."@
    &&& separator_free(leaf)
}

/// The path of the file `leaf` inside the directory `dir`.
pub open spec fn path_in(dir: Seq<char>, leaf: Seq<char>) -> Seq<char> {
    dir + "/"@ + leaf
}

/// The name under which a file declared as `name` is stored: its last
/// component, or nothing where that is no safe name.
pub open spec fn target_leaf(name: Seq<char>) -> Option<Seq<char>> {
    if safe_leaf(basename(name)) {
        Some(basename(name))
    } else {
        None
    }
}

/// Computes the name under which a file declared as `name` is stored.
pub fn safe_target_leaf(name: &str) -> (r: Option<String>)
    ensures
        r.deep_view() == target_leaf(name@),
{
    let leaf = file_leaf(name);
    if leaf.as_str().is_empty() || text_eq(leaf.as_str(), ".") || text_eq(leaf.as_str(), "..") {
        None
    } else {
        Some(leaf)
    }
}

/// Builds the path of the file `leaf` inside the directory `dir`.
pub fn join_path(dir: &str, leaf: &str) -> (r: String)
    ensures
        r@ == path_in(dir@, leaf@),
{
    dir.to_owned().concat("/").concat(leaf)
}

/// A path built by `path_in` starts with the directory, goes on with a
/// separator, and ends with the leaf.
pub proof fn lemma_path_stays_inside(dir: Seq<char>, leaf: Seq<char>)
    ensures
        dir.is_prefix_of(path_in(dir, leaf)),
        path_in(dir, leaf).len() == dir.len() + 1 + leaf.len(),
        path_in(dir, leaf)[dir.len() as int] == '/',
        path_in(dir, leaf).skip(dir.len() as int + 1) == leaf,
        separator_free(leaf) ==> basename(path_in(dir, leaf)) == leaf,
{
    reveal_strlit("/");
    let p = path_in(dir, leaf);
    assert("/"@.len() == 1);
    assert(p.len() == dir.len() + 1 + leaf.len());
    assert(p.subrange(0, dir.len() as int) =~= dir);
    assert(p[dir.len() as int] == "/"@[0]);
    assert(p.skip(dir.len() as int + 1) =~= leaf);
    if separator_free(leaf) {
        lemma_leaf_start_after(p, dir.len() as int + 1);
    }
}

/// Where the characters of a path from `cut` on hold no separator and the
/// one before `cut` is one, the last component starts at `cut`.
proof fn lemma_leaf_start_after(p: Seq<char>, cut: int)
    requires
        0 < cut <= p.len(),
        crate::text::is_separator(p[cut - 1]),
        forall|i: int| cut <= i < p.len() ==> !crate::text::is_separator(p[i]),
    ensures
        crate::text::leaf_start(p) == cut,
    decreases p.len(),
{
    if p.len() > cut {
        assert(p.drop_last()[cut - 1] == p[cut - 1]);
        assert forall|i: int| cut <= i < p.drop_last().len() implies !crate::text::is_separator(
            p.drop_last()[i],
        ) by {
            assert(p.drop_last()[i] == p[i]);
        }
        lemma_leaf_start_after(p.drop_last(), cut);
    }
}

/// Whether `k` is the smallest positive number whose numbered name is not
/// among `taken`.
pub open spec fn smallest_free_number(name: Seq<char>, taken: Seq<Seq<char>>, k: nat) -> bool {
    &&& k >= 1
    &&& !taken.contains(numbered_name(name, k))
    &&& forall|j: nat| 1 <= j < k ==> taken.contains(#[trigger] numbered_name(name, j))
}

/// Whether `r` is the name chosen for `name` beside the names `taken`:
/// `name` itself where it is free, else its numbered name for the smallest
/// positive number that gives a free one.
pub open spec fn is_free_name_for(name: Seq<char>, taken: Seq<Seq<char>>, r: Seq<char>) -> bool {
    if !taken.contains(name) {
        r == name
    } else {
        exists|k: nat| smallest_free_number(name, taken, k) && r == numbered_name(name, k)
    }
}

/// Where the numbered names for 1 up to `k - 1` are all taken, at least
/// `k - 1` names are taken.
pub proof fn lemma_taken_numbers_bounded(name: Seq<char>, taken: Seq<Seq<char>>, k: nat)
    requires
        k >= 1,
        forall|j: nat| 1 <= j < k ==> taken.contains(#[trigger] numbered_name(name, j)),
    ensures
        k - 1 <= taken.len(),
{
    let names = Seq::new((k - 1) as nat, |j: int| numbered_name(name, (j + 1) as nat));
    assert forall|a: int, b: int| 0 <= a < names.len() && 0 <= b < names.len() && a != b implies names[a]
        != names[b] by {
        if names[a] == names[b] {
            lemma_numbered_name_injective(name, (a + 1) as nat, (b + 1) as nat);
        }
    }
    assert(names.no_duplicates());
    names.unique_seq_to_set();
    taken.lemma_cardinality_of_set();
    assert forall|x: Seq<char>| names.to_set().contains(x) implies taken.to_set().contains(x) by {
        let a = choose|a: int| 0 <= a < names.len() && names[a] == x;
        assert(taken.contains(numbered_name(name, (a + 1) as nat)));
    }
    vstd::seq_lib::seq_to_set_is_finite(taken);
    vstd::set_lib::lemma_len_subset(names.to_set(), taken.to_set());
}

/// Any two names chosen by the rule for the same `name` and `taken` are
/// the same: the rule picks one name.
pub proof fn lemma_free_name_unique(
    name: Seq<char>,
    taken: Seq<Seq<char>>,
    a: Seq<char>,
    b: Seq<char>,
)
    requires
        is_free_name_for(name, taken, a),
        is_free_name_for(name, taken, b),
    ensures
        a == b,
{
    if taken.contains(name) {
        let j = choose|k: nat| smallest_free_number(name, taken, k) && a == numbered_name(name, k);
        let k = choose|k: nat| smallest_free_number(name, taken, k) && b == numbered_name(name, k);
        if j < k {
            assert(taken.contains(numbered_name(name, j)));
        }
        if k < j {
            assert(taken.contains(numbered_name(name, k)));
        }
    }
}

/// The name chosen for a safe name is a safe name.
pub proof fn lemma_free_name_is_safe(name: Seq<char>, taken: Seq<Seq<char>>, r: Seq<char>)
    requires
        safe_leaf(name),
        is_free_name_for(name, taken, r),
    ensures
        safe_leaf(r),
{
    if taken.contains(name) {
        let k = choose|k: nat| smallest_free_number(name, taken, k) && r == numbered_name(name, k);
        crate::text::lemma_numbered_name_shape(name, k);
        reveal_strlit(".");
        reveal_strlit("..");
    }
}

/// The path of a safe name inside a directory starts with the directory
/// and has the name as its last component: it lies directly inside.
pub proof fn lemma_target_inside(dir: Seq<char>, leaf: Seq<char>)
    requires
        safe_leaf(leaf),
    ensures
        dir.is_prefix_of(path_in(dir, leaf)),
        basename(path_in(dir, leaf)) == leaf,
{
    lemma_path_stays_inside(dir, leaf);
}

/// Chooses the name for a file called `name` beside the names `taken`.
pub fn unique_name(name: &str, taken: &Vec<String>) -> (r: String)
    ensures
        is_free_name_for(name@, taken.deep_view(), r@),
        !taken.deep_view().contains(r@),
{
    if !contains_text(taken, name) {
        return name.to_owned();
    }
    let ghost names = taken.deep_view();
    let mut k: u128 = 1;
    loop
        invariant
            names == taken.deep_view(),
            names.len() == taken.len(),
            names.contains(name@),
            1 <= k <= taken.len() + 1,
            forall|j: nat| 1 <= j < k ==> names.contains(#[trigger] numbered_name(name@, j)),
        decreases taken.len() + 1 - k,
    {
        let candidate = make_numbered_name(name, k);
        if !contains_text(taken, candidate.as_str()) {
            assert(smallest_free_number(name@, names, k as nat));
            return candidate;
        }
        proof {
            lemma_taken_numbers_bounded(name@, names, (k + 1) as nat);
        }
        k = k + 1;
    }
}

} // verus!
