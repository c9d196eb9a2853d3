//! Where the axis labels of a dimension are looked for.
//!
//! By convention the labels of a dimension are stored in a one-dimensional
//! variable that carries the dimension's name. It is looked for in the group
//! of the variable that uses the dimension first, and at the root of the
//! dataset second. Groups in between are not searched.

use crate::text::push_char;
use vstd::prelude::*;

verus! {

/// Number of characters of `path` up to and including its last slash; zero
/// if it has none.
pub open spec fn group_prefix_len(path: Seq<char>) -> nat
    decreases path.len(),
{
    if path.len() == 0 {
        0
    } else if path.last() == '/' {
        path.len()
    } else {
        group_prefix_len(path.drop_last())
    }
}

/// The path of the coordinate variable of `dim_name` in the group of the
/// variable at `variable_path`.
pub open spec fn group_candidate(variable_path: Seq<char>, dim_name: Seq<char>) -> Seq<char> {
    variable_path.take(group_prefix_len(variable_path) as int) + dim_name
}

/// The path of the coordinate variable of `dim_name` at the root.
pub open spec fn root_candidate(dim_name: Seq<char>) -> Seq<char> {
    seq!['/'] + dim_name
}

/// The paths to try, in order: the group's, then the root's unless it is the
/// same path.
pub open spec fn candidates(variable_path: Seq<char>, dim_name: Seq<char>) -> Seq<Seq<char>> {
    let first = group_candidate(variable_path, dim_name);
    let second = root_candidate(dim_name);
    if first == second {
        seq![first]
    } else {
        seq![first, second]
    }
}

/// The prefix ends with the last slash, and no slash follows it.
pub proof fn lemma_group_prefix(path: Seq<char>)
    ensures
        group_prefix_len(path) <= path.len(),
        group_prefix_len(path) > 0 ==> path[group_prefix_len(path) - 1] == '/',
        forall|i: int| group_prefix_len(path) <= i < path.len() ==> path[i] != '/',
    decreases path.len(),
{
    if path.len() > 0 && path.last() != '/' {
        let shorter = path.drop_last();
        lemma_group_prefix(shorter);
        assert forall|i: int| group_prefix_len(path) <= i < path.len() implies path[i] != '/' by {
            if i < shorter.len() {
                assert(shorter[i] == path[i]);
            }
        }
    }
}

/// Computes `group_prefix_len`.
fn prefix_len(path: &str) -> (r: usize)
    ensures
        r == group_prefix_len(path@),
{
    let mut n: usize = path.unicode_len();
    proof {
        assert(path@.take(n as int) =~= path@);
    }
    while n > 0
        invariant
            n <= path@.len(),
            group_prefix_len(path@) == group_prefix_len(path@.take(n as int)),
        decreases n,
    {
        if path.get_char(n - 1) == '/' {
            return n;
        }
        proof {
            assert(path@.take(n as int).drop_last() =~= path@.take(n - 1));
        }
        n -= 1;
    }
    0
}

/// Appends the first `count` characters of `text` to `out`.
fn push_prefix(out: &mut String, text: &str, count: usize)
    requires
        count <= text@.len(),
    ensures
        final(out)@ == old(out)@ + text@.take(count as int),
{
    let mut i: usize = 0;
    while i < count
        invariant
            i <= count,
            count <= text@.len(),
            out@ == old(out)@ + text@.take(i as int),
        decreases count - i,
    {
        push_char(out, text.get_char(i));
        i += 1;
    }
}

/// The paths at which the coordinate variable of dimension `dim_name` is
/// looked for, in order, for the variable at `variable_path`.
pub fn coordinate_candidates(variable_path: &str, dim_name: &str) -> (r: Vec<String>)
    ensures
        r@.len() == candidates(variable_path@, dim_name@).len(),
        forall|i: int| 0 <= i < r@.len() ==> (#[trigger] r@[i])@ == candidates(
            variable_path@,
            dim_name@,
        )[i],
{
    let cut = prefix_len(variable_path);
    proof {
        lemma_group_prefix(variable_path@);
    }
    let mut first = String::new();
    push_prefix(&mut first, variable_path, cut);
    first.append(dim_name);
    let mut second = String::new();
    push_char(&mut second, '/');
    second.append(dim_name);
    let mut out: Vec<String> = Vec::new();
    let same = first == second;
    out.push(first);
    if !same {
        out.push(second);
    }
    out
}

} // verus!
