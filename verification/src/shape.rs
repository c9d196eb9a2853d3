//! Row-major index arithmetic for arrays of arbitrary rank.
//!
//! A shape is the ordered list of per-dimension extents. An index vector is in
//! bounds when it has one entry per dimension and every entry is below the
//! extent of its dimension. The last dimension varies fastest.

use vstd::prelude::*;

verus! {

/// Number of elements of an array with the given extents.
pub open spec fn shape_product(shape: Seq<usize>) -> nat
    decreases shape.len(),
{
    if shape.len() == 0 {
        1
    } else {
        shape_product(shape.drop_last()) * (shape.last() as nat)
    }
}

/// Every extent of `shape` is at least one.
pub open spec fn all_positive(shape: Seq<usize>) -> bool {
    forall|k: int| 0 <= k < shape.len() ==> shape[k] > 0
}

/// `indices` names one element of an array with extents `shape`.
pub open spec fn in_bounds(shape: Seq<usize>, indices: Seq<usize>) -> bool {
    &&& indices.len() == shape.len()
    &&& forall|k: int| 0 <= k < shape.len() ==> indices[k] < shape[k]
}

/// Row-major offset of the element named by `indices`.
pub open spec fn linear_index(shape: Seq<usize>, indices: Seq<usize>) -> nat
    decreases shape.len(),
{
    if shape.len() == 0 {
        0
    } else {
        linear_index(shape.drop_last(), indices.drop_last()) * (shape.last() as nat)
            + (indices.last() as nat)
    }
}

/// The index vector whose row-major offset is `linear`, taken modulo the extents.
pub open spec fn unravel(shape: Seq<usize>, linear: nat) -> Seq<usize>
    decreases shape.len(),
{
    if shape.len() == 0 {
        Seq::empty()
    } else {
        unravel(shape.drop_last(), linear / (shape.last() as nat)).push(
            (linear % (shape.last() as nat)) as usize,
        )
    }
}

/// A shape with a zero extent has no elements.
pub proof fn lemma_product_zero(shape: Seq<usize>, k: int)
    requires
        0 <= k < shape.len(),
        shape[k] == 0,
    ensures
        shape_product(shape) == 0,
    decreases shape.len(),
{
    let p = shape_product(shape.drop_last());
    let s = shape.last() as nat;
    if k == shape.len() - 1 {
        assert(p * s == 0) by (nonlinear_arith)
            requires
                s == 0,
        ;
    } else {
        lemma_product_zero(shape.drop_last(), k);
        assert(p * s == 0) by (nonlinear_arith)
            requires
                p == 0,
        ;
    }
}

/// The product over a prefix never exceeds the product over the whole shape
/// when the remaining extents are positive.
pub proof fn lemma_prefix_product_le(shape: Seq<usize>, n: int)
    requires
        0 <= n <= shape.len(),
        forall|k: int| n <= k < shape.len() ==> shape[k] > 0,
    ensures
        shape_product(shape.take(n)) <= shape_product(shape),
    decreases shape.len() - n,
{
    if n == shape.len() {
        assert(shape.take(n) =~= shape);
    } else {
        lemma_prefix_product_le(shape, n + 1);
        let next = shape.take(n + 1);
        assert(next.drop_last() =~= shape.take(n));
        let p = shape_product(shape.take(n));
        let s = next.last() as nat;
        assert(p <= p * s) by (nonlinear_arith)
            requires
                s >= 1,
        ;
    }
}

/// An in-bounds index vector has an offset below the element count.
pub proof fn lemma_linear_index_bound(shape: Seq<usize>, indices: Seq<usize>)
    requires
        in_bounds(shape, indices),
    ensures
        linear_index(shape, indices) < shape_product(shape),
    decreases shape.len(),
{
    if shape.len() > 0 {
        lemma_linear_index_bound(shape.drop_last(), indices.drop_last());
        let l = linear_index(shape.drop_last(), indices.drop_last());
        let p = shape_product(shape.drop_last());
        let s = shape.last() as nat;
        let i = indices.last() as nat;
        assert(l * s + i < p * s) by (nonlinear_arith)
            requires
                l < p,
                i < s,
        ;
    }
}

/// Unravelling always yields an in-bounds index vector when no extent is zero.
pub proof fn lemma_unravel_in_bounds(shape: Seq<usize>, linear: nat)
    requires
        all_positive(shape),
    ensures
        in_bounds(shape, unravel(shape, linear)),
    decreases shape.len(),
{
    if shape.len() > 0 {
        let s = shape.last() as nat;
        lemma_unravel_in_bounds(shape.drop_last(), linear / s);
        assert(linear % s < s) by (nonlinear_arith)
            requires
                s > 0,
        ;
    }
}

/// Offsets survive a round trip through their index vector.
pub proof fn lemma_linear_of_unravel(shape: Seq<usize>, linear: nat)
    requires
        all_positive(shape),
        linear < shape_product(shape),
    ensures
        linear_index(shape, unravel(shape, linear)) == linear,
    decreases shape.len(),
{
    if shape.len() > 0 {
        let s = shape.last() as nat;
        let p = shape_product(shape.drop_last());
        let q = linear / s;
        let r = linear % s;
        assert(q < p && q * s + r == linear && r < s) by (nonlinear_arith)
            requires
                s > 0,
                linear < p * s,
                q == linear / s,
                r == linear % s,
        ;
        lemma_linear_of_unravel(shape.drop_last(), q);
        let u = unravel(shape, linear);
        assert(u.drop_last() =~= unravel(shape.drop_last(), q));
    }
}

/// In-bounds index vectors survive a round trip through their offset.
pub proof fn lemma_unravel_of_linear(shape: Seq<usize>, indices: Seq<usize>)
    requires
        in_bounds(shape, indices),
    ensures
        unravel(shape, linear_index(shape, indices)) =~= indices,
    decreases shape.len(),
{
    if shape.len() > 0 {
        let s = shape.last() as nat;
        let l = linear_index(shape.drop_last(), indices.drop_last());
        let i = indices.last() as nat;
        lemma_unravel_of_linear(shape.drop_last(), indices.drop_last());
        assert((l * s + i) / s == l && (l * s + i) % s == i) by (nonlinear_arith)
            requires
                i < s,
        ;
    }
}

/// Two in-bounds index vectors with the same offset are the same vector.
pub proof fn lemma_linear_index_injective(shape: Seq<usize>, a: Seq<usize>, b: Seq<usize>)
    requires
        in_bounds(shape, a),
        in_bounds(shape, b),
        linear_index(shape, a) == linear_index(shape, b),
    ensures
        a =~= b,
{
    lemma_unravel_of_linear(shape, a);
    lemma_unravel_of_linear(shape, b);
}

/// Computes the number of elements of `shape`, or `None` when it does not fit.
pub fn checked_product(shape: &Vec<usize>) -> (r: Option<usize>)
    ensures
        match r {
            Some(n) => n == shape_product(shape@),
            None => shape_product(shape@) > usize::MAX,
        },
{
    let n = shape.len();
    let mut k: usize = 0;
    while k < n
        invariant
            n == shape.len(),
            k <= n,
            forall|j: int| 0 <= j < k ==> shape[j] > 0,
        decreases n - k,
    {
        if shape[k] == 0 {
            proof {
                lemma_product_zero(shape@, k as int);
            }
            return Some(0);
        }
        k += 1;
    }
    let mut acc: usize = 1;
    let mut i: usize = 0;
    while i < n
        invariant
            n == shape.len(),
            i <= n,
            all_positive(shape@),
            acc == shape_product(shape@.take(i as int)),
        decreases n - i,
    {
        proof {
            assert(shape@.take(i + 1).drop_last() =~= shape@.take(i as int));
            lemma_prefix_product_le(shape@, i + 1);
        }
        match acc.checked_mul(shape[i]) {
            Some(next) => {
                acc = next;
            },
            None => {
                return None;
            },
        }
        i += 1;
    }
    proof {
        assert(shape@.take(n as int) =~= shape@);
    }
    Some(acc)
}

/// Row-major offset of the element named by `indices`.
pub fn ravel(shape: &Vec<usize>, indices: &[usize]) -> (r: usize)
    requires
        in_bounds(shape@, indices@),
        shape_product(shape@) <= usize::MAX,
    ensures
        r == linear_index(shape@, indices@),
        r < shape_product(shape@),
{
    let n = shape.len();
    let mut acc: usize = 0;
    let mut i: usize = 0;
    while i < n
        invariant
            n == shape.len(),
            i <= n,
            in_bounds(shape@, indices@),
            shape_product(shape@) <= usize::MAX,
            acc == linear_index(shape@.take(i as int), indices@.take(i as int)),
        decreases n - i,
    {
        proof {
            let s1 = shape@.take(i + 1);
            let x1 = indices@.take(i + 1);
            assert(s1.drop_last() =~= shape@.take(i as int));
            assert(x1.drop_last() =~= indices@.take(i as int));
            lemma_linear_index_bound(s1, x1);
            lemma_prefix_product_le(shape@, i + 1);
        }
        acc = acc * shape[i] + indices[i];
        i += 1;
    }
    proof {
        assert(shape@.take(n as int) =~= shape@);
        assert(indices@.take(n as int) =~= indices@);
        lemma_linear_index_bound(shape@, indices@);
    }
    acc
}

/// Index vector of the element at row-major offset `linear`, taken modulo the extents.
pub fn unravel_index(shape: &Vec<usize>, linear: usize) -> (r: Vec<usize>)
    requires
        all_positive(shape@),
    ensures
        r@ == unravel(shape@, linear as nat),
        in_bounds(shape@, r@),
{
    let n = shape.len();
    let mut out: Vec<usize> = Vec::new();
    let mut k: usize = 0;
    while k < n
        invariant
            n == shape.len(),
            k <= n,
            out.len() == k,
        decreases n - k,
    {
        out.push(0);
        k += 1;
    }
    let mut remaining: usize = linear;
    let mut i: usize = n;
    proof {
        assert(shape@.take(n as int) =~= shape@);
    }
    while i > 0
        invariant
            n == shape.len(),
            i <= n,
            out.len() == n,
            all_positive(shape@),
            unravel(shape@, linear as nat) =~= unravel(shape@.take(i as int), remaining as nat)
                + out@.skip(i as int),
        decreases i,
    {
        i -= 1;
        let extent = shape[i];
        proof {
            let prefix = shape@.take(i + 1);
            assert(prefix.drop_last() =~= shape@.take(i as int));
        }
        out.set(i, remaining % extent);
        remaining = remaining / extent;
    }
    proof {
        lemma_unravel_in_bounds(shape@, linear as nat);
    }
    out
}

/// Checks that no extent is zero.
pub fn extents_positive(shape: &Vec<usize>) -> (r: bool)
    ensures
        r == all_positive(shape@),
{
    let n = shape.len();
    let mut k: usize = 0;
    while k < n
        invariant
            n == shape@.len(),
            k <= n,
            forall|j: int| 0 <= j < k ==> shape@[j] > 0,
        decreases n - k,
    {
        if shape[k] == 0 {
            return false;
        }
        k += 1;
    }
    true
}

/// Checks that `indices` names an element of an array with extents `shape`.
pub fn index_in_bounds(shape: &Vec<usize>, indices: &[usize]) -> (r: bool)
    ensures
        r == in_bounds(shape@, indices@),
{
    if indices.len() != shape.len() {
        return false;
    }
    let n = shape.len();
    let mut k: usize = 0;
    while k < n
        invariant
            n == shape@.len(),
            n == indices@.len(),
            k <= n,
            forall|j: int| 0 <= j < k ==> indices@[j] < shape@[j],
        decreases n - k,
    {
        if indices[k] >= shape[k] {
            return false;
        }
        k += 1;
    }
    true
}

} // verus!
