use crate::decomposition::{
    best_row, identity_order, is_permutation, lower_factor, lu_solution, magnitude, pivot_order,
    pivot_permutation, swapped, upper_factor,
};
use crate::scalar::Scalar;
use vstd::prelude::*;

verus! {

/// Whether `x` is strictly greater than `y` as the scalar orders them.
pub open spec fn exceeds<S: Scalar>(x: S, y: S) -> bool {
    y.less_than_spec(x) && !x.less_than_spec(y)
}

/// Whether neither of `x` and `y` is less than the other.
pub open spec fn ties<S: Scalar>(x: S, y: S) -> bool {
    !x.less_than_spec(y) && !y.less_than_spec(x)
}

/// The scan of a column selects a position between the column's own and the
/// end of the scanned range.
pub proof fn best_row_in_range<S: Scalar>(a: Seq<Seq<S>>, p: Seq<usize>, col: int, upto: int)
    ensures
        col <= best_row(a, p, col, upto),
        col < upto ==> best_row(a, p, col, upto) < upto,
    decreases upto - col,
{
    if upto > col + 1 {
        best_row_in_range(a, p, col, upto - 1);
    }
}

/// Exchanging two entries of a permutation leaves a permutation.
pub proof fn swapped_is_permutation(p: Seq<usize>, n: nat, i: int, j: int)
    requires
        is_permutation(p, n),
        0 <= i < n,
        0 <= j < n,
    ensures
        is_permutation(swapped(p, i, j), n),
{
    let q = swapped(p, i, j);
    assert forall|k: usize| k < n implies #[trigger] q.contains(k) by {
        assert(p.contains(k));
        let at = choose|m: int| 0 <= m < p.len() && p[m] == k;
        let to = if at == i {
            j
        } else if at == j {
            i
        } else {
            at
        };
        assert(q[to] == k);
    }
}

/// After any number of pivoted columns the row order of a matrix of `n` rows
/// is a permutation of `0, .., n - 1`.
pub proof fn pivot_order_is_permutation<S: Scalar>(a: Seq<Seq<S>>, cols: int)
    requires
        a.len() <= usize::MAX,
        cols <= a.len(),
    ensures
        is_permutation(pivot_order(a, cols), a.len()),
    decreases cols,
{
    let n = a.len();
    if cols <= 0 {
        let p = identity_order(n);
        assert forall|k: usize| k < n implies #[trigger] p.contains(k) by {
            assert(p[k as int] == k);
        }
    } else {
        pivot_order_is_permutation(a, cols - 1);
        let p = pivot_order(a, cols - 1);
        best_row_in_range(a, p, cols - 1, n as int);
        swapped_is_permutation(p, n, cols - 1, best_row(a, p, cols - 1, n as int));
    }
}

/// The pivot permutation of a matrix of `n` rows is a permutation of
/// `0, .., n - 1`: bijective, with no index twice and none left out.
pub proof fn pivot_permutation_is_permutation<S: Scalar>(a: Seq<Seq<S>>)
    requires
        a.len() <= usize::MAX,
    ensures
        is_permutation(pivot_permutation(a), a.len()),
{
    pivot_order_is_permutation(a, a.len() as int);
}

/// Where two positions of a column tie in magnitude and each of them exceeds
/// every other candidate, the scan of the column selects the earlier of the
/// two.
pub proof fn best_row_prefers_first<S: Scalar>(
    a: Seq<Seq<S>>,
    p: Seq<usize>,
    col: int,
    first: int,
    second: int,
    upto: int,
)
    requires
        0 <= col <= first < second < upto,
        ties(magnitude(a, p, first, col), magnitude(a, p, second, col)),
        forall|k: int|
            col <= k < upto && k != first && k != second ==> exceeds(
                magnitude(a, p, first, col),
                #[trigger] magnitude(a, p, k, col),
            ),
    ensures
        best_row(a, p, col, upto) == first,
{
    best_row_settles(a, p, col, first, second, upto, upto);
}

/// The scan of `best_row_prefers_first`, stopped after any number of
/// positions beyond the earlier of the two.
proof fn best_row_settles<S: Scalar>(
    a: Seq<Seq<S>>,
    p: Seq<usize>,
    col: int,
    first: int,
    second: int,
    upto: int,
    j: int,
)
    requires
        0 <= col <= first < second < upto,
        first < j <= upto,
        ties(magnitude(a, p, first, col), magnitude(a, p, second, col)),
        forall|k: int|
            col <= k < upto && k != first && k != second ==> exceeds(
                magnitude(a, p, first, col),
                #[trigger] magnitude(a, p, k, col),
            ),
    ensures
        best_row(a, p, col, j) == first,
    decreases j,
{
    if j == first + 1 {
        if first > col {
            best_row_in_range(a, p, col, first);
            let held = best_row(a, p, col, first);
            assert(exceeds(magnitude(a, p, first, col), magnitude(a, p, held, col)));
        }
    } else {
        best_row_settles(a, p, col, first, second, upto, j - 1);
        if j - 1 != second {
            assert(exceeds(magnitude(a, p, first, col), magnitude(a, p, j - 1, col)));
        }
    }
}

/// In the column that is pivoted next, where two positions tie in magnitude
/// and each exceeds every other candidate, the row at the earlier position
/// comes to the diagonal.
pub proof fn pivot_prefers_first<S: Scalar>(a: Seq<Seq<S>>, col: int, first: int, second: int)
    requires
        a.len() <= usize::MAX,
        0 <= col <= first < second < a.len(),
        ties(
            magnitude(a, pivot_order(a, col), first, col),
            magnitude(a, pivot_order(a, col), second, col),
        ),
        forall|k: int|
            col <= k < a.len() && k != first && k != second ==> exceeds(
                magnitude(a, pivot_order(a, col), first, col),
                #[trigger] magnitude(a, pivot_order(a, col), k, col),
            ),
    ensures
        pivot_order(a, col + 1)[col] == pivot_order(a, col)[first],
{
    let p = pivot_order(a, col);
    pivot_order_is_permutation(a, col);
    best_row_prefers_first(a, p, col, first, second, a.len() as int);
    assert(pivot_order(a, col + 1) == swapped(p, col, best_row(a, p, col, a.len() as int)));
}

/// The lower factor has a unit diagonal and zeros above it, the upper factor
/// has zeros below its diagonal, whatever the matrix and the row order.
pub proof fn factors_are_triangular<S: Scalar>(a: Seq<Seq<S>>, p: Seq<usize>, row: int, col: int)
    requires
        0 <= row < a.len(),
        0 <= col < a.len(),
    ensures
        row == col ==> lower_factor(a, p)[row][col] == S::one_value(),
        row < col ==> lower_factor(a, p)[row][col] == S::zero_value(),
        row > col ==> upper_factor(a, p)[row][col] == S::zero_value(),
{
}

/// Equal inputs give equal outputs: the pivot permutation, the two factors
/// and the solution are functions of the entries of the matrix and of the
/// components of the right-hand side, and of nothing else.
pub proof fn equal_inputs_give_equal_outputs<S: Scalar>(
    a1: Seq<Seq<S>>,
    b1: Seq<S>,
    a2: Seq<Seq<S>>,
    b2: Seq<S>,
)
    requires
        a1 =~~= a2,
        b1 =~= b2,
    ensures
        pivot_permutation(a1) == pivot_permutation(a2),
        lower_factor(a1, pivot_permutation(a1)) == lower_factor(a2, pivot_permutation(a2)),
        upper_factor(a1, pivot_permutation(a1)) == upper_factor(a2, pivot_permutation(a2)),
        lu_solution(a1, b1) == lu_solution(a2, b2),
{
}

} // verus!
