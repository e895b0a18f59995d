use crate::decomposition::{
    backward_entry, backward_solution, backward_sum, forward_entry, forward_solution, forward_sum,
    is_index_map, is_square, lower_entry, lower_factor, lu_entry, lu_solution, lu_sum,
    permuted_seq, pivot_permutation, upper_entry, upper_factor,
};
use crate::laws::pivot_permutation_is_permutation;
use crate::scalar::Scalar;
use vstd::prelude::*;

verus! {

/// Whether the arithmetic of `S` is exact: sums and products commute and
/// associate, zero and one are neutral, a product with zero is zero, products
/// distribute over sums, and subtraction and division by a value other than
/// zero are undone by addition and multiplication. Rounding arithmetic does
/// not meet this.
#[verifier::opaque]
pub open spec fn is_exact<S: Scalar>() -> bool {
    &&& forall|x: S, y: S| #[trigger] x.plus_spec(y) == y.plus_spec(x)
    &&& forall|x: S, y: S, z: S|
        #[trigger] x.plus_spec(y).plus_spec(z) == x.plus_spec(y.plus_spec(z))
    &&& forall|x: S| #[trigger] x.plus_spec(S::zero_value()) == x
    &&& forall|x: S, y: S| #[trigger] x.minus_spec(y).plus_spec(y) == x
    &&& forall|x: S, y: S| #[trigger] x.times_spec(y) == y.times_spec(x)
    &&& forall|x: S, y: S, z: S|
        #[trigger] x.times_spec(y).times_spec(z) == x.times_spec(y.times_spec(z))
    &&& forall|x: S| #[trigger] x.times_spec(S::one_value()) == x
    &&& forall|x: S| #[trigger] x.times_spec(S::zero_value()) == S::zero_value()
    &&& forall|x: S, y: S, z: S|
        #[trigger] x.times_spec(y.plus_spec(z)) == x.times_spec(y).plus_spec(x.times_spec(z))
    &&& forall|x: S, y: S|
        y != S::zero_value() ==> #[trigger] x.over_spec(y).times_spec(y) == x
}

proof fn plus_commutes<S: Scalar>(x: S, y: S)
    requires
        is_exact::<S>(),
    ensures
        x.plus_spec(y) == y.plus_spec(x),
{
    reveal(is_exact);
}

proof fn plus_associates<S: Scalar>(x: S, y: S, z: S)
    requires
        is_exact::<S>(),
    ensures
        x.plus_spec(y).plus_spec(z) == x.plus_spec(y.plus_spec(z)),
{
    reveal(is_exact);
}

/// In exact arithmetic zero is neutral in a sum, on either side.
pub proof fn plus_zero<S: Scalar>(x: S)
    requires
        is_exact::<S>(),
    ensures
        x.plus_spec(S::zero_value()) == x,
        S::zero_value().plus_spec(x) == x,
{
    reveal(is_exact);
}

proof fn minus_undone<S: Scalar>(x: S, y: S)
    requires
        is_exact::<S>(),
    ensures
        x.minus_spec(y).plus_spec(y) == x,
        y.plus_spec(x.minus_spec(y)) == x,
{
    reveal(is_exact);
}

proof fn times_commutes<S: Scalar>(x: S, y: S)
    requires
        is_exact::<S>(),
    ensures
        x.times_spec(y) == y.times_spec(x),
{
    reveal(is_exact);
}

proof fn times_associates<S: Scalar>(x: S, y: S, z: S)
    requires
        is_exact::<S>(),
    ensures
        x.times_spec(y).times_spec(z) == x.times_spec(y.times_spec(z)),
{
    reveal(is_exact);
}

proof fn times_one<S: Scalar>(x: S)
    requires
        is_exact::<S>(),
    ensures
        x.times_spec(S::one_value()) == x,
        S::one_value().times_spec(x) == x,
{
    reveal(is_exact);
}

proof fn times_zero<S: Scalar>(x: S)
    requires
        is_exact::<S>(),
    ensures
        x.times_spec(S::zero_value()) == S::zero_value(),
        S::zero_value().times_spec(x) == S::zero_value(),
{
    reveal(is_exact);
}

proof fn times_distributes<S: Scalar>(x: S, y: S, z: S)
    requires
        is_exact::<S>(),
    ensures
        x.times_spec(y.plus_spec(z)) == x.times_spec(y).plus_spec(x.times_spec(z)),
{
    reveal(is_exact);
}

proof fn over_undone<S: Scalar>(x: S, y: S)
    requires
        is_exact::<S>(),
        y != S::zero_value(),
    ensures
        x.over_spec(y).times_spec(y) == x,
{
    reveal(is_exact);
}

/// The sum `f(0) + .. + f(k - 1)`, accumulated from zero in this order.
pub open spec fn sum_to<S: Scalar>(f: spec_fn(int) -> S, k: int) -> S
    decreases k,
{
    if k <= 0 {
        S::zero_value()
    } else {
        sum_to(f, k - 1).plus_spec(f(k - 1))
    }
}

/// The products `m[i][t] * v[t]` whose sum is component `i` of `m * v`.
pub open spec fn row_terms<S: Scalar>(m: Seq<Seq<S>>, v: Seq<S>, i: int) -> spec_fn(int) -> S {
    |t: int| m[i][t].times_spec(v[t])
}

/// The product of the square matrix `m` and the column vector `v`.
pub open spec fn times_vector<S: Scalar>(m: Seq<Seq<S>>, v: Seq<S>) -> Seq<S> {
    Seq::new(m.len(), |i: int| sum_to(row_terms(m, v, i), m.len() as int))
}

/// The products `l[i][t] * u[t][j]` whose sum is the entry at `i` and `j` of
/// `l * u`.
pub open spec fn product_terms<S: Scalar>(l: Seq<Seq<S>>, u: Seq<Seq<S>>, i: int, j: int)
    -> spec_fn(int) -> S {
    |t: int| l[i][t].times_spec(u[t][j])
}

/// The product of the square matrices `l` and `u`.
pub open spec fn product<S: Scalar>(l: Seq<Seq<S>>, u: Seq<Seq<S>>) -> Seq<Seq<S>> {
    Seq::new(
        l.len(),
        |i: int| Seq::new(l.len(), |j: int| sum_to(product_terms(l, u, i, j), l.len() as int)),
    )
}

/// The rows of `a` in the order `p`: row `i` is row `p[i]` of `a`.
pub open spec fn permuted_rows<S>(a: Seq<Seq<S>>, p: Seq<usize>) -> Seq<Seq<S>> {
    Seq::new(p.len(), |i: int| a[p[i] as int])
}

/// Whether every pivot of the factorization of `a` in the row order `p` is
/// other than zero.
pub open spec fn has_nonzero_pivots<S: Scalar>(a: Seq<Seq<S>>, p: Seq<usize>) -> bool {
    forall|c: int| 0 <= c < a.len() ==> #[trigger] lu_entry(a, p, c, c) != S::zero_value()
}

/// Whether `l` is lower triangular with a unit diagonal.
pub open spec fn is_unit_lower<S: Scalar>(l: Seq<Seq<S>>) -> bool {
    forall|i: int, t: int|
        0 <= i <= t < l.len() ==> #[trigger] l[i][t] == if i == t {
            S::one_value()
        } else {
            S::zero_value()
        }
}

/// Whether `u` is upper triangular with no zero on its diagonal.
pub open spec fn is_regular_upper<S: Scalar>(u: Seq<Seq<S>>) -> bool {
    &&& forall|i: int, t: int| 0 <= t < i < u.len() ==> #[trigger] u[i][t] == S::zero_value()
    &&& forall|i: int| 0 <= i < u.len() ==> #[trigger] u[i][i] != S::zero_value()
}

/// Sums of terms that agree one by one agree.
pub proof fn sum_of_equal_terms<S: Scalar>(f: spec_fn(int) -> S, g: spec_fn(int) -> S, k: int)
    requires
        forall|t: int| 0 <= t < k ==> #[trigger] f(t) == g(t),
    ensures
        sum_to(f, k) == sum_to(g, k),
    decreases k,
{
    if k > 0 {
        sum_of_equal_terms(f, g, k - 1);
    }
}

/// A common factor on the left moves out of a sum.
pub proof fn sum_of_scaled_terms<S: Scalar>(c: S, f: spec_fn(int) -> S, k: int)
    requires
        is_exact::<S>(),
    ensures
        sum_to(|t: int| c.times_spec(f(t)), k) == c.times_spec(sum_to(f, k)),
    decreases k,
{
    if k > 0 {
        sum_of_scaled_terms(c, f, k - 1);
        times_distributes(c, sum_to(f, k - 1), f(k - 1));
    } else {
        times_zero(c);
    }
}

/// The sum of sums of terms is the sum of the two sums.
pub proof fn sum_of_added_terms<S: Scalar>(f: spec_fn(int) -> S, g: spec_fn(int) -> S, k: int)
    requires
        is_exact::<S>(),
    ensures
        sum_to(|t: int| f(t).plus_spec(g(t)), k) == sum_to(f, k).plus_spec(sum_to(g, k)),
    decreases k,
{
    if k > 0 {
        sum_of_added_terms(f, g, k - 1);
        let a = sum_to(f, k - 1);
        let b = sum_to(g, k - 1);
        let x = f(k - 1);
        let y = g(k - 1);
        assert(a.plus_spec(b).plus_spec(x.plus_spec(y)) == a.plus_spec(x).plus_spec(
            b.plus_spec(y),
        )) by {
            plus_associates(a, b, x.plus_spec(y));
            plus_associates(b, x, y);
            plus_commutes(b, x);
            plus_associates(x, b, y);
            plus_associates(a, x, b.plus_spec(y));
        }
    } else {
        plus_zero(S::zero_value());
    }
}

/// The order of two nested sums can be exchanged.
pub proof fn sum_exchange<S: Scalar>(g: spec_fn(int, int) -> S, n: int, m: int)
    requires
        is_exact::<S>(),
    ensures
        sum_to(|j: int| sum_to(|t: int| g(t, j), n), m) == sum_to(
            |t: int| sum_to(|j: int| g(t, j), m),
            n,
        ),
    decreases m,
{
    let outer = |j: int| sum_to(|t: int| g(t, j), n);
    if m > 0 {
        sum_exchange(g, n, m - 1);
        let before = |t: int| sum_to(|j: int| g(t, j), m - 1);
        let last = |t: int| g(t, m - 1);
        let both = |t: int| before(t).plus_spec(last(t));
        let after = |t: int| sum_to(|j: int| g(t, j), m);
        sum_of_added_terms(before, last, n);
        assert(sum_to(both, n) == sum_to(before, n).plus_spec(sum_to(last, n)));
        assert forall|t: int| 0 <= t < n implies #[trigger] both(t) == after(t) by {
            let inner = |j: int| g(t, j);
            assert(sum_to(inner, m) == sum_to(inner, m - 1).plus_spec(inner(m - 1)));
        }
        sum_of_equal_terms(both, after, n);
        assert(outer(m - 1) == sum_to(last, n));
    } else {
        let zeros = |t: int| sum_to(|j: int| g(t, j), m);
        sum_of_zeros(zeros, n);
    }
}

/// A sum of zeros is zero.
pub proof fn sum_of_zeros<S: Scalar>(f: spec_fn(int) -> S, k: int)
    requires
        is_exact::<S>(),
        forall|t: int| 0 <= t < k ==> #[trigger] f(t) == S::zero_value(),
    ensures
        sum_to(f, k) == S::zero_value(),
    decreases k,
{
    if k > 0 {
        sum_of_zeros(f, k - 1);
    }
    plus_zero(S::zero_value());
}

/// Up to the diagonal, the product of the factors accumulates the sum that
/// the factorization subtracted.
proof fn product_before_diagonal<S: Scalar>(a: Seq<Seq<S>>, p: Seq<usize>, i: int, j: int, k: int)
    requires
        is_exact::<S>(),
        0 <= i < a.len(),
        0 <= j < a.len(),
        0 <= k <= i,
        k <= j,
    ensures
        sum_to(product_terms(lower_factor(a, p), upper_factor(a, p), i, j), k) == lu_sum(
            a,
            p,
            i,
            j,
            k,
        ),
    decreases k,
{
    if k > 0 {
        product_before_diagonal(a, p, i, j, k - 1);
        let l = lower_factor(a, p);
        let u = upper_factor(a, p);
        assert(l[i][k - 1] == lu_entry(a, p, i, k - 1));
        assert(u[k - 1][j] == lu_entry(a, p, k - 1, j));
        times_commutes(l[i][k - 1], u[k - 1][j]);
    }
}

/// From the diagonal on, the product of the factors holds the entry of the
/// reordered matrix.
proof fn product_from_diagonal<S: Scalar>(a: Seq<Seq<S>>, p: Seq<usize>, i: int, j: int, k: int)
    requires
        is_exact::<S>(),
        0 <= i < a.len(),
        0 <= j < a.len(),
        i < k <= a.len() || j < k <= a.len(),
        i > j ==> lu_entry(a, p, j, j) != S::zero_value(),
    ensures
        sum_to(product_terms(lower_factor(a, p), upper_factor(a, p), i, j), k) == a[p[i] as int][j],
    decreases k,
{
    let l = lower_factor(a, p);
    let u = upper_factor(a, p);
    let entry = a[p[i] as int][j];
    let terms = product_terms(l, u, i, j);
    assert(terms(k - 1) == l[i][k - 1].times_spec(u[k - 1][j]));
    assert(l[i][k - 1] == lower_entry(a, p, i, k - 1));
    assert(u[k - 1][j] == upper_entry(a, p, k - 1, j));
    if k - 1 == i && i <= j {
        product_before_diagonal(a, p, i, j, i);
        let sum = lu_sum(a, p, i, j, i);
        assert(u[i][j] == entry.minus_spec(sum));
        times_one(u[i][j]);
        minus_undone(entry, sum);
    } else if k - 1 == j && j < i {
        product_before_diagonal(a, p, i, j, j);
        let sum = lu_sum(a, p, i, j, j);
        let pivot = lu_entry(a, p, j, j);
        assert(l[i][j] == entry.minus_spec(sum).over_spec(pivot));
        assert(u[j][j] == pivot);
        over_undone(entry.minus_spec(sum), pivot);
        minus_undone(entry, sum);
    } else {
        product_from_diagonal(a, p, i, j, k - 1);
        if k - 1 > i {
            assert(l[i][k - 1] == S::zero_value());
            times_zero(u[k - 1][j]);
        } else {
            assert(u[k - 1][j] == S::zero_value());
            times_zero(l[i][k - 1]);
        }
        plus_zero(entry);
    }
}

/// In exact arithmetic the factors multiply back to the matrix with its rows
/// reordered: where every pivot is other than zero, `L * U` is the matrix
/// whose row `i` is row `p[i]` of `a`, for every row order `p`, the pivot
/// permutation among them. Nothing of the kind is stated for rounding
/// arithmetic.
pub proof fn factors_multiply_back<S: Scalar>(a: Seq<Seq<S>>, p: Seq<usize>)
    requires
        is_exact::<S>(),
        is_square(a, a.len()),
        is_index_map(p, a.len()),
        has_nonzero_pivots(a, p),
    ensures
        product(lower_factor(a, p), upper_factor(a, p)) == permuted_rows(a, p),
{
    let n = a.len() as int;
    let lu = product(lower_factor(a, p), upper_factor(a, p));
    let rows = permuted_rows(a, p);
    assert forall|i: int, j: int| 0 <= i < n && 0 <= j < n implies #[trigger] lu[i][j]
        == rows[i][j] by {
        product_from_diagonal(a, p, i, j, n);
    }
    assert(lu =~~= rows);
}

/// Up to the diagonal, a row of `l` times the forward solution accumulates
/// the sum that the substitution subtracted.
proof fn forward_before_diagonal<S: Scalar>(l: Seq<Seq<S>>, b: Seq<S>, i: int, k: int)
    requires
        is_exact::<S>(),
        0 <= k <= i < l.len(),
    ensures
        sum_to(row_terms(l, forward_solution(l, b), i), k) == forward_sum(l, b, i, k),
    decreases k,
{
    if k > 0 {
        forward_before_diagonal(l, b, i, k - 1);
        let y = forward_solution(l, b);
        assert(y[k - 1] == forward_entry(l, b, k - 1));
        assert(row_terms(l, y, i)(k - 1) == l[i][k - 1].times_spec(y[k - 1]));
        times_commutes(l[i][k - 1], y[k - 1]);
    }
}

proof fn forward_from_diagonal<S: Scalar>(l: Seq<Seq<S>>, b: Seq<S>, i: int, k: int)
    requires
        is_exact::<S>(),
        is_unit_lower(l),
        0 <= i < k <= l.len(),
    ensures
        sum_to(row_terms(l, forward_solution(l, b), i), k) == b[i],
    decreases k,
{
    let y = forward_solution(l, b);
    assert(row_terms(l, y, i)(k - 1) == l[i][k - 1].times_spec(y[k - 1]));
    if k - 1 == i {
        forward_before_diagonal(l, b, i, i);
        let sum = forward_sum(l, b, i, i);
        assert(y[i] == b[i].minus_spec(sum));
        assert(l[i][i] == S::one_value());
        times_one(y[i]);
        minus_undone(b[i], sum);
    } else {
        forward_from_diagonal(l, b, i, k - 1);
        assert(l[i][k - 1] == S::zero_value());
        times_zero(y[k - 1]);
        plus_zero(b[i]);
    }
}

/// In exact arithmetic forward substitution solves the system: for a lower
/// triangular `l` with a unit diagonal, `l * y = b` holds of its result `y`.
pub proof fn forward_substitution_solves<S: Scalar>(l: Seq<Seq<S>>, b: Seq<S>)
    requires
        is_exact::<S>(),
        is_unit_lower(l),
        b.len() == l.len(),
    ensures
        times_vector(l, forward_solution(l, b)) == b,
{
    let n = l.len() as int;
    let product = times_vector(l, forward_solution(l, b));
    assert forall|i: int| 0 <= i < n implies #[trigger] product[i] == b[i] by {
        forward_from_diagonal(l, b, i, n);
    }
    assert(product =~= b);
}

/// Before the diagonal, a row of an upper triangular `u` times any vector
/// sums to zero.
proof fn backward_before_diagonal<S: Scalar>(u: Seq<Seq<S>>, x: Seq<S>, i: int, k: int)
    requires
        is_exact::<S>(),
        is_regular_upper(u),
        0 <= k <= i < u.len(),
    ensures
        sum_to(row_terms(u, x, i), k) == S::zero_value(),
    decreases k,
{
    if k > 0 {
        backward_before_diagonal(u, x, i, k - 1);
        assert(row_terms(u, x, i)(k - 1) == u[i][k - 1].times_spec(x[k - 1]));
        assert(u[i][k - 1] == S::zero_value());
        times_zero(x[k - 1]);
        plus_zero(S::zero_value());
    }
}

/// From the diagonal on, a row of `u` times the backward solution is the
/// diagonal's share plus the part of the substitution's sum met so far.
proof fn backward_from_diagonal<S: Scalar>(u: Seq<Seq<S>>, y: Seq<S>, i: int, k: int)
    requires
        is_exact::<S>(),
        is_regular_upper(u),
        0 <= i < k <= u.len(),
    ensures
        sum_to(row_terms(u, backward_solution(u, y), i), k) == y[i].minus_spec(
            backward_sum(u, y, i, u.len() as int),
        ).plus_spec(backward_sum(u, y, i, k)),
    decreases k,
{
    let x = backward_solution(u, y);
    let total = backward_sum(u, y, i, u.len() as int);
    let share = y[i].minus_spec(total);
    assert(row_terms(u, x, i)(k - 1) == u[i][k - 1].times_spec(x[k - 1]));
    assert(x[k - 1] == backward_entry(u, y, k - 1));
    times_commutes(u[i][k - 1], x[k - 1]);
    if k - 1 == i {
        backward_before_diagonal(u, x, i, i);
        assert(x[i] == share.over_spec(u[i][i]));
        over_undone(share, u[i][i]);
        plus_zero(share);
    } else {
        backward_from_diagonal(u, y, i, k - 1);
        plus_associates(share, backward_sum(u, y, i, k - 1), x[k - 1].times_spec(u[i][k - 1]));
    }
}

/// In exact arithmetic backward substitution solves the system: for an
/// upper triangular `u` with no zero on its diagonal, `u * x = y` holds of its
/// result `x`.
pub proof fn backward_substitution_solves<S: Scalar>(u: Seq<Seq<S>>, y: Seq<S>)
    requires
        is_exact::<S>(),
        is_regular_upper(u),
        y.len() == u.len(),
    ensures
        times_vector(u, backward_solution(u, y)) == y,
{
    let n = u.len() as int;
    let product = times_vector(u, backward_solution(u, y));
    assert forall|i: int| 0 <= i < n implies #[trigger] product[i] == y[i] by {
        backward_from_diagonal(u, y, i, n);
        minus_undone(y[i], backward_sum(u, y, i, n));
    }
    assert(product =~= y);
}

/// In exact arithmetic the product of matrices associates with a vector:
/// `(l * u) * x = l * (u * x)`, row by row.
pub proof fn product_times_vector<S: Scalar>(l: Seq<Seq<S>>, u: Seq<Seq<S>>, x: Seq<S>, i: int)
    requires
        is_exact::<S>(),
        u.len() == l.len(),
        0 <= i < l.len(),
    ensures
        times_vector(product(l, u), x)[i] == times_vector(l, times_vector(u, x))[i],
{
    let n = l.len() as int;
    let g = |t: int, j: int| l[i][t].times_spec(u[t][j]).times_spec(x[j]);
    let left = row_terms(product(l, u), x, i);
    let by_column = |j: int| sum_to(|t: int| g(t, j), n);
    let by_row = |t: int| sum_to(|j: int| g(t, j), n);
    let right = row_terms(l, times_vector(u, x), i);
    assert forall|j: int| 0 <= j < n implies #[trigger] left(j) == by_column(j) by {
        let f = product_terms(l, u, i, j);
        let scaled = |t: int| x[j].times_spec(f(t));
        let column = |t: int| g(t, j);
        sum_of_scaled_terms(x[j], f, n);
        assert forall|t: int| 0 <= t < n implies #[trigger] scaled(t) == column(t) by {
            times_commutes(x[j], f(t));
        }
        sum_of_equal_terms(scaled, column, n);
        times_commutes(x[j], sum_to(f, n));
        assert(left(j) == product(l, u)[i][j].times_spec(x[j]));
    }
    sum_of_equal_terms(left, by_column, n);
    sum_exchange(g, n, n);
    assert forall|t: int| 0 <= t < n implies #[trigger] by_row(t) == right(t) by {
        let f = row_terms(u, x, t);
        let scaled = |j: int| l[i][t].times_spec(f(j));
        let row = |j: int| g(t, j);
        sum_of_scaled_terms(l[i][t], f, n);
        assert forall|j: int| 0 <= j < n implies #[trigger] row(j) == scaled(j) by {
            times_associates(l[i][t], u[t][j], x[j]);
        }
        sum_of_equal_terms(row, scaled, n);
        assert(right(t) == l[i][t].times_spec(times_vector(u, x)[t]));
    }
    sum_of_equal_terms(by_row, right, n);
}

/// In exact arithmetic the solver solves the system: where every pivot of
/// the factorization is other than zero, as it is for a matrix of full rank,
/// `a * x = b` holds of the solution `x`. Nothing of the kind is stated for
/// rounding arithmetic.
pub proof fn lu_solution_solves<S: Scalar>(a: Seq<Seq<S>>, b: Seq<S>)
    requires
        is_exact::<S>(),
        is_square(a, a.len()),
        a.len() <= usize::MAX,
        b.len() == a.len(),
        has_nonzero_pivots(a, pivot_permutation(a)),
    ensures
        times_vector(a, lu_solution(a, b)) == b,
{
    let n = a.len() as int;
    let p = pivot_permutation(a);
    let l = lower_factor(a, p);
    let u = upper_factor(a, p);
    let reordered = permuted_seq(b, p);
    let y = forward_solution(l, reordered);
    let x = backward_solution(u, y);
    pivot_permutation_is_permutation(a);
    factors_multiply_back(a, p);
    assert(is_unit_lower(l));
    assert(is_regular_upper(u)) by {
        assert forall|c: int| 0 <= c < u.len() implies #[trigger] u[c][c] != S::zero_value() by {
            assert(u[c][c] == lu_entry(a, p, c, c));
        }
    }
    forward_substitution_solves(l, reordered);
    backward_substitution_solves(u, y);
    let solved = times_vector(a, x);
    assert forall|r: int| 0 <= r < n implies #[trigger] solved[r] == b[r] by {
        assert(p.contains(r as usize));
        let i = choose|i: int| 0 <= i < p.len() && p[i] == r as usize;
        let of_a = row_terms(a, x, r);
        let of_product = row_terms(product(l, u), x, i);
        assert forall|j: int| 0 <= j < n implies #[trigger] of_a(j) == of_product(j) by {
            assert(permuted_rows(a, p)[i][j] == a[r][j]);
        }
        sum_of_equal_terms(of_a, of_product, n);
        product_times_vector(l, u, x, i);
        assert(times_vector(u, x) == y);
        assert(times_vector(l, y)[i] == reordered[i]);
    }
    assert(solved =~= b);
}

} // verus!
