use crate::laws::pivot_permutation_is_permutation;
use crate::scalar::Scalar;
use vstd::prelude::*;

verus! {

/// A type whose values all have the same, fixed number of rows.
pub trait Dimensional {
    /// The dimension of the type.
    spec fn dimension_spec() -> usize;

    /// Returns the dimension of the type.
    fn dimension() -> (n: usize)
        ensures
            n == Self::dimension_spec(),
    ;
}

/// A type with a value that is filled with zeros.
pub trait Zero: Sized {
    /// The value filled with zeros.
    spec fn zero_spec() -> Self;

    /// Returns the value filled with zeros.
    fn zero() -> (z: Self)
        ensures
            z == Self::zero_spec(),
    ;
}

/// A tuple of `dimension()` scalars, read and written by position.
pub trait Vector<S: Scalar>: Dimensional + Zero + View<V = Seq<S>> {
    /// Every value has exactly `dimension()` components.
    proof fn shape(&self)
        ensures
            self@.len() == Self::dimension_spec(),
    ;

    /// Returns the component at position `i`.
    fn get(&self, i: usize) -> (v: S)
        requires
            i < Self::dimension_spec(),
        ensures
            v == self@[i as int],
    ;

    /// Replaces the component at position `i` by `v`.
    fn set(&mut self, i: usize, v: S)
        requires
            i < Self::dimension_spec(),
        ensures
            final(self)@ == old(self)@.update(i as int, v),
    ;
}

/// Whether `p` can reorder `n` rows: it has `n` entries, each below `n`.
pub open spec fn is_index_map(p: Seq<usize>, n: nat) -> bool {
    &&& p.len() == n
    &&& forall|i: int| 0 <= i < p.len() ==> #[trigger] p[i] < n
}

/// Whether `p` is a permutation of `0, .., n - 1`: it has `n` entries, no
/// index stands in it twice and none is left out.
pub open spec fn is_permutation(p: Seq<usize>, n: nat) -> bool {
    &&& is_index_map(p, n)
    &&& forall|i: int, j: int| 0 <= i < j < p.len() ==> #[trigger] p[i] != #[trigger] p[j]
    &&& forall|k: usize| k < n ==> #[trigger] p.contains(k)
}

/// The components of `v` in the order that `p` gives: position `i` holds
/// `v[p[i]]`.
pub open spec fn permuted_seq<S>(v: Seq<S>, p: Seq<usize>) -> Seq<S> {
    Seq::new(p.len(), |i: int| v[p[i] as int])
}

/// A vector whose components can be reordered.
pub trait Permute<S: Scalar>: Vector<S> {
    /// Constructs the permuted vector `u` with `u[i] = self[p[i]]`.
    fn permuted(self, p: &[usize]) -> (u: Self)
        requires
            is_index_map(p@, Self::dimension_spec() as nat),
        ensures
            u@ == permuted_seq(self@, p@),
    {
        let n = Self::dimension();
        let mut u = Self::zero();
        let mut i: usize = 0;
        proof {
            u.shape();
        }
        while i < n
            invariant
                i <= n,
                n == Self::dimension_spec(),
                is_index_map(p@, n as nat),
                u@.len() == n,
                forall|k: int| 0 <= k < i ==> u@[k] == self@[p@[k] as int],
            decreases n - i,
        {
            u.set(i, self.get(p[i]));
            i += 1;
        }
        assert(u@ =~= permuted_seq(self@, p@));
        u
    }
}

/// Whether `m` has `n` rows of `n` entries each.
pub open spec fn is_square<S>(m: Seq<Seq<S>>, n: nat) -> bool {
    &&& m.len() == n
    &&& forall|r: int| 0 <= r < m.len() ==> (#[trigger] m[r]).len() == n
}

/// A matrix of `dimension()` rows and as many columns, read and written by
/// row and column.
pub trait SquareMatrix<S: Scalar>: Dimensional + Zero + View<V = Seq<Seq<S>>> {
    /// Every value has `dimension()` rows of `dimension()` entries.
    proof fn shape(&self)
        ensures
            is_square(self@, Self::dimension_spec() as nat),
    ;

    /// Every entry of the zero matrix is the scalar zero.
    proof fn zero_entries()
        ensures
            forall|r: int, c: int|
                0 <= r < Self::dimension_spec() && 0 <= c < Self::dimension_spec()
                    ==> #[trigger] Self::zero_spec()@[r][c] == S::zero_value(),
    ;

    /// Returns the identity matrix: ones on the diagonal, zeros elsewhere.
    fn identity() -> (m: Self)
        ensures
            forall|r: int, c: int|
                0 <= r < Self::dimension_spec() && 0 <= c < Self::dimension_spec()
                    ==> #[trigger] m@[r][c] == if r == c {
                    S::one_value()
                } else {
                    S::zero_value()
                },
    ;

    /// Returns the entry at `row` and `col`.
    fn at(&self, row: usize, col: usize) -> (v: S)
        requires
            row < Self::dimension_spec(),
            col < Self::dimension_spec(),
        ensures
            v == self@[row as int][col as int],
    ;

    /// Replaces the entry at `row` and `col` by `v`.
    fn put(&mut self, row: usize, col: usize, v: S)
        requires
            row < Self::dimension_spec(),
            col < Self::dimension_spec(),
        ensures
            final(self)@ == old(self)@.update(
                row as int,
                old(self)@[row as int].update(col as int, v),
            ),
    ;
}

/// The identity order `0, 1, .., n - 1`.
pub open spec fn identity_order(n: nat) -> Seq<usize> {
    Seq::new(n, |i: int| i as usize)
}

/// `p` with the entries at `i` and `j` exchanged.
pub open spec fn swapped(p: Seq<usize>, i: int, j: int) -> Seq<usize> {
    p.update(i, p[j]).update(j, p[i])
}

/// The magnitude of the entry of column `col` in the row that stands at
/// position `pos` of the order `p`.
pub open spec fn magnitude<S: Scalar>(a: Seq<Seq<S>>, p: Seq<usize>, pos: int, col: int) -> S {
    a[p[pos] as int][col].abs_spec()
}

/// The position that a scan of the positions `col, .., upto - 1` of column
/// `col` selects: it starts at `col` and moves to a later position only when
/// the magnitude there is strictly greater than at the position held so far.
pub open spec fn best_row<S: Scalar>(a: Seq<Seq<S>>, p: Seq<usize>, col: int, upto: int) -> int
    decreases upto - col,
{
    if upto <= col + 1 {
        col
    } else {
        let best = best_row(a, p, col, upto - 1);
        if magnitude(a, p, best, col).less_than_spec(magnitude(a, p, upto - 1, col)) {
            upto - 1
        } else {
            best
        }
    }
}

/// The row order after the columns `0, .., cols - 1` of `a` were pivoted:
/// each column in turn exchanges its own position with the one that
/// `best_row` selects in the order reached so far.
pub open spec fn pivot_order<S: Scalar>(a: Seq<Seq<S>>, cols: int) -> Seq<usize>
    decreases cols,
{
    if cols <= 0 {
        identity_order(a.len())
    } else {
        let p = pivot_order(a, cols - 1);
        swapped(p, cols - 1, best_row(a, p, cols - 1, a.len() as int))
    }
}

/// The row order that partial pivoting by column gives for `a`.
pub open spec fn pivot_permutation<S: Scalar>(a: Seq<Seq<S>>) -> Seq<usize> {
    pivot_order(a, a.len() as int)
}

/// The sum `U[0][col] * L[row][0] + .. + U[k - 1][col] * L[row][k - 1]`,
/// accumulated from zero in this order, for `k` up to both `row` and `col`.
pub open spec fn lu_sum<S: Scalar>(a: Seq<Seq<S>>, p: Seq<usize>, row: int, col: int, k: int) -> S
    decreases col, row, k,
{
    if k <= 0 || k > row || k > col {
        S::zero_value()
    } else {
        lu_sum(a, p, row, col, k - 1).plus_spec(
            lu_entry(a, p, k - 1, col).times_spec(lu_entry(a, p, row, k - 1)),
        )
    }
}

/// The entry at `row` and `col` of the factors of `a` with its rows taken in
/// the order `p`: on and above the diagonal the entry of `U`, below it the
/// entry of `L`.
pub open spec fn lu_entry<S: Scalar>(a: Seq<Seq<S>>, p: Seq<usize>, row: int, col: int) -> S
    decreases col, row, row + 1,
{
    if row < 0 || col < 0 {
        S::zero_value()
    } else if row <= col {
        a[p[row] as int][col].minus_spec(lu_sum(a, p, row, col, row))
    } else {
        a[p[row] as int][col].minus_spec(lu_sum(a, p, row, col, col)).over_spec(
            lu_entry(a, p, col, col),
        )
    }
}

/// The entry at `row` and `col` of the lower factor: one on the diagonal,
/// zero above it.
pub open spec fn lower_entry<S: Scalar>(a: Seq<Seq<S>>, p: Seq<usize>, row: int, col: int) -> S {
    if row == col {
        S::one_value()
    } else if row > col {
        lu_entry(a, p, row, col)
    } else {
        S::zero_value()
    }
}

/// The entry at `row` and `col` of the upper factor: zero below the diagonal.
pub open spec fn upper_entry<S: Scalar>(a: Seq<Seq<S>>, p: Seq<usize>, row: int, col: int) -> S {
    if row <= col {
        lu_entry(a, p, row, col)
    } else {
        S::zero_value()
    }
}

/// The sum `y[0] * l[i][0] + .. + y[j - 1] * l[i][j - 1]` over the solution
/// `y` of the lower-triangular system, accumulated from zero, for `j <= i`.
pub open spec fn forward_sum<S: Scalar>(l: Seq<Seq<S>>, b: Seq<S>, i: int, j: int) -> S
    decreases i, j,
{
    if j <= 0 || j > i {
        S::zero_value()
    } else {
        forward_sum(l, b, i, j - 1).plus_spec(forward_entry(l, b, j - 1).times_spec(l[i][j - 1]))
    }
}

/// Component `i` of the solution of `l * y = b` by forward substitution,
/// where `l` counts as lower triangular with a unit diagonal.
pub open spec fn forward_entry<S: Scalar>(l: Seq<Seq<S>>, b: Seq<S>, i: int) -> S
    decreases i, i + 1,
{
    if i < 0 {
        S::zero_value()
    } else {
        b[i].minus_spec(forward_sum(l, b, i, i))
    }
}

/// The solution of `l * y = b` by forward substitution.
pub open spec fn forward_solution<S: Scalar>(l: Seq<Seq<S>>, b: Seq<S>) -> Seq<S> {
    Seq::new(l.len(), |i: int| forward_entry(l, b, i))
}

/// The sum `x[i + 1] * u[i][i + 1] + .. + x[j - 1] * u[i][j - 1]` over the
/// solution `x` of the upper-triangular system, accumulated from zero, for
/// `j` up to the dimension.
pub open spec fn backward_sum<S: Scalar>(u: Seq<Seq<S>>, y: Seq<S>, i: int, j: int) -> S
    decreases u.len() - i, j,
{
    if i < 0 || j <= i + 1 || j > u.len() {
        S::zero_value()
    } else {
        backward_sum(u, y, i, j - 1).plus_spec(
            backward_entry(u, y, j - 1).times_spec(u[i][j - 1]),
        )
    }
}

/// Component `i` of the solution of `u * x = y` by backward substitution,
/// where `u` counts as upper triangular.
pub open spec fn backward_entry<S: Scalar>(u: Seq<Seq<S>>, y: Seq<S>, i: int) -> S
    decreases u.len() - i, u.len() + 1,
{
    if i < 0 || i >= u.len() {
        S::zero_value()
    } else {
        y[i].minus_spec(backward_sum(u, y, i, u.len() as int)).over_spec(u[i][i])
    }
}

/// The solution of `u * x = y` by backward substitution.
pub open spec fn backward_solution<S: Scalar>(u: Seq<Seq<S>>, y: Seq<S>) -> Seq<S> {
    Seq::new(u.len(), |i: int| backward_entry(u, y, i))
}

/// The lower factor of `a` with its rows in the order `p`.
pub open spec fn lower_factor<S: Scalar>(a: Seq<Seq<S>>, p: Seq<usize>) -> Seq<Seq<S>> {
    Seq::new(a.len(), |r: int| Seq::new(a.len(), |c: int| lower_entry(a, p, r, c)))
}

/// The upper factor of `a` with its rows in the order `p`.
pub open spec fn upper_factor<S: Scalar>(a: Seq<Seq<S>>, p: Seq<usize>) -> Seq<Seq<S>> {
    Seq::new(a.len(), |r: int| Seq::new(a.len(), |c: int| upper_entry(a, p, r, c)))
}

/// The vector that solving `a * x = b` by LU decomposition yields: `b` is
/// reordered by the pivot permutation of `a`, then the two triangular systems
/// of the factors are solved in turn.
pub open spec fn lu_solution<S: Scalar>(a: Seq<Seq<S>>, b: Seq<S>) -> Seq<S> {
    let p = pivot_permutation(a);
    backward_solution(
        upper_factor(a, p),
        forward_solution(lower_factor(a, p), permuted_seq(b, p)),
    )
}

/// Solving linear systems `a * x = b` by LU decomposition with partial
/// pivoting, for every square matrix type and the vectors of its dimension.
pub trait LU<S: Scalar, V: Permute<S>>: SquareMatrix<S> {
    /// The vectors have as many components as the matrix has rows.
    proof fn same_dimension()
        ensures
            V::dimension_spec() == Self::dimension_spec(),
    ;

    /// Returns the row order that partial pivoting by column selects: for
    /// each column in turn, the first row of greatest magnitude among those
    /// not yet placed comes to the diagonal.
    #[allow(non_snake_case)]
    fn get_pivot_permutation(A: &Self) -> (rows_p: Vec<usize>)
        ensures
            rows_p@ == pivot_permutation(A@),
            is_permutation(rows_p@, Self::dimension_spec() as nat),
    {
        let n = Self::dimension();
        proof {
            A.shape();
        }
        let mut rows_p: Vec<usize> = Vec::new();
        let mut k: usize = 0;
        while k < n
            invariant
                k <= n,
                rows_p@.len() == k,
                forall|i: int| 0 <= i < k ==> rows_p@[i] == i,
            decreases n - k,
        {
            rows_p.push(k);
            k += 1;
        }
        assert(rows_p@ =~= identity_order(n as nat));
        let mut i: usize = 0;
        while i < n
            invariant
                i <= n,
                n == Self::dimension_spec(),
                is_square(A@, n as nat),
                rows_p@ == pivot_order(A@, i as int),
                is_index_map(rows_p@, n as nat),
            decreases n - i,
        {
            let mut max_pos = i;
            let mut j: usize = i + 1;
            while j < n
                invariant
                    i < n,
                    i + 1 <= j <= n,
                    i <= max_pos < j,
                    n == Self::dimension_spec(),
                    is_square(A@, n as nat),
                    is_index_map(rows_p@, n as nat),
                    max_pos == best_row(A@, rows_p@, i as int, j as int),
                decreases n - j,
            {
                let held = A.at(rows_p[max_pos], i).abs();
                let seen = A.at(rows_p[j], i).abs();
                if held.less_than(seen) {
                    max_pos = j;
                }
                j += 1;
            }
            if max_pos != i {
                let first = rows_p[i];
                let second = rows_p[max_pos];
                rows_p.set(i, second);
                rows_p.set(max_pos, first);
            }
            proof {
                let before = pivot_order(A@, i as int);
                assert(rows_p@ =~= swapped(before, i as int, max_pos as int));
            }
            i += 1;
        }
        proof {
            pivot_permutation_is_permutation(A@);
        }
        rows_p
    }

    /// Returns the vector `y` with `L * y = b` by forward substitution. Only
    /// the entries of `L` below the diagonal are read: the diagonal counts as
    /// one, whatever it holds.
    #[allow(non_snake_case)]
    fn solve_with_L(L: &Self, b: V) -> (y: V)
        ensures
            y@ == forward_solution(L@, b@),
    {
        let n = Self::dimension();
        let mut y = V::zero();
        proof {
            Self::same_dimension();
            L.shape();
            y.shape();
            b.shape();
        }
        let mut i: usize = 0;
        while i < n
            invariant
                i <= n,
                n == Self::dimension_spec(),
                n == V::dimension_spec(),
                is_square(L@, n as nat),
                y@.len() == n,
                b@.len() == n,
                forall|k: int| 0 <= k < i ==> y@[k] == forward_entry(L@, b@, k),
            decreases n - i,
        {
            let mut sum = S::zero();
            let mut j: usize = 0;
            while j < i
                invariant
                    j <= i < n,
                    n == Self::dimension_spec(),
                    n == V::dimension_spec(),
                    is_square(L@, n as nat),
                    y@.len() == n,
                    forall|k: int| 0 <= k < i ==> y@[k] == forward_entry(L@, b@, k),
                    sum == forward_sum(L@, b@, i as int, j as int),
                decreases i - j,
            {
                sum = sum.plus(y.get(j).times(L.at(i, j)));
                j += 1;
            }
            y.set(i, b.get(i).minus(sum));
            i += 1;
        }
        assert(y@ =~= forward_solution(L@, b@));
        y
    }

    /// Returns the vector `x` with `U * x = y` by backward substitution. Only
    /// the entries of `U` on and above the diagonal are read. A zero on the
    /// diagonal is no fault: the quotient is whatever the scalar's division
    /// yields.
    #[allow(non_snake_case)]
    fn solve_with_U(U: &Self, y: V) -> (x: V)
        ensures
            x@ == backward_solution(U@, y@),
    {
        let n = Self::dimension();
        let mut x = V::zero();
        proof {
            Self::same_dimension();
            U.shape();
            x.shape();
            y.shape();
        }
        let mut i: usize = n;
        while i > 0
            invariant
                i <= n,
                n == Self::dimension_spec(),
                n == V::dimension_spec(),
                is_square(U@, n as nat),
                x@.len() == n,
                y@.len() == n,
                forall|k: int| i <= k < n ==> x@[k] == backward_entry(U@, y@, k),
            decreases i,
        {
            i -= 1;
            let mut sum = S::zero();
            let mut j: usize = i + 1;
            while j < n
                invariant
                    i < j <= n,
                    n == Self::dimension_spec(),
                    n == V::dimension_spec(),
                    is_square(U@, n as nat),
                    x@.len() == n,
                    forall|k: int| i < k < n ==> x@[k] == backward_entry(U@, y@, k),
                    sum == backward_sum(U@, y@, i as int, j as int),
                decreases n - j,
            {
                sum = sum.plus(x.get(j).times(U.at(i, j)));
                j += 1;
            }
            x.set(i, y.get(i).minus(sum).over(U.at(i, i)));
        }
        assert(x@ =~= backward_solution(U@, y@));
        x
    }

    /// Decomposes the matrix into a lower triangular `L` with a unit diagonal
    /// and an upper triangular `U`, for the row order `p` that partial
    /// pivoting selects, so that row `i` of `L * U` stands for row `p[i]` of
    /// the matrix. A zero pivot is no fault: the quotients of its column are
    /// whatever the scalar's division yields.
    #[allow(non_snake_case)]
    fn decompose_lu(&self) -> (r: (Self, Self, Vec<usize>))
        ensures
            r.2@ == pivot_permutation(self@),
            is_permutation(r.2@, Self::dimension_spec() as nat),
            r.0@ == lower_factor(self@, r.2@),
            r.1@ == upper_factor(self@, r.2@),
    {
        let n = Self::dimension();
        let mut L = Self::identity();
        let mut U = Self::zero();
        let p = Self::get_pivot_permutation(self);
        proof {
            self.shape();
            L.shape();
            U.shape();
            Self::zero_entries();
        }
        let mut col: usize = 0;
        while col < n
            invariant
                col <= n,
                n == Self::dimension_spec(),
                is_square(self@, n as nat),
                is_square(L@, n as nat),
                is_square(U@, n as nat),
                is_index_map(p@, n as nat),
                forall|r: int, c: int|
                    0 <= r < n && 0 <= c < n ==> #[trigger] L@[r][c] == if c < col || r <= c {
                        lower_entry(self@, p@, r, c)
                    } else {
                        S::zero_value()
                    },
                forall|r: int, c: int|
                    0 <= r < n && 0 <= c < n ==> #[trigger] U@[r][c] == if c < col {
                        upper_entry(self@, p@, r, c)
                    } else {
                        S::zero_value()
                    },
            decreases n - col,
        {
            let mut row: usize = 0;
            while row < col + 1
                invariant
                    col < n,
                    row <= col + 1,
                    n == Self::dimension_spec(),
                    is_square(self@, n as nat),
                    is_square(L@, n as nat),
                    is_square(U@, n as nat),
                    is_index_map(p@, n as nat),
                    forall|r: int, c: int|
                        0 <= r < n && 0 <= c < n ==> #[trigger] L@[r][c] == if c < col || r <= c {
                            lower_entry(self@, p@, r, c)
                        } else {
                            S::zero_value()
                        },
                    forall|r: int, c: int|
                        0 <= r < n && 0 <= c < n ==> #[trigger] U@[r][c] == if c < col || (c == col
                            && r < row) {
                            upper_entry(self@, p@, r, c)
                        } else {
                            S::zero_value()
                        },
                decreases col + 1 - row,
            {
                let mut sum = S::zero();
                let mut i: usize = 0;
                while i < row
                    invariant
                        col < n,
                        i <= row <= col,
                        n == Self::dimension_spec(),
                        is_square(L@, n as nat),
                        is_square(U@, n as nat),
                        forall|r: int, c: int|
                            0 <= r < n && 0 <= c < n ==> #[trigger] L@[r][c] == if c < col || r
                                <= c {
                                lower_entry(self@, p@, r, c)
                            } else {
                                S::zero_value()
                            },
                        forall|r: int, c: int|
                            0 <= r < n && 0 <= c < n ==> #[trigger] U@[r][c] == if c < col || (c
                                == col && r < row) {
                                upper_entry(self@, p@, r, c)
                            } else {
                                S::zero_value()
                            },
                        sum == lu_sum(self@, p@, row as int, col as int, i as int),
                    decreases row - i,
                {
                    sum = sum.plus(U.at(i, col).times(L.at(row, i)));
                    i += 1;
                }
                U.put(row, col, self.at(p[row], col).minus(sum));
                row += 1;
            }
            let mut row: usize = col + 1;
            while row < n
                invariant
                    col < n,
                    col + 1 <= row <= n,
                    n == Self::dimension_spec(),
                    is_square(self@, n as nat),
                    is_square(L@, n as nat),
                    is_square(U@, n as nat),
                    is_index_map(p@, n as nat),
                    forall|r: int, c: int|
                        0 <= r < n && 0 <= c < n ==> #[trigger] L@[r][c] == if c < col || r <= c
                            || (c == col && r < row) {
                            lower_entry(self@, p@, r, c)
                        } else {
                            S::zero_value()
                        },
                    forall|r: int, c: int|
                        0 <= r < n && 0 <= c < n ==> #[trigger] U@[r][c] == if c <= col {
                            upper_entry(self@, p@, r, c)
                        } else {
                            S::zero_value()
                        },
                decreases n - row,
            {
                let mut sum = S::zero();
                let mut i: usize = 0;
                while i < col
                    invariant
                        i <= col < row < n,
                        n == Self::dimension_spec(),
                        is_square(L@, n as nat),
                        is_square(U@, n as nat),
                        forall|r: int, c: int|
                            0 <= r < n && 0 <= c < n ==> #[trigger] L@[r][c] == if c < col || r
                                <= c || (c == col && r < row) {
                                lower_entry(self@, p@, r, c)
                            } else {
                                S::zero_value()
                            },
                        forall|r: int, c: int|
                            0 <= r < n && 0 <= c < n ==> #[trigger] U@[r][c] == if c <= col {
                                upper_entry(self@, p@, r, c)
                            } else {
                                S::zero_value()
                            },
                        sum == lu_sum(self@, p@, row as int, col as int, i as int),
                    decreases col - i,
                {
                    sum = sum.plus(U.at(i, col).times(L.at(row, i)));
                    i += 1;
                }
                L.put(row, col, self.at(p[row], col).minus(sum).over(U.at(col, col)));
                row += 1;
            }
            col += 1;
        }
        assert(L@ =~~= lower_factor(self@, p@));
        assert(U@ =~~= upper_factor(self@, p@));
        (L, U, p)
    }

    /// Returns the vector `x` with `self * x = b`, computed from the LU
    /// decomposition of the matrix. The matrix is meant to be of full rank;
    /// where it is not, no fault is raised and the components of the result
    /// are whatever the scalar's division by a zero pivot yields.
    #[allow(non_snake_case)]
    fn lu_solve(&self, b: V) -> (x: V)
        ensures
            x@ == lu_solution(self@, b@),
    {
        proof {
            Self::same_dimension();
        }
        let (L, U, p) = self.decompose_lu();
        let y = Self::solve_with_L(&L, b.permuted(p.as_slice()));
        Self::solve_with_U(&U, y)
    }
}

} // verus!
