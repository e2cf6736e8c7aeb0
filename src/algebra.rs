//! The mathematical model of vectors and matrices: a vector is a sequence of
//! integers, a square matrix a sequence of columns, each a sequence of the
//! entries from the top row down (`m[c][r]` is row `r` of column `c`).
//! The products and the laws they obey are stated here, over `int`.
use vstd::prelude::*;

verus! {

/// `f(0) + f(1) + ... + f(n - 1)`.
pub open spec fn sum_to(n: int, f: spec_fn(int) -> int) -> int
    decreases n,
{
    if n <= 0 {
        0
    } else {
        sum_to(n - 1, f) + f(n - 1)
    }
}

/// Sum of the products of matching components.
pub open spec fn dot(a: Seq<int>, b: Seq<int>) -> int {
    sum_to(a.len() as int, |i: int| a[i] * b[i])
}

/// Row `r` of a matrix given by its columns.
pub open spec fn row(m: Seq<Seq<int>>, r: int) -> Seq<int> {
    Seq::new(m.len(), |c: int| m[c][r])
}

/// A matrix of order `n`: `n` columns of `n` entries each.
pub open spec fn square(m: Seq<Seq<int>>, n: nat) -> bool {
    &&& m.len() == n
    &&& forall|c: int| 0 <= c < n ==> #[trigger] m[c].len() == n
}

/// The matrix acting on a column vector from the left: the sum of the
/// columns, each weighted by the matching component of `v`.
pub open spec fn mat_vec(m: Seq<Seq<int>>, v: Seq<int>) -> Seq<int> {
    Seq::new(m.len(), |r: int| dot(row(m, r), v))
}

/// A row vector acting on the matrix from the left: component `c` is the
/// dot product of `v` with column `c`.
pub open spec fn vec_mat(v: Seq<int>, m: Seq<Seq<int>>) -> Seq<int> {
    Seq::new(m.len(), |c: int| dot(v, m[c]))
}

/// Composition: column `c` of the product is `a` acting on column `c` of `b`.
pub open spec fn mat_mul(a: Seq<Seq<int>>, b: Seq<Seq<int>>) -> Seq<Seq<int>> {
    Seq::new(b.len(), |c: int| mat_vec(a, b[c]))
}

/// The identity matrix of order `n`.
pub open spec fn identity(n: nat) -> Seq<Seq<int>> {
    Seq::new(n, |c: int| Seq::new(n, |r: int| if c == r { 1int } else { 0int }))
}

/// Every entry multiplied by `k`.
pub open spec fn mat_scale(m: Seq<Seq<int>>, k: int) -> Seq<Seq<int>> {
    Seq::new(m.len(), |c: int| Seq::new(m[c].len(), |r: int| m[c][r] * k))
}

pub proof fn lemma_sum_ext(n: int, f: spec_fn(int) -> int, g: spec_fn(int) -> int)
    requires
        forall|i: int| 0 <= i < n ==> #[trigger] f(i) == g(i),
    ensures
        sum_to(n, f) == sum_to(n, g),
    decreases n,
{
    if n > 0 {
        lemma_sum_ext(n - 1, f, g);
    }
}

pub proof fn lemma_sum_scale(n: int, f: spec_fn(int) -> int, k: int)
    ensures
        sum_to(n, |i: int| k * f(i)) == k * sum_to(n, f),
    decreases n,
{
    if n > 0 {
        lemma_sum_scale(n - 1, f, k);
        let s = sum_to(n - 1, f);
        assert(k * (s + f(n - 1)) == k * s + k * f(n - 1)) by (nonlinear_arith);
    }
}

pub proof fn lemma_sum_add(n: int, f: spec_fn(int) -> int, g: spec_fn(int) -> int)
    ensures
        sum_to(n, |i: int| f(i) + g(i)) == sum_to(n, f) + sum_to(n, g),
    decreases n,
{
    if n > 0 {
        lemma_sum_add(n - 1, f, g);
    }
}

/// A double sum may be taken in either order.
pub proof fn lemma_sum_swap(n: int, m: int, f: spec_fn(int, int) -> int)
    ensures
        sum_to(n, |i: int| sum_to(m, |j: int| f(i, j))) == sum_to(
            m,
            |j: int| sum_to(n, |i: int| f(i, j)),
        ),
    decreases n,
{
    if n > 0 {
        lemma_sum_swap(n - 1, m, f);
        let g = |j: int| sum_to(n - 1, |i: int| f(i, j));
        let h = |j: int| f(n - 1, j);
        let gh = |j: int| g(j) + h(j);
        let rhs = |j: int| sum_to(n, |i: int| f(i, j));
        lemma_sum_add(m, g, h);
        assert(sum_to(m, |i: int| g(i) + h(i)) == sum_to(m, gh));
        assert forall|j: int| 0 <= j < m implies #[trigger] gh(j) == rhs(j) by {}
        lemma_sum_ext(m, gh, rhs);
        let lhs = |i: int| sum_to(m, |j: int| f(i, j));
        assert(lhs(n - 1) == sum_to(m, h));
        assert(sum_to(n, lhs) == sum_to(n - 1, lhs) + lhs(n - 1));
    } else {
        let rhs = |j: int| sum_to(n, |i: int| f(i, j));
        assert forall|j: int| 0 <= j < m implies #[trigger] rhs(j) == 0 by {}
        lemma_sum_zero(m, rhs);
    }
}

/// A sum whose terms vanish but at `k` is the term at `k`.
pub proof fn lemma_sum_single(n: int, f: spec_fn(int) -> int, k: int)
    requires
        0 <= k < n,
        forall|i: int| 0 <= i < n && i != k ==> #[trigger] f(i) == 0,
    ensures
        sum_to(n, f) == f(k),
    decreases n,
{
    if n - 1 > k {
        lemma_sum_single(n - 1, f, k);
    } else {
        lemma_sum_zero(n - 1, f);
    }
}

pub proof fn lemma_sum_zero(n: int, f: spec_fn(int) -> int)
    requires
        forall|i: int| 0 <= i < n ==> #[trigger] f(i) == 0,
    ensures
        sum_to(n, f) == 0,
    decreases n,
{
    if n > 0 {
        lemma_sum_zero(n - 1, f);
    }
}

pub proof fn lemma_sum2(f: spec_fn(int) -> int)
    ensures
        sum_to(2, f) == f(0) + f(1),
{
    reveal_with_fuel(sum_to, 3);
}

pub proof fn lemma_sum3(f: spec_fn(int) -> int)
    ensures
        sum_to(3, f) == f(0) + f(1) + f(2),
{
    reveal_with_fuel(sum_to, 4);
}

pub proof fn lemma_sum4(f: spec_fn(int) -> int)
    ensures
        sum_to(4, f) == f(0) + f(1) + f(2) + f(3),
{
    reveal_with_fuel(sum_to, 5);
}

/// The dot product does not depend on the order of its operands.
pub proof fn dot_is_symmetric(a: Seq<int>, b: Seq<int>)
    requires
        a.len() == b.len(),
    ensures
        dot(a, b) == dot(b, a),
{
    lemma_sum_ext(a.len() as int, |i: int| a[i] * b[i], |i: int| b[i] * a[i]);
}

/// The identity matrix is neutral on both sides of the matrix product.
pub proof fn identity_is_neutral(m: Seq<Seq<int>>, n: nat)
    requires
        square(m, n),
    ensures
        mat_mul(m, identity(n)) == m,
        mat_mul(identity(n), m) == m,
{
    let id = identity(n);
    assert forall|c: int, r: int| 0 <= c < n && 0 <= r < n implies #[trigger] mat_mul(m, id)[c][r]
        == m[c][r] by {
        let f = |k: int| row(m, r)[k] * id[c][k];
        assert forall|k: int| 0 <= k < n && k != c implies #[trigger] f(k) == 0 by {}
        lemma_sum_single(n as int, f, c);
        assert(f(c) == m[c][r]);
        assert(mat_mul(m, id)[c][r] == sum_to(n as int, f));
    }
    assert forall|c: int, r: int| 0 <= c < n && 0 <= r < n implies #[trigger] mat_mul(id, m)[c][r]
        == m[c][r] by {
        let g = |k: int| row(id, r)[k] * m[c][k];
        assert forall|k: int| 0 <= k < n && k != r implies #[trigger] g(k) == 0 by {}
        lemma_sum_single(n as int, g, r);
        assert(row(id, r)[r] == 1);
        assert(g(r) == m[c][r]);
        assert(mat_mul(id, m)[c][r] == sum_to(n as int, g));
    }
    assert forall|c: int| 0 <= c < n implies #[trigger] mat_mul(m, id)[c] == m[c] && mat_mul(id, m)[c]
        == m[c] by {
        assert(m[c].len() == n);
        assert(mat_mul(m, id)[c] =~= m[c]);
        assert(mat_mul(id, m)[c] =~= m[c]);
    }
    assert(mat_mul(m, id) =~= m);
    assert(mat_mul(id, m) =~= m);
}

/// Applying a product of matrices to a vector is applying the right factor
/// first, then the left one.
pub proof fn product_acts_as_composition(a: Seq<Seq<int>>, b: Seq<Seq<int>>, v: Seq<int>, n: nat)
    requires
        square(a, n),
        square(b, n),
        v.len() == n,
    ensures
        mat_vec(mat_mul(a, b), v) == mat_vec(a, mat_vec(b, v)),
{
    let ab = mat_mul(a, b);
    let bv = mat_vec(b, v);
    let ni = n as int;
    assert forall|r: int| 0 <= r < n implies mat_vec(ab, v)[r] == mat_vec(a, bv)[r] by {
        let f = |c: int, k: int| a[k][r] * b[c][k] * v[c];
        // left side: sum over c of (sum over k of a[k][r] * b[c][k]) * v[c]
        assert forall|c: int| 0 <= c < n implies row(ab, r)[c] * v[c] == sum_to(
            ni,
            |k: int| f(c, k),
        ) by {
            let g = |k: int| a[k][r] * b[c][k];
            lemma_sum_ext(ni, |k: int| row(a, r)[k] * b[c][k], g);
            lemma_sum_scale(ni, g, v[c]);
            assert forall|k: int| 0 <= k < n implies v[c] * #[trigger] g(k) == f(c, k) by {
                assert(v[c] * (a[k][r] * b[c][k]) == a[k][r] * b[c][k] * v[c])
                    by (nonlinear_arith);
            }
            lemma_sum_ext(ni, |k: int| v[c] * g(k), |k: int| f(c, k));
            assert(row(ab, r)[c] * v[c] == v[c] * sum_to(ni, g)) by (nonlinear_arith)
                requires row(ab, r)[c] == sum_to(ni, g);
        }
        lemma_sum_ext(
            ni,
            |c: int| row(ab, r)[c] * v[c],
            |c: int| sum_to(ni, |k: int| f(c, k)),
        );
        lemma_sum_swap(ni, ni, f);
        // right side: sum over k of a[k][r] * (sum over c of b[c][k] * v[c])
        assert forall|k: int| 0 <= k < n implies row(a, r)[k] * bv[k] == sum_to(
            ni,
            |c: int| f(c, k),
        ) by {
            let g = |c: int| b[c][k] * v[c];
            lemma_sum_ext(ni, |c: int| row(b, k)[c] * v[c], g);
            lemma_sum_scale(ni, g, a[k][r]);
            assert forall|c: int| 0 <= c < n implies a[k][r] * #[trigger] g(c) == f(c, k) by {
                assert(a[k][r] * (b[c][k] * v[c]) == a[k][r] * b[c][k] * v[c])
                    by (nonlinear_arith);
            }
            lemma_sum_ext(ni, |c: int| a[k][r] * g(c), |c: int| f(c, k));
        }
        lemma_sum_ext(
            ni,
            |k: int| row(a, r)[k] * bv[k],
            |k: int| sum_to(ni, |c: int| f(c, k)),
        );
    }
    assert(mat_vec(ab, v) =~= mat_vec(a, bv));
}

} // verus!
