//! Fixed-size vectors and matrices kept on the heap.
//!
//! A `HeapVector<T, N>` always holds exactly `N` elements and a
//! `HeapMatrix<T, M, N>` exactly `M` rows of `N` elements. The arithmetic is
//! over `i64` and is exact: each operation requires that every intermediate
//! value it computes fits in an `i64`.
use vstd::prelude::*;

verus! {

pub open spec fn fits_i64(x: int) -> bool {
    i64::MIN <= x <= i64::MAX
}

/// `a[0] * b[0] + ... + a[k-1] * b[k-1]`.
pub open spec fn dot_upto(a: Seq<i64>, b: Seq<i64>, k: int) -> int
    decreases k,
{
    if k <= 0 {
        0
    } else {
        dot_upto(a, b, k - 1) + a[k - 1] * b[k - 1]
    }
}

/// `a[0] + ... + a[k-1]`.
pub open spec fn sum_upto(a: Seq<i64>, k: int) -> int
    decreases k,
{
    if k <= 0 {
        0
    } else {
        sum_upto(a, k - 1) + a[k - 1]
    }
}

/// The dot product of `a` and `b` can be computed left to right in `i64`.
pub open spec fn dot_fits(a: Seq<i64>, b: Seq<i64>) -> bool {
    &&& forall|i: int| 0 <= i < a.len() ==> fits_i64(#[trigger] a[i] * b[i])
    &&& forall|k: int| 0 <= k <= a.len() ==> fits_i64(#[trigger] dot_upto(a, b, k))
}

/// The sum of `a` can be computed left to right in `i64`.
pub open spec fn sum_fits(a: Seq<i64>) -> bool {
    forall|k: int| 0 <= k <= a.len() ==> fits_i64(#[trigger] sum_upto(a, k))
}

/// Column `j` of the rows `m`: `m[0][j], m[1][j], ...`.
pub open spec fn column(m: Seq<Seq<i64>>, j: int) -> Seq<i64> {
    Seq::new(m.len(), |k: int| m[k][j])
}

/// Rust's `/` on integers: the quotient rounded towards zero.
pub open spec fn trunc_div(a: int, b: int) -> int {
    let q: int = vstd::math::abs(a) as int / vstd::math::abs(b) as int;
    if (a < 0) == (b < 0) {
        q
    } else {
        -q
    }
}

/// The dot product does not depend on the order of its operands.
pub proof fn law_dot_symmetric(a: Seq<i64>, b: Seq<i64>, k: int)
    ensures
        dot_upto(a, b, k) == dot_upto(b, a, k),
    decreases k,
{
    if k > 0 {
        law_dot_symmetric(a, b, k - 1);
        vstd::arithmetic::mul::lemma_mul_is_commutative(a[k - 1] as int, b[k - 1] as int);
    }
}

/// The dot product with a vector of zeros is zero.
pub proof fn law_dot_with_zeros(a: Seq<i64>, n: nat, k: int)
    requires
        k <= n,
    ensures
        dot_upto(a, Seq::new(n, |i: int| 0i64), k) == 0,
    decreases k,
{
    if k > 0 {
        law_dot_with_zeros(a, n, k - 1);
        assert(Seq::new(n, |i: int| 0i64)[k - 1] == 0);
        vstd::arithmetic::mul::lemma_mul_basics(a[k - 1] as int);
    }
}

/// Equivalent to `[T; N]`.
#[derive(Debug, PartialEq, Eq)]
pub struct HeapVector<T, const N: usize> {
    inner: Vec<T>,
}

impl<T, const N: usize> View for HeapVector<T, N> {
    type V = Seq<T>;

    closed spec fn view(&self) -> Seq<T> {
        self.inner@
    }
}

impl<T, const N: usize> HeapVector<T, N> {
    #[verifier::type_invariant]
    spec fn holds_n(self) -> bool {
        self.inner@.len() == N
    }

    /// Wraps `inner`, which must hold exactly `N` elements.
    pub fn new(inner: Vec<T>) -> (r: HeapVector<T, N>)
        requires
            inner@.len() == N,
        ensures
            r@ == inner@,
    {
        HeapVector { inner }
    }

    pub fn len(&self) -> (r: usize)
        ensures
            r == N,
            self@.len() == N,
    {
        proof {
            use_type_invariant(self);
        }
        N
    }

    pub fn is_empty(&self) -> (r: bool)
        ensures
            r == (N == 0),
            self@.len() == N,
    {
        proof {
            use_type_invariant(self);
        }
        N == 0
    }

    /// The matrix with this vector as its one row.
    pub fn matrix(self) -> (r: HeapMatrix<T, 1, N>)
        ensures
            r@ == seq![self@],
    {
        proof {
            use_type_invariant(&self);
        }
        let ghost v = self@;
        let mut rows: Vec<HeapVector<T, N>> = Vec::new();
        rows.push(self);
        assert(rows@[0]@ == v);
        let r = HeapMatrix { inner: rows };
        assert(r@ =~= seq![v]);
        r
    }

    /// The vector of `f` applied to each element.
    pub fn apply<F: Fn(T) -> T>(self, f: F) -> (r: HeapVector<T, N>)
        requires
            forall|i: int| 0 <= i < self@.len() ==> f.requires((#[trigger] self@[i],)),
        ensures
            r@.len() == N,
            self@.len() == N,
            forall|i: int| 0 <= i < N ==> f.ensures((self@[i],), #[trigger] r@[i]),
    {
        proof {
            use_type_invariant(&self);
        }
        let ghost old_v = self@;
        let HeapVector { inner } = self;
        let mut inner = inner;
        let mut rev: Vec<T> = Vec::new();
        let mut k: usize = 0;
        while k < N
            invariant
                old_v.len() == N,
                k <= N,
                inner@ == old_v.subrange(0, N - k),
                rev@.len() == k,
                forall|j: int| 0 <= j < k ==> #[trigger] rev@[j] == old_v[N - 1 - j],
            decreases N - k,
        {
            let x = inner.pop().unwrap();
            rev.push(x);
            k = k + 1;
            assert(inner@ =~= old_v.subrange(0, N - k));
        }
        let mut out: Vec<T> = Vec::new();
        let mut i: usize = 0;
        while i < N
            invariant
                old_v.len() == N,
                i <= N,
                out@.len() == i,
                rev@.len() == N - i,
                forall|j: int| 0 <= j < N - i ==> #[trigger] rev@[j] == old_v[N - 1 - j],
                forall|j: int| 0 <= j < old_v.len() ==> f.requires((#[trigger] old_v[j],)),
                forall|j: int| 0 <= j < i ==> f.ensures((old_v[j],), #[trigger] out@[j]),
            decreases N - i,
        {
            let x = rev.pop().unwrap();
            assert(x == old_v[i as int]);
            let y = f(x);
            out.push(y);
            i = i + 1;
        }
        HeapVector { inner: out }
    }

    pub fn to_vec(&self) -> (r: &Vec<T>)
        ensures
            r@ == self@,
            self@.len() == N,
    {
        proof {
            use_type_invariant(self);
        }
        &self.inner
    }
}

impl<T: Clone, const N: usize> Clone for HeapVector<T, N> {
    fn clone(&self) -> (r: HeapVector<T, N>)
        ensures
            r@.len() == N,
            forall|i: int| 0 <= i < N ==> cloned::<T>(self@[i], #[trigger] r@[i]),
    {
        proof {
            use_type_invariant(self);
        }
        HeapVector { inner: self.inner.clone() }
    }
}

/// `a / c` as Rust computes it on `i64`: the quotient rounded towards zero.
fn div_toward_zero(a: i64, c: i64) -> (q: i64)
    requires
        c != 0,
        !(a == i64::MIN && c == -1),
    ensures
        q == trunc_div(a as int, c as int),
{
    let ua: u64 = if a >= 0 {
        a as u64
    } else {
        (0i128 - a as i128) as u64
    };
    let uc: u64 = if c >= 0 {
        c as u64
    } else {
        (0i128 - c as i128) as u64
    };
    let uq = ua / uc;
    assert(uq <= ua) by (nonlinear_arith)
        requires
            uc >= 1,
            uq == ua / uc,
    ;
    if (a < 0) == (c < 0) {
        assert(uq <= i64::MAX) by (nonlinear_arith)
            requires
                uc >= 1,
                uq == ua / uc,
                ua <= i64::MAX + 1,
                ua == i64::MAX + 1 ==> uc >= 2,
        ;
        uq as i64
    } else {
        (0i128 - uq as i128) as i64
    }
}

fn zeros(n: usize) -> (v: Vec<i64>)
    ensures
        v@ == Seq::new(n as nat, |i: int| 0i64),
{
    let mut v: Vec<i64> = Vec::new();
    let mut i: usize = 0;
    while i < n
        invariant
            i <= n,
            v@ == Seq::new(i as nat, |k: int| 0i64),
        decreases n - i,
    {
        v.push(0);
        i = i + 1;
        assert(v@ =~= Seq::new(i as nat, |k: int| 0i64));
    }
    v
}

impl<const N: usize> HeapVector<i64, N> {
    /// The vector of `N` zeroes.
    pub fn zeroed() -> (r: HeapVector<i64, N>)
        ensures
            r@ == Seq::new(N as nat, |i: int| 0i64),
    {
        HeapVector { inner: zeros(N) }
    }

    /// The element-wise product.
    pub fn hadamard(&self, other: &HeapVector<i64, N>) -> (r: HeapVector<i64, N>)
        requires
            forall|i: int| 0 <= i < N ==> fits_i64(#[trigger] self@[i] * other@[i]),
        ensures
            r@.len() == N,
            forall|i: int| 0 <= i < N ==> #[trigger] r@[i] == self@[i] * other@[i],
    {
        proof {
            use_type_invariant(self);
            use_type_invariant(other);
        }
        let mut out: Vec<i64> = Vec::new();
        let mut i: usize = 0;
        while i < N
            invariant
                self@.len() == N,
                other@.len() == N,
                i <= N,
                out@.len() == i,
                forall|j: int| 0 <= j < N ==> fits_i64(#[trigger] self@[j] * other@[j]),
                forall|j: int| 0 <= j < i ==> #[trigger] out@[j] == self@[j] * other@[j],
            decreases N - i,
        {
            assert(fits_i64(self@[i as int] * other@[i as int]));
            out.push(self.inner[i] * other.inner[i]);
            i = i + 1;
        }
        HeapVector { inner: out }
    }

    /// The dot product.
    pub fn dot(&self, other: &HeapVector<i64, N>) -> (r: i64)
        requires
            dot_fits(self@, other@),
        ensures
            self@.len() == N,
            r == dot_upto(self@, other@, N as int),
    {
        proof {
            use_type_invariant(self);
            use_type_invariant(other);
        }
        let mut sum: i64 = 0;
        let mut i: usize = 0;
        while i < N
            invariant
                self@.len() == N,
                other@.len() == N,
                i <= N,
                dot_fits(self@, other@),
                sum == dot_upto(self@, other@, i as int),
            decreases N - i,
        {
            assert(fits_i64(self@[i as int] * other@[i as int]));
            assert(fits_i64(dot_upto(self@, other@, i + 1)));
            let s = self.inner[i] * other.inner[i];
            sum = sum + s;
            i = i + 1;
        }
        sum
    }

    /// The outer product: the matrix whose `(i, j)` element is `self[i] * other[j]`.
    pub fn product_to_matrix<const M: usize>(&self, other: &HeapVector<i64, M>) -> (r: HeapMatrix<
        i64,
        N,
        M,
    >)
        requires
            forall|i: int, j: int|
                0 <= i < N && 0 <= j < M ==> fits_i64(#[trigger] self@[i] * #[trigger] other@[j]),
        ensures
            r@.len() == N,
            forall|i: int| 0 <= i < N ==> (#[trigger] r@[i]).len() == M,
            forall|i: int, j: int|
                0 <= i < N && 0 <= j < M ==> #[trigger] r@[i][j] == self@[i] * other@[j],
    {
        proof {
            use_type_invariant(self);
            use_type_invariant(other);
        }
        let mut rows: Vec<HeapVector<i64, M>> = Vec::new();
        let mut i: usize = 0;
        while i < N
            invariant
                self@.len() == N,
                other@.len() == M,
                i <= N,
                rows@.len() == i,
                forall|a: int, b: int|
                    0 <= a < N && 0 <= b < M ==> fits_i64(#[trigger] self@[a] * #[trigger] other@[b]),
                forall|a: int| 0 <= a < i ==> (#[trigger] rows@[a])@.len() == M,
                forall|a: int, b: int|
                    0 <= a < i && 0 <= b < M ==> #[trigger] rows@[a]@[b] == self@[a] * other@[b],
            decreases N - i,
        {
            let mut row: Vec<i64> = Vec::new();
            let mut j: usize = 0;
            while j < M
                invariant
                    self@.len() == N,
                    other@.len() == M,
                    i < N,
                    j <= M,
                    row@.len() == j,
                    forall|a: int, b: int|
                        0 <= a < N && 0 <= b < M ==> fits_i64(
                            #[trigger] self@[a] * #[trigger] other@[b],
                        ),
                    forall|b: int| 0 <= b < j ==> #[trigger] row@[b] == self@[i as int] * other@[b],
                decreases M - j,
            {
                assert(fits_i64(self@[i as int] * other@[j as int]));
                row.push(self.inner[i] * other.inner[j]);
                j = j + 1;
            }
            rows.push(HeapVector { inner: row });
            i = i + 1;
        }
        let r = HeapMatrix { inner: rows };
        r
    }

    /// The sum of the squares of the elements.
    pub fn squared_size(&self) -> (r: i64)
        requires
            dot_fits(self@, self@),
        ensures
            self@.len() == N,
            r == dot_upto(self@, self@, N as int),
    {
        self.dot(self)
    }

    /// The sum of the elements.
    pub fn sum(&self) -> (r: i64)
        requires
            sum_fits(self@),
        ensures
            self@.len() == N,
            r == sum_upto(self@, N as int),
    {
        proof {
            use_type_invariant(self);
        }
        let mut res: i64 = 0;
        let mut i: usize = 0;
        while i < N
            invariant
                self@.len() == N,
                i <= N,
                sum_fits(self@),
                res == sum_upto(self@, i as int),
            decreases N - i,
        {
            assert(fits_i64(sum_upto(self@, i + 1)));
            res = res + self.inner[i];
            i = i + 1;
        }
        res
    }
}

/// Equivalent to `[[T; N]; M]`.
#[derive(Debug, PartialEq, Eq)]
pub struct HeapMatrix<T, const M: usize, const N: usize> {
    inner: Vec<HeapVector<T, N>>,
}

impl<T, const M: usize, const N: usize> View for HeapMatrix<T, M, N> {
    type V = Seq<Seq<T>>;

    closed spec fn view(&self) -> Seq<Seq<T>> {
        self.inner@.map_values(|r: HeapVector<T, N>| r@)
    }
}

impl<T, const M: usize, const N: usize> HeapMatrix<T, M, N> {
    #[verifier::type_invariant]
    spec fn holds_m_rows(self) -> bool {
        &&& self.inner@.len() == M
        &&& forall|i: int| 0 <= i < M ==> (#[trigger] self.inner@[i])@.len() == N
    }

    /// Wraps `inner`, which must hold exactly `M` rows (each row holds `N`
    /// elements by construction).
    pub fn new(inner: Vec<HeapVector<T, N>>) -> (r: HeapMatrix<T, M, N>)
        requires
            inner@.len() == M,
            forall|i: int| 0 <= i < M ==> (#[trigger] inner@[i])@.len() == N,
        ensures
            r@ == inner@.map_values(|x: HeapVector<T, N>| x@),
    {
        HeapMatrix { inner }
    }

    /// Every row holds `N` elements.
    pub fn shape(&self) -> (r: usize)
        ensures
            r == M,
            self@.len() == M,
            forall|i: int| 0 <= i < M ==> (#[trigger] self@[i]).len() == N,
    {
        proof {
            use_type_invariant(self);
        }
        M
    }

    pub fn len(&self) -> (r: usize)
        ensures
            r == M,
            self@.len() == M,
    {
        proof {
            use_type_invariant(self);
        }
        M
    }

    pub fn is_empty(&self) -> (r: bool)
        ensures
            r == (M == 0),
            self@.len() == M,
    {
        proof {
            use_type_invariant(self);
        }
        M == 0
    }
}

impl<T: Clone, const M: usize, const N: usize> Clone for HeapMatrix<T, M, N> {
    fn clone(&self) -> (r: HeapMatrix<T, M, N>)
        ensures
            r@.len() == M,
            forall|i: int| 0 <= i < M ==> (#[trigger] r@[i]).len() == N,
            forall|i: int, j: int|
                0 <= i < M && 0 <= j < N ==> cloned::<T>(self@[i][j], #[trigger] r@[i][j]),
    {
        proof {
            use_type_invariant(self);
        }
        let mut rows: Vec<HeapVector<T, N>> = Vec::new();
        let mut i: usize = 0;
        while i < M
            invariant
                i <= M,
                self.inner@.len() == M,
                rows@.len() == i,
                forall|k: int| 0 <= k < i ==> (#[trigger] rows@[k])@.len() == N,
                forall|k: int, j: int|
                    0 <= k < i && 0 <= j < N ==> cloned::<T>(self.inner@[k]@[j], #[trigger] rows@[k]@[j]),
            decreases M - i,
        {
            let row = self.inner[i].clone();
            rows.push(row);
            i = i + 1;
        }
        HeapMatrix { inner: rows }
    }
}

impl<T, const N: usize> HeapMatrix<T, 1, N> {
    /// The one row of a one-row matrix.
    pub fn vector(&self) -> (r: &HeapVector<T, N>)
        ensures
            self@.len() == 1,
            r@ == self@[0],
    {
        proof {
            use_type_invariant(self);
        }
        &self.inner[0]
    }
}


/// A vector cloned, made into a one-row matrix and read back as that row is
/// the vector again, for any element type whose clone is a copy: `c` is a
/// clone of `v` (element by element, as `HeapVector::clone` gives it), `m`
/// the matrix that `matrix` makes of it, and `back` the row that `vector`
/// reads.
pub proof fn law_matrix_vector_round_trip_of_copies<T: Clone>(v: Seq<T>, c: Seq<T>, m: Seq<Seq<T>>, back: Seq<T>)
    requires
        forall|a: T, b: T| #[trigger] cloned::<T>(a, b) ==> a == b,
        c.len() == v.len(),
        forall|i: int| 0 <= i < v.len() ==> cloned::<T>(v[i], #[trigger] c[i]),
        m == seq![c],
        back == m[0],
    ensures
        back == v,
{
    assert forall|i: int| 0 <= i < v.len() implies #[trigger] c[i] == v[i] by {
        assert(cloned::<T>(v[i], c[i]));
    }
    assert(back =~= v);
}

/// Whatever the element type, the round trip through a one-row matrix gives
/// back, element by element, a clone of the vector.
pub proof fn law_matrix_vector_round_trip_clones<T: Clone>(v: Seq<T>, c: Seq<T>, m: Seq<Seq<T>>, back: Seq<T>)
    requires
        c.len() == v.len(),
        forall|i: int| 0 <= i < v.len() ==> cloned::<T>(v[i], #[trigger] c[i]),
        m == seq![c],
        back == m[0],
    ensures
        back.len() == v.len(),
        forall|i: int| 0 <= i < v.len() ==> cloned::<T>(v[i], #[trigger] back[i]),
{
}

/// For `i64`, whose clone is a copy, the round trip through a one-row
/// matrix gives the vector back.
pub proof fn law_matrix_vector_round_trip(v: Seq<i64>, c: Seq<i64>, m: Seq<Seq<i64>>, back: Seq<i64>)
    requires
        c.len() == v.len(),
        forall|i: int| 0 <= i < v.len() ==> cloned::<i64>(v[i], #[trigger] c[i]),
        m == seq![c],
        back == m[0],
    ensures
        back == v,
{
    assert forall|a: i64, b: i64| #[trigger] cloned::<i64>(a, b) implies a == b by {}
    law_matrix_vector_round_trip_of_copies(v, c, m, back);
}

/// Every element of `a` plus `c` fits in an `i64`.
pub open spec fn add_scalar_fits(a: Seq<i64>, c: int) -> bool {
    forall|i: int| 0 <= i < a.len() ==> fits_i64(#[trigger] a[i] + c)
}

/// Every element of `a` times `c` fits in an `i64`.
pub open spec fn mul_scalar_fits(a: Seq<i64>, c: int) -> bool {
    forall|i: int| 0 <= i < a.len() ==> fits_i64(#[trigger] a[i] * c)
}

/// Every element of `a` plus the matching element of `b` times `sign` fits in an `i64`.
pub open spec fn add_vector_fits(a: Seq<i64>, b: Seq<i64>, sign: int) -> bool {
    forall|i: int| 0 <= i < a.len() ==> fits_i64(#[trigger] a[i] + sign * b[i])
}

/// `c` can divide every element of `a` without overflow.
pub open spec fn div_scalar_ok(a: Seq<i64>, c: i64) -> bool {
    c != 0 && (c == -1 ==> forall|i: int| 0 <= i < a.len() ==> #[trigger] a[i] != i64::MIN)
}

impl<const N: usize> HeapVector<i64, N> {
    /// Adds `c` to each element.
    fn map_add(self, c: i64) -> (r: HeapVector<i64, N>)
        requires
            add_scalar_fits(self@, c as int),
        ensures
            r@.len() == N,
            forall|i: int| 0 <= i < N ==> #[trigger] r@[i] == self@[i] + c,
    {
        proof {
            use_type_invariant(&self);
        }
        let HeapVector { inner } = self;
        let ghost old_v = inner@;
        let mut inner = inner;
        let mut i: usize = 0;
        while i < N
            invariant
                old_v.len() == N,
                inner@.len() == N,
                i <= N,
                add_scalar_fits(old_v, c as int),
                forall|j: int| i <= j < N ==> #[trigger] inner@[j] == old_v[j],
                forall|j: int| 0 <= j < i ==> #[trigger] inner@[j] == old_v[j] + c,
            decreases N - i,
        {
            assert(fits_i64(old_v[i as int] + c));
            let x = inner[i] + c;
            inner.set(i, x);
            i = i + 1;
        }
        HeapVector { inner }
    }

    /// Multiplies each element by `c`.
    fn map_mul(self, c: i64) -> (r: HeapVector<i64, N>)
        requires
            mul_scalar_fits(self@, c as int),
        ensures
            r@.len() == N,
            forall|i: int| 0 <= i < N ==> #[trigger] r@[i] == self@[i] * c,
    {
        proof {
            use_type_invariant(&self);
        }
        let HeapVector { inner } = self;
        let ghost old_v = inner@;
        let mut inner = inner;
        let mut i: usize = 0;
        while i < N
            invariant
                old_v.len() == N,
                inner@.len() == N,
                i <= N,
                mul_scalar_fits(old_v, c as int),
                forall|j: int| i <= j < N ==> #[trigger] inner@[j] == old_v[j],
                forall|j: int| 0 <= j < i ==> #[trigger] inner@[j] == old_v[j] * c,
            decreases N - i,
        {
            assert(fits_i64(old_v[i as int] * c));
            let x = inner[i] * c;
            inner.set(i, x);
            i = i + 1;
        }
        HeapVector { inner }
    }

    /// Divides each element by `c`, rounding towards zero.
    fn map_div(self, c: i64) -> (r: HeapVector<i64, N>)
        requires
            div_scalar_ok(self@, c),
        ensures
            r@.len() == N,
            forall|i: int| 0 <= i < N ==> #[trigger] r@[i] == trunc_div(self@[i] as int, c as int),
    {
        proof {
            use_type_invariant(&self);
        }
        let HeapVector { inner } = self;
        let ghost old_v = inner@;
        let mut inner = inner;
        let mut i: usize = 0;
        while i < N
            invariant
                old_v.len() == N,
                inner@.len() == N,
                i <= N,
                div_scalar_ok(old_v, c),
                forall|j: int| i <= j < N ==> #[trigger] inner@[j] == old_v[j],
                forall|j: int|
                    0 <= j < i ==> #[trigger] inner@[j] == trunc_div(old_v[j] as int, c as int),
            decreases N - i,
        {
            assert(c == -1 ==> old_v[i as int] != i64::MIN);
            let x = div_toward_zero(inner[i], c);
            inner.set(i, x);
            i = i + 1;
        }
        HeapVector { inner }
    }

    /// Adds `sign` times `other` to this vector, element by element.
    fn zip_add(self, other: &HeapVector<i64, N>, sign: i64) -> (r: HeapVector<i64, N>)
        requires
            sign == 1 || sign == -1,
            add_vector_fits(self@, other@, sign as int),
        ensures
            r@.len() == N,
            forall|i: int| 0 <= i < N ==> #[trigger] r@[i] == self@[i] + sign * other@[i],
    {
        proof {
            use_type_invariant(&self);
            use_type_invariant(other);
        }
        let HeapVector { inner } = self;
        let ghost old_v = inner@;
        let mut inner = inner;
        let mut i: usize = 0;
        while i < N
            invariant
                old_v.len() == N,
                inner@.len() == N,
                other@.len() == N,
                sign == 1 || sign == -1,
                i <= N,
                add_vector_fits(old_v, other@, sign as int),
                forall|j: int| i <= j < N ==> #[trigger] inner@[j] == old_v[j],
                forall|j: int| 0 <= j < i ==> #[trigger] inner@[j] == old_v[j] + sign * other@[j],
            decreases N - i,
        {
            assert(fits_i64(old_v[i as int] + sign * other@[i as int]));
            let x = if sign == 1 {
                inner[i] + other.inner[i]
            } else {
                inner[i] - other.inner[i]
            };
            inner.set(i, x);
            i = i + 1;
        }
        HeapVector { inner }
    }

    /// Adds `rhs` to this vector, element by element.
    pub fn add_assign(&mut self, rhs: &HeapVector<i64, N>)
        requires
            add_vector_fits(old(self)@, rhs@, 1),
        ensures
            final(self)@.len() == N,
            forall|i: int| 0 <= i < N ==> #[trigger] final(self)@[i] == old(self)@[i] + rhs@[i],
    {
        let mut v = HeapVector::zeroed();
        std::mem::swap(self, &mut v);
        *self = v.zip_add(rhs, 1);
    }

    /// Divides each element by `rhs`, rounding towards zero.
    pub fn div_assign(&mut self, rhs: i64)
        requires
            div_scalar_ok(old(self)@, rhs),
        ensures
            final(self)@.len() == N,
            forall|i: int|
                0 <= i < N ==> #[trigger] final(self)@[i] == trunc_div(old(self)@[i] as int, rhs as int),
    {
        let mut v = HeapVector::zeroed();
        std::mem::swap(self, &mut v);
        *self = v.map_div(rhs);
    }
}

impl<'a, const N: usize> std::ops::Sub for &'a HeapVector<i64, N> {
    type Output = HeapVector<i64, N>;

    /// The element-wise difference.
    fn sub(self, rhs: &'a HeapVector<i64, N>) -> (r: HeapVector<i64, N>)
        ensures
            r@.len() == N,
            forall|i: int| 0 <= i < N ==> #[trigger] r@[i] == self@[i] - rhs@[i],
    {
        let z = HeapVector::<i64, N>::zeroed();
        proof {
            use_type_invariant(self);
            assert forall|i: int| 0 <= i < z@.len() implies fits_i64(
                #[trigger] z@[i] + 1 * self@[i],
            ) by {}
        }
        let copy = z.zip_add(self, 1);
        assert(forall|i: int| 0 <= i < N ==> #[trigger] copy@[i] == self@[i]);
        copy.zip_add(rhs, -1)
    }
}

impl<'a, const N: usize> vstd::std_specs::ops::SubSpecImpl for &'a HeapVector<i64, N> {
    open spec fn obeys_sub_spec() -> bool {
        false
    }

    open spec fn sub_req(self, rhs: &'a HeapVector<i64, N>) -> bool {
        add_vector_fits(self@, rhs@, -1)
    }

    open spec fn sub_spec(self, rhs: &'a HeapVector<i64, N>) -> HeapVector<i64, N> {
        vstd::pervasive::arbitrary()
    }
}

impl<const N: usize> std::ops::Add<i64> for HeapVector<i64, N> {
    type Output = HeapVector<i64, N>;

    /// Adds `rhs` to each element.
    fn add(self, rhs: i64) -> (r: HeapVector<i64, N>)
        ensures
            r@.len() == N,
            forall|i: int| 0 <= i < N ==> #[trigger] r@[i] == self@[i] + rhs,
    {
        self.map_add(rhs)
    }
}

impl<const N: usize> vstd::std_specs::ops::AddSpecImpl<i64> for HeapVector<i64, N> {
    open spec fn obeys_add_spec() -> bool {
        false
    }

    open spec fn add_req(self, rhs: i64) -> bool {
        add_scalar_fits(self@, rhs as int)
    }

    open spec fn add_spec(self, rhs: i64) -> HeapVector<i64, N> {
        vstd::pervasive::arbitrary()
    }
}

impl<'a, const N: usize> std::ops::Add<&'a HeapVector<i64, N>> for HeapVector<i64, N> {
    type Output = HeapVector<i64, N>;

    /// The element-wise sum.
    fn add(self, rhs: &'a HeapVector<i64, N>) -> (r: HeapVector<i64, N>)
        ensures
            r@.len() == N,
            forall|i: int| 0 <= i < N ==> #[trigger] r@[i] == self@[i] + rhs@[i],
    {
        self.zip_add(rhs, 1)
    }
}

impl<'a, const N: usize> vstd::std_specs::ops::AddSpecImpl<&'a HeapVector<i64, N>> for HeapVector<i64, N> {
    open spec fn obeys_add_spec() -> bool {
        false
    }

    open spec fn add_req(self, rhs: &'a HeapVector<i64, N>) -> bool {
        add_vector_fits(self@, rhs@, 1)
    }

    open spec fn add_spec(self, rhs: &'a HeapVector<i64, N>) -> HeapVector<i64, N> {
        vstd::pervasive::arbitrary()
    }
}

impl<const N: usize> std::ops::Sub<i64> for HeapVector<i64, N> {
    type Output = HeapVector<i64, N>;

    /// Subtracts `rhs` from each element.
    fn sub(self, rhs: i64) -> (r: HeapVector<i64, N>)
        ensures
            r@.len() == N,
            forall|i: int| 0 <= i < N ==> #[trigger] r@[i] == self@[i] - rhs,
    {
        proof {
            use_type_invariant(&self);
        }
        let z = HeapVector::<i64, N>::zeroed().map_add(rhs);
        self.zip_add(&z, -1)
    }
}

impl<const N: usize> vstd::std_specs::ops::SubSpecImpl<i64> for HeapVector<i64, N> {
    open spec fn obeys_sub_spec() -> bool {
        false
    }

    open spec fn sub_req(self, rhs: i64) -> bool {
        add_scalar_fits(self@, -rhs)
    }

    open spec fn sub_spec(self, rhs: i64) -> HeapVector<i64, N> {
        vstd::pervasive::arbitrary()
    }
}

impl<const N: usize> std::ops::Mul<i64> for HeapVector<i64, N> {
    type Output = HeapVector<i64, N>;

    /// Multiplies each element by `rhs`.
    fn mul(self, rhs: i64) -> (r: HeapVector<i64, N>)
        ensures
            r@.len() == N,
            forall|i: int| 0 <= i < N ==> #[trigger] r@[i] == self@[i] * rhs,
    {
        self.map_mul(rhs)
    }
}

impl<const N: usize> vstd::std_specs::ops::MulSpecImpl<i64> for HeapVector<i64, N> {
    open spec fn obeys_mul_spec() -> bool {
        false
    }

    open spec fn mul_req(self, rhs: i64) -> bool {
        mul_scalar_fits(self@, rhs as int)
    }

    open spec fn mul_spec(self, rhs: i64) -> HeapVector<i64, N> {
        vstd::pervasive::arbitrary()
    }
}

impl<const N: usize> std::ops::Div<i64> for HeapVector<i64, N> {
    type Output = HeapVector<i64, N>;

    /// Divides each element by `rhs`, rounding towards zero.
    fn div(self, rhs: i64) -> (r: HeapVector<i64, N>)
        ensures
            r@.len() == N,
            forall|i: int| 0 <= i < N ==> #[trigger] r@[i] == trunc_div(self@[i] as int, rhs as int),
    {
        self.map_div(rhs)
    }
}

impl<const N: usize> vstd::std_specs::ops::DivSpecImpl<i64> for HeapVector<i64, N> {
    open spec fn obeys_div_spec() -> bool {
        false
    }

    open spec fn div_req(self, rhs: i64) -> bool {
        div_scalar_ok(self@, rhs)
    }

    open spec fn div_spec(self, rhs: i64) -> HeapVector<i64, N> {
        vstd::pervasive::arbitrary()
    }
}

impl<const M: usize, const N: usize> HeapMatrix<i64, M, N> {
    /// The matrix of zeroes.
    pub fn zeroed() -> (r: HeapMatrix<i64, M, N>)
        ensures
            r@.len() == M,
            forall|i: int| 0 <= i < M ==> (#[trigger] r@[i]) == Seq::new(N as nat, |j: int| 0i64),
    {
        let mut inner: Vec<HeapVector<i64, N>> = Vec::new();
        let mut i: usize = 0;
        while i < M
            invariant
                i <= M,
                inner@.len() == i,
                forall|k: int| 0 <= k < i ==> (#[trigger] inner@[k])@ == Seq::new(N as nat, |j: int| 0i64),
            decreases M - i,
        {
            inner.push(HeapVector::zeroed());
            i = i + 1;
        }
        let r = HeapMatrix { inner };
        r
    }

    /// Applies `op` (0: add, 1: multiply, 2: divide, 3: subtract) with the
    /// scalar `c` to every element.
    fn map_rows(self, op: u8, c: i64) -> (r: HeapMatrix<i64, M, N>)
        requires
            op <= 3,
            op == 3 ==> forall|i: int| 0 <= i < M ==> add_scalar_fits(#[trigger] self@[i], -c),
            op == 0 ==> forall|i: int| 0 <= i < M ==> add_scalar_fits(#[trigger] self@[i], c as int),
            op == 1 ==> forall|i: int| 0 <= i < M ==> mul_scalar_fits(#[trigger] self@[i], c as int),
            op == 2 ==> forall|i: int| 0 <= i < M ==> div_scalar_ok(#[trigger] self@[i], c),
        ensures
            r@.len() == M,
            forall|i: int| 0 <= i < M ==> (#[trigger] r@[i]).len() == N,
            forall|i: int, j: int|
                0 <= i < M && 0 <= j < N ==> #[trigger] r@[i][j] == if op == 0 {
                    self@[i][j] + c
                } else if op == 1 {
                    self@[i][j] * c
                } else if op == 2 {
                    trunc_div(self@[i][j] as int, c as int)
                } else {
                    self@[i][j] - c
                },
    {
        proof {
            use_type_invariant(&self);
        }
        let ghost old_m = self@;
        let HeapMatrix { inner } = self;
        assert(forall|i: int| 0 <= i < M ==> #[trigger] old_m[i] == inner@[i]@);
        let mut rest = inner;
        let mut rev: Vec<HeapVector<i64, N>> = Vec::new();
        let mut k: usize = 0;
        while k < M
            invariant
                old_m.len() == M,
                k <= M,
                rest@.len() == M - k,
                forall|j: int| 0 <= j < M - k ==> (#[trigger] rest@[j])@ == old_m[j],
                rev@.len() == k,
                forall|j: int| 0 <= j < k ==> (#[trigger] rev@[j])@ == old_m[M - 1 - j],
            decreases M - k,
        {
            let row = rest.pop().unwrap();
            rev.push(row);
            k = k + 1;
        }
        let mut out: Vec<HeapVector<i64, N>> = Vec::new();
        let mut i: usize = 0;
        while i < M
            invariant
                old_m.len() == M,
                op <= 3,
                i <= M,
                rev@.len() == M - i,
                forall|j: int| 0 <= j < M - i ==> (#[trigger] rev@[j])@ == old_m[M - 1 - j],
                forall|j: int| 0 <= j < M ==> (#[trigger] old_m[j]).len() == N,
                op == 0 ==> forall|j: int| 0 <= j < M ==> add_scalar_fits(#[trigger] old_m[j], c as int),
                op == 1 ==> forall|j: int| 0 <= j < M ==> mul_scalar_fits(#[trigger] old_m[j], c as int),
                op == 2 ==> forall|j: int| 0 <= j < M ==> div_scalar_ok(#[trigger] old_m[j], c),
                op == 3 ==> forall|j: int| 0 <= j < M ==> add_scalar_fits(#[trigger] old_m[j], -c),
                out@.len() == i,
                forall|a: int| 0 <= a < i ==> (#[trigger] out@[a])@.len() == N,
                forall|a: int, b: int|
                    0 <= a < i && 0 <= b < N ==> #[trigger] out@[a]@[b] == if op == 0 {
                        old_m[a][b] + c
                    } else if op == 1 {
                        old_m[a][b] * c
                    } else if op == 2 {
                        trunc_div(old_m[a][b] as int, c as int)
                    } else {
                        old_m[a][b] - c
                    },
            decreases M - i,
        {
            let row = rev.pop().unwrap();
            assert(row@ == old_m[i as int]);
            let new_row = if op == 0 {
                row.map_add(c)
            } else if op == 1 {
                row.map_mul(c)
            } else if op == 2 {
                row.map_div(c)
            } else {
                row - c
            };
            out.push(new_row);
            i = i + 1;
        }
        HeapMatrix { inner: out }
    }

    /// Subtracts `rhs` from this matrix, element by element.
    pub fn sub_assign(&mut self, rhs: &HeapMatrix<i64, M, N>)
        requires
            forall|i: int| 0 <= i < M ==> add_vector_fits(#[trigger] old(self)@[i], rhs@[i], -1),
        ensures
            final(self)@.len() == M,
            forall|i: int| 0 <= i < M ==> (#[trigger] final(self)@[i]).len() == N,
            forall|i: int, j: int|
                0 <= i < M && 0 <= j < N ==> #[trigger] final(self)@[i][j] == old(self)@[i][j]
                    - rhs@[i][j],
    {
        proof {
            use_type_invariant(&*self);
            use_type_invariant(rhs);
        }
        let mut taken = HeapMatrix::zeroed();
        std::mem::swap(self, &mut taken);
        let ghost old_m = taken@;
        let HeapMatrix { inner } = taken;
        assert(forall|i: int| 0 <= i < M ==> #[trigger] old_m[i] == inner@[i]@);
        let mut rest = inner;
        let mut rev: Vec<HeapVector<i64, N>> = Vec::new();
        let mut k: usize = 0;
        while k < M
            invariant
                old_m.len() == M,
                k <= M,
                rest@.len() == M - k,
                forall|j: int| 0 <= j < M - k ==> (#[trigger] rest@[j])@ == old_m[j],
                rev@.len() == k,
                forall|j: int| 0 <= j < k ==> (#[trigger] rev@[j])@ == old_m[M - 1 - j],
            decreases M - k,
        {
            let row = rest.pop().unwrap();
            rev.push(row);
            k = k + 1;
        }
        let mut out: Vec<HeapVector<i64, N>> = Vec::new();
        let mut i: usize = 0;
        while i < M
            invariant
                old_m.len() == M,
                rhs@.len() == M,
                i <= M,
                rev@.len() == M - i,
                forall|j: int| 0 <= j < M - i ==> (#[trigger] rev@[j])@ == old_m[M - 1 - j],
                forall|j: int| 0 <= j < M ==> (#[trigger] old_m[j]).len() == N,
                forall|j: int| 0 <= j < M ==> add_vector_fits(#[trigger] old_m[j], rhs@[j], -1),
                out@.len() == i,
                forall|a: int| 0 <= a < i ==> (#[trigger] out@[a])@.len() == N,
                forall|a: int, b: int|
                    0 <= a < i && 0 <= b < N ==> #[trigger] out@[a]@[b] == old_m[a][b] - rhs@[a][b],
            decreases M - i,
        {
            let row = rev.pop().unwrap();
            assert(row@ == old_m[i as int]);
            let r_row = rhs.row(i);
            let new_row = row.zip_add(r_row, -1);
            out.push(new_row);
            i = i + 1;
        }
        *self = HeapMatrix { inner: out };
    }

    /// Divides each element by `rhs`, rounding towards zero.
    pub fn div_assign(&mut self, rhs: i64)
        requires
            forall|i: int| 0 <= i < M ==> div_scalar_ok(#[trigger] old(self)@[i], rhs),
        ensures
            final(self)@.len() == M,
            forall|i: int| 0 <= i < M ==> (#[trigger] final(self)@[i]).len() == N,
            forall|i: int, j: int|
                0 <= i < M && 0 <= j < N ==> #[trigger] final(self)@[i][j] == trunc_div(
                    old(self)@[i][j] as int,
                    rhs as int,
                ),
    {
        let mut taken = HeapMatrix::zeroed();
        std::mem::swap(self, &mut taken);
        *self = taken.map_rows(2, rhs);
    }
}

impl<T, const M: usize, const N: usize> HeapMatrix<T, M, N> {
    /// Row `i`.
    fn row(&self, i: usize) -> (r: &HeapVector<T, N>)
        requires
            i < self@.len(),
        ensures
            r@ == self@[i as int],
            r@.len() == N,
    {
        proof {
            use_type_invariant(self);
        }
        &self.inner[i]
    }
}

impl<const M: usize, const N: usize> HeapMatrix<i64, N, M> {
    /// The product of the transpose of this matrix with `rhs`: element `j` is
    /// the dot product of column `j` with `rhs`.
    pub fn mul_transposed(&self, rhs: &HeapVector<i64, N>) -> (r: HeapVector<i64, M>)
        requires
            forall|j: int| 0 <= j < M ==> dot_fits(#[trigger] column(self@, j), rhs@),
        ensures
            r@.len() == M,
            forall|j: int|
                0 <= j < M ==> #[trigger] r@[j] == dot_upto(column(self@, j), rhs@, N as int),
    {
        proof {
            use_type_invariant(self);
            use_type_invariant(rhs);
        }
        let mut out: Vec<i64> = Vec::new();
        let mut j: usize = 0;
        while j < M
            invariant
                self@.len() == N,
                rhs@.len() == N,
                forall|k: int| 0 <= k < N ==> (#[trigger] self@[k]).len() == M,
                forall|a: int| 0 <= a < M ==> dot_fits(#[trigger] column(self@, a), rhs@),
                j <= M,
                out@.len() == j,
                forall|a: int|
                    0 <= a < j ==> #[trigger] out@[a] == dot_upto(column(self@, a), rhs@, N as int),
            decreases M - j,
        {
            let ghost col = column(self@, j as int);
            assert(dot_fits(col, rhs@));
            let mut sum: i64 = 0;
            let mut k: usize = 0;
            while k < N
                invariant
                    self@.len() == N,
                    rhs@.len() == N,
                    forall|b: int| 0 <= b < N ==> (#[trigger] self@[b]).len() == M,
                    j < M,
                    col == column(self@, j as int),
                    dot_fits(col, rhs@),
                    k <= N,
                    sum == dot_upto(col, rhs@, k as int),
                decreases N - k,
            {
                let row = self.row(k);
                assert(col[k as int] == self@[k as int][j as int]);
                assert(fits_i64(col[k as int] * rhs@[k as int]));
                assert(fits_i64(dot_upto(col, rhs@, k + 1)));
                sum = sum + row.inner[j] * rhs.inner[k];
                k = k + 1;
            }
            out.push(sum);
            j = j + 1;
        }
        HeapVector { inner: out }
    }
}

impl<const M: usize, const N: usize> std::ops::Div<i64> for HeapMatrix<i64, M, N> {
    type Output = HeapMatrix<i64, M, N>;

    /// Divides each element by `rhs`, rounding towards zero.
    fn div(self, rhs: i64) -> (r: HeapMatrix<i64, M, N>)
        ensures
            r@.len() == M,
            forall|i: int| 0 <= i < M ==> (#[trigger] r@[i]).len() == N,
            forall|i: int, j: int|
                0 <= i < M && 0 <= j < N ==> #[trigger] r@[i][j] == trunc_div(
                    self@[i][j] as int,
                    rhs as int,
                ),
    {
        self.map_rows(2, rhs)
    }
}

impl<const M: usize, const N: usize> vstd::std_specs::ops::DivSpecImpl<i64> for HeapMatrix<i64, M, N> {
    open spec fn obeys_div_spec() -> bool {
        false
    }

    open spec fn div_req(self, rhs: i64) -> bool {
        forall|i: int| 0 <= i < M ==> div_scalar_ok(#[trigger] self@[i], rhs)
    }

    open spec fn div_spec(self, rhs: i64) -> HeapMatrix<i64, M, N> {
        vstd::pervasive::arbitrary()
    }
}

impl<const M: usize, const N: usize> std::ops::Sub<i64> for HeapMatrix<i64, M, N> {
    type Output = HeapMatrix<i64, M, N>;

    /// Subtracts `rhs` from each element.
    fn sub(self, rhs: i64) -> (r: HeapMatrix<i64, M, N>)
        ensures
            r@.len() == M,
            forall|i: int| 0 <= i < M ==> (#[trigger] r@[i]).len() == N,
            forall|i: int, j: int| 0 <= i < M && 0 <= j < N ==> #[trigger] r@[i][j] == self@[i][j] - rhs,
    {
        self.map_rows(3, rhs)
    }
}

impl<const M: usize, const N: usize> vstd::std_specs::ops::SubSpecImpl<i64> for HeapMatrix<i64, M, N> {
    open spec fn obeys_sub_spec() -> bool {
        false
    }

    open spec fn sub_req(self, rhs: i64) -> bool {
        forall|i: int| 0 <= i < M ==> add_scalar_fits(#[trigger] self@[i], -rhs)
    }

    open spec fn sub_spec(self, rhs: i64) -> HeapMatrix<i64, M, N> {
        vstd::pervasive::arbitrary()
    }
}

impl<const M: usize, const N: usize> std::ops::Mul<i64> for HeapMatrix<i64, M, N> {
    type Output = HeapMatrix<i64, M, N>;

    /// Multiplies each element by `rhs`.
    fn mul(self, rhs: i64) -> (r: HeapMatrix<i64, M, N>)
        ensures
            r@.len() == M,
            forall|i: int| 0 <= i < M ==> (#[trigger] r@[i]).len() == N,
            forall|i: int, j: int| 0 <= i < M && 0 <= j < N ==> #[trigger] r@[i][j] == self@[i][j] * rhs,
    {
        self.map_rows(1, rhs)
    }
}

impl<const M: usize, const N: usize> vstd::std_specs::ops::MulSpecImpl<i64> for HeapMatrix<i64, M, N> {
    open spec fn obeys_mul_spec() -> bool {
        false
    }

    open spec fn mul_req(self, rhs: i64) -> bool {
        forall|i: int| 0 <= i < M ==> mul_scalar_fits(#[trigger] self@[i], rhs as int)
    }

    open spec fn mul_spec(self, rhs: i64) -> HeapMatrix<i64, M, N> {
        vstd::pervasive::arbitrary()
    }
}

impl<const M: usize, const N: usize> HeapMatrix<i64, M, N> {
    fn mul_vector(&self, rhs: &HeapVector<i64, N>) -> (r: HeapVector<i64, M>)
        requires
            forall|i: int| 0 <= i < M ==> dot_fits(#[trigger] self@[i], rhs@),
        ensures
            r@.len() == M,
            forall|i: int| 0 <= i < M ==> #[trigger] r@[i] == dot_upto(self@[i], rhs@, N as int),
    {
        proof {
            use_type_invariant(self);
        }
        let mut out: Vec<i64> = Vec::new();
        let mut i: usize = 0;
        while i < M
            invariant
                self@.len() == M,
                forall|k: int| 0 <= k < M ==> dot_fits(#[trigger] self@[k], rhs@),
                i <= M,
                out@.len() == i,
                forall|k: int| 0 <= k < i ==> #[trigger] out@[k] == dot_upto(self@[k], rhs@, N as int),
            decreases M - i,
        {
            let row = self.row(i);
            let d = row.dot(rhs);
            out.push(d);
            i = i + 1;
        }
        HeapVector { inner: out }
    }
}

impl<'a, 'b, const M: usize, const N: usize> std::ops::Mul<&'b HeapVector<i64, N>> for &'a HeapMatrix<i64, M, N> {
    type Output = HeapVector<i64, M>;

    /// The matrix-vector product: element `i` is the dot product of row `i` with `rhs`.
    fn mul(self, rhs: &'b HeapVector<i64, N>) -> (r: HeapVector<i64, M>)
        ensures
            r@.len() == M,
            forall|i: int| 0 <= i < M ==> #[trigger] r@[i] == dot_upto(self@[i], rhs@, N as int),
    {
        self.mul_vector(rhs)
    }
}

impl<'a, 'b, const M: usize, const N: usize> vstd::std_specs::ops::MulSpecImpl<&'b HeapVector<i64, N>> for &'a HeapMatrix<i64, M, N> {
    open spec fn obeys_mul_spec() -> bool {
        false
    }

    open spec fn mul_req(self, rhs: &'b HeapVector<i64, N>) -> bool {
        forall|i: int| 0 <= i < M ==> dot_fits(#[trigger] self@[i], rhs@)
    }

    open spec fn mul_spec(self, rhs: &'b HeapVector<i64, N>) -> HeapVector<i64, M> {
        vstd::pervasive::arbitrary()
    }
}

impl<'a, const N: usize> std::ops::Sub<&'a HeapVector<i64, N>> for HeapVector<i64, N> {
    type Output = HeapVector<i64, N>;

    /// The element-wise difference.
    fn sub(self, rhs: &'a HeapVector<i64, N>) -> (r: HeapVector<i64, N>)
        ensures
            r@.len() == N,
            forall|i: int| 0 <= i < N ==> #[trigger] r@[i] == self@[i] - rhs@[i],
    {
        self.zip_add(rhs, -1)
    }
}

impl<'a, const N: usize> vstd::std_specs::ops::SubSpecImpl<&'a HeapVector<i64, N>> for HeapVector<i64, N> {
    open spec fn obeys_sub_spec() -> bool {
        false
    }

    open spec fn sub_req(self, rhs: &'a HeapVector<i64, N>) -> bool {
        add_vector_fits(self@, rhs@, -1)
    }

    open spec fn sub_spec(self, rhs: &'a HeapVector<i64, N>) -> HeapVector<i64, N> {
        vstd::pervasive::arbitrary()
    }
}

impl<'b, const M: usize, const N: usize> std::ops::Mul<&'b HeapVector<i64, N>> for HeapMatrix<i64, M, N> {
    type Output = HeapVector<i64, M>;

    /// The matrix-vector product: element `i` is the dot product of row `i` with `rhs`.
    fn mul(self, rhs: &'b HeapVector<i64, N>) -> (r: HeapVector<i64, M>)
        ensures
            r@.len() == M,
            forall|i: int| 0 <= i < M ==> #[trigger] r@[i] == dot_upto(self@[i], rhs@, N as int),
    {
        self.mul_vector(rhs)
    }
}

impl<'b, const M: usize, const N: usize> vstd::std_specs::ops::MulSpecImpl<&'b HeapVector<i64, N>> for HeapMatrix<i64, M, N> {
    open spec fn obeys_mul_spec() -> bool {
        false
    }

    open spec fn mul_req(self, rhs: &'b HeapVector<i64, N>) -> bool {
        forall|i: int| 0 <= i < M ==> dot_fits(#[trigger] self@[i], rhs@)
    }

    open spec fn mul_spec(self, rhs: &'b HeapVector<i64, N>) -> HeapVector<i64, M> {
        vstd::pervasive::arbitrary()
    }
}

fn array_to_vec<const N: usize>(arr: &[i64; N]) -> (v: Vec<i64>)
    ensures
        v@ == arr@,
{
    let mut v: Vec<i64> = Vec::new();
    let mut i: usize = 0;
    while i < N
        invariant
            arr@.len() == N,
            i <= N,
            v@ == arr@.subrange(0, i as int),
        decreases N - i,
    {
        v.push(arr[i]);
        i = i + 1;
        assert(v@ =~= arr@.subrange(0, i as int));
    }
    assert(v@ =~= arr@);
    v
}

impl<const N: usize> From<[i64; N]> for HeapVector<i64, N> {
    /// The vector holding the elements of `arr`.
    fn from(arr: [i64; N]) -> (r: HeapVector<i64, N>)
        ensures
            r@ == arr@,
    {
        HeapVector::new(array_to_vec(&arr))
    }
}

impl<const N: usize> vstd::std_specs::convert::FromSpecImpl<[i64; N]> for HeapVector<i64, N> {
    open spec fn obeys_from_spec() -> bool {
        false
    }

    open spec fn from_spec(v: [i64; N]) -> HeapVector<i64, N> {
        vstd::pervasive::arbitrary()
    }
}

impl<const M: usize, const N: usize> From<[[i64; N]; M]> for HeapMatrix<i64, M, N> {
    /// The matrix whose rows are the rows of `arr`.
    fn from(arr: [[i64; N]; M]) -> (r: HeapMatrix<i64, M, N>)
        ensures
            r@.len() == M,
            forall|i: int| 0 <= i < M ==> #[trigger] r@[i] == arr@[i]@,
    {
        let mut rows: Vec<HeapVector<i64, N>> = Vec::new();
        let mut i: usize = 0;
        while i < M
            invariant
                arr@.len() == M,
                i <= M,
                rows@.len() == i,
                forall|k: int| 0 <= k < i ==> (#[trigger] rows@[k])@ == arr@[k]@,
            decreases M - i,
        {
            let row = array_to_vec(&arr[i]);
            rows.push(HeapVector::new(row));
            i = i + 1;
        }
        let r = HeapMatrix::new(rows);
        r
    }
}

impl<const M: usize, const N: usize> vstd::std_specs::convert::FromSpecImpl<[[i64; N]; M]> for HeapMatrix<i64, M, N> {
    open spec fn obeys_from_spec() -> bool {
        false
    }

    open spec fn from_spec(v: [[i64; N]; M]) -> HeapMatrix<i64, M, N> {
        vstd::pervasive::arbitrary()
    }
}
} // verus!
