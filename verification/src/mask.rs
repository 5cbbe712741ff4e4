use vstd::prelude::*;

verus! {

/// The causal mask of an attention head: a square boolean matrix that marks,
/// for every query position `i`, the key positions `j` that the query may not
/// attend to because they lie strictly in its future (`j > i`).
///
/// It is derived from the lower-triangular-with-diagonal pattern of ones and
/// then inverted, so a position is masked exactly where that pattern is clear.
pub struct CausalMask {
    rows: Vec<Vec<bool>>,
}

impl CausalMask {
    /// The context size (block size) the mask was built for.
    pub closed spec fn spec_size(&self) -> nat {
        self.rows@.len()
    }

    /// The length of row `i`.
    pub closed spec fn spec_row_len(&self, i: int) -> nat {
        self.rows@[i]@.len()
    }

    /// Whether position `(i, j)` is masked (excluded from attention).
    pub closed spec fn spec_masked(&self, i: int, j: int) -> bool {
        self.rows@[i]@[j]
    }

    /// Well-formed: the matrix is square, and position `(i, j)` is masked
    /// exactly when key position `j` lies strictly after query position `i`.
    pub open spec fn wf(&self) -> bool {
        &&& forall|i: int| 0 <= i < self.spec_size() ==> #[trigger] self.spec_row_len(i)
            == self.spec_size()
        &&& forall|i: int, j: int|
            0 <= i < self.spec_size() && 0 <= j < self.spec_size() ==> (#[trigger] self
                .spec_masked(i, j) <==> j > i)
    }

    /// Build the mask for a context of `size` positions: the inverse of the
    /// lower-triangular-with-diagonal pattern of ones.
    pub fn new(size: usize) -> (m: CausalMask)
        ensures
            m.spec_size() == size,
            m.wf(),
    {
        let tril = lower_triangular(size);
        let rows = invert(&tril);
        CausalMask { rows }
    }

    /// The context size the mask was built for.
    pub fn size(&self) -> (n: usize)
        ensures
            n == self.spec_size(),
    {
        self.rows.len()
    }

    /// Whether query position `i` is forbidden to attend to key position `j`.
    pub fn is_masked(&self, i: usize, j: usize) -> (r: bool)
        requires
            self.wf(),
            i < self.spec_size(),
            j < self.spec_size(),
        ensures
            r == self.spec_masked(i as int, j as int),
            r <==> j > i,
    {
        proof {
            assert(self.spec_row_len(i as int) == self.spec_size());
        }
        self.rows[i][j]
    }
}

/// The lower-triangular pattern with the diagonal included: entry `(i, j)` is
/// set exactly when `j <= i`.
fn lower_triangular(n: usize) -> (m: Vec<Vec<bool>>)
    ensures
        m@.len() == n,
        forall|i: int| 0 <= i < n ==> #[trigger] m@[i]@.len() == n,
        forall|i: int, j: int| 0 <= i < n && 0 <= j < n ==> (#[trigger] m@[i]@[j] <==> j <= i),
{
    let mut m: Vec<Vec<bool>> = Vec::new();
    let mut i: usize = 0;
    while i < n
        invariant
            i <= n,
            m@.len() == i,
            forall|k: int| 0 <= k < i ==> #[trigger] m@[k]@.len() == n,
            forall|k: int, j: int| 0 <= k < i && 0 <= j < n ==> (#[trigger] m@[k]@[j] <==> j <= k),
        decreases n - i,
    {
        let mut row: Vec<bool> = Vec::new();
        let mut j: usize = 0;
        while j < n
            invariant
                j <= n,
                row@.len() == j,
                forall|l: int| 0 <= l < j ==> (#[trigger] row@[l] <==> l <= i),
            decreases n - j,
        {
            row.push(j <= i);
            j = j + 1;
        }
        m.push(row);
        i = i + 1;
    }
    m
}

/// Point-wise negation of a boolean matrix: the positions to be masked are
/// exactly those where the triangular pattern is clear.
fn invert(m: &Vec<Vec<bool>>) -> (r: Vec<Vec<bool>>)
    ensures
        r@.len() == m@.len(),
        forall|i: int| 0 <= i < m@.len() ==> #[trigger] r@[i]@.len() == m@[i]@.len(),
        forall|i: int, j: int|
            0 <= i < m@.len() && 0 <= j < m@[i]@.len() ==> (#[trigger] r@[i]@[j] <==> !m@[i]@[j]),
{
    let mut r: Vec<Vec<bool>> = Vec::new();
    let mut i: usize = 0;
    while i < m.len()
        invariant
            i <= m@.len(),
            r@.len() == i,
            forall|k: int| 0 <= k < i ==> #[trigger] r@[k]@.len() == m@[k]@.len(),
            forall|k: int, j: int|
                0 <= k < i && 0 <= j < m@[k]@.len() ==> (#[trigger] r@[k]@[j] <==> !m@[k]@[j]),
        decreases m@.len() - i,
    {
        let mut row: Vec<bool> = Vec::new();
        let mut j: usize = 0;
        while j < m[i].len()
            invariant
                0 <= i < m@.len(),
                j <= m@[i as int]@.len(),
                row@.len() == j,
                forall|l: int| 0 <= l < j ==> (#[trigger] row@[l] <==> !m@[i as int]@[l]),
            decreases m@[i as int]@.len() - j,
        {
            row.push(!m[i][j]);
            j = j + 1;
        }
        r.push(row);
        i = i + 1;
    }
    r
}

} // verus!
