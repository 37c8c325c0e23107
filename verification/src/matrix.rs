//! Substitution-score matrices.
//!
//! A [`Matrix`] is either `Builtin` (mirrors a table the backend owns
//! statically) or `Custom` (built from scratch and owned here). The score
//! table itself is held as plain rows of `i32`, so every read and write is
//! verified; the shim that talks to the native backend keeps its own handle
//! and only ever feeds it the same plain values.
//!
//! The backend convention is mirrored exactly: a table built from an
//! alphabet of `n` symbols has `size == n + 1` columns — the extra column
//! and row stand for the out-of-alphabet wildcard — and `length` rows
//! (`length == size` for square matrices, the row count of the profile for
//! position-specific ones). Cell indices passed to [`Matrix::get_value`]
//! and [`Matrix::set_value`] must lie in `[0, size - 2]`, the in-alphabet
//! range.

use vstd::pervasive::unreached;
use vstd::pervasive::VecAdditionalExecFns;
use vstd::prelude::*;
use vstd::slice::slice_to_vec;

verus! {

/// Errors of matrix construction and cell access.
#[derive(Debug, Clone, PartialEq)]
pub enum Error {
    /// A byte string handed to a constructor holds an interior `0` byte,
    /// which the backend's C strings cannot carry.
    InteriorNul { pos: usize },
    /// No built-in matrix of this name exists.
    MatrixNotFound { matrix_name: String },
    /// Looking up a built-in matrix failed.
    MatrixLookupFailed { matrix_name: String },
    /// Building a custom square matrix failed.
    MatrixCreationFailed { alphabet: Vec<u8>, match_score: i32, mismatch_score: i32 },
    /// Building a position-specific scoring matrix failed.
    PSSMCreationFailed { alphabet: Vec<u8>, values: Vec<i32>, n_rows: i32 },
    /// Reading a matrix from a file failed.
    FromFileFailed { filepath: String },
    /// A row or column index lies outside `[0, size - 2]`.
    InvalidIndex { row: i32, col: i32 },
}

/// Mathematical model of a matrix: an ownership tag and the score table.
pub ghost struct MatrixModel {
    /// Whether the table mirrors backend-static memory.
    pub builtin: bool,
    /// Number of columns, alphabet length plus the wildcard column.
    pub size: int,
    /// Number of rows.
    pub length: int,
    /// The scores, row by row; each row has `size` entries.
    pub rows: Seq<Seq<i32>>,
}

impl MatrixModel {
    /// The score stored at `(row, col)`.
    pub open spec fn cell(self, row: int, col: int) -> i32 {
        self.rows[row][col]
    }

    /// The model after writing `value` at `(row, col)` of an owned copy:
    /// the table keeps its shape, the one cell changes, and the result is
    /// owned whatever the source was.
    pub open spec fn with_value(self, row: int, col: int, value: i32) -> MatrixModel {
        MatrixModel {
            builtin: false,
            size: self.size,
            length: self.length,
            rows: self.rows.update(row, self.rows[row].update(col, value)),
        }
    }
}

/// The score table carried by either matrix variant.
#[derive(Debug, Clone)]
pub struct MatrixTable {
    /// Number of columns (alphabet length + 1, counting the wildcard).
    pub size: i32,
    /// Number of rows.
    pub length: i32,
    /// The scores, `length` rows of `size` entries each.
    pub rows: Vec<Vec<i32>>,
}

/// Substitution matrix for alignments, either backend-static (`Builtin`)
/// or owned (`Custom`). Mutation only ever happens on owned tables:
/// [`Matrix::set_value`] first copies a `Builtin` table into a `Custom`
/// one and never touches the original.
#[derive(Debug, Clone)]
pub enum Matrix {
    Builtin(MatrixTable),
    Custom(MatrixTable),
}

impl View for Matrix {
    type V = MatrixModel;

    open spec fn view(&self) -> MatrixModel {
        match self {
            Matrix::Builtin(t) => MatrixModel {
                builtin: true,
                size: t.size as int,
                length: t.length as int,
                rows: t.rows@.map_values(|r: Vec<i32>| r@),
            },
            Matrix::Custom(t) => MatrixModel {
                builtin: false,
                size: t.size as int,
                length: t.length as int,
                rows: t.rows@.map_values(|r: Vec<i32>| r@),
            },
        }
    }
}

impl Matrix {
    /// Well-formedness: the declared dimensions are positive and match the
    /// stored rows.
    pub open spec fn wf(&self) -> bool {
        &&& 1 <= self@.size
        &&& 1 <= self@.length
        &&& self@.rows.len() == self@.length
        &&& forall|r: int| 0 <= r < self@.length ==> (#[trigger] self@.rows[r]).len() == self@.size
    }

    /// Indices that address an in-alphabet cell of an existing row.
    pub open spec fn valid_cell(&self, row: int, col: int) -> bool {
        &&& 0 <= row <= self@.size - 2
        &&& 0 <= col <= self@.size - 2
        &&& row < self@.length
    }
}

/// A table whose declared dimensions are positive and match its rows:
/// what [`Matrix::builtin`] accepts.
pub open spec fn well_shaped_table(size: int, length: int, rows: Seq<Seq<i32>>) -> bool {
    &&& 1 <= size
    &&& 1 <= length
    &&& rows.len() == length
    &&& forall|q: int| 0 <= q < rows.len() ==> (#[trigger] rows[q]).len() == size
}

/// True if the byte sequence holds a `0` byte.
pub open spec fn has_nul(s: Seq<u8>) -> bool {
    exists|i: int| 0 <= i < s.len() && s[i] == 0
}

/// Position of the first `0` byte of `bytes`, if any. The backend takes
/// alphabets and sequences as C strings, so an interior `0` byte must be
/// rejected before it can silently truncate them.
pub fn find_nul(bytes: &[u8]) -> (r: Option<usize>)
    ensures
        match r {
            Some(p) => {
                &&& p < bytes@.len()
                &&& bytes@[p as int] == 0
                &&& forall|q: int| 0 <= q < p ==> bytes@[q] != 0
            },
            None => !has_nul(bytes@),
        },
{
    let n = bytes.len();
    let mut i: usize = 0;
    while i < n
        invariant
            i <= n,
            n == bytes@.len(),
            forall|j: int| 0 <= j < i ==> bytes@[j] != 0,
        decreases n - i,
    {
        if bytes[i] == 0 {
            return Some(i);
        }
        i += 1;
    }
    None
}

/// Checks that `row` and `col` both lie in `[0, size]`, the valid range
/// for a matrix whose backend-reported dimension is `size + 2`.
pub fn indices_are_valid(size: i32, row: i32, col: i32) -> (r: Result<(), Error>)
    ensures
        match r {
            Ok(()) => 0 <= row <= size && 0 <= col <= size,
            Err(e) => {
                &&& !(0 <= row <= size && 0 <= col <= size)
                &&& e == (Error::InvalidIndex { row, col })
            },
        },
{
    if row < 0 || row > size || col < 0 || col > size {
        return Err(Error::InvalidIndex { row, col });
    }
    Ok(())
}

/// The score a square matrix built from an alphabet of `n` symbols holds
/// at `(row, col)`: `match_score` on the in-alphabet diagonal,
/// `mismatch_score` off it, `0` in the wildcard row and column.
pub open spec fn square_cell(n: int, match_score: i32, mismatch_score: i32, row: int, col: int) -> i32 {
    if row < n && col < n {
        if row == col {
            match_score
        } else {
            mismatch_score
        }
    } else {
        0
    }
}

impl Matrix {
    /// Create an owned square substitution matrix over `alphabet`, scoring
    /// `match_score` for equal symbols and `mismatch_score` for unequal
    /// ones, with a zeroed wildcard row and column, exactly as the backend
    /// builds it. Fails on an interior `0` byte or an alphabet too large
    /// for the backend's `int` dimensions.
    pub fn create(alphabet: &[u8], match_score: i32, mismatch_score: i32) -> (r: Result<Matrix, Error>)
        requires
            match_score >= 0,
            mismatch_score <= 0,
        ensures
            match r {
                Ok(m) => {
                    &&& !has_nul(alphabet@)
                    &&& alphabet@.len() + 1 < i32::MAX
                    &&& m.wf()
                    &&& !m@.builtin
                    &&& m@.size == alphabet@.len() + 1
                    &&& m@.length == m@.size
                    &&& forall|i: int, j: int|
                        0 <= i < m@.size && 0 <= j < m@.size
                            ==> #[trigger] m@.cell(i, j) == square_cell(
                                alphabet@.len() as int, match_score, mismatch_score, i, j)
                },
                Err(e) => match e {
                    Error::InteriorNul { pos } => {
                        &&& pos < alphabet@.len()
                        &&& alphabet@[pos as int] == 0
                        &&& forall|q: int| 0 <= q < pos ==> alphabet@[q] != 0
                    },
                    Error::MatrixCreationFailed { alphabet: a, match_score: ms, mismatch_score: mm } => {
                        &&& alphabet@.len() + 1 >= i32::MAX
                        &&& a@ == alphabet@
                        &&& ms == match_score
                        &&& mm == mismatch_score
                    },
                    _ => false,
                },
            },
    {
        if let Some(pos) = find_nul(alphabet) {
            return Err(Error::InteriorNul { pos });
        }
        let n = alphabet.len();
        if n >= (i32::MAX as usize) - 1 {
            return Err(Error::MatrixCreationFailed {
                alphabet: slice_to_vec(alphabet),
                match_score,
                mismatch_score,
            });
        }
        let size: usize = n + 1;
        let mut rows: Vec<Vec<i32>> = Vec::new();
        let mut i: usize = 0;
        while i < size
            invariant
                i <= size,
                size == n + 1,
                n + 1 < i32::MAX,
                rows@.len() == i,
                forall|r: int| 0 <= r < i ==> (#[trigger] rows@[r]).len() == size,
                forall|r: int, c: int|
                    0 <= r < i && 0 <= c < size
                        ==> #[trigger] rows@[r]@[c] == square_cell(n as int, match_score, mismatch_score, r, c),
            decreases size - i,
        {
            let mut row: Vec<i32> = Vec::new();
            let mut j: usize = 0;
            while j < size
                invariant
                    j <= size,
                    size == n + 1,
                    i < size,
                    row@.len() == j,
                    forall|c: int|
                        0 <= c < j
                            ==> #[trigger] row@[c] == square_cell(n as int, match_score, mismatch_score, i as int, c),
                decreases size - j,
            {
                let cell: i32 = if i < n && j < n {
                    if i == j {
                        match_score
                    } else {
                        mismatch_score
                    }
                } else {
                    0
                };
                row.push(cell);
                j += 1;
            }
            rows.push(row);
            i += 1;
        }
        let m = Matrix::Custom(MatrixTable { size: size as i32, length: size as i32, rows });
        assert forall|i0: int, j0: int|
            0 <= i0 < m@.size && 0 <= j0 < m@.size
                implies #[trigger] m@.cell(i0, j0) == square_cell(n as int, match_score, mismatch_score, i0, j0)
        by {
            assert(m@.rows[i0] == rows@.map_values(|r: Vec<i32>| r@)[i0]);
        }
        Ok(m)
    }

    /// The backend-reported number of columns.
    pub fn size(&self) -> (s: i32)
        ensures
            s as int == self@.size,
    {
        match self {
            Matrix::Builtin(t) => t.size,
            Matrix::Custom(t) => t.size,
        }
    }

    /// The number of rows of the table.
    pub fn length(&self) -> (l: i32)
        ensures
            l as int == self@.length,
    {
        match self {
            Matrix::Builtin(t) => t.length,
            Matrix::Custom(t) => t.length,
        }
    }

    /// Whether this matrix mirrors a backend-static table.
    pub fn is_builtin(&self) -> (b: bool)
        ensures
            b == self@.builtin,
    {
        match self {
            Matrix::Builtin(_) => true,
            Matrix::Custom(_) => false,
        }
    }

    /// Read the score at `(row, col)`. Indices outside `[0, size - 2]`, or
    /// a row the table does not have, are refused with `InvalidIndex`.
    pub fn get_value(&self, row: i32, col: i32) -> (r: Result<i32, Error>)
        requires
            self.wf(),
        ensures
            match r {
                Ok(v) => self.valid_cell(row as int, col as int) && v == self@.cell(
                    row as int, col as int),
                Err(e) => {
                    &&& !self.valid_cell(row as int, col as int)
                    &&& e == (Error::InvalidIndex { row, col })
                },
            },
    {
        let size = self.size();
        if let Err(e) = indices_are_valid(size - 2, row, col) {
            return Err(e);
        }
        if row >= self.length() {
            return Err(Error::InvalidIndex { row, col });
        }
        let t = match self {
            Matrix::Builtin(t) => t,
            Matrix::Custom(t) => t,
        };
        proof {
            assert(self@.rows[row as int] == t.rows@.map_values(|r: Vec<i32>| r@)[row as int]);
        }
        Ok(t.rows[row as usize][col as usize])
    }

    /// Write `value` at `(row, col)`. A `Builtin` matrix is first copied
    /// into an owned `Custom` table — the backend-static original is never
    /// written — and the result is `Custom` in every case. Invalid indices
    /// are refused with `InvalidIndex` and leave the matrix untouched.
    pub fn set_value(&mut self, row: i32, col: i32, value: i32) -> (r: Result<(), Error>)
        requires
            old(self).wf(),
        ensures
            final(self).wf(),
            match r {
                Ok(()) => {
                    &&& old(self).valid_cell(row as int, col as int)
                    &&& final(self)@ == old(self)@.with_value(row as int, col as int, value)
                },
                Err(e) => {
                    &&& !old(self).valid_cell(row as int, col as int)
                    &&& e == (Error::InvalidIndex { row, col })
                    &&& *final(self) == *old(self)
                },
            },
    {
        let size = self.size();
        if let Err(e) = indices_are_valid(size - 2, row, col) {
            return Err(e);
        }
        if row >= self.length() {
            return Err(Error::InvalidIndex { row, col });
        }
        let mut tmp = Matrix::Custom(MatrixTable { size: 1, length: 1, rows: Vec::new() });
        core::mem::swap(self, &mut tmp);
        let t = match tmp {
            Matrix::Builtin(t) => t,
            Matrix::Custom(t) => t,
        };
        let t_size = t.size;
        let t_length = t.length;
        let mut rows = t.rows;
        proof {
            assert(old(self)@.rows[row as int] == rows@.map_values(|rv: Vec<i32>| rv@)[row as int]);
            assert(old(self)@.rows[row as int].len() == old(self)@.size);
        }
        let mut taken: Vec<i32> = Vec::new();
        rows.set_and_swap(row as usize, &mut taken);
        taken.set(col as usize, value);
        rows.set_and_swap(row as usize, &mut taken);
        *self = Matrix::Custom(MatrixTable { size: t_size, length: t_length, rows });
        proof {
            assert(self@.rows =~~= old(self)@.with_value(row as int, col as int, value).rows);
        }
        Ok(())
    }
}

/// Least element of the first `k` entries of `s`, starting from the
/// largest `i32` as the neutral element, the way the backend scans a
/// value table for its minimum.
pub open spec fn min_prefix(s: Seq<i32>, k: int) -> i32
    decreases k,
{
    if k <= 0 {
        i32::MAX
    } else if s[k - 1] < min_prefix(s, k - 1) {
        s[k - 1]
    } else {
        min_prefix(s, k - 1)
    }
}

/// Least element of `s` (the largest `i32` if `s` is empty).
pub open spec fn seq_min(s: Seq<i32>) -> i32 {
    min_prefix(s, s.len() as int)
}

/// The score a position-specific matrix over an alphabet of `n` symbols
/// and value table `values` holds at `(row, col)`: the supplied value for
/// an in-alphabet column, the least supplied value in the wildcard column.
pub open spec fn pssm_cell(n: int, values: Seq<i32>, row: int, col: int) -> i32 {
    if col < n {
        values[row * n + col]
    } else {
        seq_min(values)
    }
}

impl Matrix {
    /// Create an owned position-specific scoring matrix: `n_rows` rows of
    /// per-position scores over `alphabet`, one value per in-alphabet
    /// symbol, with the least supplied value in the wildcard column of
    /// every row, exactly as the backend builds it. `values` is read row
    /// by row and must hold `alphabet.len() * n_rows` entries.
    pub fn create_pssm(alphabet: &[u8], values: Vec<i32>, n_rows: i32) -> (r: Result<Matrix, Error>)
        ensures
            match r {
                Ok(m) => {
                    &&& !has_nul(alphabet@)
                    &&& n_rows > 0
                    &&& values@.len() == alphabet@.len() * n_rows
                    &&& alphabet@.len() + 1 < i32::MAX
                    &&& m.wf()
                    &&& !m@.builtin
                    &&& m@.size == alphabet@.len() + 1
                    &&& m@.length == n_rows as int
                    &&& forall|i: int, j: int|
                        0 <= i < m@.length && 0 <= j < m@.size
                            ==> #[trigger] m@.cell(i, j) == pssm_cell(
                                alphabet@.len() as int, values@, i, j)
                },
                Err(e) => match e {
                    Error::InteriorNul { pos } => {
                        &&& pos < alphabet@.len()
                        &&& alphabet@[pos as int] == 0
                        &&& forall|q: int| 0 <= q < pos ==> alphabet@[q] != 0
                    },
                    Error::PSSMCreationFailed { alphabet: a, values: v, n_rows: k } => {
                        &&& {
                            ||| n_rows <= 0
                            ||| values@.len() != alphabet@.len() * n_rows
                            ||| alphabet@.len() + 1 >= i32::MAX
                        }
                        &&& a@ == alphabet@
                        &&& v == values
                        &&& k == n_rows
                    },
                    _ => false,
                },
            },
    {
        if let Some(pos) = find_nul(alphabet) {
            return Err(Error::InteriorNul { pos });
        }
        let n = alphabet.len();
        if n_rows <= 0 || n >= (i32::MAX as usize) - 1 {
            return Err(Error::PSSMCreationFailed {
                alphabet: slice_to_vec(alphabet),
                values,
                n_rows,
            });
        }
        let rows_total = n_rows as usize;
        let n_values = values.len();
        if n_values / rows_total != n || n_values % rows_total != 0 {
            proof {
                if values@.len() == alphabet@.len() * n_rows {
                    vstd::arithmetic::div_mod::lemma_fundamental_div_mod_converse(
                        n_values as int, rows_total as int, n as int, 0);
                }
            }
            return Err(Error::PSSMCreationFailed {
                alphabet: slice_to_vec(alphabet),
                values,
                n_rows,
            });
        }
        proof {
            vstd::arithmetic::div_mod::lemma_fundamental_div_mod(
                n_values as int, rows_total as int);
            assert(n_values as int == (rows_total as int) * (n as int));
            assert((rows_total as int) * (n as int) == (n as int) * (rows_total as int))
                by (nonlinear_arith);
        }
        let min = Matrix::wildcard_score(&values);
        let mut rows: Vec<Vec<i32>> = Vec::new();
        let mut i: usize = 0;
        while i < rows_total
            invariant
                i <= rows_total,
                rows_total == n_rows as int,
                n + 1 < i32::MAX,
                n_values == values@.len(),
                n_values == n * rows_total,
                min == seq_min(values@),
                rows@.len() == i,
                forall|r: int| 0 <= r < i ==> (#[trigger] rows@[r]).len() == n + 1,
                forall|r: int, c: int|
                    0 <= r < i && 0 <= c < n + 1
                        ==> #[trigger] rows@[r]@[c] == pssm_cell(n as int, values@, r, c),
            decreases rows_total - i,
        {
            let mut row: Vec<i32> = Vec::new();
            let mut j: usize = 0;
            while j < n
                invariant
                    j <= n,
                    i < rows_total,
                    n_values == values@.len(),
                    n_values == n * rows_total,
                    row@.len() == j,
                    forall|c: int|
                        0 <= c < j ==> #[trigger] row@[c] == values@[i * n + c],
                decreases n - j,
            {
                proof {
                    assert(i * n + j < rows_total * n) by (nonlinear_arith)
                        requires i < rows_total, j < n;
                    assert(rows_total * n == n * rows_total) by (nonlinear_arith);
                    assert(i * n + j < n_values);
                }
                row.push(values[i * n + j]);
                j += 1;
            }
            row.push(min);
            rows.push(row);
            i += 1;
        }
        let m = Matrix::Custom(MatrixTable {
            size: (n + 1) as i32,
            length: n_rows,
            rows,
        });
        assert forall|i0: int, j0: int|
            0 <= i0 < m@.length && 0 <= j0 < m@.size
                implies #[trigger] m@.cell(i0, j0) == pssm_cell(n as int, values@, i0, j0)
        by {
            assert(m@.rows[i0] == rows@.map_values(|r: Vec<i32>| r@)[i0]);
        }
        proof {
            assert(values@.len() == alphabet@.len() * n_rows) by (nonlinear_arith)
                requires
                    values@.len() == n * rows_total,
                    n == alphabet@.len(),
                    rows_total == n_rows as int;
        }
        Ok(m)
    }

    /// The least value of the table handed to `create_pssm`, the score its
    /// wildcard column carries.
    pub fn wildcard_score(values: &Vec<i32>) -> (m: i32)
        ensures
            m == seq_min(values@),
    {
        let mut min: i32 = i32::MAX;
        let mut k: usize = 0;
        while k < values.len()
            invariant
                k <= values@.len(),
                min == min_prefix(values@, k as int),
            decreases values@.len() - k,
        {
            if values[k] < min {
                min = values[k];
            }
            k += 1;
        }
        min
    }

    /// Wrap a table obtained from the backend's built-in collection as a
    /// `Builtin` matrix. Succeeds on exactly the well-shaped tables — the
    /// declared dimensions are positive and match the rows — and refuses
    /// anything else as a failed lookup of `name`.
    pub fn builtin(name: &str, size: i32, length: i32, rows: Vec<Vec<i32>>) -> (r: Result<Matrix, Error>)
        ensures
            match r {
                Ok(m) => {
                    &&& well_shaped_table(size as int, length as int, rows@.map_values(|v: Vec<i32>| v@))
                    &&& m.wf()
                    &&& m@.builtin
                    &&& m@.size == size as int
                    &&& m@.length == length as int
                    &&& m@.rows == rows@.map_values(|v: Vec<i32>| v@)
                },
                Err(e) => {
                    &&& !well_shaped_table(
                        size as int, length as int, rows@.map_values(|v: Vec<i32>| v@))
                    &&& e matches Error::MatrixLookupFailed { matrix_name } && matrix_name@ == name@
                },
            },
    {
        let ghost model_rows = rows@.map_values(|v: Vec<i32>| v@);
        if !(size >= 1 && length >= 1 && rows.len() == length as usize) {
            return Err(Error::MatrixLookupFailed { matrix_name: name.to_owned() });
        }
        let mut r: usize = 0;
        while r < rows.len()
            invariant
                r <= rows@.len(),
                size >= 1,
                length >= 1,
                rows@.len() == length as int,
                model_rows == rows@.map_values(|v: Vec<i32>| v@),
                forall|q: int| 0 <= q < r ==> (#[trigger] rows@[q]).len() == size as int,
            decreases rows@.len() - r,
        {
            if rows[r].len() != size as usize {
                proof {
                    assert(model_rows[r as int].len() != size as int);
                }
                return Err(Error::MatrixLookupFailed { matrix_name: name.to_owned() });
            }
            r += 1;
        }
        let m = Matrix::Builtin(MatrixTable { size, length, rows });
        proof {
            assert(m@.rows =~~= model_rows);
            assert forall|q: int| 0 <= q < model_rows.len()
                implies (#[trigger] model_rows[q]).len() == size as int
            by {
            }
        }
        Ok(m)
    }

    /// An owned copy of this matrix: the same table under `Custom`
    /// ownership, whatever it was before.
    pub fn into_custom(self) -> (r: Matrix)
        ensures
            r@ == (MatrixModel { builtin: false, ..self@ }),
    {
        match self {
            Matrix::Builtin(t) => Matrix::Custom(t),
            Matrix::Custom(t) => Matrix::Custom(t),
        }
    }
}

impl Default for Matrix {
    /// The identity matrix for the DNA alphabet `ACGT`: `1` on the
    /// diagonal, `-1` off it.
    fn default() -> (r: Matrix)
        ensures
            r.wf(),
            !r@.builtin,
            r@.size == 5,
            r@.length == 5,
            forall|i: int, j: int|
                0 <= i < 5 && 0 <= j < 5 ==> #[trigger] r@.cell(i, j) == square_cell(4, 1i32, -1i32, i, j),
    {
        let alphabet: [u8; 4] = [65, 67, 71, 84];
        match Matrix::create(alphabet.as_slice(), 1, -1) {
            Ok(m) => m,
            Err(_) => unreached(),
        }
    }
}

/// Law: writing a cell of a `Builtin` matrix is copy-on-write. The update
/// is a pure function of the source model: the result is an owned
/// `Custom` table of the same shape that differs from the source only at
/// the written cell, and the source model itself is left exactly as it
/// was.
pub proof fn lemma_set_value_copy_on_write(m: Matrix, row: int, col: int, value: i32)
    requires
        m.wf(),
        m.valid_cell(row, col),
    ensures
        ({
            let updated = m@.with_value(row, col, value);
            &&& !updated.builtin
            &&& updated.size == m@.size
            &&& updated.length == m@.length
            &&& updated.cell(row, col) == value
            &&& forall|r: int, c: int|
                0 <= r < m@.length && 0 <= c < m@.size && !(r == row && c == col)
                    ==> #[trigger] updated.cell(r, c) == m@.cell(r, c)
        }),
{
}

/// Law: reading back a matrix built by `create` over an alphabet of `n`
/// symbols gives `match_score` on every in-alphabet diagonal cell and
/// `mismatch_score` on every in-alphabet off-diagonal cell.
pub proof fn lemma_create_round_trip(
    m: Matrix,
    n: int,
    match_score: i32,
    mismatch_score: i32,
    row: int,
    col: int,
)
    requires
        m.wf(),
        m@.size == n + 1,
        m@.length == n + 1,
        forall|i: int, j: int|
            0 <= i < m@.size && 0 <= j < m@.size
                ==> #[trigger] m@.cell(i, j) == square_cell(n, match_score, mismatch_score, i, j),
        0 <= row < n,
        0 <= col < n,
    ensures
        m.valid_cell(row, col),
        m@.cell(row, col) == if row == col { match_score } else { mismatch_score },
{
}

} // verus!
