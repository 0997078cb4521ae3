//! The result matrix: one value for each pair of cutoff and target residue.
//!
//! Values are held as the bit patterns of single-precision numbers, row by
//! row: the cutoff is the outer axis, the residue the inner one.

use vstd::prelude::*;

verus! {

/// A dense matrix of 32-bit values in row-major order.
#[derive(Debug, PartialEq, Eq)]
pub struct ResultMatrix {
    rows: usize,
    cols: usize,
    cells: Vec<u32>,
}

/// The position of cell (`row`, `col`) in a row-major matrix with `cols`
/// columns.
pub open spec fn cell_index(cols: int, row: int, col: int) -> int {
    row * cols + col
}

/// A cell inside a matrix has its position inside the flat values, and no
/// two cells share a position.
pub proof fn lemma_cell_index_bounds(rows: int, cols: int, row: int, col: int)
    requires
        0 <= row < rows,
        0 <= col < cols,
    ensures
        0 <= cell_index(cols, row, col) < rows * cols,
        cell_index(cols, row, col) / cols == row,
        cell_index(cols, row, col) % cols == col,
{
    assert(0 <= row * cols && row * cols + cols <= rows * cols) by (nonlinear_arith)
        requires
            0 <= row < rows,
            0 < cols,
    ;
    assert(cell_index(cols, row, col) == cols * row + col) by (nonlinear_arith);
    vstd::arithmetic::div_mod::lemma_fundamental_div_mod_converse(
        cell_index(cols, row, col),
        cols,
        row,
        col,
    );
}

impl ResultMatrix {
    /// The number of rows: one for each cutoff.
    pub closed spec fn rows_spec(&self) -> usize {
        self.rows
    }

    /// The number of columns: one for each target residue.
    pub closed spec fn cols_spec(&self) -> usize {
        self.cols
    }

    /// The values, row by row.
    pub closed spec fn flat(&self) -> Seq<u32> {
        self.cells@
    }

    /// There is one value for each cell.
    pub open spec fn wf(&self) -> bool {
        self.flat().len() == self.rows_spec() * self.cols_spec()
    }

    /// The value of the cell for cutoff `row` and target residue `col`.
    pub open spec fn at(&self, row: int, col: int) -> u32
        recommends
            0 <= row < self.rows_spec(),
            0 <= col < self.cols_spec(),
    {
        self.flat()[cell_index(self.cols_spec() as int, row, col)]
    }

    #[verifier::type_invariant]
    spec fn inv(&self) -> bool {
        self.wf()
    }

    /// The matrix without rows and with `cols` columns.
    pub fn empty(cols: usize) -> (matrix: ResultMatrix)
        ensures
            matrix.wf(),
            matrix.rows_spec() == 0,
            matrix.cols_spec() == cols,
            matrix.flat() == Seq::<u32>::empty(),
    {
        ResultMatrix { rows: 0, cols, cells: Vec::new() }
    }

    /// The matrix of `rows` by `cols` whose cells, row by row, are `flat`;
    /// `None` where `flat` does not hold one value for each cell.
    pub fn assemble(flat: Vec<u32>, rows: usize, cols: usize) -> (matrix: Option<ResultMatrix>)
        ensures
            matrix is Some <==> flat@.len() == rows * cols,
            matrix matches Some(m) ==> m.wf() && m.rows_spec() == rows && m.cols_spec() == cols
                && m.flat() == flat@,
    {
        let given: usize = flat.len();
        match rows.checked_mul(cols) {
            Some(cells) => {
                if given == cells {
                    Some(ResultMatrix { rows, cols, cells: flat })
                } else {
                    None
                }
            },
            None => None,
        }
    }

    #[verifier::when_used_as_spec(rows_spec)]
    pub fn rows(&self) -> (rows: usize)
        ensures
            rows == self.rows_spec(),
    {
        self.rows
    }

    #[verifier::when_used_as_spec(cols_spec)]
    pub fn cols(&self) -> (cols: usize)
        ensures
            cols == self.cols_spec(),
    {
        self.cols
    }

    /// The values, row by row.
    pub fn as_slice(&self) -> (cells: &[u32])
        ensures
            cells@ == self.flat(),
            self.wf(),
    {
        proof {
            use_type_invariant(self);
        }
        self.cells.as_slice()
    }

    /// The value for cutoff `row` and target residue `col`; `None` outside
    /// the matrix.
    pub fn get(&self, row: usize, col: usize) -> (value: Option<u32>)
        ensures
            value is Some <==> row < self.rows_spec() && col < self.cols_spec(),
            value matches Some(v) ==> v == self.at(row as int, col as int),
    {
        if row < self.rows && col < self.cols {
            let held: usize = self.cells.len();
            proof {
                use_type_invariant(self);
                lemma_cell_index_bounds(
                    self.rows as int,
                    self.cols as int,
                    row as int,
                    col as int,
                );
                assert(row * self.cols + col < held);
            }
            Some(self.cells[row * self.cols + col])
        } else {
            None
        }
    }

    /// The matrix whose rows are the given single-row matrices, in order;
    /// `None` unless each of them is one row of `cols` columns.
    ///
    /// This puts together what was computed one cutoff at a time.
    pub fn from_rows(rows: &Vec<ResultMatrix>, cols: usize) -> (matrix: Option<ResultMatrix>)
        ensures
            matrix is Some <==> forall|c: int|
                0 <= c < rows@.len() ==> (#[trigger] rows@[c]).rows_spec() == 1 && rows@[c].cols_spec()
                    == cols,
            matrix matches Some(m) ==> m.wf() && m.rows_spec() == rows@.len() && m.cols_spec()
                == cols && forall|c: int, r: int|
                0 <= c < rows@.len() && 0 <= r < cols ==> #[trigger] m.at(c, r) == rows@[c].at(
                    0,
                    r,
                ),
    {
        let mut cells: Vec<u32> = Vec::new();
        let mut c: usize = 0;
        while c < rows.len()
            invariant
                c <= rows.len(),
                cells@.len() == c * cols,
                forall|i: int|
                    0 <= i < c ==> (#[trigger] rows@[i]).rows_spec() == 1 && rows@[i].cols_spec()
                        == cols,
                forall|i: int, r: int|
                    0 <= i < c && 0 <= r < cols ==> #[trigger] cells@[cell_index(cols as int, i, r)]
                        == rows@[i].at(0, r),
            decreases rows.len() - c,
        {
            let part = &rows[c];
            if part.rows != 1 || part.cols != cols {
                return None;
            }
            proof {
                use_type_invariant(part);
                assert((c + 1) * cols == c * cols + cols) by (nonlinear_arith);
            }
            let mut r: usize = 0;
            while r < cols
                invariant
                    r <= cols,
                    c < rows.len(),
                    *part == rows@[c as int],
                    part.cells@.len() == cols,
                    part.rows_spec() == 1,
                    part.cols_spec() == cols,
                    cells@.len() == c * cols + r,
                    forall|i: int, k: int|
                        0 <= i < c && 0 <= k < cols ==> #[trigger] cells@[cell_index(
                            cols as int,
                            i,
                            k,
                        )] == rows@[i].at(0, k),
                    forall|k: int|
                        0 <= k < r ==> #[trigger] cells@[cell_index(cols as int, c as int, k)]
                            == part.at(0, k),
                decreases cols - r,
            {
                let ghost before = cells@;
                cells.push(part.cells[r]);
                proof {
                    assert(cell_index(cols as int, 0, r as int) == r) by (nonlinear_arith);
                    assert forall|i: int, k: int| 0 <= i < c && 0 <= k < cols implies
                        #[trigger] cells@[cell_index(cols as int, i, k)] == rows@[i].at(0, k) by {
                        lemma_cell_index_bounds(c as int, cols as int, i, k);
                        assert(cells@[cell_index(cols as int, i, k)] == before[cell_index(
                            cols as int,
                            i,
                            k,
                        )]);
                    }
                    assert forall|k: int| 0 <= k < r + 1 implies #[trigger] cells@[cell_index(
                        cols as int,
                        c as int,
                        k,
                    )] == part.at(0, k) by {
                        assert(cell_index(cols as int, 0, k) == k) by (nonlinear_arith);
                        if k < r {
                            assert(cells@[cell_index(cols as int, c as int, k)]
                                == before[cell_index(cols as int, c as int, k)]);
                        }
                    }
                }
                r = r + 1;
            }
            c = c + 1;
        }
        let count: usize = rows.len();
        Some(ResultMatrix { rows: count, cols, cells })
    }

    /// The matrix with rows and columns exchanged.
    pub fn transposed(&self) -> (matrix: ResultMatrix)
        ensures
            matrix.wf(),
            matrix.rows_spec() == self.cols_spec(),
            matrix.cols_spec() == self.rows_spec(),
            forall|row: int, col: int|
                0 <= row < self.rows_spec() && 0 <= col < self.cols_spec() ==> #[trigger] matrix.at(
                    col,
                    row,
                ) == self.at(row, col),
    {
        proof {
            use_type_invariant(self);
        }
        let mut cells: Vec<u32> = Vec::new();
        let mut col: usize = 0;
        while col < self.cols
            invariant
                col <= self.cols,
                self.cells@.len() == self.rows * self.cols,
                cells@.len() == col * self.rows,
                forall|c: int, r: int|
                    0 <= c < col && 0 <= r < self.rows ==> #[trigger] cells@[cell_index(
                        self.rows as int,
                        c,
                        r,
                    )] == self.cells@[cell_index(self.cols as int, r, c)],
            decreases self.cols - col,
        {
            let mut row: usize = 0;
            while row < self.rows
                invariant
                    col < self.cols,
                    row <= self.rows,
                    self.cells@.len() == self.rows * self.cols,
                    cells@.len() == col * self.rows + row,
                    forall|c: int, r: int|
                        0 <= c < col && 0 <= r < self.rows ==> #[trigger] cells@[cell_index(
                            self.rows as int,
                            c,
                            r,
                        )] == self.cells@[cell_index(self.cols as int, r, c)],
                    forall|r: int|
                        0 <= r < row ==> #[trigger] cells@[cell_index(
                            self.rows as int,
                            col as int,
                            r,
                        )] == self.cells@[cell_index(self.cols as int, r, col as int)],
                decreases self.rows - row,
            {
                let held: usize = self.cells.len();
                proof {
                    lemma_cell_index_bounds(
                        self.rows as int,
                        self.cols as int,
                        row as int,
                        col as int,
                    );
                    assert(row * self.cols + col < held);
                }
                let ghost before = cells@;
                cells.push(self.cells[row * self.cols + col]);
                proof {
                    assert forall|c: int, r: int| 0 <= c < col && 0 <= r < self.rows implies
                        #[trigger] cells@[cell_index(self.rows as int, c, r)]
                        == self.cells@[cell_index(self.cols as int, r, c)] by {
                        lemma_cell_index_bounds(col as int, self.rows as int, c, r);
                        assert(cells@[cell_index(self.rows as int, c, r)]
                            == before[cell_index(self.rows as int, c, r)]);
                    }
                    assert forall|r: int| 0 <= r < row + 1 implies #[trigger] cells@[cell_index(
                        self.rows as int,
                        col as int,
                        r,
                    )] == self.cells@[cell_index(self.cols as int, r, col as int)] by {
                        if r < row {
                            assert(cells@[cell_index(self.rows as int, col as int, r)]
                                == before[cell_index(self.rows as int, col as int, r)]);
                        }
                    }
                }
                row = row + 1;
            }
            proof {
                assert((col + 1) * self.rows == col * self.rows + self.rows) by (nonlinear_arith);
            }
            col = col + 1;
        }
        proof {
            assert(self.cols * self.rows == self.rows * self.cols) by (nonlinear_arith);
        }
        let matrix = ResultMatrix { rows: self.cols, cols: self.rows, cells };
        assert forall|row: int, col: int|
            0 <= row < self.rows_spec() && 0 <= col < self.cols_spec() implies #[trigger] matrix.at(
            col,
            row,
        ) == self.at(row, col) by {
            assert(matrix.flat()[cell_index(self.rows as int, col, row)]
                == self.cells@[cell_index(self.cols as int, row, col)]);
        }
        matrix
    }
}

impl Clone for ResultMatrix {
    fn clone(&self) -> (copy: ResultMatrix)
        ensures
            copy.wf(),
            copy.rows_spec() == self.rows_spec(),
            copy.cols_spec() == self.cols_spec(),
            copy.flat() == self.flat(),
    {
        proof {
            use_type_invariant(self);
        }
        let cells = self.cells.clone();
        ResultMatrix { rows: self.rows, cols: self.cols, cells }
    }
}

} // verus!
