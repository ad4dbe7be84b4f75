//! Matrices: 2x2, 3x3 and 4x4 with inline storage, and N x N and N x M with
//! storage from the heap array factory.
//!
//! A matrix is modelled as its rows, a `Seq<Seq<T>>`. The constructors state
//! exactly which grid they return.

use crate::custom_container::{darray_2d, filled_2d, grid_of, is_grid, Harrt};
use vstd::pervasive::runtime_assert;
use vstd::prelude::*;

verus! {

/// The `rows` by `cols` grid with `one` on the main diagonal and `zero`
/// everywhere else. Where `rows` and `cols` differ the diagonal has
/// `min(rows, cols)` cells.
pub open spec fn identity_grid<T>(rows: nat, cols: nat, zero: T, one: T) -> Seq<Seq<T>> {
    Seq::new(
        rows,
        |i: int|
            Seq::new(
                cols,
                |j: int|
                    if i == j {
                        one
                    } else {
                        zero
                    },
            ),
    )
}

/// The identity grid is rectangular, holds `one` in the cells of its main
/// diagonal and `zero` in all others.
pub proof fn lemma_identity_grid<T>(rows: nat, cols: nat, zero: T, one: T)
    ensures
        is_grid(identity_grid(rows, cols, zero, one), rows, cols),
        forall|i: int, j: int|
            0 <= i < rows && 0 <= j < cols ==> identity_grid(rows, cols, zero, one)[i][j] == (if i
                == j {
                one
            } else {
                zero
            }),
{
}

/// Marks the matrix types. It carries no operation.
pub trait Matrix {

}

/// Matrices whose size is chosen at run time. The view of such a matrix is
/// its rows, outermost first.
pub trait MatrixFns: Sized + View<V = Seq<Seq<<Self as MatrixFns>::Elem>>> {
    /// The type of a cell.
    type Elem;

    /// The grid that `identity` of this matrix type returns.
    spec fn identity_cells(
        rows: nat,
        cols: nat,
        zero: Self::Elem,
        one: Self::Elem,
    ) -> Seq<Seq<Self::Elem>>;

    /// The matrix of `rows_size` rows and `cols_size` columns that this type
    /// calls its identity.
    fn identity(rows_size: usize, cols_size: usize, zero: Self::Elem, one: Self::Elem) -> (m: Self)
        ensures
            is_grid(m@, rows_size as nat, cols_size as nat),
            m@ == Self::identity_cells(rows_size as nat, cols_size as nat, zero, one),
    ;
}

/// A 2x2 matrix, stored inline.
pub struct Matrix2x2<T>(pub [[T; 2]; 2]);

/// A 3x3 matrix, stored inline.
pub struct Matrix3x3<T>(pub [[T; 3]; 3]);

/// A 4x4 matrix, stored inline.
pub struct Matrix4x4<T>(pub [[T; 4]; 4]);

/// An N x N matrix. `zeros` and `new` make it square; `identity` takes both
/// sizes as given.
#[derive(Debug)]
pub struct MatrixNxN<T> {
    pub m_rows: usize,
    pub m_cols: usize,
    pub m_data: darray_2d<T>,
}

/// An N x M matrix.
#[derive(Debug)]
pub struct MatrixNxM<T> {
    pub m_rows: usize,
    pub m_cols: usize,
    pub m_data: darray_2d<T>,
}

impl<T> Matrix for Matrix2x2<T> {

}

impl<T> View for Matrix2x2<T> {
    type V = Seq<Seq<T>>;

    /// The matrix as its rows, outermost first.
    open spec fn view(&self) -> Seq<Seq<T>> {
        Seq::new(2, |i: int| self.0@[i]@)
    }
}

impl<T: Copy> Matrix2x2<T> {
    /// The 2x2 matrix with `one` on the main diagonal and `zero`
    /// everywhere else.
    pub fn identity(zero: T, one: T) -> (m: Self)
        ensures
            forall|i: int, j: int|
                0 <= i < 2 && 0 <= j < 2 ==> m.0[i][j] == (if i == j {
                    one
                } else {
                    zero
                }),
            m@ == identity_grid(2, 2, zero, one),
    {
        let m = Self([[one, zero], [zero, one]]);
        assert(m@ =~~= identity_grid(2, 2, zero, one));
        m
    }
}

impl<T> Matrix for Matrix3x3<T> {

}

impl<T> View for Matrix3x3<T> {
    type V = Seq<Seq<T>>;

    /// The matrix as its rows, outermost first.
    open spec fn view(&self) -> Seq<Seq<T>> {
        Seq::new(3, |i: int| self.0@[i]@)
    }
}

impl<T: Copy> Matrix3x3<T> {
    /// The 3x3 matrix with `one` on the main diagonal and `zero`
    /// everywhere else.
    pub fn identity(zero: T, one: T) -> (m: Self)
        ensures
            forall|i: int, j: int|
                0 <= i < 3 && 0 <= j < 3 ==> m.0[i][j] == (if i == j {
                    one
                } else {
                    zero
                }),
            m@ == identity_grid(3, 3, zero, one),
    {
        let m = Self([[one, zero, zero], [zero, one, zero], [zero, zero, one]]);
        assert(m@ =~~= identity_grid(3, 3, zero, one));
        m
    }
}

impl<T> Matrix for Matrix4x4<T> {

}

impl<T> View for Matrix4x4<T> {
    type V = Seq<Seq<T>>;

    /// The matrix as its rows, outermost first.
    open spec fn view(&self) -> Seq<Seq<T>> {
        Seq::new(4, |i: int| self.0@[i]@)
    }
}

impl<T: Copy> Matrix4x4<T> {
    /// The 4x4 matrix with `one` on the main diagonal and `zero`
    /// everywhere else.
    pub fn identity(zero: T, one: T) -> (m: Self)
        ensures
            forall|i: int, j: int|
                0 <= i < 4 && 0 <= j < 4 ==> m.0[i][j] == (if i == j {
                    one
                } else {
                    zero
                }),
            m@ == identity_grid(4, 4, zero, one),
    {
        let m = Self([
            [one, zero, zero, zero],
            [zero, one, zero, zero],
            [zero, zero, one, zero],
            [zero, zero, zero, one],
        ]);
        assert(m@ =~~= identity_grid(4, 4, zero, one));
        m
    }
}

impl<T> Matrix for MatrixNxN<T> {

}

impl<T> View for MatrixNxN<T> {
    type V = Seq<Seq<T>>;

    /// The matrix as its rows, outermost first.
    open spec fn view(&self) -> Seq<Seq<T>> {
        grid_of(self.m_data)
    }
}

impl<T> MatrixNxN<T> {
    /// The storage has the shape that the two size fields give.
    pub open spec fn wf(&self) -> bool {
        is_grid(self@, self.m_rows as nat, self.m_cols as nat)
    }

    /// As many rows as columns.
    pub open spec fn is_square(&self) -> bool {
        self.m_rows == self.m_cols
    }
}

impl<T: Copy> MatrixFns for MatrixNxN<T> {
    type Elem = T;

    open spec fn identity_cells(rows: nat, cols: nat, zero: T, one: T) -> Seq<Seq<T>> {
        identity_grid(rows, cols, zero, one)
    }

    /// `one` at every (i, i) that lies inside the matrix, `zero` everywhere
    /// else. The two sizes are not compared: where they differ the result is
    /// not square and its diagonal has `min(rows_size, cols_size)` cells.
    fn identity(rows_size: usize, cols_size: usize, zero: T, one: T) -> (m: Self)
        ensures
            m.m_rows == rows_size,
            m.m_cols == cols_size,
            m.wf(),
            forall|i: int, j: int|
                0 <= i < rows_size && 0 <= j < cols_size ==> m@[i][j] == (if i == j {
                    one
                } else {
                    zero
                }),
            m@ == identity_grid(rows_size as nat, cols_size as nat, zero, one),
    {
        let mut arr = Harrt::heap_array2d_fill(rows_size, cols_size, zero);
        let diagonal: usize = if rows_size <= cols_size {
            rows_size
        } else {
            cols_size
        };
        let mut i: usize = 0;
        while i < diagonal
            invariant
                i <= diagonal,
                diagonal <= rows_size,
                diagonal <= cols_size,
                is_grid(grid_of(arr), rows_size as nat, cols_size as nat),
                forall|r: int, c: int|
                    0 <= r < rows_size && 0 <= c < cols_size ==> grid_of(arr)[r][c] == (if r
                        == c && r < i {
                        one
                    } else {
                        zero
                    }),
            decreases diagonal - i,
        {
            Harrt::heap_array2d_set(&mut arr, i, i, one);
            i = i + 1;
        }
        assert(grid_of(arr) =~~= identity_grid(rows_size as nat, cols_size as nat, zero, one));
        Self { m_cols: cols_size, m_rows: rows_size, m_data: arr }
    }
}

impl<T: Copy> MatrixNxN<T> {
    /// The square matrix of the given size with `zero` in every cell.
    ///
    /// The two sizes must be equal. A caller that the verifier does not see
    /// and that passes unequal sizes is stopped at once.
    pub fn zeros(rows_size: usize, cols_size: usize, zero: T) -> (m: Self)
        requires
            rows_size == cols_size,
        ensures
            m.m_rows == rows_size,
            m.m_cols == cols_size,
            m.wf(),
            m.is_square(),
            forall|i: int, j: int|
                0 <= i < rows_size && 0 <= j < cols_size ==> m@[i][j] == zero,
            m@ == filled_2d(rows_size as nat, cols_size as nat, zero),
    {
        runtime_assert(cols_size == rows_size);
        Self {
            m_cols: cols_size,
            m_rows: rows_size,
            m_data: Harrt::heap_array2d_fill(rows_size, cols_size, zero),
        }
    }

    /// The `n_size` by `n_size` matrix with `zero` in every cell.
    pub fn new(n_size: usize, zero: T) -> (m: Self)
        ensures
            m.m_rows == n_size,
            m.m_cols == n_size,
            m.wf(),
            m.is_square(),
            forall|i: int, j: int|
                0 <= i < n_size && 0 <= j < n_size ==> m@[i][j] == zero,
            m@ == filled_2d(n_size as nat, n_size as nat, zero),
    {
        MatrixNxN::zeros(n_size, n_size, zero)
    }
}

impl<T> Matrix for MatrixNxM<T> {

}

impl<T> View for MatrixNxM<T> {
    type V = Seq<Seq<T>>;

    /// The matrix as its rows, outermost first.
    open spec fn view(&self) -> Seq<Seq<T>> {
        grid_of(self.m_data)
    }
}

impl<T> MatrixNxM<T> {
    /// The storage has the shape that the two size fields give.
    pub open spec fn wf(&self) -> bool {
        is_grid(self@, self.m_rows as nat, self.m_cols as nat)
    }
}

impl<T: Copy> MatrixFns for MatrixNxM<T> {
    type Elem = T;

    open spec fn identity_cells(rows: nat, cols: nat, zero: T, one: T) -> Seq<Seq<T>> {
        filled_2d(rows, cols, zero)
    }

    /// The same matrix as `zeros`: `zero` in every cell, the diagonal
    /// included. `one` is not used.
    #[allow(unused_variables)]
    fn identity(rows_size: usize, cols_size: usize, zero: T, one: T) -> (m: Self)
        ensures
            m.m_rows == rows_size,
            m.m_cols == cols_size,
            m.wf(),
            forall|i: int, j: int|
                0 <= i < rows_size && 0 <= j < cols_size ==> m@[i][j] == zero,
            m@ == filled_2d(rows_size as nat, cols_size as nat, zero),
    {
        Self {
            m_cols: cols_size,
            m_rows: rows_size,
            m_data: Harrt::heap_array2d_fill(rows_size, cols_size, zero),
        }
    }
}

impl<T: Copy> MatrixNxM<T> {
    /// The `rows_size` by `cols_size` matrix with `zero` in every cell.
    pub fn zeros(rows_size: usize, cols_size: usize, zero: T) -> (m: Self)
        ensures
            m.m_rows == rows_size,
            m.m_cols == cols_size,
            m.wf(),
            forall|i: int, j: int|
                0 <= i < rows_size && 0 <= j < cols_size ==> m@[i][j] == zero,
            m@ == filled_2d(rows_size as nat, cols_size as nat, zero),
    {
        Self {
            m_cols: cols_size,
            m_rows: rows_size,
            m_data: Harrt::heap_array2d_fill(rows_size, cols_size, zero),
        }
    }

    /// The `n_size` by `m_size` matrix with `zero` in every cell.
    pub fn new(n_size: usize, m_size: usize, zero: T) -> (m: Self)
        ensures
            m.m_rows == n_size,
            m.m_cols == m_size,
            m.wf(),
            forall|i: int, j: int|
                0 <= i < n_size && 0 <= j < m_size ==> m@[i][j] == zero,
            m@ == filled_2d(n_size as nat, m_size as nat, zero),
    {
        MatrixNxM::zeros(n_size, m_size, zero)
    }
}

} // verus!
