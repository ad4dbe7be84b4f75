//! Heap array tools: fixed-length boxed arrays in one, two and three
//! dimensions. Every array is handed out fully initialised, and every row and
//! plane of a nested array is an allocation of its own.
//!
//! Contracts speak of an array through its model: a `Seq` of elements, a
//! `Seq` of rows ([`grid_of`]) or a `Seq` of planes ([`cube_of`]).

use vstd::prelude::*;

verus! {

/// A fixed-length, heap-owned sequence.
#[allow(non_camel_case_types)]
pub type darray<T> = Box<[T]>;

/// A fixed-length sequence of separately owned rows.
#[allow(non_camel_case_types)]
pub type darray_2d<T> = darray<darray<T>>;

/// A fixed-length sequence of separately owned planes, each a sequence of
/// separately owned rows.
#[allow(non_camel_case_types)]
pub type darray_3d<T> = darray_2d<darray<T>>;

/// The sequence of length `n` that holds `value` in every place.
pub open spec fn filled_1d<T>(n: nat, value: T) -> Seq<T> {
    Seq::new(n, |i: int| value)
}

/// `rows` rows of `cols` cells, every cell holding `value`.
pub open spec fn filled_2d<T>(rows: nat, cols: nat, value: T) -> Seq<Seq<T>> {
    Seq::new(rows, |i: int| filled_1d(cols, value))
}

/// `xdim` planes of `ydim` rows of `zdim` cells, every cell holding `value`.
pub open spec fn filled_3d<T>(xdim: nat, ydim: nat, zdim: nat, value: T) -> Seq<Seq<Seq<T>>> {
    Seq::new(xdim, |i: int| filled_2d(ydim, zdim, value))
}

/// Rectangularity in two dimensions: `rows` rows, each of length `cols`.
pub open spec fn is_grid<T>(g: Seq<Seq<T>>, rows: nat, cols: nat) -> bool {
    &&& g.len() == rows
    &&& forall|i: int| 0 <= i < rows ==> (#[trigger] g[i]).len() == cols
}

/// Rectangularity in three dimensions: `xdim` planes, each a `ydim` by
/// `zdim` grid.
pub open spec fn is_cube<T>(c: Seq<Seq<Seq<T>>>, xdim: nat, ydim: nat, zdim: nat) -> bool {
    &&& c.len() == xdim
    &&& forall|i: int| 0 <= i < xdim ==> is_grid(#[trigger] c[i], ydim, zdim)
}

/// The rows held by a sequence of boxed rows.
pub open spec fn rows_of<T>(s: Seq<Box<[T]>>) -> Seq<Seq<T>> {
    Seq::new(s.len(), |i: int| s[i]@)
}

/// The model of a two-dimensional array: its rows, outermost first.
pub open spec fn grid_of<T>(a: darray_2d<T>) -> Seq<Seq<T>> {
    rows_of(a@)
}

/// The planes held by a sequence of boxed grids.
pub open spec fn planes_of<T>(s: Seq<darray_2d<T>>) -> Seq<Seq<Seq<T>>> {
    Seq::new(s.len(), |i: int| grid_of(s[i]))
}

/// The model of a three-dimensional array: its planes, outermost first.
pub open spec fn cube_of<T>(a: darray_3d<T>) -> Seq<Seq<Seq<T>>> {
    planes_of(a@)
}

/// The grid `g` with the cell at (`row`, `col`) replaced by `value`.
pub open spec fn grid_with<T>(g: Seq<Seq<T>>, row: int, col: int, value: T) -> Seq<Seq<T>>
    recommends
        0 <= row < g.len(),
        0 <= col < g[row].len(),
{
    g.update(row, g[row].update(col, value))
}

/// The cube `c` with the cell at (`x`, `y`, `z`) replaced by `value`.
pub open spec fn cube_with<T>(
    c: Seq<Seq<Seq<T>>>,
    x: int,
    y: int,
    z: int,
    value: T,
) -> Seq<Seq<Seq<T>>>
    recommends
        0 <= x < c.len(),
        0 <= y < c[x].len(),
        0 <= z < c[x][y].len(),
{
    c.update(x, grid_with(c[x], y, z, value))
}

/// Calls `Vec::into_boxed_slice` of the standard library. Trusted, not
/// proved: the boxed slice holds the vector's elements, in the same order
/// (the call only gives up spare capacity).
#[verifier::external_body]
fn into_boxed<T>(v: Vec<T>) -> (b: Box<[T]>)
    ensures
        b@ == v@,
{
    v.into_boxed_slice()
}

/// Appending a boxed row appends its contents to the model.
proof fn lemma_rows_of_push<T>(s: Seq<Box<[T]>>, row: Box<[T]>)
    ensures
        rows_of(s.push(row)) == rows_of(s).push(row@),
{
    assert(rows_of(s.push(row)) =~= rows_of(s).push(row@));
}

/// Appending a boxed grid appends its contents to the model.
proof fn lemma_planes_of_push<T>(s: Seq<darray_2d<T>>, plane: darray_2d<T>)
    ensures
        planes_of(s.push(plane)) == planes_of(s).push(grid_of(plane)),
{
    assert(planes_of(s.push(plane)) =~= planes_of(s).push(grid_of(plane)));
}

/// A filled grid grows by one filled row.
proof fn lemma_filled_2d_push<T>(rows: nat, cols: nat, value: T)
    ensures
        filled_2d(rows + 1, cols, value) == filled_2d(rows, cols, value).push(
            filled_1d(cols, value),
        ),
{
    assert(filled_2d(rows + 1, cols, value) =~= filled_2d(rows, cols, value).push(
        filled_1d(cols, value),
    ));
}

/// A filled cube grows by one filled plane.
proof fn lemma_filled_3d_push<T>(xdim: nat, ydim: nat, zdim: nat, value: T)
    ensures
        filled_3d(xdim + 1, ydim, zdim, value) == filled_3d(xdim, ydim, zdim, value).push(
            filled_2d(ydim, zdim, value),
        ),
{
    assert(filled_3d(xdim + 1, ydim, zdim, value) =~= filled_3d(xdim, ydim, zdim, value).push(
        filled_2d(ydim, zdim, value),
    ));
}

/// The factory. It has no state: every operation is an associated function
/// that allocates, initialises and hands over one array.
pub struct Harrt;

impl Harrt {
    /// A length-`size` array whose every slot is empty.
    pub fn heap_array_create<T: Clone>(size: usize) -> (a: Box<[Option<T>]>)
        ensures
            a@.len() == size,
            forall|i: int| 0 <= i < size ==> a@[i] is None,
            a@ == filled_1d(size as nat, None::<T>),
    {
        let mut v: Vec<Option<T>> = Vec::new();
        let mut i: usize = 0;
        while i < size
            invariant
                i <= size,
                v@ == filled_1d(i as nat, None::<T>),
            decreases size - i,
        {
            v.push(None);
            i = i + 1;
        }
        into_boxed(v)
    }

    /// A length-`size` array whose every slot holds `value`.
    pub fn heap_array_fill<T: Copy>(size: usize, value: T) -> (a: Box<[T]>)
        ensures
            a@.len() == size,
            forall|i: int| 0 <= i < size ==> a@[i] == value,
            a@ == filled_1d(size as nat, value),
    {
        let mut v: Vec<T> = Vec::new();
        let mut i: usize = 0;
        while i < size
            invariant
                i <= size,
                v@ == filled_1d(i as nat, value),
            decreases size - i,
        {
            v.push(value);
            i = i + 1;
        }
        into_boxed(v)
    }

    /// A length-`size` array of zeros.
    pub fn heap_array_zeros_i32(size: usize) -> (a: Box<[i32]>)
        ensures
            a@.len() == size,
            forall|i: int| 0 <= i < size ==> a@[i] == 0,
            a@ == filled_1d(size as nat, 0i32),
    {
        Self::heap_array_fill(size, 0i32)
    }

    /// `rows_size` rows of `cols_size` empty slots. Each row is allocated on
    /// its own.
    pub fn heap_array2d_create<T: Clone>(
        rows_size: usize,
        cols_size: usize,
    ) -> (a: darray_2d<Option<T>>)
        ensures
            is_grid(grid_of(a), rows_size as nat, cols_size as nat),
            forall|i: int, j: int|
                0 <= i < rows_size && 0 <= j < cols_size ==> grid_of(a)[i][j] is None,
            grid_of(a) == filled_2d(rows_size as nat, cols_size as nat, None::<T>),
    {
        let mut v: Vec<Box<[Option<T>]>> = Vec::new();
        let mut i: usize = 0;
        while i < rows_size
            invariant
                i <= rows_size,
                rows_of(v@) == filled_2d(i as nat, cols_size as nat, None::<T>),
            decreases rows_size - i,
        {
            let row = Self::heap_array_create(cols_size);
            proof {
                lemma_rows_of_push(v@, row);
                lemma_filled_2d_push(i as nat, cols_size as nat, None::<T>);
            }
            v.push(row);
            i = i + 1;
        }
        into_boxed(v)
    }

    /// `rows_size` rows of `cols_size` slots that hold `value`. Each row is
    /// allocated on its own.
    pub fn heap_array2d_fill<T: Copy>(
        rows_size: usize,
        cols_size: usize,
        value: T,
    ) -> (a: darray_2d<T>)
        ensures
            is_grid(grid_of(a), rows_size as nat, cols_size as nat),
            forall|i: int, j: int|
                0 <= i < rows_size && 0 <= j < cols_size ==> grid_of(a)[i][j] == value,
            grid_of(a) == filled_2d(rows_size as nat, cols_size as nat, value),
    {
        let mut v: Vec<Box<[T]>> = Vec::new();
        let mut i: usize = 0;
        while i < rows_size
            invariant
                i <= rows_size,
                rows_of(v@) == filled_2d(i as nat, cols_size as nat, value),
            decreases rows_size - i,
        {
            let row = Self::heap_array_fill(cols_size, value);
            proof {
                lemma_rows_of_push(v@, row);
                lemma_filled_2d_push(i as nat, cols_size as nat, value);
            }
            v.push(row);
            i = i + 1;
        }
        into_boxed(v)
    }

    /// `rows_size` rows of `cols_size` zeros.
    pub fn heap_array2d_zeros_i32(rows_size: usize, cols_size: usize) -> (a: darray_2d<i32>)
        ensures
            is_grid(grid_of(a), rows_size as nat, cols_size as nat),
            forall|i: int, j: int|
                0 <= i < rows_size && 0 <= j < cols_size ==> grid_of(a)[i][j] == 0,
            grid_of(a) == filled_2d(rows_size as nat, cols_size as nat, 0i32),
    {
        Self::heap_array2d_fill(rows_size, cols_size, 0i32)
    }

    /// `xdim_size` planes of `ydim_size` rows of `zdim_size` empty slots.
    /// Each plane and each row is allocated on its own.
    pub fn heap_array3d_create<T: Clone>(
        xdim_size: usize,
        ydim_size: usize,
        zdim_size: usize,
    ) -> (a: darray_3d<Option<T>>)
        ensures
            is_cube(cube_of(a), xdim_size as nat, ydim_size as nat, zdim_size as nat),
            forall|i: int, j: int, k: int|
                0 <= i < xdim_size && 0 <= j < ydim_size && 0 <= k < zdim_size
                    ==> cube_of(a)[i][j][k] is None,
            cube_of(a) == filled_3d(
                xdim_size as nat,
                ydim_size as nat,
                zdim_size as nat,
                None::<T>,
            ),
    {
        let mut v: Vec<darray_2d<Option<T>>> = Vec::new();
        let mut i: usize = 0;
        while i < xdim_size
            invariant
                i <= xdim_size,
                planes_of(v@) == filled_3d(
                    i as nat,
                    ydim_size as nat,
                    zdim_size as nat,
                    None::<T>,
                ),
            decreases xdim_size - i,
        {
            let plane = Self::heap_array2d_create(ydim_size, zdim_size);
            proof {
                lemma_planes_of_push(v@, plane);
                lemma_filled_3d_push(i as nat, ydim_size as nat, zdim_size as nat, None::<T>);
            }
            v.push(plane);
            i = i + 1;
        }
        into_boxed(v)
    }

    /// `xdim_size` planes of `ydim_size` rows of `zdim_size` slots that hold
    /// `value`. Each plane and each row is allocated on its own.
    pub fn heap_array3d_fill<T: Copy>(
        xdim_size: usize,
        ydim_size: usize,
        zdim_size: usize,
        value: T,
    ) -> (a: darray_3d<T>)
        ensures
            is_cube(cube_of(a), xdim_size as nat, ydim_size as nat, zdim_size as nat),
            forall|i: int, j: int, k: int|
                0 <= i < xdim_size && 0 <= j < ydim_size && 0 <= k < zdim_size
                    ==> cube_of(a)[i][j][k] == value,
            cube_of(a) == filled_3d(xdim_size as nat, ydim_size as nat, zdim_size as nat, value),
    {
        let mut v: Vec<darray_2d<T>> = Vec::new();
        let mut i: usize = 0;
        while i < xdim_size
            invariant
                i <= xdim_size,
                planes_of(v@) == filled_3d(i as nat, ydim_size as nat, zdim_size as nat, value),
            decreases xdim_size - i,
        {
            let plane = Self::heap_array2d_fill(ydim_size, zdim_size, value);
            proof {
                lemma_planes_of_push(v@, plane);
                lemma_filled_3d_push(i as nat, ydim_size as nat, zdim_size as nat, value);
            }
            v.push(plane);
            i = i + 1;
        }
        into_boxed(v)
    }

    /// `xdim_size` planes of `ydim_size` rows of `zdim_size` zeros.
    pub fn heap_array3d_zeros_i32(
        xdim_size: usize,
        ydim_size: usize,
        zdim_size: usize,
    ) -> (a: darray_3d<i32>)
        ensures
            is_cube(cube_of(a), xdim_size as nat, ydim_size as nat, zdim_size as nat),
            forall|i: int, j: int, k: int|
                0 <= i < xdim_size && 0 <= j < ydim_size && 0 <= k < zdim_size
                    ==> cube_of(a)[i][j][k] == 0,
            cube_of(a) == filled_3d(xdim_size as nat, ydim_size as nat, zdim_size as nat, 0i32),
    {
        Self::heap_array3d_fill(xdim_size, ydim_size, zdim_size, 0i32)
    }

    /// Writes `value` into the cell at (`row`, `col`). No other cell
    /// changes, in that row or in any other.
    pub fn heap_array2d_set<T>(arr: &mut darray_2d<T>, row: usize, col: usize, value: T)
        requires
            row < grid_of(*old(arr)).len(),
            col < grid_of(*old(arr))[row as int].len(),
        ensures
            grid_of(*final(arr)) == grid_with(
                grid_of(*old(arr)),
                row as int,
                col as int,
                value,
            ),
    {
        arr[row][col] = value;
    }

    /// Writes `value` into the cell at (`x`, `y`, `z`). No other cell
    /// changes, in that row, in that plane or in any other.
    pub fn heap_array3d_set<T>(arr: &mut darray_3d<T>, x: usize, y: usize, z: usize, value: T)
        requires
            x < cube_of(*old(arr)).len(),
            y < cube_of(*old(arr))[x as int].len(),
            z < cube_of(*old(arr))[x as int][y as int].len(),
        ensures
            cube_of(*final(arr)) == cube_with(
                cube_of(*old(arr)),
                x as int,
                y as int,
                z as int,
                value,
            ),
    {
        arr[x][y][z] = value;
        proof {
            assert(cube_of(*arr)[x as int] =~= grid_with(
                cube_of(*old(arr))[x as int],
                y as int,
                z as int,
                value,
            ));
            assert(cube_of(*arr) =~= cube_with(
                cube_of(*old(arr)),
                x as int,
                y as int,
                z as int,
                value,
            ));
        }
    }
}

/// A filled grid is rectangular and holds the fill value in every cell.
pub proof fn lemma_filled_2d<T>(rows: nat, cols: nat, value: T)
    ensures
        is_grid(filled_2d(rows, cols, value), rows, cols),
        forall|i: int, j: int|
            0 <= i < rows && 0 <= j < cols ==> filled_2d(rows, cols, value)[i][j] == value,
{
}

/// A filled cube is rectangular in all three dimensions and holds the fill
/// value in every cell.
pub proof fn lemma_filled_3d<T>(xdim: nat, ydim: nat, zdim: nat, value: T)
    ensures
        is_cube(filled_3d(xdim, ydim, zdim, value), xdim, ydim, zdim),
        forall|i: int, j: int, k: int|
            0 <= i < xdim && 0 <= j < ydim && 0 <= k < zdim ==> filled_3d(
                xdim,
                ydim,
                zdim,
                value,
            )[i][j][k] == value,
{
}

/// Rows are independent: writing one cell keeps the shape of the grid, keeps
/// every other row as it was, and keeps every other cell of the written row.
pub proof fn lemma_grid_write_is_local<T>(g: Seq<Seq<T>>, row: int, col: int, value: T)
    requires
        0 <= row < g.len(),
        0 <= col < g[row].len(),
    ensures
        grid_with(g, row, col, value).len() == g.len(),
        forall|i: int| 0 <= i < g.len() ==> grid_with(g, row, col, value)[i].len() == g[i].len(),
        forall|i: int| 0 <= i < g.len() && i != row ==> grid_with(g, row, col, value)[i] == g[i],
        forall|j: int|
            0 <= j < g[row].len() && j != col ==> grid_with(g, row, col, value)[row][j]
                == g[row][j],
        grid_with(g, row, col, value)[row][col] == value,
        forall|rows: nat, cols: nat|
            is_grid(g, rows, cols) ==> is_grid(grid_with(g, row, col, value), rows, cols),
{
}

/// Planes and rows are independent: writing one cell keeps the shape of the
/// cube, keeps every other plane as it was, keeps every other row of the
/// written plane, and keeps every other cell of the written row.
pub proof fn lemma_cube_write_is_local<T>(c: Seq<Seq<Seq<T>>>, x: int, y: int, z: int, value: T)
    requires
        0 <= x < c.len(),
        0 <= y < c[x].len(),
        0 <= z < c[x][y].len(),
    ensures
        cube_with(c, x, y, z, value).len() == c.len(),
        forall|i: int| 0 <= i < c.len() && i != x ==> cube_with(c, x, y, z, value)[i] == c[i],
        cube_with(c, x, y, z, value)[x].len() == c[x].len(),
        forall|j: int|
            0 <= j < c[x].len() && j != y ==> cube_with(c, x, y, z, value)[x][j] == c[x][j],
        cube_with(c, x, y, z, value)[x][y].len() == c[x][y].len(),
        forall|k: int|
            0 <= k < c[x][y].len() && k != z ==> cube_with(c, x, y, z, value)[x][y][k]
                == c[x][y][k],
        cube_with(c, x, y, z, value)[x][y][z] == value,
        forall|xdim: nat, ydim: nat, zdim: nat|
            is_cube(c, xdim, ydim, zdim) ==> is_cube(
                cube_with(c, x, y, z, value),
                xdim,
                ydim,
                zdim,
            ),
{
}

} // verus!
