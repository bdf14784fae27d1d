//! The arrays that hold a grid's payload.
//!
//! Both are `ndarray` arrays of 64-bit words. Verus cannot look inside them,
//! so each array type comes with a named model of its contents, and the few
//! `ndarray` calls that the decoder makes are stated over those models.

use vstd::prelude::*;
use crate::value::Binary64;

verus! {

/// The error with which `ndarray` refuses a shape.
#[verifier::external_type_specification]
#[verifier::external_body]
pub struct ExShapeError(ndarray::ShapeError);

/// A dense two-dimensional array of 64-bit words, indexed (row, column).
///
/// The words live in an `ndarray::Array2<u64>`; what the array holds is
/// modelled by [`lattice_cells`] and [`lattice_columns`].
#[verifier::external_body]
#[derive(Debug)]
pub struct Lattice {
    cells: ndarray::Array2<u64>,
}

/// The rows of a lattice, first row first, each row first column first.
pub uninterp spec fn lattice_cells(lattice: Lattice) -> Seq<Seq<u64>>;

/// The length of the second axis of a lattice (known even where it has no row).
pub uninterp spec fn lattice_columns(lattice: Lattice) -> nat;

/// A dense three-dimensional array of 64-bit words.
///
/// The words live in an `ndarray::Array3<u64>`; what the array holds is
/// modelled by [`mesh_cells`] and [`mesh_shape`].
#[verifier::external_body]
#[derive(Debug)]
pub struct Mesh {
    cells: ndarray::Array3<u64>,
}

/// The words of a mesh, indexed by first, second and third axis in turn.
pub uninterp spec fn mesh_cells(mesh: Mesh) -> Seq<Seq<Seq<u64>>>;

/// The lengths of the three axes of a mesh.
pub uninterp spec fn mesh_shape(mesh: Mesh) -> (nat, nat, nat);

/// An axis length as `ndarray` counts it when it bounds a shape's size:
/// an empty axis counts as one.
pub open spec fn counted(axis: usize) -> int {
    if axis == 0 {
        1
    } else {
        axis as int
    }
}

/// Strides under which a three-axis shape addresses distinct words of a
/// buffer of `len` words: no axis is empty, the second axis varies fastest,
/// then the third, then the first, each stride steps over all that the
/// faster axes can reach, and the furthest word lies inside the buffer.
pub open spec fn strides_fit(
    shape: (usize, usize, usize),
    strides: (usize, usize, usize),
    len: nat,
) -> bool {
    &&& shape.0 > 0 && shape.1 > 0 && shape.2 > 0
    &&& 0 < strides.1 < strides.2 < strides.0 <= isize::MAX
    &&& (shape.1 - 1) * strides.1 < strides.2
    &&& (shape.1 - 1) * strides.1 + (shape.2 - 1) * strides.2 < strides.0
    &&& (shape.0 - 1) * strides.0 + (shape.1 - 1) * strides.1 + (shape.2 - 1) * strides.2 < len
}

/// `ndarray::Array2::from_shape_vec` with a (rows, columns) shape in the
/// default row-major layout.
///
/// The call succeeds exactly when the buffer holds `rows * columns` words
/// and the product of the non-empty axis lengths fits in `isize`; the array
/// then has that shape and holds word `r * columns + c` of the buffer at
/// (r, c).
#[verifier::external_body]
fn lattice_from_vec(rows: usize, columns: usize, words: Vec<u64>) -> (made: Result<Lattice, ndarray::ShapeError>)
    ensures
        made is Ok <==> (rows * columns == words@.len() && counted(rows) * counted(columns)
            <= isize::MAX),
        made is Ok ==> lattice_cells(made->Ok_0).len() == rows && lattice_columns(made->Ok_0)
            == columns,
        made is Ok ==> (forall|r: int|
            0 <= r < rows ==> (#[trigger] lattice_cells(made->Ok_0)[r]).len() == columns),
        made is Ok ==> (forall|r: int, c: int|
            0 <= r < rows && 0 <= c < columns ==> #[trigger] lattice_cells(made->Ok_0)[r][c]
                == words@[r * columns + c]),
{
    ndarray::Array2::from_shape_vec((rows, columns), words).map(|cells| Lattice { cells })
}

/// `ndarray::ArrayBase::dim` on a two-dimensional array: its (rows, columns).
#[verifier::external_body]
fn lattice_dim(lattice: &Lattice) -> (dim: (usize, usize))
    ensures
        dim.0 == lattice_cells(*lattice).len(),
        dim.1 == lattice_columns(*lattice),
{
    lattice.cells.dim()
}

/// `ndarray::ArrayBase::get` on a two-dimensional array: the word at
/// (row, column), or nothing where either index is out of bounds.
#[verifier::external_body]
fn lattice_get(lattice: &Lattice, row: usize, column: usize) -> (word: Option<u64>)
    ensures
        word == (if row < lattice_cells(*lattice).len() && column < lattice_columns(*lattice) {
            Some(lattice_cells(*lattice)[row as int][column as int])
        } else {
            None
        }),
{
    lattice.cells.get((row, column)).copied()
}

/// `ndarray::Array3::from_shape_vec` with a three-axis shape and custom
/// strides, counted in words.
///
/// `ndarray` reads each stride as an `isize`, so none may exceed
/// `isize::MAX`. Where the strides fit the buffer (see [`strides_fit`]) the
/// call succeeds, and the array then holds at (i, j, k) the word of the
/// buffer that the strides point to. Whenever it succeeds the array has the
/// given shape.
#[verifier::external_body]
fn mesh_from_vec(
    shape: (usize, usize, usize),
    strides: (usize, usize, usize),
    words: Vec<u64>,
) -> (made: Result<Mesh, ndarray::ShapeError>)
    requires
        strides.0 <= isize::MAX,
        strides.1 <= isize::MAX,
        strides.2 <= isize::MAX,
    ensures
        strides_fit(shape, strides, words@.len()) ==> made is Ok,
        made is Ok ==> mesh_shape(made->Ok_0).0 == shape.0 && mesh_shape(made->Ok_0).1
            == shape.1 && mesh_shape(made->Ok_0).2 == shape.2,
        made is Ok ==> nested(mesh_cells(made->Ok_0), mesh_shape(made->Ok_0)),
        made is Ok && strides_fit(shape, strides, words@.len()) ==> (forall|
            i: int,
            j: int,
            k: int,
        |
            0 <= i < shape.0 && 0 <= j < shape.1 && 0 <= k < shape.2 ==> #[trigger] mesh_cells(
                made->Ok_0,
            )[i][j][k] == words@[i * strides.0 + j * strides.1 + k * strides.2]),
{
    ndarray::Array3::from_shape_vec(ndarray::ShapeBuilder::strides(shape, strides), words).map(
        |cells| Mesh { cells },
    )
}

/// `ndarray::ArrayBase::dim` on a three-dimensional array: its axis lengths.
#[verifier::external_body]
fn mesh_dim(mesh: &Mesh) -> (dim: (usize, usize, usize))
    ensures
        dim.0 == mesh_shape(*mesh).0 && dim.1 == mesh_shape(*mesh).1 && dim.2 == mesh_shape(
            *mesh,
        ).2,
{
    mesh.cells.dim()
}

/// `ndarray::ArrayBase::get` on a three-dimensional array: the word at
/// (i, j, k), or nothing where an index is out of bounds.
#[verifier::external_body]
fn mesh_get(mesh: &Mesh, i: usize, j: usize, k: usize) -> (word: Option<u64>)
    ensures
        word == (if i < mesh_shape(*mesh).0 && j < mesh_shape(*mesh).1 && k < mesh_shape(*mesh).2 {
            Some(mesh_cells(*mesh)[i as int][j as int][k as int])
        } else {
            None
        }),
{
    mesh.cells.get((i, j, k)).copied()
}

/// The nesting of `cells` follows `shape`.
pub open spec fn nested(cells: Seq<Seq<Seq<u64>>>, shape: (nat, nat, nat)) -> bool {
    &&& cells.len() == shape.0
    &&& forall|i: int| 0 <= i < shape.0 ==> (#[trigger] cells[i]).len() == shape.1
    &&& forall|i: int, j: int|
        0 <= i < shape.0 && 0 <= j < shape.1 ==> (#[trigger] cells[i][j]).len() == shape.2
}

impl Clone for Lattice {
    /// `Clone::clone` of the `ndarray` array: a lattice of the same shape
    /// that holds the same words.
    #[verifier::external_body]
    fn clone(&self) -> (copy: Self)
        ensures
            lattice_cells(copy) == lattice_cells(*self),
            lattice_columns(copy) == lattice_columns(*self),
    {
        Lattice { cells: self.cells.clone() }
    }
}

impl Clone for Mesh {
    /// `Clone::clone` of the `ndarray` array: a mesh of the same shape that
    /// holds the same words.
    #[verifier::external_body]
    fn clone(&self) -> (copy: Self)
        ensures
            mesh_cells(copy) == mesh_cells(*self),
            mesh_shape(copy) == mesh_shape(*self),
    {
        Mesh { cells: self.cells.clone() }
    }
}

impl Lattice {
    /// The rows of the lattice, each a sequence of words.
    pub open spec fn view(&self) -> Seq<Seq<u64>> {
        lattice_cells(*self)
    }

    /// The number of rows.
    pub open spec fn rows(&self) -> nat {
        self@.len()
    }

    /// The number of columns.
    pub open spec fn columns(&self) -> nat {
        lattice_columns(*self)
    }

    /// Every row has as many words as the lattice has columns.
    pub open spec fn well_formed(&self) -> bool {
        forall|r: int| 0 <= r < self.rows() ==> (#[trigger] self@[r]).len() == self.columns()
    }

    /// Makes a lattice of `rows` × `columns` from words in row-major order:
    /// the rows follow one another, the row varying slowest.
    ///
    /// There is a lattice exactly when the words are `rows * columns` in
    /// number and the shape can be addressed, which asks that the product
    /// of its non-empty axis lengths fits in `isize`.
    pub fn from_row_major(rows: usize, columns: usize, words: Vec<u64>) -> (made: Option<Lattice>)
        ensures
            made is Some <==> rows * columns == words@.len() && counted(rows) * counted(columns)
                <= isize::MAX,
            made is Some ==> {
                let lattice = made->0;
                &&& lattice.rows() == rows
                &&& lattice.columns() == columns
                &&& lattice.well_formed()
                &&& forall|r: int, c: int|
                    0 <= r < rows && 0 <= c < columns ==> #[trigger] lattice@[r][c] == words@[r
                        * columns + c]
            },
    {
        match lattice_from_vec(rows, columns, words) {
            Ok(lattice) => Some(lattice),
            Err(_) => None,
        }
    }

    /// The shape of the lattice: (rows, columns).
    pub fn dim(&self) -> (dim: (usize, usize))
        ensures
            dim.0 == self.rows(),
            dim.1 == self.columns(),
    {
        lattice_dim(self)
    }

    /// The value at (row, column), where the lattice has such a place.
    pub fn get(&self, row: usize, column: usize) -> (value: Option<Binary64>)
        ensures
            value is Some <==> row < self.rows() && column < self.columns(),
            value is Some ==> value->0.bits == self@[row as int][column as int],
    {
        match lattice_get(self, row, column) {
            Some(bits) => Some(Binary64 { bits }),
            None => None,
        }
    }
}

impl Mesh {
    /// The words of the mesh, indexed by axis in turn.
    pub open spec fn view(&self) -> Seq<Seq<Seq<u64>>> {
        mesh_cells(*self)
    }

    /// The lengths of the three axes.
    pub open spec fn shape(&self) -> (nat, nat, nat) {
        mesh_shape(*self)
    }

    /// The nesting of the words follows the shape.
    pub open spec fn well_formed(&self) -> bool {
        nested(self@, self.shape())
    }

    /// The place of coordinate `coordinate` of vertex `vertex` of triangle
    /// `triangle` among the words of a payload, which stores each triangle
    /// as nine words, coordinate-major: the three *x*, then the three *y*,
    /// then the three *z*.
    pub open spec fn word_index(triangle: int, vertex: int, coordinate: int) -> int {
        9 * triangle + vertex + 3 * coordinate
    }

    /// Makes the mesh of `triangles` triangles from the words of a payload
    /// in coordinate-major order, addressed (triangle, vertex, coordinate).
    ///
    /// There is a mesh exactly when there is at least one triangle and the
    /// words are nine for each.
    pub fn from_coordinate_major(triangles: usize, words: Vec<u64>) -> (made: Option<Mesh>)
        ensures
            made is Some <==> triangles >= 1 && words@.len() == 9 * triangles,
            made is Some ==> {
                let mesh = made->0;
                &&& mesh.shape() == (triangles as nat, 3nat, 3nat)
                &&& mesh.well_formed()
                &&& forall|t: int, v: int, c: int|
                    0 <= t < triangles && 0 <= v < 3 && 0 <= c < 3 ==> #[trigger] mesh@[t][v][c]
                        == words@[Self::word_index(t, v, c)]
            },
    {
        if triangles == 0 || words.len() / 9 != triangles || words.len() % 9 != 0 {
            return None;
        }
        match mesh_from_vec((triangles, 3, 3), (9, 1, 3), words) {
            Ok(mesh) => Some(mesh),
            Err(_) => None,
        }
    }

    /// The shape of the mesh: the lengths of its three axes.
    pub fn dim(&self) -> (dim: (usize, usize, usize))
        ensures
            (dim.0 as nat, dim.1 as nat, dim.2 as nat) == self.shape(),
    {
        mesh_dim(self)
    }

    /// The value at (i, j, k), where the mesh has such a place.
    pub fn get(&self, i: usize, j: usize, k: usize) -> (value: Option<Binary64>)
        ensures
            value is Some <==> i < self.shape().0 && j < self.shape().1 && k < self.shape().2,
            value is Some ==> value->0.bits == self@[i as int][j as int][k as int],
    {
        match mesh_get(self, i, j, k) {
            Some(bits) => Some(Binary64 { bits }),
            None => None,
        }
    }
}

} // verus!
