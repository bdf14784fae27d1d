//! The decoded grid, and the decoder.

use vstd::prelude::*;
use crate::array::{counted, Lattice, Mesh};
use crate::error::Error;
use crate::header::{header_at, header_of, scalars_end, xyunits_end, zunits_end, Header, HeaderView};
use crate::layout::{
    DATUM_LEN, DATUM_OFFSET, GRID_OFFSET, PROJ_LEN, PROJ_OFFSET, SOURCE_LEN, SOURCE_OFFSET,
    TRIANGLE_LEN, UNK_LEN, UNK_PROJ_DATUM_OFFSET, XYUNITS_OFFSET, ZUNITS_OFFSET,
};
use crate::reader::{u32_at, u64_at, Reader};
use crate::text::{read_petra_string, text_at};
use crate::units::UnitOfMeasure;
use crate::value::Binary64;

verus! {

/// What the caller found when it held the extents of a header against
/// their steps.
///
/// The *x* extent is consistent where
/// `|xmin + (columns - 1) * xstep - xmax| / |xmax| <= 1e-4`, and the *y*
/// extent where `|ymin + (columns - 1) * ystep - ymax| / |ymax| <= 1e-4`.
/// The check of *y* counts columns, not rows, as the files observed were
/// checked; this is suspect and kept. Both comparisons are made in
/// floating point, which this library leaves to its caller: see
/// [`Header::read`] for the numbers to compare.
#[derive(Copy, Clone, Debug, PartialEq, Eq, Structural)]
pub struct ExtentCheck {
    /// the *x* extent is within tolerance of its step and the column count
    pub x_consistent: bool,
    /// the *y* extent is within tolerance of its step and the column count
    pub y_consistent: bool,
}

/// the actual grid data of a Petra grid
#[derive(Debug)]
pub enum GridData {
    /// a rectangular (rows × columns) grid
    ///
    /// each data element is a measurement in the *z* dimension; the *x* and
    /// *y* values are implicit (see the `xmin`, ...) values in [Grid]
    Rectangular(Lattice),
    /// a triangular (n_triangles × 3 vertices × 3 dimensions) grid
    ///
    /// each triangle is represented as (*x*, *y*, *z*) triplets
    Triangular(Mesh),
}

/// The payload of a grid as a mathematical value: the bit patterns of its
/// numbers, nested by index.
pub enum GridDataView {
    /// indexed (row, column)
    Rectangular(Seq<Seq<u64>>),
    /// indexed (triangle, vertex, coordinate)
    Triangular(Seq<Seq<Seq<u64>>>),
}

impl View for GridData {
    type V = GridDataView;

    open spec fn view(&self) -> GridDataView {
        match self {
            GridData::Rectangular(lattice) => GridDataView::Rectangular(lattice@),
            GridData::Triangular(mesh) => GridDataView::Triangular(mesh@),
        }
    }
}

impl Clone for GridData {
    /// A payload of the same kind and shape that holds the same numbers.
    fn clone(&self) -> (copy: Self)
        ensures
            copy@ == self@,
            forall|rows: u32, columns: u32, n_triangles: u32|
                self.shaped(rows, columns, n_triangles) ==> copy.shaped(rows, columns, n_triangles),
    {
        match self {
            GridData::Rectangular(lattice) => GridData::Rectangular(lattice.clone()),
            GridData::Triangular(mesh) => GridData::Triangular(mesh.clone()),
        }
    }
}

/// a Petra grid
#[derive(Debug)]
pub struct Grid {
    /// we think this is the version number; always 2, as far as we can tell
    pub version: u32,
    /// the grid name
    pub name: String,
    /// the "size" (rows × columns) for a rectangular grid; perhaps it's the
    /// pre-triangulation size for triangular grids?
    pub size: u32,
    /// the number of rows (in the *y* dimension) for a rectangular grid;
    /// perhaps it's the pre-triangulation row count for triangular grids?
    pub rows: u32,
    /// the number of columns (in the *x* dimension) for a rectangular grid;
    /// perhaps it's the pre-triangulation column count for triangular grids?
    pub columns: u32,
    /// the number of triangles; zero for rectangular grids
    pub n_triangles: u32,
    /// minimum bound in the *x* dimension
    pub xmin: Binary64,
    /// maximum bound in the *x* dimension
    pub xmax: Binary64,
    /// minimum bound in the *y* dimension
    pub ymin: Binary64,
    /// maximum bound in the *y* dimension
    pub ymax: Binary64,
    /// step in the *x* dimension
    pub xstep: Binary64,
    /// step in the *y* dimension
    pub ystep: Binary64,
    /// minimum value in the *z* dimension
    pub zmin: Binary64,
    /// maximum value in the *z* dimension
    pub zmax: Binary64,
    /// units of measure in the *x* and *y* dimensions
    pub xyunits: UnitOfMeasure,
    /// units of measure in the *z* dimension
    pub zunits: UnitOfMeasure,
    /// date of creation (possibly of last modification?), in days since
    /// 1899-12-30T00:00:00; the fraction of a day is the time of day
    pub created_date: Binary64,
    /// we think this is used to describe the source of the data used
    /// in gridding
    pub source_data: String,
    /// we don't know what this means; as far as we can tell, it's always
    /// `"C66"`
    pub unknown_metadata: String,
    /// we think this string describes the map projection (e.g. "TX-27C")
    pub projection: String,
    /// we think this string describes the map datum (e.g. "NAD27")
    pub datum: String,
    /// we think this number is used to describe the gridding method, but
    /// we're not sure how
    pub grid_method: u32,
    /// likewise, we think this stores values of an enumeration describing
    /// the map projection, but we don't know how to decode it
    pub projection_code: u32,
    /// logged as "CM": "central meridian" perhaps?
    pub cm: Binary64,
    /// logged as "RLAT": "reference latitude" perhaps?
    pub rlat: Binary64,
    /// the actual grid data, according to its inferred format
    pub data: GridData,
}

/// A grid as a mathematical value.
pub struct GridView {
    /// the scalar fields
    pub head: HeaderView,
    pub source_data: Seq<char>,
    pub unknown_metadata: Seq<char>,
    pub projection: Seq<char>,
    pub datum: Seq<char>,
    pub data: GridDataView,
}

impl View for Grid {
    type V = GridView;

    open spec fn view(&self) -> GridView {
        GridView {
            head: HeaderView {
                version: self.version,
                name: self.name@,
                size: self.size,
                rows: self.rows,
                columns: self.columns,
                n_triangles: self.n_triangles,
                xmin: self.xmin,
                xmax: self.xmax,
                ymin: self.ymin,
                ymax: self.ymax,
                xstep: self.xstep,
                ystep: self.ystep,
                zmin: self.zmin,
                zmax: self.zmax,
                xyunits: self.xyunits,
                zunits: self.zunits,
                created_date: self.created_date,
                grid_method: self.grid_method,
                projection_code: self.projection_code,
                cm: self.cm,
                rlat: self.rlat,
            },
            source_data: self.source_data@,
            unknown_metadata: self.unknown_metadata@,
            projection: self.projection@,
            datum: self.datum@,
            data: self.data@,
        }
    }
}

impl Clone for Grid {
    /// A grid that holds the same fields and the same payload.
    fn clone(&self) -> (copy: Self)
        ensures
            copy@ == self@,
            self.well_formed() ==> copy.well_formed(),
    {
        Grid {
            version: self.version,
            name: self.name.clone(),
            size: self.size,
            rows: self.rows,
            columns: self.columns,
            n_triangles: self.n_triangles,
            xmin: self.xmin,
            xmax: self.xmax,
            ymin: self.ymin,
            ymax: self.ymax,
            xstep: self.xstep,
            ystep: self.ystep,
            zmin: self.zmin,
            zmax: self.zmax,
            xyunits: self.xyunits,
            zunits: self.zunits,
            created_date: self.created_date,
            source_data: self.source_data.clone(),
            unknown_metadata: self.unknown_metadata.clone(),
            projection: self.projection.clone(),
            datum: self.datum.clone(),
            grid_method: self.grid_method,
            projection_code: self.projection_code,
            cm: self.cm,
            rlat: self.rlat,
            data: self.data.clone(),
        }
    }
}

/// The number of bytes that follow the header: what lies from the payload
/// offset to the end of the source, nothing where the source ends earlier.
pub open spec fn payload_len(source: Seq<u8>) -> nat {
    if source.len() >= GRID_OFFSET {
        (source.len() - GRID_OFFSET) as nat
    } else {
        0
    }
}

/// The word of the payload that lies `offset` bytes into it.
pub open spec fn payload_word(source: Seq<u8>, offset: int) -> u64 {
    u64_at(source, GRID_OFFSET + offset)
}

/// The payload of `source` read as `rows` × `columns` numbers in row-major
/// order: the number at (r, c) lies `8 * (r * columns + c)` bytes into it.
pub open spec fn rectangular_at(source: Seq<u8>, rows: nat, columns: nat) -> Seq<Seq<u64>> {
    Seq::new(
        rows,
        |r: int| Seq::new(columns, |c: int| payload_word(source, 8 * (r * columns + c))),
    )
}

/// The payload of `source` read as `triangles` triangles, each stored
/// coordinate-major: coordinate `c` of vertex `v` of triangle `t` lies
/// `72 * t + 8 * v + 24 * c` bytes into it.
pub open spec fn triangular_at(source: Seq<u8>, triangles: nat) -> Seq<Seq<Seq<u64>>> {
    Seq::new(
        triangles,
        |t: int|
            Seq::new(
                3,
                |v: int| Seq::new(3, |c: int| payload_word(source, 72 * t + 8 * v + 24 * c)),
            ),
    )
}

/// The first thing that is wrong with a grid whose header is `head`, where
/// anything is, in the order in which the decoder looks.
pub open spec fn fault_of(source: Seq<u8>, head: HeaderView, check: ExtentCheck) -> Option<Error> {
    let trailing = payload_len(source);
    if !check.x_consistent {
        Some(Error::InvalidXSpec(head.xmin, head.xmax, head.xstep, head.columns))
    } else if !check.y_consistent {
        Some(Error::InvalidYSpec(head.ymin, head.ymax, head.ystep, head.columns))
    } else if head.n_triangles == 0 && trailing != 8 * head.size {
        Some(Error::InvalidRectangularSize(head.size, trailing as u64))
    } else if head.n_triangles > 0 && trailing != TRIANGLE_LEN * head.size {
        Some(Error::InvalidTriangleCount(head.n_triangles, trailing as u64))
    } else if source.len() < GRID_OFFSET {
        // one of the trailing strings, which end where the payload starts
        Some(Error::UnexpectedEof)
    } else if head.n_triangles > 0 && trailing < TRIANGLE_LEN * head.n_triangles {
        Some(Error::UnexpectedEof)
    } else if head.n_triangles == 0 && counted(head.rows as usize) * counted(head.columns as usize)
        > isize::MAX {
        Some(Error::ShapeTooLarge(head.rows, head.columns))
    } else {
        None
    }
}

/// The payload of a grid whose header is `head`.
pub open spec fn data_of(source: Seq<u8>, head: HeaderView) -> GridDataView {
    if head.n_triangles == 0 {
        GridDataView::Rectangular(rectangular_at(source, head.rows as nat, head.columns as nat))
    } else {
        GridDataView::Triangular(triangular_at(source, head.n_triangles as nat))
    }
}

/// What decoding `source` comes to, given what the caller found of its
/// extents.
pub open spec fn grid_of(source: Seq<u8>, check: ExtentCheck) -> Result<GridView, Error> {
    match header_of(source) {
        Err(e) => Err(e),
        Ok(head) => match fault_of(source, head, check) {
            Some(e) => Err(e),
            None => Ok(
                GridView {
                    head,
                    source_data: text_at(source, SOURCE_OFFSET as int, SOURCE_LEN as int),
                    unknown_metadata: text_at(source, UNK_PROJ_DATUM_OFFSET as int, UNK_LEN as int),
                    projection: text_at(source, PROJ_OFFSET as int, PROJ_LEN as int),
                    datum: text_at(source, DATUM_OFFSET as int, DATUM_LEN as int),
                    data: data_of(source, head),
                },
            ),
        },
    }
}

impl GridData {
    /// The payload has the shape that a header with these counts declares.
    pub open spec fn shaped(&self, rows: u32, columns: u32, n_triangles: u32) -> bool {
        match self {
            GridData::Rectangular(lattice) => {
                &&& n_triangles == 0
                &&& lattice.rows() == rows
                &&& lattice.columns() == columns
                &&& lattice.well_formed()
            },
            GridData::Triangular(mesh) => {
                &&& n_triangles > 0
                &&& mesh.shape() == (n_triangles as nat, 3nat, 3nat)
                &&& mesh.well_formed()
            },
        }
    }
}

impl Grid {
    /// What holds of every grid that the decoder makes: the size is
    /// rows × columns, and the payload has the declared shape.
    pub open spec fn well_formed(&self) -> bool {
        &&& self.rows * self.columns == self.size
        &&& self.data.shaped(self.rows, self.columns, self.n_triangles)
    }

    /// read a Petra [Grid] from the whole of its file
    ///
    /// `check` says whether the extents of the header are consistent with
    /// their steps (see [`ExtentCheck`]); the decoder takes it up at the
    /// point where that is checked, after the header has been read.
    pub fn read(source: &[u8], check: ExtentCheck) -> (read: Result<Grid, Error>)
        ensures
            read is Ok ==> grid_of(source@, check) == Ok::<GridView, Error>(read->Ok_0@)
                && read->Ok_0.well_formed(),
            read is Err ==> grid_of(source@, check) == Err::<GridView, Error>(read->Err_0),
    {
        let header = Header::read(source)?;
        let ghost head = header@;
        if !check.x_consistent {
            return Err(
                Error::InvalidXSpec(header.xmin, header.xmax, header.xstep, header.columns),
            );
        }
        if !check.y_consistent {
            return Err(
                Error::InvalidYSpec(header.ymin, header.ymax, header.ystep, header.columns),
            );
        }
        let mut reader = Reader::new(source);
        let source_len = reader.len();
        let data_size: usize = if source_len >= GRID_OFFSET {
            source_len - GRID_OFFSET
        } else {
            0
        };
        let size = header.size;
        let n_triangles = header.n_triangles;
        // the payload has to hold the declared numbers and not a byte more
        if n_triangles == 0 && (data_size % 8 != 0 || data_size / 8 != size as usize) {
            return Err(Error::InvalidRectangularSize(size, data_size as u64));
        }
        if n_triangles > 0 && (data_size % TRIANGLE_LEN != 0 || data_size / TRIANGLE_LEN
            != size as usize) {
            return Err(Error::InvalidTriangleCount(n_triangles, data_size as u64));
        }
        reader.seek(SOURCE_OFFSET);
        let source_data = read_petra_string::<SOURCE_LEN>(&mut reader)?;

        reader.seek(UNK_PROJ_DATUM_OFFSET);
        let unknown_metadata = read_petra_string::<UNK_LEN>(&mut reader)?;
        let projection = read_petra_string::<PROJ_LEN>(&mut reader)?;
        let datum = read_petra_string::<DATUM_LEN>(&mut reader)?;

        reader.seek(GRID_OFFSET);
        let data = if n_triangles == 0 {
            let words = reader.read_words(size as usize)?;
            let rows = header.rows as usize;
            let columns = header.columns as usize;
            match Lattice::from_row_major(rows, columns, words) {
                Some(lattice) => {
                    proof {
                        lemma_rectangular(source@, lattice, words@, rows as nat, columns as nat);
                    }
                    GridData::Rectangular(lattice)
                },
                None => return Err(Error::ShapeTooLarge(header.rows, header.columns)),
            }
        } else {
            // a count of words that cannot be held cannot be in the source
            let count = match (n_triangles as usize).checked_mul(9) {
                Some(count) => count,
                None => return Err(Error::UnexpectedEof),
            };
            let words = reader.read_words(count)?;
            match Mesh::from_coordinate_major(n_triangles as usize, words) {
                Some(mesh) => {
                    proof {
                        lemma_triangular(source@, mesh, words@, n_triangles as nat);
                    }
                    GridData::Triangular(mesh)
                },
                // nine words were read for each of at least one triangle
                None => unreached(),
            }
        };
        Ok(
            Grid {
                version: header.version,
                name: header.name,
                size: header.size,
                rows: header.rows,
                columns: header.columns,
                n_triangles: header.n_triangles,
                xmin: header.xmin,
                xmax: header.xmax,
                ymin: header.ymin,
                ymax: header.ymax,
                xstep: header.xstep,
                ystep: header.ystep,
                zmin: header.zmin,
                zmax: header.zmax,
                xyunits: header.xyunits,
                zunits: header.zunits,
                created_date: header.created_date,
                source_data,
                unknown_metadata,
                projection,
                datum,
                grid_method: header.grid_method,
                projection_code: header.projection_code,
                cm: header.cm,
                rlat: header.rlat,
                data,
            },
        )
    }
}

/// A size that is not rows × columns is reported with those three numbers,
/// whatever the extents and the payload are, once the source holds every
/// scalar field and both of its unit codes are known.
pub proof fn lemma_size_mismatch(source: Seq<u8>, check: ExtentCheck)
    requires
        source.len() >= scalars_end(),
        u32_at(source, XYUNITS_OFFSET as int) <= 1,
        u32_at(source, ZUNITS_OFFSET as int) <= 1,
        header_at(source).rows * header_at(source).columns != header_at(source).size,
    ensures
        grid_of(source, check) == Err::<GridView, Error>(
            Error::SizeMismatch(
                header_at(source).size,
                header_at(source).rows,
                header_at(source).columns,
            ),
        ),
{
}

/// An unknown unit code of *x* and *y* is reported with the code, whatever
/// else the source holds, once the source reaches to the end of that code.
pub proof fn lemma_unknown_xy_unit(source: Seq<u8>, check: ExtentCheck)
    requires
        source.len() >= xyunits_end(),
        u32_at(source, XYUNITS_OFFSET as int) > 1,
    ensures
        grid_of(source, check) == Err::<GridView, Error>(
            Error::InvalidXYUnitOfMeasure(u32_at(source, XYUNITS_OFFSET as int)),
        ),
{
}

/// An unknown unit code of *z* is reported with the code, whatever else the
/// source holds, once the source reaches to the end of that code and the
/// unit code of *x* and *y*, which is judged first, is known.
pub proof fn lemma_unknown_z_unit(source: Seq<u8>, check: ExtentCheck)
    requires
        source.len() >= zunits_end(),
        u32_at(source, XYUNITS_OFFSET as int) <= 1,
        u32_at(source, ZUNITS_OFFSET as int) > 1,
    ensures
        grid_of(source, check) == Err::<GridView, Error>(
            Error::InvalidZUnitOfMeasure(u32_at(source, ZUNITS_OFFSET as int)),
        ),
{
}

/// An extent that the caller found inconsistent is reported with the
/// minimum, maximum and step of its axis and the column count, as the
/// header holds them; *x* is reported before *y*.
pub proof fn lemma_inconsistent_extent(source: Seq<u8>, check: ExtentCheck)
    requires
        header_of(source) is Ok,
        !check.x_consistent || !check.y_consistent,
    ensures
        !check.x_consistent ==> grid_of(source, check) == Err::<GridView, Error>(
            Error::InvalidXSpec(
                header_at(source).xmin,
                header_at(source).xmax,
                header_at(source).xstep,
                header_at(source).columns,
            ),
        ),
        check.x_consistent ==> grid_of(source, check) == Err::<GridView, Error>(
            Error::InvalidYSpec(
                header_at(source).ymin,
                header_at(source).ymax,
                header_at(source).ystep,
                header_at(source).columns,
            ),
        ),
{
}

/// The header and the extents of a source are sound: every scalar field is
/// there, the unit codes are known, the size is rows × columns, and the
/// caller found both extents consistent.
pub open spec fn sound(source: Seq<u8>, check: ExtentCheck) -> bool {
    &&& header_of(source) is Ok
    &&& check.x_consistent
    &&& check.y_consistent
}

/// A grid without triangles whose payload is not exactly 8 bytes for each
/// of its `size` numbers is reported with the size and the length of the
/// payload.
pub proof fn lemma_rectangular_size(source: Seq<u8>, check: ExtentCheck)
    requires
        sound(source, check),
        header_at(source).n_triangles == 0,
        payload_len(source) != 8 * header_at(source).size,
    ensures
        grid_of(source, check) == Err::<GridView, Error>(
            Error::InvalidRectangularSize(header_at(source).size, payload_len(source) as u64),
        ),
{
}

/// A grid without triangles whose payload is exactly 8 bytes for each of
/// its `size` numbers decodes to a rectangular payload of rows × columns
/// numbers, in which the number at (r, c) lies `8 * (r * columns + c)`
/// bytes into the payload.
///
/// The source is one that a machine can hold. A grid that holds a number
/// can then always be addressed; of an empty grid this asks that its other
/// axis fits in `isize`, and that the source reaches the payload at all.
pub proof fn lemma_rectangular_shape(source: Seq<u8>, check: ExtentCheck)
    requires
        sound(source, check),
        header_at(source).n_triangles == 0,
        payload_len(source) == 8 * header_at(source).size,
        source.len() <= usize::MAX,
        header_at(source).size == 0 ==> source.len() >= GRID_OFFSET && counted(
            header_at(source).rows as usize,
        ) * counted(header_at(source).columns as usize) <= isize::MAX,
    ensures
        grid_of(source, check) is Ok,
        grid_of(source, check)->Ok_0.data is Rectangular,
        grid_of(source, check)->Ok_0.data->Rectangular_0.len() == header_at(source).rows,
        forall|r: int|
            0 <= r < header_at(source).rows ==> (#[trigger] grid_of(
                source,
                check,
            )->Ok_0.data->Rectangular_0[r]).len() == header_at(source).columns,
        forall|r: int, c: int|
            0 <= r < header_at(source).rows && 0 <= c < header_at(source).columns
                ==> #[trigger] grid_of(source, check)->Ok_0.data->Rectangular_0[r][c]
                == payload_word(source, 8 * (r * header_at(source).columns + c)),
{
    let head = header_at(source);
    if head.size > 0 {
        assert(counted(head.rows as usize) * counted(head.columns as usize) == head.rows
            * head.columns) by (nonlinear_arith)
            requires
                head.rows * head.columns > 0,
                0 <= head.rows,
                0 <= head.columns,
                counted(head.rows as usize) == (if head.rows == 0 {
                    1
                } else {
                    head.rows as int
                }),
                counted(head.columns as usize) == (if head.columns == 0 {
                    1
                } else {
                    head.columns as int
                }),
        ;
    }
}

/// A grid that declares triangles and whose payload is not exactly 72
/// bytes for each unit of its declared size is reported with the triangle
/// count and the length of the payload.
pub proof fn lemma_triangle_count(source: Seq<u8>, check: ExtentCheck)
    requires
        sound(source, check),
        header_at(source).n_triangles > 0,
        payload_len(source) != 72 * header_at(source).size,
    ensures
        grid_of(source, check) == Err::<GridView, Error>(
            Error::InvalidTriangleCount(header_at(source).n_triangles, payload_len(source) as u64),
        ),
{
}

/// A grid of `k > 0` triangles whose payload is exactly 72 bytes for each
/// decodes to a triangular payload of shape (k, 3, 3), in which coordinate
/// `c` of vertex `v` of triangle `t` is the number that lies
/// `72 * t + 8 * v + 24 * c` bytes into the payload: the first coordinate
/// of the second vertex lies at `72 * t + 8`.
///
/// The length of the payload is held against the declared size, not
/// against the triangle count, so the two have to agree.
pub proof fn lemma_triangular_shape(source: Seq<u8>, check: ExtentCheck)
    requires
        sound(source, check),
        header_at(source).n_triangles > 0,
        payload_len(source) == 72 * header_at(source).n_triangles,
        header_at(source).size == header_at(source).n_triangles,
    ensures
        grid_of(source, check) is Ok,
        grid_of(source, check)->Ok_0.data is Triangular,
        grid_of(source, check)->Ok_0.data->Triangular_0.len() == header_at(source).n_triangles,
        forall|t: int|
            0 <= t < header_at(source).n_triangles ==> (#[trigger] grid_of(
                source,
                check,
            )->Ok_0.data->Triangular_0[t]).len() == 3,
        forall|t: int, v: int|
            0 <= t < header_at(source).n_triangles && 0 <= v < 3 ==> (#[trigger] grid_of(
                source,
                check,
            )->Ok_0.data->Triangular_0[t][v]).len() == 3,
        forall|t: int, v: int, c: int|
            0 <= t < header_at(source).n_triangles && 0 <= v < 3 && 0 <= c < 3
                ==> #[trigger] grid_of(source, check)->Ok_0.data->Triangular_0[t][v][c]
                == payload_word(source, 72 * t + 8 * v + 24 * c),
        forall|t: int|
            0 <= t < header_at(source).n_triangles ==> #[trigger] grid_of(
                source,
                check,
            )->Ok_0.data->Triangular_0[t][1][0] == payload_word(source, 72 * t + 8),
{
}

/// A lattice filled in row-major order from the words of the payload is
/// the payload read as a rectangle.
proof fn lemma_rectangular(
    source: Seq<u8>,
    lattice: Lattice,
    words: Seq<u64>,
    rows: nat,
    columns: nat,
)
    requires
        lattice.rows() == rows,
        lattice.columns() == columns,
        lattice.well_formed(),
        words.len() == rows * columns,
        forall|i: int| 0 <= i < words.len() ==> #[trigger] words[i] == payload_word(source, 8 * i),
        forall|r: int, c: int|
            0 <= r < rows && 0 <= c < columns ==> #[trigger] lattice@[r][c] == words[r * columns
                + c],
    ensures
        lattice@ == rectangular_at(source, rows, columns),
{
    let want = rectangular_at(source, rows, columns);
    assert forall|r: int| 0 <= r < rows implies #[trigger] lattice@[r] == want[r] by {
        assert forall|c: int| 0 <= c < columns implies lattice@[r][c] == want[r][c] by {
            lemma_cell_index(r, c, rows as int, columns as int);
        }
        assert(lattice@[r] =~= want[r]);
    }
    assert(lattice@ =~= want);
}

/// The row-major index of a cell lies inside the rectangle.
proof fn lemma_cell_index(r: int, c: int, rows: int, columns: int)
    requires
        0 <= r < rows,
        0 <= c < columns,
    ensures
        0 <= r * columns + c < rows * columns,
{
    assert(r * columns + c < rows * columns) by (nonlinear_arith)
        requires
            0 <= r < rows,
            0 <= c < columns,
    ;
    assert(0 <= r * columns) by (nonlinear_arith)
        requires
            0 <= r,
            0 <= columns,
    ;
}

/// A mesh filled coordinate-major from the words of the payload is the
/// payload read as triangles.
proof fn lemma_triangular(source: Seq<u8>, mesh: Mesh, words: Seq<u64>, triangles: nat)
    requires
        mesh.shape() == (triangles, 3nat, 3nat),
        mesh.well_formed(),
        words.len() == 9 * triangles,
        forall|i: int| 0 <= i < words.len() ==> #[trigger] words[i] == payload_word(source, 8 * i),
        forall|t: int, v: int, c: int|
            0 <= t < triangles && 0 <= v < 3 && 0 <= c < 3 ==> #[trigger] mesh@[t][v][c]
                == words[Mesh::word_index(t, v, c)],
    ensures
        mesh@ == triangular_at(source, triangles),
{
    let want = triangular_at(source, triangles);
    assert forall|t: int| 0 <= t < triangles implies #[trigger] mesh@[t] == want[t] by {
        assert forall|v: int| 0 <= v < 3 implies #[trigger] mesh@[t][v] == want[t][v] by {
            assert forall|c: int| 0 <= c < 3 implies mesh@[t][v][c] == want[t][v][c] by {
                assert(8 * Mesh::word_index(t, v, c) == 72 * t + 8 * v + 24 * c);
            }
            assert(mesh@[t][v] =~= want[t][v]);
        }
        assert(mesh@[t] =~= want[t]);
    }
    assert(mesh@ =~= want);
}

} // verus!
