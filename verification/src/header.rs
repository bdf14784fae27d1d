//! The scalar fields of a grid file.

use vstd::prelude::*;
use crate::error::Error;
use crate::layout::{
    CM_RLAT_OFFSET, COLUMNS_OFFSET, DATE_OFFSET, GRID_METHOD_OFFSET, NAME_LEN, NAME_OFFSET,
    N_TRIANGLES_OFFSET, PROJECTION_CODE_OFFSET, RLAT_OFFSET, ROWS_COLS_OFFSET, SIZE_OFFSET,
    U32_LEN, VERSION_OFFSET, XMAX_OFFSET, XMIN_OFFSET, XSTEP_OFFSET, XYUNITS_OFFSET,
    YMAX_OFFSET, YMIN_OFFSET, YSTEP_OFFSET, ZMAX_OFFSET, ZMIN_OFFSET, ZUNITS_OFFSET,
};
use crate::reader::{real_at, u32_at, Reader};
use crate::text::{read_petra_string, text_at};
use crate::units::UnitOfMeasure;
use crate::value::Binary64;

verus! {

/// The scalar fields that precede the consistency checks: everything but
/// the trailing strings and the payload.
#[derive(Debug)]
pub struct Header {
    /// we think this is the version number; always 2, as far as we can tell
    pub version: u32,
    /// the grid name
    pub name: String,
    /// the "size" (rows × columns)
    pub size: u32,
    /// the number of rows (in the *y* dimension)
    pub rows: u32,
    /// the number of columns (in the *x* dimension)
    pub columns: u32,
    /// the number of triangles; zero for rectangular grids
    pub n_triangles: u32,
    /// minimum bound in the *x* dimension
    pub xmin: Binary64,
    /// maximum bound in the *x* dimension
    pub xmax: Binary64,
    /// minimum bound in the *y* dimension
    pub ymin: Binary64,
    /// maximum bound in the *y* dimension
    pub ymax: Binary64,
    /// step in the *x* dimension
    pub xstep: Binary64,
    /// step in the *y* dimension
    pub ystep: Binary64,
    /// minimum value in the *z* dimension
    pub zmin: Binary64,
    /// maximum value in the *z* dimension
    pub zmax: Binary64,
    /// units of measure in the *x* and *y* dimensions
    pub xyunits: UnitOfMeasure,
    /// units of measure in the *z* dimension
    pub zunits: UnitOfMeasure,
    /// date of creation, in days since 1899-12-30T00:00:00; the fraction
    /// of a day is the time of day
    pub created_date: Binary64,
    /// we think this number is used to describe the gridding method, but
    /// we're not sure how
    pub grid_method: u32,
    /// we think this stores values of an enumeration describing the map
    /// projection, but we don't know how to decode it
    pub projection_code: u32,
    /// logged as "CM": "central meridian" perhaps?
    pub cm: Binary64,
    /// logged as "RLAT": "reference latitude" perhaps?
    pub rlat: Binary64,
}

/// A header as a mathematical value.
pub struct HeaderView {
    pub version: u32,
    pub name: Seq<char>,
    pub size: u32,
    pub rows: u32,
    pub columns: u32,
    pub n_triangles: u32,
    pub xmin: Binary64,
    pub xmax: Binary64,
    pub ymin: Binary64,
    pub ymax: Binary64,
    pub xstep: Binary64,
    pub ystep: Binary64,
    pub zmin: Binary64,
    pub zmax: Binary64,
    pub xyunits: UnitOfMeasure,
    pub zunits: UnitOfMeasure,
    pub created_date: Binary64,
    pub grid_method: u32,
    pub projection_code: u32,
    pub cm: Binary64,
    pub rlat: Binary64,
}

impl View for Header {
    type V = HeaderView;

    open spec fn view(&self) -> HeaderView {
        HeaderView {
            version: self.version,
            name: self.name@,
            size: self.size,
            rows: self.rows,
            columns: self.columns,
            n_triangles: self.n_triangles,
            xmin: self.xmin,
            xmax: self.xmax,
            ymin: self.ymin,
            ymax: self.ymax,
            xstep: self.xstep,
            ystep: self.ystep,
            zmin: self.zmin,
            zmax: self.zmax,
            xyunits: self.xyunits,
            zunits: self.zunits,
            created_date: self.created_date,
            grid_method: self.grid_method,
            projection_code: self.projection_code,
            cm: self.cm,
            rlat: self.rlat,
        }
    }
}

impl Clone for Header {
    /// A header that holds the same fields.
    fn clone(&self) -> (copy: Self)
        ensures
            copy@ == self@,
    {
        Header {
            version: self.version,
            name: self.name.clone(),
            size: self.size,
            rows: self.rows,
            columns: self.columns,
            n_triangles: self.n_triangles,
            xmin: self.xmin,
            xmax: self.xmax,
            ymin: self.ymin,
            ymax: self.ymax,
            xstep: self.xstep,
            ystep: self.ystep,
            zmin: self.zmin,
            zmax: self.zmax,
            xyunits: self.xyunits,
            zunits: self.zunits,
            created_date: self.created_date,
            grid_method: self.grid_method,
            projection_code: self.projection_code,
            cm: self.cm,
            rlat: self.rlat,
        }
    }
}

/// The end of the last field that is read before the unit code of *x* and
/// *y* is judged: the end of that code.
pub open spec fn xyunits_end() -> int {
    XYUNITS_OFFSET + U32_LEN
}

/// The end of the unit code of *z*.
pub open spec fn zunits_end() -> int {
    ZUNITS_OFFSET + U32_LEN
}

/// The end of the triangle count, the last scalar field in reading order.
pub open spec fn scalars_end() -> int {
    N_TRIANGLES_OFFSET + U32_LEN
}

/// The header that `source` spells, each field taken at its offset.
///
/// This is what the fields say where they are all present and both unit
/// codes are known; [`header_of`] says when that is so.
pub open spec fn header_at(source: Seq<u8>) -> HeaderView {
    HeaderView {
        version: u32_at(source, VERSION_OFFSET as int),
        name: text_at(source, NAME_OFFSET as int, NAME_LEN as int),
        size: u32_at(source, SIZE_OFFSET as int),
        rows: u32_at(source, ROWS_COLS_OFFSET as int),
        columns: u32_at(source, COLUMNS_OFFSET as int),
        n_triangles: u32_at(source, N_TRIANGLES_OFFSET as int),
        xmin: real_at(source, XMIN_OFFSET as int),
        xmax: real_at(source, XMAX_OFFSET as int),
        ymin: real_at(source, YMIN_OFFSET as int),
        ymax: real_at(source, YMAX_OFFSET as int),
        xstep: real_at(source, XSTEP_OFFSET as int),
        ystep: real_at(source, YSTEP_OFFSET as int),
        zmin: real_at(source, ZMIN_OFFSET as int),
        zmax: real_at(source, ZMAX_OFFSET as int),
        xyunits: UnitOfMeasure::of_code(u32_at(source, XYUNITS_OFFSET as int))->0,
        zunits: UnitOfMeasure::of_code(u32_at(source, ZUNITS_OFFSET as int))->0,
        created_date: real_at(source, DATE_OFFSET as int),
        grid_method: u32_at(source, GRID_METHOD_OFFSET as int),
        projection_code: u32_at(source, PROJECTION_CODE_OFFSET as int),
        cm: real_at(source, CM_RLAT_OFFSET as int),
        rlat: real_at(source, RLAT_OFFSET as int),
    }
}

/// What reading the header of `source` comes to.
///
/// The fields are read in the order in which they lie in the file, and the
/// first thing that is wrong decides: a field that the source is too short
/// for, an unknown unit code as soon as it has been read, and at last a
/// size that is not rows × columns.
pub open spec fn header_of(source: Seq<u8>) -> Result<HeaderView, Error> {
    let head = header_at(source);
    let xy_code = u32_at(source, XYUNITS_OFFSET as int);
    let z_code = u32_at(source, ZUNITS_OFFSET as int);
    if source.len() < xyunits_end() {
        Err(Error::UnexpectedEof)
    } else if UnitOfMeasure::of_code(xy_code) is None {
        Err(Error::InvalidXYUnitOfMeasure(xy_code))
    } else if source.len() < zunits_end() {
        Err(Error::UnexpectedEof)
    } else if UnitOfMeasure::of_code(z_code) is None {
        Err(Error::InvalidZUnitOfMeasure(z_code))
    } else if source.len() < scalars_end() {
        Err(Error::UnexpectedEof)
    } else if head.rows * head.columns != head.size {
        Err(Error::SizeMismatch(head.size, head.rows, head.columns))
    } else {
        Ok(head)
    }
}

impl Header {
    /// Reads the scalar fields of a grid from the whole of its file.
    pub fn read(source: &[u8]) -> (read: Result<Header, Error>)
        ensures
            read is Ok ==> header_of(source@) == Ok::<HeaderView, Error>(read->Ok_0@),
            read is Err ==> header_of(source@) == Err::<HeaderView, Error>(read->Err_0),
    {
        let mut reader = Reader::new(source);
        let version = reader.read_u32()?;
        let name = read_petra_string::<NAME_LEN>(&mut reader)?;
        let size = reader.read_u32()?;
        let xmin = reader.read_real()?;
        let xmax = reader.read_real()?;
        let ymin = reader.read_real()?;
        let ymax = reader.read_real()?;
        let xstep = reader.read_real()?;
        let ystep = reader.read_real()?;
        let zmin = reader.read_real()?;
        let zmax = reader.read_real()?;

        reader.seek(CM_RLAT_OFFSET);
        let cm = reader.read_real()?;
        let rlat = reader.read_real()?;

        reader.seek(DATE_OFFSET);
        let created_date = reader.read_real()?;

        reader.seek(ROWS_COLS_OFFSET);
        let rows = reader.read_u32()?;
        let columns = reader.read_u32()?;
        let grid_method = reader.read_u32()?;
        let projection_code = reader.read_u32()?;
        let xy_code = reader.read_u32()?;
        let xyunits = match UnitOfMeasure::from_code(xy_code) {
            Some(unit) => unit,
            None => return Err(Error::InvalidXYUnitOfMeasure(xy_code)),
        };

        reader.seek(ZUNITS_OFFSET);
        let z_code = reader.read_u32()?;
        let zunits = match UnitOfMeasure::from_code(z_code) {
            Some(unit) => unit,
            None => return Err(Error::InvalidZUnitOfMeasure(z_code)),
        };

        reader.seek(N_TRIANGLES_OFFSET);
        let n_triangles = reader.read_u32()?;

        // rows × columns is taken in 64 bits: two 32-bit counts cannot
        // overflow them
        assert(rows * columns <= 0xffff_ffff * 0xffff_ffff) by (nonlinear_arith)
            requires
                rows <= 0xffff_ffff,
                columns <= 0xffff_ffff,
        ;
        if rows as u64 * columns as u64 != size as u64 {
            return Err(Error::SizeMismatch(size, rows, columns));
        }
        Ok(
            Header {
                version,
                name,
                size,
                rows,
                columns,
                n_triangles,
                xmin,
                xmax,
                ymin,
                ymax,
                xstep,
                ystep,
                zmin,
                zmax,
                xyunits,
                zunits,
                created_date,
                grid_method,
                projection_code,
                cm,
                rlat,
            },
        )
    }
}

} // verus!
