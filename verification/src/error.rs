//! The ways in which decoding a grid can fail.

use vstd::prelude::*;
use crate::value::Binary64;

verus! {

/// errors which may occur while reading a grid
#[derive(Copy, Clone, Debug, PartialEq, Eq, Structural)]
pub enum Error {
    /// the source ends before a field that the decoder has to read
    UnexpectedEof,
    /// the metadata-indicated total grid size does not match the product
    /// of the indicated row and column counts: (size, rows, columns)
    SizeMismatch(u32, u32, u32),
    /// the metadata-indicated *x* dimension spec is incoherent, because the
    /// step size and count do not match the stated bounds:
    /// (minimum *x*, maximum *x*, *x* step, number of columns)
    InvalidXSpec(Binary64, Binary64, Binary64, u32),
    /// the metadata-indicated *y* dimension spec is incoherent, because the
    /// step size and count do not match the stated bounds:
    /// (minimum *y*, maximum *y*, *y* step, number of columns)
    InvalidYSpec(Binary64, Binary64, Binary64, u32),
    /// the metadata-indicated total grid size (rows × columns) does not match
    /// the actual size of the portion of the source from offset 0x119c to
    /// the end: (size, actual size in bytes, which should be 8 × size)
    InvalidRectangularSize(u32, u64),
    /// the metadata-indicated size does not match the actual size of the
    /// portion of the source from offset 0x119c to the end, in a grid that
    /// declares triangles: (triangle count, actual size in bytes, which
    /// should be 72 × size)
    InvalidTriangleCount(u32, u64),
    /// the *x* and *y* unit-of-measure code in the metadata did not match a
    /// known value
    InvalidXYUnitOfMeasure(u32),
    /// the *z* unit-of-measure code in the metadata did not match a
    /// known value
    InvalidZUnitOfMeasure(u32),
    /// an empty rectangular grid declares an axis so long that this machine
    /// cannot address an array of that shape: (rows, columns)
    ShapeTooLarge(u32, u32),
}

} // verus!
