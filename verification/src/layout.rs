//! Where each field of a grid file lies.
//!
//! The header is not contiguous: a leading block starts the file, and the
//! other fields sit at scattered absolute offsets. All integers and reals
//! are little-endian; strings are fixed-width.

use vstd::prelude::*;

verus! {

/// width in bytes of an unsigned 32-bit field
pub const U32_LEN: usize = 4;

/// width in bytes of a 64-bit real field
pub const REAL_LEN: usize = 8;

/// version number
pub const VERSION_OFFSET: usize = 0x00;

/// grid name
pub const NAME_OFFSET: usize = 0x04;

/// width of the grid name
pub const NAME_LEN: usize = 81;

/// declared size
pub const SIZE_OFFSET: usize = 0x55;

/// minimum *x*
pub const XMIN_OFFSET: usize = 0x59;

/// maximum *x*
pub const XMAX_OFFSET: usize = 0x61;

/// minimum *y*
pub const YMIN_OFFSET: usize = 0x69;

/// maximum *y*
pub const YMAX_OFFSET: usize = 0x71;

/// *x* step
pub const XSTEP_OFFSET: usize = 0x79;

/// *y* step
pub const YSTEP_OFFSET: usize = 0x81;

/// minimum *z*
pub const ZMIN_OFFSET: usize = 0x89;

/// maximum *z*
pub const ZMAX_OFFSET: usize = 0x91;

/// "CM", followed by "RLAT"
pub const CM_RLAT_OFFSET: usize = 0xb9;

/// "RLAT"
pub const RLAT_OFFSET: usize = 0xc1;

/// creation date, in days since the legacy epoch
pub const DATE_OFFSET: usize = 0xe1;

/// row count, followed by column count, gridding method, projection code
/// and the unit code of *x* and *y*
pub const ROWS_COLS_OFFSET: usize = 0x3fd;

/// column count
pub const COLUMNS_OFFSET: usize = 0x401;

/// gridding method
pub const GRID_METHOD_OFFSET: usize = 0x405;

/// projection code
pub const PROJECTION_CODE_OFFSET: usize = 0x409;

/// unit code of *x* and *y*
pub const XYUNITS_OFFSET: usize = 0x40d;

/// unit code of *z*
pub const ZUNITS_OFFSET: usize = 0x429;

/// triangle count
pub const N_TRIANGLES_OFFSET: usize = 0x431;

/// description of the source data
pub const SOURCE_OFFSET: usize = 0x5b9;

/// width of the description of the source data
pub const SOURCE_LEN: usize = 246;

/// unidentified metadata, followed by projection and datum
pub const UNK_PROJ_DATUM_OFFSET: usize = 0x8bf;

/// width of the unidentified metadata, inferred from zero fill
pub const UNK_LEN: usize = 2009;

/// projection name
pub const PROJ_OFFSET: usize = 0x1098;

/// width of the projection name, inferred from zero fill
pub const PROJ_LEN: usize = 65;

/// datum name
pub const DATUM_OFFSET: usize = 0x10d9;

/// width of the datum name, inferred from zero fill
pub const DATUM_LEN: usize = 195;

/// the payload, which runs to the end of the file
pub const GRID_OFFSET: usize = 0x119c;

/// bytes that one triangle takes in the payload: three vertices of three
/// coordinates
pub const TRIANGLE_LEN: usize = 72;

/// the byte that ends the text of a fixed-width string: the digit `0`,
/// which is suspect (NUL would be the common choice) and kept as it is
pub const TERMINATOR: u8 = 0x30;

} // verus!
