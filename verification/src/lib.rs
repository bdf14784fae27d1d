//! Decoder for Petra GRD grid files: header metadata plus either a
//! rectangular elevation grid or a triangulated mesh.
//!
//! The format is undocumented; offsets, widths and meanings are inferred
//! from sample files. A file is decoded from its bytes in one call of
//! [`Grid::read`], which either returns the whole grid or the first thing
//! that is wrong with the file.
//!
//! Real numbers are carried as their bit patterns ([`Binary64`]) and never
//! computed with. The one judgement of the format that needs real
//! arithmetic, whether each extent agrees with its step, is made by the
//! caller on the numbers of [`Header::read`] and handed to the decoder as an
//! [`ExtentCheck`].

pub mod array;
pub mod error;
pub mod grid;
pub mod header;
pub mod layout;
pub mod reader;
pub mod text;
pub mod units;
pub mod value;

pub use array::{Lattice, Mesh};
pub use error::Error;
pub use grid::{ExtentCheck, Grid, GridData};
pub use header::Header;
pub use reader::Reader;
pub use text::{petra_string, read_petra_string};
pub use units::UnitOfMeasure;
pub use value::Binary64;
