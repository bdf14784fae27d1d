use petra_grid::{
    Binary64, Error, ExtentCheck, Grid, GridData, Header, Lattice, Mesh, UnitOfMeasure,
};

const GRID_OFFSET: usize = 0x119c;

const CONSISTENT: ExtentCheck = ExtentCheck { x_consistent: true, y_consistent: true };

fn put_u32(image: &mut [u8], offset: usize, value: u32) {
    image[offset..offset + 4].copy_from_slice(&value.to_le_bytes());
}

fn put_real(image: &mut [u8], offset: usize, value: f64) {
    image[offset..offset + 8].copy_from_slice(&value.to_le_bytes());
}

fn put_text(image: &mut [u8], offset: usize, width: usize, text: &str) {
    for byte in image[offset..offset + width].iter_mut() {
        *byte = b'0';
    }
    image[offset..offset + text.len()].copy_from_slice(text.as_bytes());
}

fn number(value: f64) -> Binary64 {
    Binary64 { bits: value.to_bits() }
}

/// A header of `rows` × `columns` with the given size and triangle count,
/// and no payload.
fn header_image(rows: u32, columns: u32, size: u32, n_triangles: u32) -> Vec<u8> {
    let mut image = vec![0u8; GRID_OFFSET];
    put_u32(&mut image, 0x00, 2);
    put_text(&mut image, 0x04, 81, "STRUCTURE TOP");
    put_u32(&mut image, 0x55, size);
    put_real(&mut image, 0x59, 1000.0);
    put_real(&mut image, 0x61, 1300.0);
    put_real(&mut image, 0x69, 2000.0);
    put_real(&mut image, 0x71, 2300.0);
    put_real(&mut image, 0x79, 100.0);
    put_real(&mut image, 0x81, 100.0);
    put_real(&mut image, 0x89, -12.5);
    put_real(&mut image, 0x91, 740.25);
    put_real(&mut image, 0xb9, -97.5);
    put_real(&mut image, 0xc1, 31.75);
    put_real(&mut image, 0xe1, 36526.5);
    put_u32(&mut image, 0x3fd, rows);
    put_u32(&mut image, 0x401, columns);
    put_u32(&mut image, 0x405, 7);
    put_u32(&mut image, 0x409, 11);
    put_u32(&mut image, 0x40d, 0);
    put_u32(&mut image, 0x429, 1);
    put_u32(&mut image, 0x431, n_triangles);
    put_text(&mut image, 0x5b9, 246, "WELL TOPS");
    put_text(&mut image, 0x8bf, 2009, "C66");
    put_text(&mut image, 0x1098, 65, "TX-27C");
    put_text(&mut image, 0x10d9, 195, "NAD27");
    image
}

/// The image of a grid whose payload is the numbers `values`, followed by
/// `slack` stray bytes.
fn grid_image(rows: u32, columns: u32, size: u32, n_triangles: u32, values: &[f64], slack: usize) -> Vec<u8> {
    let mut image = header_image(rows, columns, size, n_triangles);
    for value in values {
        image.extend_from_slice(&value.to_le_bytes());
    }
    image.extend(std::iter::repeat(0xa5u8).take(slack));
    image
}

fn ramp(count: usize) -> Vec<f64> {
    (0..count).map(|i| 0.5 + i as f64).collect()
}

fn lattice_of(grid: &Grid) -> &Lattice {
    match &grid.data {
        GridData::Rectangular(lattice) => lattice,
        GridData::Triangular(_) => panic!("expected a rectangular grid"),
    }
}

fn mesh_of(grid: &Grid) -> &Mesh {
    match &grid.data {
        GridData::Triangular(mesh) => mesh,
        GridData::Rectangular(_) => panic!("expected a triangular grid"),
    }
}

fn failure(read: Result<Grid, Error>) -> Error {
    match read {
        Ok(_) => panic!("expected a failure"),
        Err(e) => e,
    }
}

fn header_failure(read: Result<Header, Error>) -> Error {
    match read {
        Ok(_) => panic!("expected a failure"),
        Err(e) => e,
    }
}

#[test]
fn header_fields_are_read_at_their_offsets() {
    let image = header_image(3, 4, 12, 0);
    let header = Header::read(&image).unwrap();
    assert_eq!(header.version, 2);
    assert_eq!(header.name, "STRUCTURE TOP");
    assert_eq!(header.size, 12);
    assert_eq!(header.rows, 3);
    assert_eq!(header.columns, 4);
    assert_eq!(header.n_triangles, 0);
    assert_eq!(header.xmin, number(1000.0));
    assert_eq!(header.xmax, number(1300.0));
    assert_eq!(header.ymin, number(2000.0));
    assert_eq!(header.ymax, number(2300.0));
    assert_eq!(header.xstep, number(100.0));
    assert_eq!(header.ystep, number(100.0));
    assert_eq!(header.zmin, number(-12.5));
    assert_eq!(header.zmax, number(740.25));
    assert_eq!(header.xyunits, UnitOfMeasure::Feet);
    assert_eq!(header.zunits, UnitOfMeasure::Meters);
    assert_eq!(header.created_date, number(36526.5));
    assert_eq!(header.grid_method, 7);
    assert_eq!(header.projection_code, 11);
    assert_eq!(header.cm, number(-97.5));
    assert_eq!(header.rlat, number(31.75));
}

#[test]
fn header_needs_no_more_than_its_scalar_fields() {
    let image = header_image(3, 4, 12, 0);
    assert!(Header::read(&image[..0x435]).is_ok());
    assert_eq!(header_failure(Header::read(&image[..0x434])), Error::UnexpectedEof);
}

#[test]
fn empty_source_is_too_short() {
    assert_eq!(header_failure(Header::read(&[])), Error::UnexpectedEof);
    assert_eq!(failure(Grid::read(&[], CONSISTENT)), Error::UnexpectedEof);
}

#[test]
fn source_that_ends_in_the_leading_block_is_too_short() {
    let image = header_image(3, 4, 12, 0);
    assert_eq!(header_failure(Header::read(&image[..3])), Error::UnexpectedEof);
    assert_eq!(header_failure(Header::read(&image[..84])), Error::UnexpectedEof);
    assert_eq!(header_failure(Header::read(&image[..0x98])), Error::UnexpectedEof);
    assert_eq!(header_failure(Header::read(&image[..0xc8])), Error::UnexpectedEof);
    assert_eq!(header_failure(Header::read(&image[..0xe8])), Error::UnexpectedEof);
}

#[test]
fn size_mismatch_carries_size_rows_columns() {
    let image = grid_image(3, 4, 13, 0, &ramp(13), 0);
    assert_eq!(failure(Grid::read(&image, CONSISTENT)), Error::SizeMismatch(13, 3, 4));
    assert_eq!(header_failure(Header::read(&image)), Error::SizeMismatch(13, 3, 4));
}

#[test]
fn size_mismatch_comes_before_the_extents() {
    let image = grid_image(5, 2, 9, 0, &ramp(9), 0);
    let check = ExtentCheck { x_consistent: false, y_consistent: false };
    assert_eq!(failure(Grid::read(&image, check)), Error::SizeMismatch(9, 5, 2));
}

#[test]
fn size_is_held_against_the_full_product() {
    // 65536 × 65536 is 0 in 32 bits, and is not the size 0
    let image = header_image(65536, 65536, 0, 0);
    assert_eq!(failure(Grid::read(&image, CONSISTENT)), Error::SizeMismatch(0, 65536, 65536));
}

#[test]
fn unknown_xy_unit_carries_the_code() {
    let mut image = grid_image(3, 4, 12, 0, &ramp(12), 0);
    put_u32(&mut image, 0x40d, 2);
    assert_eq!(failure(Grid::read(&image, CONSISTENT)), Error::InvalidXYUnitOfMeasure(2));
    put_u32(&mut image, 0x40d, 0xdead_beef);
    assert_eq!(failure(Grid::read(&image, CONSISTENT)), Error::InvalidXYUnitOfMeasure(0xdead_beef));
}

#[test]
fn unknown_z_unit_carries_the_code() {
    let mut image = grid_image(3, 4, 12, 0, &ramp(12), 0);
    put_u32(&mut image, 0x429, 2);
    assert_eq!(failure(Grid::read(&image, CONSISTENT)), Error::InvalidZUnitOfMeasure(2));
    put_u32(&mut image, 0x429, 256);
    assert_eq!(failure(Grid::read(&image, CONSISTENT)), Error::InvalidZUnitOfMeasure(256));
}

#[test]
fn unknown_xy_unit_comes_before_everything_later() {
    let mut image = grid_image(3, 4, 13, 0, &ramp(12), 0);
    put_u32(&mut image, 0x40d, 5);
    put_u32(&mut image, 0x429, 6);
    assert_eq!(failure(Grid::read(&image, CONSISTENT)), Error::InvalidXYUnitOfMeasure(5));
    // the code is judged as soon as it has been read
    assert_eq!(header_failure(Header::read(&image[..0x411])), Error::InvalidXYUnitOfMeasure(5));
    assert_eq!(header_failure(Header::read(&image[..0x410])), Error::UnexpectedEof);
}

#[test]
fn unknown_z_unit_comes_before_the_size() {
    let mut image = grid_image(3, 4, 13, 0, &ramp(12), 0);
    put_u32(&mut image, 0x429, 6);
    assert_eq!(failure(Grid::read(&image, CONSISTENT)), Error::InvalidZUnitOfMeasure(6));
    assert_eq!(header_failure(Header::read(&image[..0x42d])), Error::InvalidZUnitOfMeasure(6));
    assert_eq!(header_failure(Header::read(&image[..0x42c])), Error::UnexpectedEof);
}

#[test]
fn inconsistent_x_extent_carries_the_x_numbers() {
    let image = grid_image(3, 4, 12, 0, &ramp(12), 0);
    let check = ExtentCheck { x_consistent: false, y_consistent: true };
    assert_eq!(
        failure(Grid::read(&image, check)),
        Error::InvalidXSpec(number(1000.0), number(1300.0), number(100.0), 4)
    );
}

#[test]
fn inconsistent_y_extent_carries_the_y_numbers_and_the_columns() {
    let mut image = grid_image(3, 4, 12, 0, &ramp(12), 0);
    put_real(&mut image, 0x81, 150.0);
    let check = ExtentCheck { x_consistent: true, y_consistent: false };
    assert_eq!(
        failure(Grid::read(&image, check)),
        Error::InvalidYSpec(number(2000.0), number(2300.0), number(150.0), 4)
    );
}

#[test]
fn inconsistent_x_extent_comes_before_y_and_the_payload() {
    let image = grid_image(3, 4, 12, 0, &ramp(5), 0);
    let check = ExtentCheck { x_consistent: false, y_consistent: false };
    assert_eq!(
        failure(Grid::read(&image, check)),
        Error::InvalidXSpec(number(1000.0), number(1300.0), number(100.0), 4)
    );
}

#[test]
fn extent_check_as_a_caller_makes_it() {
    let mut image = grid_image(3, 4, 12, 0, &ramp(12), 0);
    put_real(&mut image, 0x79, 100.5);
    let header = Header::read(&image).unwrap();
    let xmin = f64::from_bits(header.xmin.bits);
    let xmax = f64::from_bits(header.xmax.bits);
    let xstep = f64::from_bits(header.xstep.bits);
    let reach = xmin + (header.columns as f64 - 1.0) * xstep;
    let check = ExtentCheck {
        x_consistent: ((reach - xmax).abs() / xmax.abs()) <= 1e-4,
        y_consistent: true,
    };
    assert!(!check.x_consistent);
    assert_eq!(
        failure(Grid::read(&image, check)),
        Error::InvalidXSpec(number(1000.0), number(1300.0), number(100.5), 4)
    );
}

#[test]
fn rectangular_payload_of_wrong_length_carries_size_and_length() {
    let image = grid_image(3, 4, 12, 0, &ramp(11), 0);
    assert_eq!(failure(Grid::read(&image, CONSISTENT)), Error::InvalidRectangularSize(12, 88));
    let image = grid_image(3, 4, 12, 0, &ramp(13), 0);
    assert_eq!(failure(Grid::read(&image, CONSISTENT)), Error::InvalidRectangularSize(12, 104));
    let image = grid_image(3, 4, 12, 0, &ramp(11), 7);
    assert_eq!(failure(Grid::read(&image, CONSISTENT)), Error::InvalidRectangularSize(12, 95));
}

#[test]
fn rectangular_payload_is_missing_from_a_short_source() {
    let image = header_image(3, 4, 12, 0);
    assert_eq!(failure(Grid::read(&image, CONSISTENT)), Error::InvalidRectangularSize(12, 0));
    assert_eq!(
        failure(Grid::read(&image[..0x1000], CONSISTENT)),
        Error::InvalidRectangularSize(12, 0)
    );
}

#[test]
fn rectangular_grid_decodes() {
    let values = ramp(12);
    let image = grid_image(3, 4, 12, 0, &values, 0);
    let grid = Grid::read(&image, CONSISTENT).unwrap();
    assert_eq!(grid.version, 2);
    assert_eq!(grid.name, "STRUCTURE TOP");
    assert_eq!(grid.size, 12);
    assert_eq!(grid.rows, 3);
    assert_eq!(grid.columns, 4);
    assert_eq!(grid.n_triangles, 0);
    assert_eq!(grid.xmin, number(1000.0));
    assert_eq!(grid.xmax, number(1300.0));
    assert_eq!(grid.ymin, number(2000.0));
    assert_eq!(grid.ymax, number(2300.0));
    assert_eq!(grid.xstep, number(100.0));
    assert_eq!(grid.ystep, number(100.0));
    assert_eq!(grid.zmin, number(-12.5));
    assert_eq!(grid.zmax, number(740.25));
    assert_eq!(grid.xyunits, UnitOfMeasure::Feet);
    assert_eq!(grid.zunits, UnitOfMeasure::Meters);
    assert_eq!(grid.created_date, number(36526.5));
    assert_eq!(grid.source_data, "WELL TOPS");
    assert_eq!(grid.unknown_metadata, "C66");
    assert_eq!(grid.projection, "TX-27C");
    assert_eq!(grid.datum, "NAD27");
    assert_eq!(grid.grid_method, 7);
    assert_eq!(grid.projection_code, 11);
    assert_eq!(grid.cm, number(-97.5));
    assert_eq!(grid.rlat, number(31.75));
    let lattice = lattice_of(&grid);
    assert_eq!(lattice.dim(), (3, 4));
}

#[test]
fn rectangular_grid_is_row_major() {
    let values = ramp(12);
    let image = grid_image(3, 4, 12, 0, &values, 0);
    let grid = Grid::read(&image, CONSISTENT).unwrap();
    let lattice = lattice_of(&grid);
    for r in 0..3 {
        for c in 0..4 {
            assert_eq!(lattice.get(r, c), Some(number(values[r * 4 + c])));
        }
    }
    assert_eq!(lattice.get(0, 1), Some(number(1.5)));
    assert_eq!(lattice.get(1, 0), Some(number(4.5)));
    assert_eq!(lattice.get(2, 3), Some(number(11.5)));
    assert_eq!(lattice.get(3, 0), None);
    assert_eq!(lattice.get(0, 4), None);
}

#[test]
fn rectangular_payload_with_stray_bytes_is_refused() {
    let values = ramp(12);
    for slack in 1..8 {
        let image = grid_image(3, 4, 12, 0, &values, slack);
        assert_eq!(
            failure(Grid::read(&image, CONSISTENT)),
            Error::InvalidRectangularSize(12, 96 + slack as u64)
        );
    }
    let image = grid_image(0, 4, 0, 0, &[], 1);
    assert_eq!(failure(Grid::read(&image, CONSISTENT)), Error::InvalidRectangularSize(0, 1));
}

#[test]
fn triangular_payload_with_stray_bytes_is_refused() {
    let values = ramp(18);
    let image = grid_image(1, 2, 2, 2, &values, 1);
    assert_eq!(failure(Grid::read(&image, CONSISTENT)), Error::InvalidTriangleCount(2, 145));
    let image = grid_image(1, 2, 2, 2, &values, 71);
    assert_eq!(failure(Grid::read(&image, CONSISTENT)), Error::InvalidTriangleCount(2, 215));
    let image = grid_image(1, 2, 2, 2, &values, 0);
    assert!(Grid::read(&image, CONSISTENT).is_ok());
}

#[test]
fn rectangular_grid_of_one_column() {
    let values = ramp(5);
    let image = grid_image(5, 1, 5, 0, &values, 0);
    let grid = Grid::read(&image, CONSISTENT).unwrap();
    let lattice = lattice_of(&grid);
    assert_eq!(lattice.dim(), (5, 1));
    assert_eq!(lattice.get(4, 0), Some(number(4.5)));
    assert_eq!(lattice.get(0, 1), None);
}

#[test]
fn empty_rectangular_grid_decodes() {
    let image = grid_image(0, 4, 0, 0, &[], 0);
    let grid = Grid::read(&image, CONSISTENT).unwrap();
    let lattice = lattice_of(&grid);
    assert_eq!(lattice.dim(), (0, 4));
    assert_eq!(lattice.get(0, 0), None);
}

#[test]
fn empty_rectangular_grid_needs_its_strings() {
    let image = header_image(4, 0, 0, 0);
    assert_eq!(failure(Grid::read(&image[..0x119b], CONSISTENT)), Error::UnexpectedEof);
    assert_eq!(failure(Grid::read(&image[..0x6ae], CONSISTENT)), Error::UnexpectedEof);
    assert!(Grid::read(&image, CONSISTENT).is_ok());
}

#[test]
fn triangular_grid_decodes() {
    let values = ramp(18);
    let image = grid_image(1, 2, 2, 2, &values, 0);
    let grid = Grid::read(&image, CONSISTENT).unwrap();
    assert_eq!(grid.n_triangles, 2);
    assert_eq!(grid.size, 2);
    assert_eq!(grid.source_data, "WELL TOPS");
    let mesh = mesh_of(&grid);
    assert_eq!(mesh.dim(), (2, 3, 3));
}

#[test]
fn triangular_grid_is_coordinate_major() {
    let values = ramp(27);
    let image = grid_image(3, 1, 3, 3, &values, 0);
    let grid = Grid::read(&image, CONSISTENT).unwrap();
    let mesh = mesh_of(&grid);
    let payload = &image[GRID_OFFSET..];
    for t in 0..3 {
        for v in 0..3 {
            for c in 0..3 {
                let at = t * 72 + v * 8 + c * 24;
                let mut bytes = [0u8; 8];
                bytes.copy_from_slice(&payload[at..at + 8]);
                assert_eq!(mesh.get(t, v, c), Some(Binary64 { bits: u64::from_le_bytes(bytes) }));
            }
        }
    }
    // triangle 0 stores x0 x1 x2 y0 y1 y2 z0 z1 z2
    assert_eq!(mesh.get(0, 0, 0), Some(number(0.5)));
    assert_eq!(mesh.get(0, 1, 0), Some(number(1.5)));
    assert_eq!(mesh.get(0, 2, 0), Some(number(2.5)));
    assert_eq!(mesh.get(0, 0, 1), Some(number(3.5)));
    assert_eq!(mesh.get(0, 0, 2), Some(number(6.5)));
    assert_eq!(mesh.get(0, 2, 2), Some(number(8.5)));
    assert_eq!(mesh.get(1, 0, 0), Some(number(9.5)));
    assert_eq!(mesh.get(2, 1, 0), Some(number(19.5)));
    assert_eq!(mesh.get(3, 0, 0), None);
    assert_eq!(mesh.get(0, 3, 0), None);
    assert_eq!(mesh.get(0, 0, 3), None);
}

#[test]
fn second_vertex_x_lies_eight_bytes_into_its_triangle() {
    let values = ramp(36);
    let image = grid_image(2, 2, 4, 4, &values, 0);
    let grid = Grid::read(&image, CONSISTENT).unwrap();
    let mesh = mesh_of(&grid);
    assert_eq!(mesh.dim(), (4, 3, 3));
    for t in 0..4 {
        let at = GRID_OFFSET + t * 72 + 8;
        let mut bytes = [0u8; 8];
        bytes.copy_from_slice(&image[at..at + 8]);
        assert_eq!(mesh.get(t, 1, 0), Some(number(f64::from_le_bytes(bytes))));
    }
}

#[test]
fn triangular_payload_is_held_against_the_size() {
    // two triangles, 144 bytes, but a declared size of 3
    let image = grid_image(3, 1, 3, 2, &ramp(18), 0);
    assert_eq!(failure(Grid::read(&image, CONSISTENT)), Error::InvalidTriangleCount(2, 144));
    let image = grid_image(1, 2, 2, 2, &ramp(17), 0);
    assert_eq!(failure(Grid::read(&image, CONSISTENT)), Error::InvalidTriangleCount(2, 136));
}

#[test]
fn triangular_payload_is_missing_from_a_short_source() {
    let image = header_image(1, 2, 2, 2);
    assert_eq!(
        failure(Grid::read(&image[..0x435], CONSISTENT)),
        Error::InvalidTriangleCount(2, 0)
    );
}

#[test]
fn triangular_payload_shorter_than_its_triangles_is_too_short() {
    // the size matches the payload, but three triangles are declared
    let image = grid_image(1, 2, 2, 3, &ramp(18), 0);
    assert_eq!(failure(Grid::read(&image, CONSISTENT)), Error::UnexpectedEof);
}

#[test]
fn triangular_payload_longer_than_its_triangles_is_read_in_part() {
    // the size matches the payload, and one triangle is declared
    let values = ramp(18);
    let image = grid_image(1, 2, 2, 1, &values, 0);
    let grid = Grid::read(&image, CONSISTENT).unwrap();
    let mesh = mesh_of(&grid);
    assert_eq!(mesh.dim(), (1, 3, 3));
    assert_eq!(mesh.get(0, 2, 2), Some(number(8.5)));
}

#[test]
fn payload_keeps_every_bit_pattern() {
    let mut image = header_image(1, 3, 3, 0);
    image.extend_from_slice(&0x7ff8_0000_0000_0001u64.to_le_bytes());
    image.extend_from_slice(&0x8000_0000_0000_0000u64.to_le_bytes());
    image.extend_from_slice(&0xffff_ffff_ffff_ffffu64.to_le_bytes());
    let grid = Grid::read(&image, CONSISTENT).unwrap();
    let lattice = lattice_of(&grid);
    assert_eq!(lattice.get(0, 0), Some(Binary64 { bits: 0x7ff8_0000_0000_0001 }));
    assert_eq!(lattice.get(0, 1), Some(Binary64 { bits: 0x8000_0000_0000_0000 }));
    assert_eq!(lattice.get(0, 2), Some(Binary64 { bits: 0xffff_ffff_ffff_ffff }));
}

#[test]
fn strings_are_cut_at_the_digit_zero() {
    let mut image = grid_image(3, 4, 12, 0, &ramp(12), 0);
    put_text(&mut image, 0x04, 81, "HORIZON 2008 PICK");
    put_text(&mut image, 0x10d9, 195, "NAD83");
    for byte in image[0x1098..0x1098 + 65].iter_mut() {
        *byte = b'P';
    }
    let grid = Grid::read(&image, CONSISTENT).unwrap();
    assert_eq!(grid.name, "HORIZON 2");
    assert_eq!(grid.datum, "NAD83");
    assert_eq!(grid.projection, "P".repeat(65));
}

#[test]
fn decoded_grid_can_be_cloned() {
    let values = ramp(12);
    let image = grid_image(3, 4, 12, 0, &values, 0);
    let grid = Grid::read(&image, CONSISTENT).unwrap();
    let copy = grid.clone();
    assert_eq!(copy.name, grid.name);
    let lattice = lattice_of(&copy);
    assert_eq!(lattice.dim(), (3, 4));
    assert_eq!(lattice.get(1, 2), Some(number(6.5)));

    let image = grid_image(1, 1, 1, 1, &ramp(9), 0);
    let grid = Grid::read(&image, CONSISTENT).unwrap();
    let copy = grid.clone();
    let mesh = mesh_of(&copy);
    assert_eq!(mesh.dim(), (1, 3, 3));
    assert_eq!(mesh.get(0, 1, 2), Some(number(7.5)));
}

#[test]
fn header_can_be_cloned() {
    let image = header_image(3, 4, 12, 0);
    let header = Header::read(&image).unwrap();
    let copy = header.clone();
    assert_eq!(copy.name, "STRUCTURE TOP");
    assert_eq!(copy.size, 12);
    assert_eq!(copy.rlat, number(31.75));
    assert_eq!(copy.zunits, UnitOfMeasure::Meters);
}

#[test]
fn lattice_is_made_from_matching_words_only() {
    let lattice = Lattice::from_row_major(2, 3, vec![1, 2, 3, 4, 5, 6]).unwrap();
    assert_eq!(lattice.dim(), (2, 3));
    assert_eq!(lattice.get(0, 2), Some(Binary64 { bits: 3 }));
    assert_eq!(lattice.get(1, 0), Some(Binary64 { bits: 4 }));
    assert!(Lattice::from_row_major(2, 3, vec![1, 2, 3, 4, 5]).is_none());
    assert!(Lattice::from_row_major(2, 3, vec![1, 2, 3, 4, 5, 6, 7]).is_none());
    assert!(Lattice::from_row_major(0, 3, vec![]).is_some());
    assert!(Lattice::from_row_major(0, 3, vec![1]).is_none());
    assert!(Lattice::from_row_major(usize::MAX, 0, vec![]).is_none());
}

#[test]
fn mesh_is_made_from_nine_words_a_triangle_only() {
    let words: Vec<u64> = (0..18).collect();
    let mesh = Mesh::from_coordinate_major(2, words.clone()).unwrap();
    assert_eq!(mesh.dim(), (2, 3, 3));
    assert_eq!(mesh.get(0, 1, 0), Some(Binary64 { bits: 1 }));
    assert_eq!(mesh.get(0, 0, 1), Some(Binary64 { bits: 3 }));
    assert_eq!(mesh.get(1, 2, 2), Some(Binary64 { bits: 17 }));
    assert!(Mesh::from_coordinate_major(1, words.clone()).is_none());
    assert!(Mesh::from_coordinate_major(3, words).is_none());
    assert!(Mesh::from_coordinate_major(0, vec![]).is_none());
    assert!(Mesh::from_coordinate_major(1, (0..10).collect()).is_none());
}
