use small_world::codec::i16_from_be_bytes;
use small_world::geoid::{
    clamp_index, dimensions_from_file_size, EgmError, EgmModel, GridFormat, RawGrid, RawValue,
    EGM2008_COLS, EGM2008_ROWS, EGM96_COLS, EGM96_ROWS,
};

#[test]
fn egm96_egm96_dimensions_match() {
    let size = (EGM96_ROWS * EGM96_COLS * 2) as u64;
    let dims = dimensions_from_file_size(EgmModel::Egm96, size).unwrap();
    assert_eq!(
        dims,
        (EGM96_ROWS, EGM96_COLS, EGM96_COLS, GridFormat::Egm96I16Be)
    );
}

#[test]
fn egm96_egm96_dimensions_reject_invalid_size() {
    let result = dimensions_from_file_size(EgmModel::Egm96, 10);
    assert!(result.is_err());
}

#[test]
fn egm96_egm2008_dimensions_accept_8640_columns() {
    let size = (EGM2008_ROWS * (EGM2008_COLS * 4 + 8)) as u64;
    let dims = dimensions_from_file_size(EgmModel::Egm2008, size).unwrap();
    assert_eq!(
        dims,
        (
            EGM2008_ROWS,
            EGM2008_COLS,
            EGM2008_COLS,
            GridFormat::Egm2008F32LeFortranSequential
        )
    );
}

#[test]
fn egm96_egm2008_dimensions_reject_invalid_size() {
    let result = dimensions_from_file_size(EgmModel::Egm2008, 1234);
    assert!(result.is_err());
}

#[test]
fn geoid_egm96_dimensions_match() {
    let size = (EGM96_ROWS * EGM96_COLS * 2) as u64;
    let dims = dimensions_from_file_size(EgmModel::Egm96, size).unwrap();
    assert_eq!(
        dims,
        (EGM96_ROWS, EGM96_COLS, EGM96_COLS, GridFormat::Egm96I16Be)
    );
}

#[test]
fn geoid_egm96_dimensions_reject_invalid_size() {
    let result = dimensions_from_file_size(EgmModel::Egm96, 10);
    assert!(result.is_err());
}

#[test]
fn geoid_egm2008_dimensions_accept_8640_columns() {
    let size = (EGM2008_ROWS * (EGM2008_COLS * 4 + 8)) as u64;
    let dims = dimensions_from_file_size(EgmModel::Egm2008, size).unwrap();
    assert_eq!(
        dims,
        (
            EGM2008_ROWS,
            EGM2008_COLS,
            EGM2008_COLS,
            GridFormat::Egm2008F32LeFortranSequential
        )
    );
}

#[test]
fn geoid_egm2008_dimensions_reject_invalid_size() {
    let result = dimensions_from_file_size(EgmModel::Egm2008, 1234);
    assert!(result.is_err());
}

#[test]
fn wrong_size_error_names_expected_and_actual_bytes() {
    match dimensions_from_file_size(EgmModel::Egm96, 10) {
        Err(EgmError::InvalidGridSize {
            model,
            expected_bytes,
            actual_bytes,
        }) => {
            assert_eq!(model, EgmModel::Egm96);
            assert_eq!(expected_bytes, 2_076_480);
            assert_eq!(actual_bytes, 10);
        }
        other => panic!("unexpected {other:?}"),
    }
    match dimensions_from_file_size(EgmModel::Egm2008, 1234) {
        Err(EgmError::InvalidGridSize { expected_bytes, .. }) => {
            assert_eq!(expected_bytes, 149_368_328);
        }
        other => panic!("unexpected {other:?}"),
    }
}

#[test]
fn model_names_and_urls() {
    assert_eq!(EgmModel::Egm96.canonical_filename(), "WW15MGH.DAC");
    assert_eq!(EgmModel::Egm2008.canonical_filename(), "EGM2008_2_5.DAC");
    assert_eq!(
        EgmModel::Egm96.dataset_url(),
        "https://earth-info.nga.mil/php/download.php?file=egm-96interpolation"
    );
    assert_eq!(
        EgmModel::Egm2008.dataset_url(),
        "https://earth-info.nga.mil/php/download.php?file=egm-08interpolation"
    );
    assert_eq!(EgmModel::Egm96.label(), "EGM96");
    assert_eq!(EgmModel::Egm2008.label(), "EGM2008");
}

#[test]
fn download_command_names_script_and_model() {
    let cmd96 = EgmModel::Egm96.download_command();
    let cmd08 = EgmModel::Egm2008.download_command();
    assert!(cmd96.contains("download_geoid_data.sh"));
    assert!(cmd96.ends_with("--model egm96"));
    assert!(cmd08.ends_with("--model egm2008"));
    assert_eq!(
        cmd96,
        "curl -fsSL https://raw.githubusercontent.com/alpacasweater/small_world/main/scripts/download_geoid_data.sh | bash -s -- --model egm96"
    );
}

#[test]
fn cell_checks_and_offsets() {
    let m = EgmModel::Egm96;
    assert_eq!(m.check_cell(0, 0).unwrap(), 0);
    assert_eq!(m.check_cell(1, 2).unwrap(), 1442);
    match m.check_cell(721, 0) {
        Err(EgmError::InvalidIndex {
            row,
            col,
            max_row,
            max_col,
        }) => {
            assert_eq!((row, col, max_row, max_col), (721, 0, 720, 1439));
        }
        other => panic!("unexpected {other:?}"),
    }
    assert!(m.check_cell(0, 1440).is_err());
    assert_eq!(m.value_offset(1, 2), 2884);
    let m8 = EgmModel::Egm2008;
    assert_eq!(m8.value_offset(0, 0), 4);
    assert_eq!(m8.value_offset(1, 3), (8640 * 4 + 8) as u64 + 4 + 12);
    assert_eq!(m8.value_width(), 4);
    assert_eq!(m.value_width(), 2);
}

#[test]
fn column_wrapping_and_row_clamping() {
    let m = EgmModel::Egm96;
    assert_eq!(m.wrap_col(0), 0);
    assert_eq!(m.wrap_col(1440), 0);
    assert_eq!(m.wrap_col(-1), 1439);
    assert_eq!(m.wrap_col(-1441), 1439);
    assert_eq!(m.wrap_col(2885), 5);
    assert_eq!(clamp_index(-3, 10), 0);
    assert_eq!(clamp_index(12, 10), 10);
    assert_eq!(clamp_index(7, 10), 7);
    assert_eq!(m.cell_corner(720, -1), (719, 1439));
    assert_eq!(m.nearest_cell(720, 1440), (720, 0));
    assert_eq!(m.upper_indices(720, 1439), (720, 0));
    assert_eq!(m.upper_indices(3, 4), (4, 5));
    let (rows, cols) = m.bicubic_stencil(0, 0);
    assert_eq!(rows, [0, 0, 1, 2]);
    assert_eq!(cols, [1439, 0, 1, 2]);
    let (rows, cols) = m.bicubic_stencil(719, 1438);
    assert_eq!(rows, [718, 719, 720, 720]);
    assert_eq!(cols, [1437, 1438, 1439, 0]);
}

#[test]
fn big_endian_decoding() {
    assert_eq!(i16_from_be_bytes(0x00, 0x01), 1);
    assert_eq!(i16_from_be_bytes(0xff, 0xff), -1);
    assert_eq!(i16_from_be_bytes(0x80, 0x00), -32768);
    assert_eq!(i16_from_be_bytes(0x7f, 0xff), 32767);
    assert_eq!(
        EgmModel::Egm96.decode_value(&[0x06, 0xb4]),
        RawValue::Centimeters(1716)
    );
    assert_eq!(
        EgmModel::Egm2008.decode_value(&1.5f32.to_le_bytes()),
        RawValue::F32Bits(1.5f32.to_bits())
    );
}

#[test]
fn egm96_from_bytes_decodes_centimeters() {
    let mut bytes = Vec::with_capacity(EGM96_ROWS * EGM96_COLS * 2);
    for i in 0..(EGM96_ROWS * EGM96_COLS) {
        let v = ((i % 4000) as i16) - 2000;
        bytes.extend_from_slice(&v.to_be_bytes());
    }
    let grid = RawGrid::from_bytes(&bytes, EgmModel::Egm96).unwrap();
    assert_eq!(grid.model(), EgmModel::Egm96);
    assert_eq!(grid.raw_value(0, 0).unwrap(), RawValue::Centimeters(-2000));
    let index = 5 * EGM96_COLS + 7;
    assert_eq!(
        grid.raw_value(5, 7).unwrap(),
        RawValue::Centimeters(((index % 4000) as i16) - 2000)
    );
    assert!(grid.raw_value(EGM96_ROWS, 0).is_err());
    assert!(RawGrid::from_bytes(&bytes[..10], EgmModel::Egm96).is_err());
}

#[test]
fn egm2008_from_bytes_parses_a_synthetic_grid_and_rejects_corruption() {
    let value = |row: usize, col: usize| ((row % 200) as f32) - ((col % 100) as f32) * 0.5;

    let record = (EGM2008_COLS * 4) as u32;
    let mut bytes = Vec::with_capacity(EGM2008_ROWS * (EGM2008_COLS * 4 + 8));
    for row in 0..EGM2008_ROWS {
        bytes.extend_from_slice(&record.to_le_bytes());
        for col in 0..EGM2008_COLS {
            bytes.extend_from_slice(&value(row, col).to_le_bytes());
        }
        bytes.extend_from_slice(&record.to_le_bytes());
    }

    let grid = RawGrid::from_bytes(&bytes, EgmModel::Egm2008).expect("synthetic grid should parse");
    for (row, col) in [
        (0, 0),
        (0, EGM2008_COLS - 1),
        (EGM2008_ROWS - 1, 0),
        (EGM2008_ROWS - 1, EGM2008_COLS - 1),
        (EGM2008_ROWS / 2, EGM2008_COLS / 2),
    ] {
        let got = match grid.raw_value(row, col).unwrap() {
            RawValue::F32Bits(bits) => f32::from_bits(bits) as f64,
            other => panic!("unexpected {other:?}"),
        };
        let expected = value(row, col) as f64;
        assert!(
            (got - expected).abs() < 1e-12,
            "({row}, {col}): got {got}, expected {expected}"
        );
    }

    // A corrupted Fortran record marker must be rejected, not silently misread as data.
    bytes[0] ^= 0xFF;
    assert!(
        RawGrid::from_bytes(&bytes, EgmModel::Egm2008).is_err(),
        "corrupt record marker must fail"
    );
    match RawGrid::from_bytes(&bytes, EgmModel::Egm2008) {
        Err(EgmError::InvalidGridSize {
            model,
            expected_bytes,
            actual_bytes,
        }) => {
            assert_eq!(model, EgmModel::Egm2008);
            assert_eq!(expected_bytes, EGM2008_ROWS * (EGM2008_COLS * 4 + 8));
            let marker = u32::from_le_bytes([bytes[0], bytes[1], bytes[2], bytes[3]]);
            assert_eq!(actual_bytes, EGM2008_ROWS as u64 * marker as u64);
        }
        _ => panic!("expected a grid size error"),
    }
}

#[test]
fn egm2008_trailing_marker_is_checked_too() {
    let record = (EGM2008_COLS * 4) as u32;
    let mut bytes = Vec::with_capacity(EGM2008_ROWS * (EGM2008_COLS * 4 + 8));
    for _ in 0..EGM2008_ROWS {
        bytes.extend_from_slice(&record.to_le_bytes());
        bytes.extend(std::iter::repeat(0u8).take(EGM2008_COLS * 4));
        bytes.extend_from_slice(&record.to_le_bytes());
    }
    let trailing_of_row_3 = 3 * (EGM2008_COLS * 4 + 8) + 4 + EGM2008_COLS * 4;
    bytes[trailing_of_row_3 + 1] = 0x86;
    match RawGrid::from_bytes(&bytes, EgmModel::Egm2008) {
        Err(EgmError::InvalidGridSize { actual_bytes, .. }) => {
            assert_eq!(actual_bytes, EGM2008_ROWS as u64 * 0x8600);
        }
        _ => panic!("expected a grid size error"),
    }
}

#[test]
fn grid_error_messages_name_the_numbers() {
    let size_err = dimensions_from_file_size(EgmModel::Egm96, 10).unwrap_err();
    assert_eq!(
        size_err.message(),
        "unexpected Egm96 grid size, expected 2076480 bytes, got 10 bytes"
    );
    let index_err = EgmModel::Egm2008.check_cell(4321, 0).unwrap_err();
    assert_eq!(
        index_err.message(),
        "grid index out of bounds: row=4321, col=0, max_row=4320, max_col=8639"
    );
}

#[test]
fn missing_dataset_error_explains_its_own_fix() {
    let msg = EgmModel::Egm2008.dataset_missing_message("data/definitely_not_here.DAC");
    assert!(msg.contains("download_geoid_data.sh"), "no fetch command: {msg}");
    assert!(msg.contains("--model egm2008"), "wrong model in command: {msg}");
    assert!(msg.contains("definitely_not_here.DAC"), "path missing: {msg}");
    assert!(!msg.contains("embedded-egm96"));

    let msg96 = EgmModel::Egm96.dataset_missing_message("data/also_not_here.DAC");
    assert!(msg96.contains("--model egm96"), "wrong model: {msg96}");
    assert!(
        msg96.contains("embedded-egm96"),
        "EGM96 must advertise the zero-download alternative: {msg96}"
    );
    assert_eq!(
        msg96,
        format!(
            "Egm96 geoid grid not found at data/also_not_here.DAC \u{2014} fetch it with: {} (or skip the download: enable the `embedded-egm96` feature and use EGM96::embedded())",
            EgmModel::Egm96.download_command()
        )
    );
}
