//! EGM96 / EGM2008 geoid grid layouts, size validation and raw value decoding.

use vstd::prelude::*;

use crate::codec::{be_i16, le_u32, read_i16_be, read_u32_le};
use crate::text::{append_decimal, contains_text, decimal};

verus! {

/// Rows of the EGM96 15-arc-minute grid (90 N to 90 S inclusive).
pub const EGM96_ROWS: usize = 721;
/// Columns of the EGM96 grid (0 E eastward, not repeating 360).
pub const EGM96_COLS: usize = 1440;
/// Rows of the EGM2008 2.5-arc-minute grid.
pub const EGM2008_ROWS: usize = 4321;
/// Columns of the EGM2008 grid.
pub const EGM2008_COLS: usize = 8640;

/// On-disk encoding of a geoid grid.
#[derive(Clone, Copy, Debug, PartialEq, Eq, Structural)]
pub enum GridFormat {
    /// Big-endian `i16` centimeters, row-major, no framing.
    Egm96I16Be,
    /// Little-endian `f32` meters, one Fortran sequential record per row
    /// (a `u32` byte-count marker before and after each row).
    Egm2008F32LeFortranSequential,
}

/// Identifies which Earth Gravitational Model a geoid grid was derived from.
#[derive(Clone, Copy, Debug, PartialEq, Eq, Structural)]
pub enum EgmModel {
    /// NGA EGM96 15-arc-minute grid (`WW15MGH.DAC`).
    Egm96,
    /// NGA EGM2008 2.5-arc-minute grid (`EGM2008_2_5.DAC`).
    Egm2008,
}

impl EgmModel {
    /// The official NGA download URL for this model's interpolation grid.
    pub fn dataset_url(self) -> (url: &'static str)
        ensures
            url@ == match self {
                EgmModel::Egm96 => "https://earth-info.nga.mil/php/download.php?file=egm-96interpolation"@,
                EgmModel::Egm2008 => "https://earth-info.nga.mil/php/download.php?file=egm-08interpolation"@,
            },
    {
        match self {
            EgmModel::Egm96 => "https://earth-info.nga.mil/php/download.php?file=egm-96interpolation",
            EgmModel::Egm2008 => "https://earth-info.nga.mil/php/download.php?file=egm-08interpolation",
        }
    }

    /// The filename NGA publishes the model's grid under, used when staging data locally.
    pub fn canonical_filename(self) -> (name: &'static str)
        ensures
            name@ == match self {
                EgmModel::Egm96 => "WW15MGH.DAC"@,
                EgmModel::Egm2008 => "EGM2008_2_5.DAC"@,
            },
    {
        match self {
            EgmModel::Egm96 => "WW15MGH.DAC",
            EgmModel::Egm2008 => "EGM2008_2_5.DAC",
        }
    }

    /// The short display name of the model (`EGM96` / `EGM2008`).
    pub fn label(self) -> (name: &'static str)
        ensures
            name@ == match self {
                EgmModel::Egm96 => "EGM96"@,
                EgmModel::Egm2008 => "EGM2008"@,
            },
    {
        match self {
            EgmModel::Egm96 => "EGM96",
            EgmModel::Egm2008 => "EGM2008",
        }
    }

    /// The `--model` argument the download script expects for this model.
    pub fn script_model_name(self) -> (name: &'static str)
        ensures
            name@ == script_model_name_spec(self),
    {
        match self {
            EgmModel::Egm96 => "egm96",
            EgmModel::Egm2008 => "egm2008",
        }
    }

    /// A copy-pasteable shell command that fetches and stages this model's grid under `data/`.
    pub fn download_command(self) -> (cmd: String)
        ensures
            cmd@ == download_command_prefix() + script_model_name_spec(self),
    {
        let mut cmd = String::new();
        cmd.append(
            "curl -fsSL https://raw.githubusercontent.com/alpacasweater/small_world/main/scripts/download_geoid_data.sh | bash -s -- --model ",
        );
        cmd.append(self.script_model_name());
        cmd
    }
}

/// The download script's `--model` argument for `model`.
pub open spec fn script_model_name_spec(model: EgmModel) -> Seq<char> {
    match model {
        EgmModel::Egm96 => "egm96"@,
        EgmModel::Egm2008 => "egm2008"@,
    }
}

/// Everything in the download command before the model name.
pub open spec fn download_command_prefix() -> Seq<char> {
    "curl -fsSL https://raw.githubusercontent.com/alpacasweater/small_world/main/scripts/download_geoid_data.sh | bash -s -- --model "@
}

/// What the message of a missing EGM96 grid adds: the embedded copy needs no download.
pub open spec fn embedded_grid_hint() -> Seq<char> {
    " (or skip the download: enable the `embedded-egm96` feature and use EGM96::embedded())"@
}

/// The message for a `model` grid that was looked for at `path` (as displayed) and not found:
/// the path, the command that fetches the grid and, for EGM96, the zero-download alternative.
pub open spec fn dataset_missing_message_spec(model: EgmModel, path: Seq<char>) -> Seq<char> {
    model_debug_name(model) + " geoid grid not found at "@ + path + " \u{2014} fetch it with: "@
        + download_command_prefix() + script_model_name_spec(model) + if model == EgmModel::Egm96 {
        embedded_grid_hint()
    } else {
        Seq::<char>::empty()
    }
}

impl EgmModel {
    /// The message for this model's grid looked for at `path` (as displayed) and not found: it
    /// carries the exact command that fetches the grid.
    pub fn dataset_missing_message(self, path: &str) -> (m: String)
        ensures
            m@ == dataset_missing_message_spec(self, path@),
    {
        let mut m = String::new();
        m.append(self.debug_name());
        m.append(" geoid grid not found at ");
        m.append(path);
        m.append(" \u{2014} fetch it with: ");
        let command = self.download_command();
        m.append(command.as_str());
        if self == EgmModel::Egm96 {
            m.append(
                " (or skip the download: enable the `embedded-egm96` feature and use EGM96::embedded())",
            );
        }
        assert(m@ =~= dataset_missing_message_spec(self, path@));
        m
    }
}

/// A missing grid explains its own fix: the message names the path that was tried and holds
/// the exact command that fetches this model's grid, and a missing EGM96 grid also points to
/// the embedded copy.
pub proof fn law_missing_dataset_message_names_fix(model: EgmModel, path: Seq<char>)
    ensures
        contains_text(dataset_missing_message_spec(model, path), path),
        contains_text(
            dataset_missing_message_spec(model, path),
            download_command_prefix() + script_model_name_spec(model),
        ),
        model == EgmModel::Egm96 ==> contains_text(
            dataset_missing_message_spec(model, path),
            embedded_grid_hint(),
        ),
{
    let msg = dataset_missing_message_spec(model, path);
    let head = model_debug_name(model) + " geoid grid not found at "@;
    let cmd = download_command_prefix() + script_model_name_spec(model);
    let mid = head + path + " \u{2014} fetch it with: "@;
    let hint = if model == EgmModel::Egm96 {
        embedded_grid_hint()
    } else {
        Seq::<char>::empty()
    };
    assert(msg =~= mid + cmd + hint);
    assert(msg.subrange(head.len() as int, (head.len() + path.len()) as int) =~= path);
    assert(msg.subrange(mid.len() as int, (mid.len() + cmd.len()) as int) =~= cmd);
    if model == EgmModel::Egm96 {
        let k: int = (mid.len() + cmd.len()) as int;
        assert(msg.subrange(k, k + hint.len()) =~= hint);
    }
}

/// The model that is not `model`.
pub open spec fn other_model(model: EgmModel) -> EgmModel {
    match model {
        EgmModel::Egm96 => EgmModel::Egm2008,
        EgmModel::Egm2008 => EgmModel::Egm96,
    }
}

/// Grid-level errors: a cell outside the grid, or a byte length (or record marker) that does
/// not match the model's layout.
#[derive(Debug)]
pub enum EgmError {
    /// A direct grid lookup addressed a cell outside the grid.
    InvalidIndex { row: usize, col: usize, max_row: usize, max_col: usize },
    /// The data does not have the byte layout the model requires.
    InvalidGridSize { model: EgmModel, expected_bytes: usize, actual_bytes: u64 },
}

/// The `Debug` name of a model (`Egm96` / `Egm2008`), as error messages print it.
pub open spec fn model_debug_name(model: EgmModel) -> Seq<char> {
    match model {
        EgmModel::Egm96 => "Egm96"@,
        EgmModel::Egm2008 => "Egm2008"@,
    }
}

impl EgmModel {
    /// The `Debug` name of this model (`Egm96` / `Egm2008`).
    pub fn debug_name(self) -> (s: &'static str)
        ensures
            s@ == model_debug_name(self),
    {
        match self {
            EgmModel::Egm96 => "Egm96",
            EgmModel::Egm2008 => "Egm2008",
        }
    }
}

/// The human-readable message of a grid error.
pub open spec fn egm_error_message(e: EgmError) -> Seq<char> {
    match e {
        EgmError::InvalidIndex { row, col, max_row, max_col } => "grid index out of bounds: row="@
            + decimal(row as nat) + ", col="@ + decimal(col as nat) + ", max_row="@ + decimal(
            max_row as nat,
        ) + ", max_col="@ + decimal(max_col as nat),
        EgmError::InvalidGridSize { model, expected_bytes, actual_bytes } => "unexpected "@
            + model_debug_name(model) + " grid size, expected "@ + decimal(expected_bytes as nat)
            + " bytes, got "@ + decimal(actual_bytes as nat) + " bytes"@,
    }
}

impl EgmError {
    /// The human-readable message of this error.
    pub fn message(&self) -> (m: String)
        ensures
            m@ == egm_error_message(*self),
    {
        let mut m = String::new();
        match self {
            EgmError::InvalidIndex { row, col, max_row, max_col } => {
                m.append("grid index out of bounds: row=");
                append_decimal(&mut m, *row as u64);
                m.append(", col=");
                append_decimal(&mut m, *col as u64);
                m.append(", max_row=");
                append_decimal(&mut m, *max_row as u64);
                m.append(", max_col=");
                append_decimal(&mut m, *max_col as u64);
            },
            EgmError::InvalidGridSize { model, expected_bytes, actual_bytes } => {
                m.append("unexpected ");
                m.append(model.debug_name());
                m.append(" grid size, expected ");
                append_decimal(&mut m, *expected_bytes as u64);
                m.append(" bytes, got ");
                append_decimal(&mut m, *actual_bytes);
                m.append(" bytes");
            },
        }
        assert(m@ =~= egm_error_message(*self));
        m
    }
}

/// Byte length of a well-formed EGM96 grid.
pub open spec fn egm96_grid_bytes() -> int {
    EGM96_ROWS * EGM96_COLS * 2
}

/// Byte length of one EGM2008 row record (markers included).
pub open spec fn egm2008_record_bytes() -> int {
    EGM2008_COLS * 4 + 8
}

/// Byte length of a well-formed EGM2008 grid.
pub open spec fn egm2008_grid_bytes() -> int {
    EGM2008_ROWS * egm2008_record_bytes()
}

/// Byte length a model's grid must have.
pub open spec fn model_grid_bytes(model: EgmModel) -> int {
    match model {
        EgmModel::Egm96 => egm96_grid_bytes(),
        EgmModel::Egm2008 => egm2008_grid_bytes(),
    }
}

/// The `(rows, cols_storage, lon_bins, format)` layout of a model's grid.
pub open spec fn model_dimensions(model: EgmModel) -> (usize, usize, usize, GridFormat) {
    match model {
        EgmModel::Egm96 => (EGM96_ROWS, EGM96_COLS, EGM96_COLS, GridFormat::Egm96I16Be),
        EgmModel::Egm2008 => (
            EGM2008_ROWS,
            EGM2008_COLS,
            EGM2008_COLS,
            GridFormat::Egm2008F32LeFortranSequential,
        ),
    }
}

/// Validates a dataset's byte length against `model`'s known layout and returns the layout
/// as `(rows, cols_storage, lon_bins, format)`.
pub fn dimensions_from_file_size(model: EgmModel, file_size_bytes: u64) -> (res: Result<
    (usize, usize, usize, GridFormat),
    EgmError,
>)
    ensures
        res is Ok <==> file_size_bytes == model_grid_bytes(model),
        res matches Ok(dims) ==> dims == model_dimensions(model),
        res matches Err(e) ==> e == (EgmError::InvalidGridSize {
            model,
            expected_bytes: model_grid_bytes(model) as usize,
            actual_bytes: file_size_bytes,
        }),
{
    match model {
        EgmModel::Egm96 => {
            let expected: usize = EGM96_ROWS * EGM96_COLS * 2;
            if file_size_bytes != expected as u64 {
                return Err(
                    EgmError::InvalidGridSize {
                        model,
                        expected_bytes: expected,
                        actual_bytes: file_size_bytes,
                    },
                );
            }
            Ok((EGM96_ROWS, EGM96_COLS, EGM96_COLS, GridFormat::Egm96I16Be))
        },
        EgmModel::Egm2008 => {
            let expected: usize = EGM2008_ROWS * (EGM2008_COLS * 4 + 8);
            if file_size_bytes != expected as u64 {
                return Err(
                    EgmError::InvalidGridSize {
                        model,
                        expected_bytes: expected,
                        actual_bytes: file_size_bytes,
                    },
                );
            }
            Ok((EGM2008_ROWS, EGM2008_COLS, EGM2008_COLS, GridFormat::Egm2008F32LeFortranSequential))
        },
    }
}

/// Number of grid rows of `model` (row 0 at 90 N, increasing southward).
pub open spec fn grid_rows(model: EgmModel) -> int {
    model_dimensions(model).0 as int
}

/// Number of longitude bins of `model` (column 0 at 0 E, increasing eastward).
pub open spec fn grid_cols(model: EgmModel) -> int {
    model_dimensions(model).2 as int
}

/// Number of cells of `model`'s grid.
pub open spec fn cell_count(model: EgmModel) -> int {
    grid_rows(model) * grid_cols(model)
}

/// Byte offset, within the dataset, of the value of the cell with row-major index `i`.
pub open spec fn value_byte_offset(model: EgmModel, i: int) -> int {
    match model {
        EgmModel::Egm96 => 2 * i,
        EgmModel::Egm2008 => (i / EGM2008_COLS as int) * egm2008_record_bytes() + 4 + (i
            % EGM2008_COLS as int) * 4,
    }
}

/// Byte offset of the `j`-th EGM2008 record marker: markers come in pairs per row, the
/// leading one (`j` even) before the row's values and the trailing one (`j` odd) after them.
pub open spec fn marker_offset(j: int) -> int {
    (j / 2) * egm2008_record_bytes() + if j % 2 == 1 {
        egm2008_record_bytes() - 4
    } else {
        0
    }
}

/// The value of the `j`-th EGM2008 record marker.
pub open spec fn record_marker(bytes: Seq<u8>, j: int) -> int {
    let o = marker_offset(j);
    le_u32(bytes[o], bytes[o + 1], bytes[o + 2], bytes[o + 3])
}

/// Whether the `j`-th record marker holds the row payload length.
pub open spec fn marker_ok(bytes: Seq<u8>, j: int) -> bool {
    record_marker(bytes, j) == EGM2008_COLS * 4
}

/// Whether every record marker of an EGM2008 dataset holds the row payload length.
pub open spec fn markers_valid(bytes: Seq<u8>) -> bool {
    forall|j: int| 0 <= j < 2 * EGM2008_ROWS ==> #[trigger] marker_ok(bytes, j)
}

/// Whether `bytes` is a complete, well-framed dataset of `model`.
pub open spec fn grid_bytes_valid(model: EgmModel, bytes: Seq<u8>) -> bool {
    &&& bytes.len() == model_grid_bytes(model)
    &&& model == EgmModel::Egm2008 ==> markers_valid(bytes)
}

/// The error reported for `model` data `bytes` that are not a valid dataset: the wrong length,
/// or else the first record marker (in file order) that does not hold the row length.
pub open spec fn grid_bytes_error(model: EgmModel, bytes: Seq<u8>, e: EgmError) -> bool {
    if bytes.len() != model_grid_bytes(model) {
        e == (EgmError::InvalidGridSize {
            model,
            expected_bytes: model_grid_bytes(model) as usize,
            actual_bytes: bytes.len() as u64,
        })
    } else {
        exists|j: int|
            0 <= j < 2 * EGM2008_ROWS && (forall|k: int| 0 <= k < j ==> #[trigger] marker_ok(bytes, k))
                && !marker_ok(bytes, j) && e == (EgmError::InvalidGridSize {
                model: EgmModel::Egm2008,
                expected_bytes: egm2008_grid_bytes() as usize,
                actual_bytes: (EGM2008_ROWS * record_marker(bytes, j)) as u64,
            })
    }
}

/// Every stored value of a grid, row-major.
pub enum GridValues {
    /// EGM96 centimeter values.
    Centimeters(Vec<i16>),
    /// EGM2008 `f32` bit patterns.
    F32Bits(Vec<u32>),
}

/// A fully decoded geoid grid in stored units: every cell of `model`'s layout, row-major.
pub struct RawGrid {
    model: EgmModel,
    values: GridValues,
}

impl RawGrid {
    #[verifier::type_invariant]
    spec fn inv(self) -> bool {
        match (self.model, self.values) {
            (EgmModel::Egm96, GridValues::Centimeters(v)) => v.len() == cell_count(EgmModel::Egm96),
            (EgmModel::Egm2008, GridValues::F32Bits(v)) => v.len() == cell_count(EgmModel::Egm2008),
            _ => false,
        }
    }

    /// The model whose layout this grid has.
    pub closed spec fn model_spec(&self) -> EgmModel {
        self.model
    }

    /// The stored value of the cell with row-major index `i`.
    pub closed spec fn value_spec(&self, i: int) -> RawValue {
        match self.values {
            GridValues::Centimeters(v) => RawValue::Centimeters(v@[i]),
            GridValues::F32Bits(v) => RawValue::F32Bits(v@[i]),
        }
    }

    /// The model whose layout this grid has.
    pub fn model(&self) -> (m: EgmModel)
        ensures
            m == self.model_spec(),
    {
        self.model
    }

    /// Decodes a complete dataset (the byte layout of the NGA `.DAC` files) into memory.
    /// Fails with [`EgmError::InvalidGridSize`] when the length is wrong or, for EGM2008, when
    /// a row's record marker does not hold the row length.
    pub fn from_bytes(bytes: &[u8], model: EgmModel) -> (res: Result<RawGrid, EgmError>)
        ensures
            res is Ok <==> grid_bytes_valid(model, bytes@),
            res matches Ok(g) ==> g.model_spec() == model && forall|i: int|
                0 <= i < cell_count(model) ==> #[trigger] g.value_spec(i) == decoded_value(
                    model,
                    bytes@,
                    i,
                ),
            res matches Err(e) ==> grid_bytes_error(model, bytes@, e),
    {
        let dims = dimensions_from_file_size(model, bytes.len() as u64);
        match dims {
            Err(e) => Err(e),
            Ok(_) => {
                let values = match model {
                    EgmModel::Egm96 => GridValues::Centimeters(decode_egm96(bytes)),
                    EgmModel::Egm2008 => GridValues::F32Bits(decode_egm2008(bytes)?),
                };
                Ok(RawGrid { model, values })
            },
        }
    }

    /// The stored value of the cell with row-major index `i`.
    pub fn value_at(&self, i: usize) -> (v: RawValue)
        requires
            i < cell_count(self.model_spec()),
        ensures
            v == self.value_spec(i as int),
    {
        proof {
            use_type_invariant(self);
        }
        match &self.values {
            GridValues::Centimeters(v) => RawValue::Centimeters(v[i]),
            GridValues::F32Bits(v) => RawValue::F32Bits(v[i]),
        }
    }

    /// The stored value at cell (`row`, `col`), or [`EgmError::InvalidIndex`] when the cell is
    /// outside the grid.
    pub fn raw_value(&self, row: usize, col: usize) -> (res: Result<RawValue, EgmError>)
        ensures
            res is Ok <==> row < grid_rows(self.model_spec()) && col < grid_cols(self.model_spec()),
            res matches Ok(v) ==> v == self.value_spec(row * grid_cols(self.model_spec()) + col),
            res matches Err(e) ==> e == (EgmError::InvalidIndex {
                row,
                col,
                max_row: (grid_rows(self.model_spec()) - 1) as usize,
                max_col: (grid_cols(self.model_spec()) - 1) as usize,
            }),
    {
        let index = self.model.check_cell(row, col)?;
        Ok(self.value_at(index))
    }
}

/// Decodes every big-endian `i16` of a complete EGM96 dataset.
fn decode_egm96(bytes: &[u8]) -> (values: Vec<i16>)
    requires
        bytes@.len() == egm96_grid_bytes(),
    ensures
        values@.len() == cell_count(EgmModel::Egm96),
        forall|i: int|
            0 <= i < values@.len() ==> RawValue::Centimeters(#[trigger] values@[i]) == decoded_value(
                EgmModel::Egm96,
                bytes@,
                i,
            ),
{
    let count: usize = EGM96_ROWS * EGM96_COLS;
    let mut values: Vec<i16> = Vec::with_capacity(count);
    let mut i: usize = 0;
    while i < count
        invariant
            count == cell_count(EgmModel::Egm96),
            bytes@.len() == egm96_grid_bytes(),
            i <= count,
            values@.len() == i,
            forall|k: int|
                0 <= k < values@.len() ==> RawValue::Centimeters(#[trigger] values@[k])
                    == decoded_value(EgmModel::Egm96, bytes@, k),
        decreases count - i,
    {
        let v = read_i16_be(bytes, 2 * i);
        values.push(v);
        i += 1;
    }
    values
}

/// Decodes every `f32` bit pattern of a complete EGM2008 dataset, checking each row's
/// leading and trailing record marker; the first marker that does not hold the row length
/// fails the decode.
fn decode_egm2008(bytes: &[u8]) -> (res: Result<Vec<u32>, EgmError>)
    requires
        bytes@.len() == egm2008_grid_bytes(),
    ensures
        res is Ok <==> markers_valid(bytes@),
        res matches Ok(values) ==> values@.len() == cell_count(EgmModel::Egm2008) && forall|i: int|
            0 <= i < values@.len() ==> RawValue::F32Bits(#[trigger] values@[i]) == decoded_value(
                EgmModel::Egm2008,
                bytes@,
                i,
            ),
        res matches Err(e) ==> grid_bytes_error(EgmModel::Egm2008, bytes@, e),
{
    let rows: usize = EGM2008_ROWS;
    let cols: usize = EGM2008_COLS;
    let record: usize = EGM2008_COLS * 4 + 8;
    let expected: u32 = (EGM2008_COLS * 4) as u32;
    let mut values: Vec<u32> = Vec::with_capacity(rows * cols);
    let mut row: usize = 0;
    while row < rows
        invariant
            rows == EGM2008_ROWS,
            cols == EGM2008_COLS,
            record == egm2008_record_bytes(),
            expected == EGM2008_COLS * 4,
            bytes@.len() == egm2008_grid_bytes(),
            row <= rows,
            values@.len() == row * cols,
            forall|k: int|
                0 <= k < values@.len() ==> RawValue::F32Bits(#[trigger] values@[k]) == decoded_value(
                    EgmModel::Egm2008,
                    bytes@,
                    k,
                ),
            forall|j: int| 0 <= j < 2 * row ==> #[trigger] marker_ok(bytes@, j),
        decreases rows - row,
    {
        assert(row * record + record <= rows * record) by (nonlinear_arith)
            requires
                row < rows,
        ;
        let base: usize = row * record;
        let leading = read_u32_le(bytes, base);
        assert(marker_offset(2 * row) == base);
        if leading != expected {
            assert((rows as int) * (leading as int) <= u64::MAX) by (nonlinear_arith)
                requires
                    rows == EGM2008_ROWS,
                    leading <= u32::MAX,
            ;
            let err = EgmError::InvalidGridSize {
                model: EgmModel::Egm2008,
                expected_bytes: rows * record,
                actual_bytes: (rows as u64) * (leading as u64),
            };
            assert(grid_bytes_error(EgmModel::Egm2008, bytes@, err)) by {
                assert(!marker_ok(bytes@, 2 * row));
            }
            assert(!markers_valid(bytes@)) by {
                assert(!marker_ok(bytes@, 2 * row));
            }
            return Err(err);
        }
        let mut col: usize = 0;
        while col < cols
            invariant
                rows == EGM2008_ROWS,
                cols == EGM2008_COLS,
                record == egm2008_record_bytes(),
                bytes@.len() == egm2008_grid_bytes(),
                row < rows,
                base == row * record,
                base + record <= rows * record,
                col <= cols,
                values@.len() == row * cols + col,
                forall|k: int|
                    0 <= k < values@.len() ==> RawValue::F32Bits(#[trigger] values@[k])
                        == decoded_value(EgmModel::Egm2008, bytes@, k),
            decreases cols - col,
        {
            proof {
                lemma_row_major(row as int, col as int, cols as int, rows as int);
            }
            let v = read_u32_le(bytes, base + 4 + col * 4);
            values.push(v);
            col += 1;
        }
        let trailing = read_u32_le(bytes, base + 4 + cols * 4);
        assert(marker_offset(2 * row + 1) == base + 4 + cols * 4);
        if trailing != expected {
            assert((rows as int) * (trailing as int) <= u64::MAX) by (nonlinear_arith)
                requires
                    rows == EGM2008_ROWS,
                    trailing <= u32::MAX,
            ;
            let err = EgmError::InvalidGridSize {
                model: EgmModel::Egm2008,
                expected_bytes: rows * record,
                actual_bytes: (rows as u64) * (trailing as u64),
            };
            assert(grid_bytes_error(EgmModel::Egm2008, bytes@, err)) by {
                assert(!marker_ok(bytes@, 2 * row + 1));
            }
            assert(!markers_valid(bytes@)) by {
                assert(!marker_ok(bytes@, 2 * row + 1));
            }
            return Err(err);
        }
        assert(row * cols + cols == (row + 1) * cols) by (nonlinear_arith);
        row += 1;
    }
    Ok(values)
}

/// Reading one cell from the dataset file (the `value_width` bytes at its `value_offset`,
/// decoded on their own) gives the same stored value as decoding the whole dataset into
/// memory: the lazily read and the preloaded grid agree on every cell.
pub proof fn law_file_read_matches_loaded(model: EgmModel, bytes: Seq<u8>, row: int, col: int)
    requires
        bytes.len() == model_grid_bytes(model),
        0 <= row < grid_rows(model),
        0 <= col < grid_cols(model),
    ensures
        ({
            let i = row * grid_cols(model) + col;
            let o = value_byte_offset(model, i);
            &&& 0 <= i < cell_count(model)
            &&& 0 <= o
            &&& o + value_width_spec(model) <= bytes.len()
            &&& decoded_value_at(model, bytes.subrange(o, o + value_width_spec(model)), 0)
                == decoded_value(model, bytes, i)
        }),
{
    let cols = grid_cols(model);
    let i = row * cols + col;
    lemma_row_major(row, col, cols, grid_rows(model));
    match model {
        EgmModel::Egm96 => {
            assert(2 * i + 2 <= 2 * cell_count(model));
        },
        EgmModel::Egm2008 => {
            assert(row * egm2008_record_bytes() + 4 + col * 4 + 4 <= EGM2008_ROWS
                * egm2008_record_bytes()) by (nonlinear_arith)
                requires
                    0 <= row < EGM2008_ROWS,
                    0 <= col < EGM2008_COLS,
                    egm2008_record_bytes() == EGM2008_COLS * 4 + 8,
            ;
        },
    }
}

/// A stored grid value before unit conversion: EGM96 centimeters, or the bit pattern of an
/// EGM2008 `f32` in meters.
#[derive(Clone, Copy, Debug, PartialEq, Eq, Structural)]
pub enum RawValue {
    /// Geoid undulation in centimeters.
    Centimeters(i16),
    /// IEEE-754 bits of a geoid undulation in meters.
    F32Bits(u32),
}

/// The value a `model` dataset `bytes` holds for the cell whose value starts at `offset`.
pub open spec fn decoded_value_at(model: EgmModel, bytes: Seq<u8>, offset: int) -> RawValue {
    match model {
        EgmModel::Egm96 => RawValue::Centimeters(be_i16(bytes[offset], bytes[offset + 1]) as i16),
        EgmModel::Egm2008 => RawValue::F32Bits(
            le_u32(bytes[offset], bytes[offset + 1], bytes[offset + 2], bytes[offset + 3]) as u32,
        ),
    }
}

/// The value a `model` dataset `bytes` holds for the cell with row-major index `i`.
pub open spec fn decoded_value(model: EgmModel, bytes: Seq<u8>, i: int) -> RawValue {
    decoded_value_at(model, bytes, value_byte_offset(model, i))
}

/// Byte width of one stored value.
pub open spec fn value_width_spec(model: EgmModel) -> int {
    match model {
        EgmModel::Egm96 => 2,
        EgmModel::Egm2008 => 4,
    }
}

/// `v` clamped into `[0, max]`.
pub open spec fn clamp_spec(v: int, max: int) -> int {
    if v < 0 {
        0
    } else if v > max {
        max
    } else {
        v
    }
}

/// The smaller of `a` and `b`.
pub open spec fn min_spec(a: int, b: int) -> int {
    if a < b {
        a
    } else {
        b
    }
}

/// `v` clamped into `[0, max]`: the index of a grid node when `v` is a rounded or floored
/// grid coordinate that may fall outside the grid.
pub fn clamp_index(v: i64, max: usize) -> (i: usize)
    ensures
        i == clamp_spec(v as int, max as int),
{
    if v < 0 {
        0
    } else if (v as u64) > (max as u64) {
        max
    } else {
        v as usize
    }
}

proof fn lemma_row_major(r: int, c: int, cols: int, rows: int)
    requires
        0 <= r < rows,
        0 <= c < cols,
    ensures
        0 <= r * cols + c < rows * cols,
        (r * cols + c) / cols == r,
        (r * cols + c) % cols == c,
{
    assert(0 <= r * cols + c < rows * cols) by (nonlinear_arith)
        requires
            0 <= r < rows,
            0 <= c < cols,
    ;
    vstd::arithmetic::div_mod::lemma_fundamental_div_mod_converse(r * cols + c, cols, r, c);
}

impl EgmModel {
    /// Number of rows of this model's grid.
    pub fn rows(self) -> (n: usize)
        ensures
            n == grid_rows(self),
    {
        match self {
            EgmModel::Egm96 => EGM96_ROWS,
            EgmModel::Egm2008 => EGM2008_ROWS,
        }
    }

    /// Number of longitude bins (columns) of this model's grid.
    pub fn lon_bins(self) -> (n: usize)
        ensures
            n == grid_cols(self),
    {
        match self {
            EgmModel::Egm96 => EGM96_COLS,
            EgmModel::Egm2008 => EGM2008_COLS,
        }
    }

    /// On-disk encoding of this model's grid.
    pub fn format(self) -> (f: GridFormat)
        ensures
            f == model_dimensions(self).3,
    {
        match self {
            EgmModel::Egm96 => GridFormat::Egm96I16Be,
            EgmModel::Egm2008 => GridFormat::Egm2008F32LeFortranSequential,
        }
    }

    /// Byte width of one stored value (2 for EGM96, 4 for EGM2008).
    pub fn value_width(self) -> (w: usize)
        ensures
            w == value_width_spec(self),
    {
        match self {
            EgmModel::Egm96 => 2,
            EgmModel::Egm2008 => 4,
        }
    }

    /// The row-major index of cell (`row`, `col`), or [`EgmError::InvalidIndex`] when the cell
    /// is outside the grid.
    pub fn check_cell(self, row: usize, col: usize) -> (res: Result<usize, EgmError>)
        ensures
            res is Ok <==> row < grid_rows(self) && col < grid_cols(self),
            res matches Ok(i) ==> i == row * grid_cols(self) + col && i < cell_count(self),
            res matches Err(e) ==> e == (EgmError::InvalidIndex {
                row,
                col,
                max_row: (grid_rows(self) - 1) as usize,
                max_col: (grid_cols(self) - 1) as usize,
            }),
    {
        let rows = self.rows();
        let cols = self.lon_bins();
        if row >= rows || col >= cols {
            return Err(EgmError::InvalidIndex { row, col, max_row: rows - 1, max_col: cols - 1 });
        }
        proof {
            lemma_row_major(row as int, col as int, cols as int, rows as int);
        }
        Ok(row * cols + col)
    }

    /// Byte offset, within the dataset file, of the value of cell (`row`, `col`).
    pub fn value_offset(self, row: usize, col: usize) -> (off: u64)
        requires
            row < grid_rows(self),
            col < grid_cols(self),
        ensures
            off == value_byte_offset(self, row * grid_cols(self) + col),
            off + value_width_spec(self) <= model_grid_bytes(self),
    {
        let cols = self.lon_bins();
        proof {
            lemma_row_major(row as int, col as int, cols as int, grid_rows(self));
        }
        match self {
            EgmModel::Egm96 => {
                let index: u64 = (row * cols + col) as u64;
                index * 2
            },
            EgmModel::Egm2008 => {
                let record: u64 = (EGM2008_COLS * 4 + 8) as u64;
                assert(row * record + 4 + col * 4 + 4 <= EGM2008_ROWS * record) by (nonlinear_arith)
                    requires
                        row < EGM2008_ROWS,
                        col < EGM2008_COLS,
                        record == EGM2008_COLS * 4 + 8,
                ;
                (row as u64) * record + 4 + (col as u64) * 4
            },
        }
    }

    /// The column of longitude bin `v` after wrapping around the globe (`v` modulo the
    /// number of columns, always non-negative).
    pub fn wrap_col(self, v: i64) -> (c: usize)
        ensures
            c == (v as int) % grid_cols(self),
            c < grid_cols(self),
    {
        let cols: u64 = self.lon_bins() as u64;
        if v >= 0 {
            ((v as u64) % cols) as usize
        } else {
            let neg: u64 = (-(v + 1)) as u64;
            let m: u64 = neg % cols;
            proof {
                let q = neg as int / cols as int;
                vstd::arithmetic::div_mod::lemma_fundamental_div_mod(neg as int, cols as int);
                assert(v == (-q - 1) * cols + (cols - 1 - m)) by (nonlinear_arith)
                    requires
                        neg == q * cols + m,
                        v == -(neg + 1),
                ;
                vstd::arithmetic::div_mod::lemma_fundamental_div_mod_converse(
                    v as int,
                    cols as int,
                    -q - 1,
                    cols - 1 - m,
                );
            }
            (cols - 1 - m) as usize
        }
    }

    /// The (row, col) of the north-west corner of the interpolation cell whose floored grid
    /// coordinates are (`row_floor`, `col_floor`): the row is clamped so that a row below it
    /// exists, the column wraps around the globe.
    pub fn cell_corner(self, row_floor: i64, col_floor: i64) -> (rc: (usize, usize))
        ensures
            rc.0 == clamp_spec(row_floor as int, grid_rows(self) - 2),
            rc.1 == (col_floor as int) % grid_cols(self),
            rc.0 < grid_rows(self) - 1,
            rc.1 < grid_cols(self),
    {
        (clamp_index(row_floor, self.rows() - 2), self.wrap_col(col_floor))
    }

    /// The (row, col) of the grid node nearest to rounded grid coordinates
    /// (`row_round`, `col_round`): the row is clamped to the grid, the column wraps.
    pub fn nearest_cell(self, row_round: i64, col_round: i64) -> (rc: (usize, usize))
        ensures
            rc.0 == clamp_spec(row_round as int, grid_rows(self) - 1),
            rc.1 == (col_round as int) % grid_cols(self),
            rc.0 < grid_rows(self),
            rc.1 < grid_cols(self),
    {
        (clamp_index(row_round, self.rows() - 1), self.wrap_col(col_round))
    }

    /// The south-east corner opposite the north-west corner (`lower_row`, `lower_col`): the
    /// row is clamped at the south pole, the column wraps across the antimeridian.
    pub fn upper_indices(self, lower_row: usize, lower_col: usize) -> (rc: (usize, usize))
        requires
            lower_row < grid_rows(self),
            lower_col < grid_cols(self),
        ensures
            rc.0 == min_spec(lower_row + 1, grid_rows(self) - 1),
            rc.1 == (lower_col + 1) % grid_cols(self),
            rc.0 < grid_rows(self),
            rc.1 < grid_cols(self),
    {
        let rows = self.rows();
        let cols = self.lon_bins();
        let upper_row = if lower_row + 1 < rows - 1 {
            lower_row + 1
        } else {
            rows - 1
        };
        (upper_row, (lower_col + 1) % cols)
    }

    /// The 4x4 block of grid nodes around the cell with north-west corner
    /// (`lower_row`, `lower_col`): rows clamped at the poles, columns wrapped.
    pub fn bicubic_stencil(self, lower_row: usize, lower_col: usize) -> (st: ([usize; 4], [usize; 4]))
        requires
            lower_row < grid_rows(self),
            lower_col < grid_cols(self),
        ensures
            st.0@ == seq![
                if lower_row >= 1 { (lower_row - 1) as usize } else { 0usize },
                lower_row,
                min_spec(lower_row + 1, grid_rows(self) - 1) as usize,
                min_spec(lower_row + 2, grid_rows(self) - 1) as usize,
            ],
            st.1@ == seq![
                ((lower_col + grid_cols(self) - 1) % grid_cols(self)) as usize,
                lower_col,
                ((lower_col + 1) % grid_cols(self)) as usize,
                ((lower_col + 2) % grid_cols(self)) as usize,
            ],
            forall|k: int| 0 <= k < 4 ==> st.0@[k] < grid_rows(self) && st.1@[k] < grid_cols(self),
    {
        let rows = self.rows();
        let cols = self.lon_bins();
        let r0: usize = if lower_row >= 1 {
            lower_row - 1
        } else {
            0
        };
        let r2: usize = if lower_row + 1 < rows - 1 {
            lower_row + 1
        } else {
            rows - 1
        };
        let r3: usize = if lower_row + 2 < rows - 1 {
            lower_row + 2
        } else {
            rows - 1
        };
        let c0: usize = (lower_col + cols - 1) % cols;
        let c2: usize = (lower_col + 1) % cols;
        let c3: usize = (lower_col + 2) % cols;
        let row_indices: [usize; 4] = [r0, lower_row, r2, r3];
        let col_indices: [usize; 4] = [c0, lower_col, c2, c3];
        assert(row_indices@ =~= seq![r0, lower_row, r2, r3]);
        assert(col_indices@ =~= seq![c0, lower_col, c2, c3]);
        (row_indices, col_indices)
    }

    /// Decodes one stored value from the `value_width` bytes at the start of `bytes`.
    pub fn decode_value(self, bytes: &[u8]) -> (v: RawValue)
        requires
            bytes@.len() >= value_width_spec(self),
        ensures
            v == decoded_value_at(self, bytes@, 0),
    {
        match self {
            EgmModel::Egm96 => RawValue::Centimeters(read_i16_be(bytes, 0)),
            EgmModel::Egm2008 => RawValue::F32Bits(read_u32_le(bytes, 0)),
        }
    }
}

} // verus!
