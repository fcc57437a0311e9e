//! SRTM `.hgt` terrain tiles: naming, decoding, void handling, the bounded tile cache and
//! the dataset state that answers tile lookups.

use std::path::PathBuf;
use std::sync::Arc;
use vstd::prelude::*;

use crate::geoid::EgmModel;

use crate::codec::{be_i16, i16_from_be_bytes};
use crate::text::{
    append_decimal, append_signed_decimal, append_zero_padded, decimal, signed_decimal, zero_pad,
};

verus! {

/// The raw sample value SRTM uses to mark a void (missing) elevation.
pub const VOID_SAMPLE: i16 = -32768;

/// Number of tiles a dataset keeps cached unless configured otherwise.
pub const DEFAULT_MAX_CACHED_TILES: usize = 64;

/// Terrain tile errors that arise from tile contents: a byte length that is not a square
/// grid of big-endian `i16` samples, or a void sample the policy could not resolve.
#[derive(Debug)]
pub enum TerrainError {
    /// The tile's byte length is not `2 * n * n` for some `n >= 2`.
    InvalidTileSize { bytes: usize },
    /// A void sample was hit while the policy is [`VoidPolicy::Error`].
    VoidSample { tile_lat_floor_deg: i32, tile_lon_floor_deg: i32, row: usize, col: usize },
    /// A void sample had no valid sample within the policy's search radius.
    VoidSampleNoNeighbor {
        tile_lat_floor_deg: i32,
        tile_lon_floor_deg: i32,
        row: usize,
        col: usize,
        max_radius_cells: usize,
    },
}

/// The human-readable message of a void-sample error; `None` for a size error, whose message
/// names the tile's file.
pub open spec fn void_error_message(e: TerrainError) -> Option<Seq<char>> {
    match e {
        TerrainError::InvalidTileSize { .. } => None,
        TerrainError::VoidSample { tile_lat_floor_deg, tile_lon_floor_deg, row, col } => Some(
            "void terrain sample at tile ("@ + signed_decimal(tile_lat_floor_deg as int) + ", "@
                + signed_decimal(tile_lon_floor_deg as int) + "), row="@ + decimal(row as nat)
                + ", col="@ + decimal(col as nat),
        ),
        TerrainError::VoidSampleNoNeighbor {
            tile_lat_floor_deg,
            tile_lon_floor_deg,
            row,
            col,
            max_radius_cells,
        } => Some(
            "void terrain sample at tile ("@ + signed_decimal(tile_lat_floor_deg as int) + ", "@
                + signed_decimal(tile_lon_floor_deg as int) + "), row="@ + decimal(row as nat)
                + ", col="@ + decimal(col as nat) + " with no valid neighbor within radius "@
                + decimal(max_radius_cells as nat),
        ),
    }
}

impl TerrainError {
    /// The human-readable message of a void-sample error (`None` for a size error).
    pub fn void_message(&self) -> (m: Option<String>)
        ensures
            m matches Some(s) ==> void_error_message(*self) == Some(s@),
            m is None <==> void_error_message(*self) is None,
    {
        match self {
            TerrainError::InvalidTileSize { .. } => None,
            TerrainError::VoidSample { tile_lat_floor_deg, tile_lon_floor_deg, row, col } => {
                let mut m = String::new();
                m.append("void terrain sample at tile (");
                append_signed_decimal(&mut m, *tile_lat_floor_deg);
                m.append(", ");
                append_signed_decimal(&mut m, *tile_lon_floor_deg);
                m.append("), row=");
                append_decimal(&mut m, *row as u64);
                m.append(", col=");
                append_decimal(&mut m, *col as u64);
                assert(Some(m@) == void_error_message(*self));
                Some(m)
            },
            TerrainError::VoidSampleNoNeighbor {
                tile_lat_floor_deg,
                tile_lon_floor_deg,
                row,
                col,
                max_radius_cells,
            } => {
                let mut m = String::new();
                m.append("void terrain sample at tile (");
                append_signed_decimal(&mut m, *tile_lat_floor_deg);
                m.append(", ");
                append_signed_decimal(&mut m, *tile_lon_floor_deg);
                m.append("), row=");
                append_decimal(&mut m, *row as u64);
                m.append(", col=");
                append_decimal(&mut m, *col as u64);
                m.append(" with no valid neighbor within radius ");
                append_decimal(&mut m, *max_radius_cells as u64);
                assert(Some(m@) == void_error_message(*self));
                Some(m)
            },
        }
    }
}

/// Strategy for handling void (`-32768`) DEM samples.
#[derive(Clone, Copy, Debug, PartialEq, Eq, Structural)]
pub enum VoidPolicy {
    /// Return an error on void samples.
    Error,
    /// Treat void samples as zero meters MSL.
    Zero,
    /// Search for the nearest valid sample in the same tile up to a radius.
    NearestValid { max_radius_cells: usize },
}

impl Default for VoidPolicy {
    fn default() -> (p: Self)
        ensures
            p == VoidPolicy::Error,
    {
        VoidPolicy::Error
    }
}

/// The one-degree tile whose south-west corner is at (`lat_floor_deg`, `lon_floor_deg`).
#[derive(Clone, Copy, Debug, PartialEq, Eq, Structural, Hash)]
pub struct TileKey {
    pub lat_floor_deg: i32,
    pub lon_floor_deg: i32,
}

/// `|v|` as a natural number.
pub open spec fn abs_nat(v: int) -> nat {
    if v < 0 {
        (-v) as nat
    } else {
        v as nat
    }
}

/// The SRTM file name of `key`'s tile, e.g. `N39W077.hgt`: hemisphere letter, zero-padded
/// absolute latitude (two digits at least), hemisphere letter, zero-padded absolute longitude
/// (three digits at least).
pub open spec fn tile_filename(key: TileKey) -> Seq<char> {
    (if key.lat_floor_deg >= 0 {
        seq!['N']
    } else {
        seq!['S']
    }) + zero_pad(decimal(abs_nat(key.lat_floor_deg as int)), 2) + (if key.lon_floor_deg >= 0 {
        seq!['E']
    } else {
        seq!['W']
    }) + zero_pad(decimal(abs_nat(key.lon_floor_deg as int)), 3) + seq!['.', 'h', 'g', 't']
}

fn abs_u64(v: i32) -> (a: u64)
    ensures
        a == abs_nat(v as int),
{
    if v < 0 {
        (-(v as i64)) as u64
    } else {
        v as u64
    }
}

impl TileKey {
    /// The SRTM file name of this tile (e.g. `N39W077.hgt`).
    pub fn filename(self) -> (name: String)
        requires
            self.lat_floor_deg != i32::MIN,
            self.lon_floor_deg != i32::MIN,
        ensures
            name@ == tile_filename(self),
    {
        proof {
            reveal_strlit("N");
            reveal_strlit("S");
            reveal_strlit("E");
            reveal_strlit("W");
            reveal_strlit(".hgt");
        }
        let mut name = String::new();
        if self.lat_floor_deg >= 0 {
            name.append("N");
        } else {
            name.append("S");
        }
        append_zero_padded(&mut name, abs_u64(self.lat_floor_deg), 2);
        if self.lon_floor_deg >= 0 {
            name.append("E");
        } else {
            name.append("W");
        }
        append_zero_padded(&mut name, abs_u64(self.lon_floor_deg), 3);
        name.append(".hgt");
        name
    }
}

/// Wraps a tile's floor longitude into `[-180, 180)`.
pub fn normalize_tile_lon_floor(lon_floor_deg: i32) -> (lon: i32)
    requires
        lon_floor_deg + 180 <= i32::MAX,
    ensures
        lon == (lon_floor_deg + 180) % 360 - 180,
        -180 <= lon < 180,
{
    let shifted: i32 = lon_floor_deg + 180;
    let wrapped: i32 = if shifted >= 0 {
        shifted % 360
    } else {
        let r: i32 = shifted % 360;
        if r == 0 {
            0
        } else {
            r + 360
        }
    };
    wrapped - 180
}

/// `n * n`.
pub open spec fn square(n: int) -> int {
    n * n
}

/// Whether `count` samples form a square tile of side at least two.
pub open spec fn is_tile_sample_count(count: int) -> bool {
    exists|n: int| n >= 2 && #[trigger] square(n) == count
}

/// Whether a tile file of `len` bytes has a valid size: `2 * n * n` bytes with `n >= 2`.
pub open spec fn valid_tile_byte_len(len: int) -> bool {
    len % 2 == 0 && is_tile_sample_count(len / 2)
}

/// The largest `s` with `s * s <= n`.
fn integer_sqrt(n: usize) -> (s: usize)
    ensures
        square(s as int) <= n < square(s + 1),
{
    let mut lo: u128 = 0;
    let mut hi: u128 = 0x1_0000_0000;
    assert(n < hi * hi) by (nonlinear_arith)
        requires
            hi == 0x1_0000_0000,
            n <= u64::MAX,
    ;
    while hi - lo > 1
        invariant
            lo < hi <= 0x1_0000_0000,
            lo * lo <= n,
            n < hi * hi,
        decreases hi - lo,
    {
        let mid: u128 = lo + (hi - lo) / 2;
        assert(mid * mid <= 0x1_0000_0000 * 0x1_0000_0000) by (nonlinear_arith)
            requires
                mid < 0x1_0000_0000,
        ;
        if mid * mid <= n as u128 {
            lo = mid;
        } else {
            hi = mid;
        }
    }
    assert(lo * lo < 0x1_0000_0000 * 0x1_0000_0000) by (nonlinear_arith)
        requires
            lo < 0x1_0000_0000,
    ;
    lo as usize
}

proof fn lemma_square_unique(s: int, n: int, count: int)
    requires
        0 <= s,
        0 <= n,
        square(s) <= count < square(s + 1),
        square(n) == count,
    ensures
        n == s,
{
    if n < s {
        assert(n * n < s * s) by (nonlinear_arith)
            requires
                0 <= n < s,
        ;
    } else if n > s {
        assert((s + 1) * (s + 1) <= n * n) by (nonlinear_arith)
            requires
                0 <= s,
                s + 1 <= n,
        ;
    }
}

/// One decoded SRTM tile: a `side x side` grid of big-endian `i16` elevations in meters,
/// row-major from the north-west corner.
#[derive(Debug)]
pub struct HgtTile {
    key: TileKey,
    side: usize,
    samples: Vec<i16>,
}

impl HgtTile {
    #[verifier::type_invariant]
    spec fn inv(self) -> bool {
        self.side >= 2 && self.samples.len() == self.side * self.side
    }

    /// The tile this grid belongs to.
    pub closed spec fn key_spec(&self) -> TileKey {
        self.key
    }

    /// Number of samples per row and per column.
    pub closed spec fn side_spec(&self) -> nat {
        self.side as nat
    }

    /// The samples, row-major.
    pub closed spec fn samples_spec(&self) -> Seq<i16> {
        self.samples@
    }

    /// The raw sample at (`row`, `col`).
    pub open spec fn sample_at(&self, row: int, col: int) -> i16 {
        self.samples_spec()[row * self.side_spec() + col]
    }

    /// Decodes tile `key` from the bytes of its `.hgt` file. Fails with
    /// [`TerrainError::InvalidTileSize`] unless the data is `2 * n * n` bytes with `n >= 2`.
    pub fn from_bytes(bytes: &[u8], key: TileKey) -> (res: Result<HgtTile, TerrainError>)
        ensures
            res is Ok <==> valid_tile_byte_len(bytes@.len() as int),
            res matches Ok(t) ==> {
                &&& t.key_spec() == key
                &&& t.side_spec() >= 2
                &&& square(t.side_spec() as int) == bytes@.len() / 2
                &&& t.samples_spec().len() == bytes@.len() / 2
                &&& forall|i: int|
                    0 <= i < t.samples_spec().len() ==> #[trigger] t.samples_spec()[i] as int
                        == be_i16(bytes@[2 * i], bytes@[2 * i + 1])
            },
            res matches Err(e) ==> e == (TerrainError::InvalidTileSize { bytes: bytes@.len() as usize }),
    {
        let len = bytes.len();
        if len % 2 != 0 {
            return Err(TerrainError::InvalidTileSize { bytes: len });
        }
        let sample_count: usize = len / 2;
        let side = integer_sqrt(sample_count);
        if side < 2 || side * side != sample_count {
            proof {
                if is_tile_sample_count(sample_count as int) {
                    let n = choose|n: int| n >= 2 && #[trigger] square(n) == sample_count;
                    lemma_square_unique(side as int, n, sample_count as int);
                }
            }
            return Err(TerrainError::InvalidTileSize { bytes: len });
        }
        assert(square(side as int) == sample_count);
        let mut samples: Vec<i16> = Vec::with_capacity(sample_count);
        let mut i: usize = 0;
        while i < sample_count
            invariant
                bytes@.len() == len,
                sample_count == len / 2,
                i <= sample_count,
                samples@.len() == i,
                forall|k: int|
                    0 <= k < i ==> #[trigger] samples@[k] as int == be_i16(
                        bytes@[2 * k],
                        bytes@[2 * k + 1],
                    ),
            decreases sample_count - i,
        {
            samples.push(i16_from_be_bytes(bytes[2 * i], bytes[2 * i + 1]));
            i += 1;
        }
        Ok(HgtTile { key, side, samples })
    }

    /// The tile this grid belongs to.
    pub fn key(&self) -> (k: TileKey)
        ensures
            k == self.key_spec(),
    {
        self.key
    }

    /// Number of samples per row and per column (at least two).
    pub fn side(&self) -> (n: usize)
        ensures
            n == self.side_spec(),
            n >= 2,
            self.samples_spec().len() == n * n,
            n * n <= usize::MAX,
    {
        proof {
            use_type_invariant(self);
        }
        let stored: usize = self.samples.len();
        assert(stored == self.side * self.side);
        self.side
    }

    /// (`row`, `col`) clamped into this tile (each at most `side - 1`).
    pub fn clamp_cell(&self, row: usize, col: usize) -> (rc: (usize, usize))
        ensures
            rc.0 == (if row < self.side_spec() { row as int } else { self.side_spec() - 1 }),
            rc.1 == (if col < self.side_spec() { col as int } else { self.side_spec() - 1 }),
            rc.0 < self.side_spec(),
            rc.1 < self.side_spec(),
    {
        let side = self.side();
        let r = if row < side {
            row
        } else {
            side - 1
        };
        let c = if col < side {
            col
        } else {
            side - 1
        };
        (r, c)
    }

    /// The raw sample at (`row`, `col`).
    pub fn sample_raw(&self, row: usize, col: usize) -> (v: i16)
        requires
            row < self.side_spec(),
            col < self.side_spec(),
        ensures
            v == self.sample_at(row as int, col as int),
    {
        proof {
            use_type_invariant(self);
            assert(row * self.side + col < self.side * self.side) by (nonlinear_arith)
                requires
                    row < self.side,
                    col < self.side,
            ;
        }
        self.samples[row * self.side + col]
    }
}

/// Chebyshev (king-move) distance between grid cells (`r1`, `c1`) and (`r2`, `c2`).
pub open spec fn cheb(r1: int, c1: int, r2: int, c2: int) -> int {
    let dr = if r1 < r2 {
        r2 - r1
    } else {
        r1 - r2
    };
    let dc = if c1 < c2 {
        c2 - c1
    } else {
        c1 - c2
    };
    if dr < dc {
        dc
    } else {
        dr
    }
}

/// Whether cell (`r`, `c`) of a `side x side` tile is examined when searching around
/// (`row`, `col`) up to `max_radius` rings.
pub open spec fn in_search(side: int, row: int, col: int, max_radius: int, r: int, c: int) -> bool {
    0 <= r < side && 0 <= c < side && 1 <= cheb(row, col, r, c) <= max_radius
}

/// Whether the search around (`row`, `col`) examines (`r1`, `c1`) before (`r2`, `c2`): inner
/// rings first, then north to south, then west to east.
pub open spec fn searched_before(row: int, col: int, r1: int, c1: int, r2: int, c2: int) -> bool {
    let d1 = cheb(row, col, r1, c1);
    let d2 = cheb(row, col, r2, c2);
    d1 < d2 || (d1 == d2 && (r1 < r2 || (r1 == r2 && c1 < c2)))
}

/// Whether `v` is the void marker.
pub open spec fn is_void(v: i16) -> bool {
    v == VOID_SAMPLE
}

impl HgtTile {
    /// Whether (`r`, `c`) is the first non-void cell the ring search around (`row`, `col`)
    /// with radius `max_radius` examines.
    pub open spec fn first_valid_in_search(&self, row: int, col: int, max_radius: int, r: int, c: int) -> bool {
        &&& in_search(self.side_spec() as int, row, col, max_radius, r, c)
        &&& !is_void(self.sample_at(r, c))
        &&& forall|r2: int, c2: int|
            in_search(self.side_spec() as int, row, col, max_radius, r2, c2) && searched_before(
                row,
                col,
                r2,
                c2,
                r,
                c,
            ) ==> is_void(#[trigger] self.sample_at(r2, c2))
    }

    /// Whether every cell the ring search around (`row`, `col`) with radius `max_radius`
    /// examines is void.
    pub open spec fn no_valid_in_search(&self, row: int, col: int, max_radius: int) -> bool {
        forall|r2: int, c2: int|
            in_search(self.side_spec() as int, row, col, max_radius, r2, c2) ==> is_void(
                #[trigger] self.sample_at(r2, c2),
            )
    }

    /// Searches the rings around (`row`, `col`) (Chebyshev distance 1, 2, ... up to
    /// `max_radius_cells`, each ring north to south and west to east, staying inside the tile)
    /// and returns the first cell holding a non-void sample.
    pub fn nearest_valid_cell(&self, row: usize, col: usize, max_radius_cells: usize) -> (res:
        Option<(usize, usize)>)
        requires
            row < self.side_spec(),
            col < self.side_spec(),
        ensures
            res matches Some(rc) ==> self.first_valid_in_search(
                row as int,
                col as int,
                max_radius_cells as int,
                rc.0 as int,
                rc.1 as int,
            ),
            res is None ==> self.no_valid_in_search(row as int, col as int, max_radius_cells as int),
    {
        let side = self.side();
        let limit: usize = if max_radius_cells < side - 1 {
            max_radius_cells
        } else {
            side - 1
        };
        assert(side + side <= side * side) by (nonlinear_arith)
            requires
                side >= 2,
        ;
        let mut radius: usize = 1;
        while radius <= limit
            invariant
                side + side <= usize::MAX,
                side == self.side_spec(),
                side >= 2,
                row < side,
                col < side,
                limit <= max_radius_cells,
                limit <= side - 1,
                1 <= radius <= limit + 1,
                forall|r2: int, c2: int|
                    0 <= r2 < side && 0 <= c2 < side && 1 <= cheb(row as int, col as int, r2, c2)
                        < radius ==> is_void(#[trigger] self.sample_at(r2, c2)),
            decreases limit + 1 - radius,
        {
            let row_min: usize = if row >= radius {
                row - radius
            } else {
                0
            };
            let row_max: usize = if row + radius < side - 1 {
                row + radius
            } else {
                side - 1
            };
            let col_min: usize = if col >= radius {
                col - radius
            } else {
                0
            };
            let col_max: usize = if col + radius < side - 1 {
                col + radius
            } else {
                side - 1
            };
            let mut cr: usize = row_min;
            while cr <= row_max
                invariant
                    side + side <= usize::MAX,
                    side == self.side_spec(),
                    side >= 2,
                    row < side,
                    col < side,
                    limit <= max_radius_cells,
                    limit <= side - 1,
                    1 <= radius <= limit,
                    row_min == (if row >= radius { row - radius } else { 0 }),
                    row_max == (if row + radius < side - 1 { row + radius } else { side - 1 }),
                    col_min == (if col >= radius { col - radius } else { 0 }),
                    col_max == (if col + radius < side - 1 { col + radius } else { side - 1 }),
                    row_min <= cr <= row_max + 1,
                    forall|r2: int, c2: int|
                        0 <= r2 < side && 0 <= c2 < side && 1 <= cheb(row as int, col as int, r2, c2)
                            < radius ==> is_void(#[trigger] self.sample_at(r2, c2)),
                    forall|r2: int, c2: int|
                        0 <= r2 < cr && 0 <= c2 < side && cheb(row as int, col as int, r2, c2)
                            == radius ==> is_void(#[trigger] self.sample_at(r2, c2)),
                decreases row_max + 1 - cr,
            {
                let mut cc: usize = col_min;
                while cc <= col_max
                    invariant
                        side + side <= usize::MAX,
                        side == self.side_spec(),
                        side >= 2,
                        row < side,
                        col < side,
                        limit <= max_radius_cells,
                        limit <= side - 1,
                        1 <= radius <= limit,
                        row_min == (if row >= radius { row - radius } else { 0 }),
                        row_max == (if row + radius < side - 1 { row + radius } else { side - 1 }),
                        col_min == (if col >= radius { col - radius } else { 0 }),
                        col_max == (if col + radius < side - 1 { col + radius } else { side - 1 }),
                        row_min <= cr <= row_max,
                        col_min <= cc <= col_max + 1,
                        forall|r2: int, c2: int|
                            0 <= r2 < side && 0 <= c2 < side && 1 <= cheb(
                                row as int,
                                col as int,
                                r2,
                                c2,
                            ) < radius ==> is_void(#[trigger] self.sample_at(r2, c2)),
                        forall|r2: int, c2: int|
                            0 <= r2 < cr && 0 <= c2 < side && cheb(row as int, col as int, r2, c2)
                                == radius ==> is_void(#[trigger] self.sample_at(r2, c2)),
                        forall|c2: int|
                            0 <= c2 < cc && cheb(row as int, col as int, cr as int, c2) == radius
                                ==> is_void(#[trigger] self.sample_at(cr as int, c2)),
                    decreases col_max + 1 - cc,
                {
                    let dr: usize = if cr < row {
                        row - cr
                    } else {
                        cr - row
                    };
                    let dc: usize = if cc < col {
                        col - cc
                    } else {
                        cc - col
                    };
                    let d: usize = if dr < dc {
                        dc
                    } else {
                        dr
                    };
                    if d == radius {
                        let raw = self.sample_raw(cr, cc);
                        if raw != VOID_SAMPLE {
                            return Some((cr, cc));
                        }
                    }
                    cc += 1;
                }
                cr += 1;
            }
            radius += 1;
        }
        None
    }
}

/// The void fallback picks a closest valid sample: whatever cell the ring search settles on
/// is valid, lies within the radius, and no valid cell of the search area is strictly closer
/// (in Chebyshev distance) to the void cell.
pub proof fn law_nearest_valid_is_closest(tile: HgtTile, row: int, col: int, max_radius: int, r: int, c: int, r2: int, c2: int)
    requires
        tile.first_valid_in_search(row, col, max_radius, r, c),
        in_search(tile.side_spec() as int, row, col, max_radius, r2, c2),
        !is_void(tile.sample_at(r2, c2)),
    ensures
        !is_void(tile.sample_at(r, c)),
        1 <= cheb(row, col, r, c) <= max_radius,
        cheb(row, col, r, c) <= cheb(row, col, r2, c2),
{
    if cheb(row, col, r2, c2) < cheb(row, col, r, c) {
        assert(searched_before(row, col, r2, c2, r, c));
    }
}

/// Tile longitudes wrap with period 360 and wrapping twice changes nothing.
pub proof fn law_wrap_lon_floor_periodic(v: int, k: int)
    ensures
        -180 <= wrap_lon_floor(v) < 180,
        wrap_lon_floor(v + 360 * k) == wrap_lon_floor(v),
        wrap_lon_floor(wrap_lon_floor(v)) == wrap_lon_floor(v),
        -180 <= v < 180 ==> wrap_lon_floor(v) == v,
{
    vstd::arithmetic::div_mod::lemma_mod_multiples_vanish(k, v + 180, 360);
    assert((v + 180) + 360 * k == 360 * k + (v + 180));
    let m = (v + 180) % 360;
    vstd::arithmetic::div_mod::lemma_mod_bound(v + 180, 360);
    vstd::arithmetic::div_mod::lemma_small_mod(m as nat, 360);
    assert(wrap_lon_floor(v) + 180 == m);
    if -180 <= v < 180 {
        vstd::arithmetic::div_mod::lemma_small_mod((v + 180) as nat, 360);
    }
}

/// Walking a grid index `v` into the range `[0, stride]` of one tile, where adjacent tiles
/// share their edge row (`stride = side - 1`): the number of tiles moved toward lower
/// indices' neighbour (positive when `v` was negative) and the index within the final tile.
pub open spec fn walk_axis(v: int, stride: int) -> (int, int)
    decreases (if v < 0 {
        stride - v
    } else {
        v
    }),
{
    if stride < 1 {
        (0, v)
    } else if v < 0 {
        let r = walk_axis(v + stride, stride);
        (r.0 + 1, r.1)
    } else if v > stride {
        let r = walk_axis(v - stride, stride);
        (r.0 - 1, r.1)
    } else {
        (0, v)
    }
}

/// `(v + 180) mod 360 - 180`: a floor longitude wrapped into `[-180, 180)`.
pub open spec fn wrap_lon_floor(v: int) -> int {
    (v + 180) % 360 - 180
}

/// Basic facts of [`walk_axis`]: the final index lies in `[0, stride]`, it differs from `v`
/// by whole tiles, and the direction of the move follows the sign of the overshoot.
pub proof fn lemma_walk_axis(v: int, stride: int)
    requires
        stride >= 1,
    ensures
        0 <= walk_axis(v, stride).1 <= stride,
        walk_axis(v, stride).1 == v + walk_axis(v, stride).0 * stride,
        v < 0 ==> walk_axis(v, stride).0 >= 1 && walk_axis(v, stride).1 < stride,
        v > stride ==> walk_axis(v, stride).0 <= -1 && walk_axis(v, stride).1 >= 1,
        0 <= v <= stride ==> walk_axis(v, stride) == (0int, v),
    decreases (if v < 0 {
        stride - v
    } else {
        v
    }),
{
    if v < 0 {
        lemma_walk_axis(v + stride, stride);
        let k = walk_axis(v + stride, stride).0;
        assert((k + 1) * stride == k * stride + stride) by (nonlinear_arith);
    } else if v > stride {
        lemma_walk_axis(v - stride, stride);
        let k = walk_axis(v - stride, stride).0;
        assert((k - 1) * stride == k * stride - stride) by (nonlinear_arith);
    }
}

/// Locates grid offset (`row`, `col`), given relative to tile `base_key` of `base_side`
/// samples per edge, possibly beyond its edges: walks tile by tile (adjacent tiles share
/// their edge rows and columns) until the offset lies inside a tile, then wraps that tile's
/// longitude. Returns the tile and the row and column within it.
pub fn walk_offset(base_key: TileKey, base_side: usize, row: isize, col: isize) -> (res: (
    TileKey,
    usize,
    usize,
))
    requires
        2 <= base_side <= isize::MAX,
        i32::MIN <= base_key.lat_floor_deg + walk_axis(row as int, base_side - 1).0 <= i32::MAX,
        i32::MIN <= base_key.lon_floor_deg - walk_axis(col as int, base_side - 1).0,
        base_key.lon_floor_deg - walk_axis(col as int, base_side - 1).0 + 180 <= i32::MAX,
    ensures
        res.0.lat_floor_deg == base_key.lat_floor_deg + walk_axis(row as int, base_side - 1).0,
        res.0.lon_floor_deg == wrap_lon_floor(
            base_key.lon_floor_deg - walk_axis(col as int, base_side - 1).0,
        ),
        res.1 == walk_axis(row as int, base_side - 1).1,
        res.2 == walk_axis(col as int, base_side - 1).1,
        res.1 < base_side,
        res.2 < base_side,
{
    let stride: isize = (base_side - 1) as isize;
    let ghost s = stride as int;
    let ghost wr = walk_axis(row as int, s);
    let ghost wc = walk_axis(col as int, s);
    let mut lat: i32 = base_key.lat_floor_deg;
    let mut lon: i32 = base_key.lon_floor_deg;
    let mut r: isize = row;
    let mut c: isize = col;
    proof {
        lemma_walk_axis(row as int, s);
        lemma_walk_axis(col as int, s);
    }
    while r < 0
        invariant
            stride == s,
            s >= 1,
            walk_axis(r as int, s).0 + (lat - base_key.lat_floor_deg) == wr.0,
            walk_axis(r as int, s).1 == wr.1,
            i32::MIN <= base_key.lat_floor_deg + wr.0 <= i32::MAX,
            i32::MIN <= lat,
        decreases s - r,
    {
        proof {
            lemma_walk_axis(r as int, s);
            lemma_walk_axis(r + s, s);
        }
        lat = lat + 1;
        r = r + stride;
    }
    while r > stride
        invariant
            stride == s,
            s >= 1,
            r >= 0,
            walk_axis(r as int, s).0 + (lat - base_key.lat_floor_deg) == wr.0,
            walk_axis(r as int, s).1 == wr.1,
            i32::MIN <= base_key.lat_floor_deg + wr.0 <= i32::MAX,
            lat <= i32::MAX,
        decreases r,
    {
        proof {
            lemma_walk_axis(r as int, s);
            lemma_walk_axis(r - s, s);
        }
        lat = lat - 1;
        r = r - stride;
    }
    proof {
        lemma_walk_axis(r as int, s);
    }
    while c < 0
        invariant
            stride == s,
            s >= 1,
            walk_axis(c as int, s).0 - (lon - base_key.lon_floor_deg) == wc.0,
            walk_axis(c as int, s).1 == wc.1,
            i32::MIN <= base_key.lon_floor_deg - wc.0,
            base_key.lon_floor_deg - wc.0 + 180 <= i32::MAX,
            lon <= i32::MAX,
        decreases s - c,
    {
        proof {
            lemma_walk_axis(c as int, s);
            lemma_walk_axis(c + s, s);
        }
        lon = lon - 1;
        c = c + stride;
    }
    while c > stride
        invariant
            stride == s,
            s >= 1,
            c >= 0,
            walk_axis(c as int, s).0 - (lon - base_key.lon_floor_deg) == wc.0,
            walk_axis(c as int, s).1 == wc.1,
            i32::MIN <= base_key.lon_floor_deg - wc.0,
            base_key.lon_floor_deg - wc.0 + 180 <= i32::MAX,
            i32::MIN <= lon,
        decreases c,
    {
        proof {
            lemma_walk_axis(c as int, s);
            lemma_walk_axis(c - s, s);
        }
        lon = lon + 1;
        c = c - stride;
    }
    proof {
        lemma_walk_axis(c as int, s);
    }
    let key = TileKey { lat_floor_deg: lat, lon_floor_deg: normalize_tile_lon_floor(lon) };
    (key, r as usize, c as usize)
}

/// Cache contents, most recently used first.
pub type CacheEntries = Seq<(TileKey, Arc<HgtTile>)>;

/// Whether no tile key occurs twice.
pub open spec fn keys_distinct(s: CacheEntries) -> bool {
    forall|i: int, j: int| 0 <= i < s.len() && 0 <= j < s.len() && i != j ==> #[trigger] s[i].0 != #[trigger] s[j].0
}

/// Whether `key` is cached.
pub open spec fn holds_key(s: CacheEntries, key: TileKey) -> bool {
    exists|i: int| 0 <= i < s.len() && #[trigger] s[i].0 == key
}

/// The position of `key` (`-1` when it is not cached).
pub open spec fn key_index(s: CacheEntries, key: TileKey) -> int {
    if holds_key(s, key) {
        choose|i: int| 0 <= i < s.len() && #[trigger] s[i].0 == key
    } else {
        -1
    }
}

/// The contents after a lookup of `key`: a hit moves the entry to the front, a miss changes
/// nothing.
pub open spec fn after_get(s: CacheEntries, key: TileKey) -> CacheEntries {
    if holds_key(s, key) {
        seq![s[key_index(s, key)]] + s.remove(key_index(s, key))
    } else {
        s
    }
}

/// The contents after storing `tile` under `key` with room for `max_tiles`: an existing entry
/// for `key` is replaced and moved to the front; otherwise the least recently used entry is
/// evicted when the cache is full and the new entry goes to the front.
pub open spec fn after_insert(s: CacheEntries, max_tiles: int, key: TileKey, tile: Arc<HgtTile>) -> CacheEntries {
    if holds_key(s, key) {
        seq![(key, tile)] + s.remove(key_index(s, key))
    } else if s.len() >= max_tiles {
        seq![(key, tile)] + s.take(max_tiles - 1)
    } else {
        seq![(key, tile)] + s
    }
}

/// The contents after shrinking to room for `max_tiles`: the least recently used entries
/// beyond the new capacity are evicted.
pub open spec fn after_set_capacity(s: CacheEntries, max_tiles: int) -> CacheEntries {
    if s.len() > max_tiles {
        s.take(max_tiles)
    } else {
        s
    }
}

/// `n`, raised to at least one.
pub open spec fn at_least_one(n: int) -> int {
    if n < 1 {
        1
    } else {
        n
    }
}

/// What is stored can be read back: right after `tile` is stored under `key`, `key` is the
/// most recently used entry, a lookup of it hits and returns `tile`, and that lookup leaves the
/// cache as it is.
pub proof fn law_read_after_insert(s: CacheEntries, max_tiles: int, key: TileKey, tile: Arc<HgtTile>)
    requires
        max_tiles >= 1,
        s.len() <= max_tiles,
        keys_distinct(s),
    ensures
        holds_key(after_insert(s, max_tiles, key, tile), key),
        key_index(after_insert(s, max_tiles, key, tile), key) == 0,
        after_insert(s, max_tiles, key, tile)[0] == (key, tile),
        after_get(after_insert(s, max_tiles, key, tile), key) == after_insert(s, max_tiles, key, tile),
{
    let t = after_insert(s, max_tiles, key, tile);
    lemma_after_insert_wf(s, max_tiles, key, tile);
    assert(t[0].0 == key);
    assert(holds_key(t, key));
    let j = key_index(t, key);
    if j != 0 {
        assert(t[j].0 != t[0].0);
    }
    assert(seq![t[0]] + t.remove(0) =~= t);
}

/// In a cache whose keys are distinct, the entry at `p` is where `key_index` finds its key.
proof fn lemma_key_index_at(t: CacheEntries, p: int)
    requires
        keys_distinct(t),
        0 <= p < t.len(),
    ensures
        holds_key(t, t[p].0),
        key_index(t, t[p].0) == p,
{
    assert(holds_key(t, t[p].0));
    let q = key_index(t, t[p].0);
    if q != p {
        assert(t[q].0 != t[p].0);
    }
}

/// A lookup hit makes the key the most recently used entry and leaves the recency order of
/// every other entry as it was: of two other entries, the one used more recently before the
/// lookup is still the more recent one after it. Nothing is added or dropped.
pub proof fn law_get_keeps_recency_of_others(s: CacheEntries, key: TileKey, j: int, k: int)
    requires
        keys_distinct(s),
        holds_key(s, key),
        0 <= j < k < s.len(),
        s[j].0 != key,
        s[k].0 != key,
    ensures
        after_get(s, key).len() == s.len(),
        after_get(s, key)[0].0 == key,
        after_get(s, key)[0] == s[key_index(s, key)],
        holds_key(after_get(s, key), s[j].0),
        holds_key(after_get(s, key), s[k].0),
        key_index(after_get(s, key), s[j].0) < key_index(after_get(s, key), s[k].0),
{
    let i = key_index(s, key);
    let t = after_get(s, key);
    lemma_move_front_distinct(s, i);
    assert(i != j && i != k);
    let pj = if j < i { j + 1 } else { j };
    let pk = if k < i { k + 1 } else { k };
    assert(t[pj] == s[j]);
    assert(t[pk] == s[k]);
    lemma_key_index_at(t, pj);
    lemma_key_index_at(t, pk);
}

/// Storing a tile keeps the cache within its capacity and each key at most once.
pub proof fn lemma_after_insert_wf(s: CacheEntries, max_tiles: int, key: TileKey, tile: Arc<HgtTile>)
    requires
        max_tiles >= 1,
        s.len() <= max_tiles,
        keys_distinct(s),
    ensures
        after_insert(s, max_tiles, key, tile).len() <= max_tiles,
        keys_distinct(after_insert(s, max_tiles, key, tile)),
{
    if holds_key(s, key) {
        let i = key_index(s, key);
        lemma_replace_front_distinct(s, i, key, tile);
    } else {
        let rest = if s.len() >= max_tiles {
            s.take(max_tiles - 1)
        } else {
            s
        };
        let t = seq![(key, tile)] + rest;
        assert(t == after_insert(s, max_tiles, key, tile));
        assert forall|a: int, b: int| 0 <= a < t.len() && 0 <= b < t.len() && a != b implies #[trigger] t[a].0
            != #[trigger] t[b].0 by {
            if a == 0 {
                assert(rest[b - 1] == s[b - 1]);
                assert(s[b - 1].0 != key);
            } else if b == 0 {
                assert(rest[a - 1] == s[a - 1]);
                assert(s[a - 1].0 != key);
            } else {
                assert(rest[a - 1] == s[a - 1]);
                assert(rest[b - 1] == s[b - 1]);
            }
        }
    }
}

/// Least-recently-used eviction: a new key arriving at a full cache evicts exactly the least
/// recently used entry (the last one) and keeps every other entry in order; below capacity
/// nothing is evicted.
pub proof fn law_eviction_is_least_recently_used(s: CacheEntries, max_tiles: int, key: TileKey, tile: Arc<HgtTile>)
    requires
        max_tiles >= 1,
        s.len() <= max_tiles,
        !holds_key(s, key),
    ensures
        s.len() == max_tiles ==> after_insert(s, max_tiles, key, tile) == seq![(key, tile)] + s.drop_last(),
        s.len() < max_tiles ==> after_insert(s, max_tiles, key, tile) == seq![(key, tile)] + s,
{
    if s.len() == max_tiles {
        assert(s.take(max_tiles - 1) =~= s.drop_last());
    }
}

/// A lookup never loads, evicts or duplicates anything: the cache holds the same entries
/// before and after, only their recency order may change.
pub proof fn law_get_keeps_entries(s: CacheEntries, key: TileKey)
    requires
        keys_distinct(s),
    ensures
        after_get(s, key).len() == s.len(),
        after_get(s, key).to_multiset() =~= s.to_multiset(),
        keys_distinct(after_get(s, key)),
{
    if holds_key(s, key) {
        let i = key_index(s, key);
        broadcast use vstd::seq_lib::group_to_multiset_ensures;

        vstd::seq_lib::lemma_multiset_commutative(seq![s[i]], s.remove(i));
        assert(seq![s[i]].to_multiset() =~= vstd::multiset::Multiset::empty().insert(s[i])) by {
            assert(seq![s[i]] =~= Seq::<(TileKey, Arc<HgtTile>)>::empty().push(s[i]));
        }
        assert(s.to_multiset().contains(s[i])) by {
            assert(s.contains(s[i]));
        }
        lemma_move_front_distinct(s, i);
    }
}

/// Shrinking the capacity keeps the most recently used entries, in order, up to the new
/// capacity.
pub proof fn law_shrink_keeps_most_recent(s: CacheEntries, max_tiles: int)
    requires
        max_tiles >= 1,
    ensures
        after_set_capacity(s, max_tiles).len() <= max_tiles,
        after_set_capacity(s, max_tiles).len() == if s.len() < max_tiles {
            s.len() as int
        } else {
            max_tiles
        },
        forall|i: int| 0 <= i < after_set_capacity(s, max_tiles).len() ==> #[trigger] after_set_capacity(s, max_tiles)[i] == s[i],
{
}

/// Hands out another reference to a cached tile.
///
/// Calls `Arc::clone`. Trusted claim: the returned `Arc` points to the same tile, so it is
/// equal to the argument.
#[verifier::external_body]
fn share_tile(tile: &Arc<HgtTile>) -> (shared: Arc<HgtTile>)
    ensures
        shared == *tile,
{
    Arc::clone(tile)
}

/// A bounded least-recently-used cache of decoded tiles.
#[derive(Debug)]
pub struct CacheState {
    entries: Vec<(TileKey, Arc<HgtTile>)>,
    max_tiles: usize,
}

impl CacheState {
    /// The cache's invariant: room for at least one tile, never more tiles than room, and
    /// each key at most once.
    #[verifier::type_invariant]
    spec fn inv(self) -> bool {
        &&& self.max_tiles >= 1
        &&& self.entries@.len() <= self.max_tiles
        &&& keys_distinct(self.entries@)
    }

    /// The cached tiles, most recently used first.
    pub closed spec fn entries_view(&self) -> CacheEntries {
        self.entries@
    }

    /// The number of tiles the cache keeps at most.
    pub closed spec fn capacity_view(&self) -> nat {
        self.max_tiles as nat
    }

    /// An empty cache with room for `max_tiles` tiles (at least one).
    pub fn new(max_tiles: usize) -> (c: Self)
        ensures
            c.entries_view() == CacheEntries::empty(),
            c.capacity_view() == at_least_one(max_tiles as int),
    {
        CacheState { entries: Vec::new(), max_tiles: if max_tiles < 1 { 1 } else { max_tiles } }
    }

    fn find(&self, key: TileKey) -> (res: Option<usize>)
        ensures
            res is Some <==> holds_key(self.entries_view(), key),
            res matches Some(i) ==> i == key_index(self.entries_view(), key) && i < self.entries@.len(),
    {
        proof {
            use_type_invariant(self);
        }
        let mut i: usize = 0;
        while i < self.entries.len()
            invariant
                keys_distinct(self.entries@),
                i <= self.entries@.len(),
                forall|k: int| 0 <= k < i ==> #[trigger] self.entries@[k].0 != key,
            decreases self.entries@.len() - i,
        {
            if self.entries[i].0 == key {
                assert(holds_key(self.entries@, key));
                let ghost j = key_index(self.entries@, key);
                proof {
                    assert(self.entries@[j].0 == key);
                    if j != i as int {
                        assert(self.entries@[j].0 != self.entries@[i as int].0);
                    }
                }
                return Some(i);
            }
            i += 1;
        }
        None
    }

    /// Takes the entries out, leaving the cache empty (which keeps its invariant).
    fn take_entries(&mut self) -> (entries: Vec<(TileKey, Arc<HgtTile>)>)
        ensures
            entries@ == old(self).entries_view(),
            entries@.len() <= old(self).capacity_view(),
            keys_distinct(entries@),
            old(self).capacity_view() >= 1,
            final(self).entries_view() == CacheEntries::empty(),
            final(self).capacity_view() == old(self).capacity_view(),
    {
        proof {
            use_type_invariant(&*self);
        }
        let mut entries: Vec<(TileKey, Arc<HgtTile>)> = Vec::new();
        std::mem::swap(&mut entries, &mut self.entries);
        entries
    }

    /// Looks up `key`; a hit becomes the most recently used entry.
    pub fn get(&mut self, key: TileKey) -> (res: Option<Arc<HgtTile>>)
        ensures
            final(self).capacity_view() == old(self).capacity_view(),
            final(self).entries_view() == after_get(old(self).entries_view(), key),
            res is Some <==> holds_key(old(self).entries_view(), key),
            res matches Some(t) ==> t == old(self).entries_view()[key_index(old(self).entries_view(), key)].1,
    {
        match self.find(key) {
            Some(i) => {
                let mut entries = self.take_entries();
                let ghost before = entries@;
                let entry = entries.remove(i);
                entries.insert(0, entry);
                assert(entries@ =~= seq![before[i as int]] + before.remove(i as int));
                proof {
                    lemma_move_front_distinct(before, i as int);
                }
                let tile = share_tile(&entries[0].1);
                self.entries = entries;
                Some(tile)
            },
            None => None,
        }
    }

    /// Stores `tile` under `key` as the most recently used entry, evicting the least recently
    /// used tile when a new key arrives at a full cache.
    pub fn insert(&mut self, key: TileKey, tile: Arc<HgtTile>)
        ensures
            final(self).capacity_view() == old(self).capacity_view(),
            final(self).entries_view() == after_insert(
                old(self).entries_view(),
                old(self).capacity_view() as int,
                key,
                tile,
            ),
    {
        let found = self.find(key);
        let mut entries = self.take_entries();
        let ghost before = entries@;
        match found {
            Some(i) => {
                let _replaced = entries.remove(i);
                entries.insert(0, (key, tile));
                assert(entries@ =~= seq![(key, tile)] + before.remove(i as int));
                proof {
                    lemma_replace_front_distinct(before, i as int, key, tile);
                }
            },
            None => {
                if entries.len() >= self.max_tiles {
                    let _evicted = entries.pop();
                    assert(entries@ =~= before.take(self.max_tiles - 1));
                }
                entries.insert(0, (key, tile));
                assert(keys_distinct(entries@)) by {
                    assert forall|a: int, b: int|
                        0 <= a < entries@.len() && 0 <= b < entries@.len() && a != b
                            implies #[trigger] entries@[a].0 != #[trigger] entries@[b].0 by {
                        if a == 0 {
                            assert(before[b - 1].0 != key);
                        } else if b == 0 {
                            assert(before[a - 1].0 != key);
                        } else {
                            assert(before[a - 1].0 != before[b - 1].0);
                        }
                    }
                }
            },
        }
        self.entries = entries;
    }

    /// Empties the cache; its capacity stays.
    pub fn clear(&mut self)
        ensures
            final(self).capacity_view() == old(self).capacity_view(),
            final(self).entries_view() == CacheEntries::empty(),
    {
        let _dropped = self.take_entries();
    }

    /// Number of cached tiles, which never exceeds the capacity; the cache holds each key at
    /// most once.
    pub fn len(&self) -> (n: usize)
        ensures
            n == self.entries_view().len(),
            n <= self.capacity_view(),
            keys_distinct(self.entries_view()),
    {
        proof {
            use_type_invariant(self);
        }
        self.entries.len()
    }

    /// Number of tiles the cache keeps at most (at least one).
    pub fn capacity(&self) -> (n: usize)
        ensures
            n == self.capacity_view(),
            n >= 1,
    {
        proof {
            use_type_invariant(self);
        }
        self.max_tiles
    }

    /// Changes the capacity to `max_tiles` (at least one), evicting least recently used tiles
    /// beyond it.
    pub fn set_capacity(&mut self, max_tiles: usize)
        ensures
            final(self).capacity_view() == at_least_one(max_tiles as int),
            final(self).entries_view() == after_set_capacity(
                old(self).entries_view(),
                at_least_one(max_tiles as int),
            ),
    {
        let mut entries = self.take_entries();
        let ghost before = entries@;
        let new_max: usize = if max_tiles < 1 {
            1
        } else {
            max_tiles
        };
        if entries.len() > new_max {
            entries.truncate(new_max);
            assert(entries@ =~= before.take(new_max as int));
        }
        assert(keys_distinct(entries@)) by {
            assert forall|a: int, b: int|
                0 <= a < entries@.len() && 0 <= b < entries@.len() && a != b
                    implies #[trigger] entries@[a].0 != #[trigger] entries@[b].0 by {
                assert(entries@[a] == before[a]);
                assert(entries@[b] == before[b]);
            }
        }
        self.max_tiles = new_max;
        self.entries = entries;
    }
}

proof fn lemma_move_front_distinct(s: CacheEntries, i: int)
    requires
        0 <= i < s.len(),
        keys_distinct(s),
    ensures
        keys_distinct(seq![s[i]] + s.remove(i)),
{
    let t = seq![s[i]] + s.remove(i);
    assert forall|a: int, b: int| 0 <= a < t.len() && 0 <= b < t.len() && a != b implies #[trigger] t[a].0
        != #[trigger] t[b].0 by {
        let pa = if a == 0 { i } else if a - 1 < i { a - 1 } else { a };
        let pb = if b == 0 { i } else if b - 1 < i { b - 1 } else { b };
        assert(t[a] == s[pa]);
        assert(t[b] == s[pb]);
        assert(pa != pb);
    }
}

proof fn lemma_replace_front_distinct(s: CacheEntries, i: int, key: TileKey, tile: Arc<HgtTile>)
    requires
        0 <= i < s.len(),
        keys_distinct(s),
        s[i].0 == key,
    ensures
        keys_distinct(seq![(key, tile)] + s.remove(i)),
{
    let t = seq![(key, tile)] + s.remove(i);
    assert forall|a: int, b: int| 0 <= a < t.len() && 0 <= b < t.len() && a != b implies #[trigger] t[a].0
        != #[trigger] t[b].0 by {
        let pa = if a == 0 { i } else if a - 1 < i { a - 1 } else { a };
        let pb = if b == 0 { i } else if b - 1 < i { b - 1 } else { b };
        assert(t[a].0 == s[pa].0);
        assert(t[b].0 == s[pb].0);
        assert(pa != pb);
    }
}

/// The path of the directory holding a dataset's tiles (an opaque `std::path::PathBuf`).
#[verifier::external_type_specification]
#[verifier::external_body]
pub struct ExPathBuf(PathBuf);

/// How a lookup of a void sample at (`row`, `col`) of `tile` resolves under `policy`.
pub open spec fn resolved_sample(tile: HgtTile, row: int, col: int, policy: VoidPolicy, res: Result<i16, TerrainError>) -> bool {
    if !is_void(tile.sample_at(row, col)) {
        res == Ok::<i16, TerrainError>(tile.sample_at(row, col))
    } else {
        match policy {
            VoidPolicy::Error => res == Err::<i16, TerrainError>(TerrainError::VoidSample {
                tile_lat_floor_deg: tile.key_spec().lat_floor_deg,
                tile_lon_floor_deg: tile.key_spec().lon_floor_deg,
                row: row as usize,
                col: col as usize,
            }),
            VoidPolicy::Zero => res == Ok::<i16, TerrainError>(0),
            VoidPolicy::NearestValid { max_radius_cells } => nearest_resolution(
                tile,
                row,
                col,
                max_radius_cells,
                res,
            ),
        }
    }
}

/// How the ring search for a valid neighbour of (`row`, `col`) in `tile` resolves: the first
/// valid sample it meets, or an error naming the search when it meets none.
pub open spec fn nearest_resolution(tile: HgtTile, row: int, col: int, max_radius_cells: usize, res: Result<i16, TerrainError>) -> bool {
    match res {
        Ok(v) => exists|r: int, c: int|
            tile.first_valid_in_search(row, col, max_radius_cells as int, r, c) && v == #[trigger] tile.sample_at(r, c),
        Err(e) => tile.no_valid_in_search(row, col, max_radius_cells as int) && e == (TerrainError::VoidSampleNoNeighbor {
            tile_lat_floor_deg: tile.key_spec().lat_floor_deg,
            tile_lon_floor_deg: tile.key_spec().lon_floor_deg,
            row: row as usize,
            col: col as usize,
            max_radius_cells,
        }),
    }
}

/// The ring search settles on at most one cell: two cells that both qualify as the first
/// valid cell of the same search are the same cell.
pub proof fn law_first_valid_is_unique(tile: HgtTile, row: int, col: int, max_radius: int, r1: int, c1: int, r2: int, c2: int)
    requires
        tile.first_valid_in_search(row, col, max_radius, r1, c1),
        tile.first_valid_in_search(row, col, max_radius, r2, c2),
    ensures
        r1 == r2,
        c1 == c2,
{
    if !(r1 == r2 && c1 == c2) {
        if searched_before(row, col, r1, c1, r2, c2) {
            assert(is_void(tile.sample_at(r1, c1)));
        } else {
            assert(searched_before(row, col, r2, c2, r1, c1));
            assert(is_void(tile.sample_at(r2, c2)));
        }
    }
}

/// Sample resolution is a function of the tile, the cell and the policy: two results that
/// both resolve the same lookup are equal, whatever the policy.
pub proof fn law_sample_resolution_is_determined(tile: HgtTile, row: int, col: int, policy: VoidPolicy, res1: Result<i16, TerrainError>, res2: Result<i16, TerrainError>)
    requires
        resolved_sample(tile, row, col, policy, res1),
        resolved_sample(tile, row, col, policy, res2),
    ensures
        res1 == res2,
{
    if is_void(tile.sample_at(row, col)) {
        if let VoidPolicy::NearestValid { max_radius_cells } = policy {
            let rad = max_radius_cells as int;
            match (res1, res2) {
                (Ok(v1), Ok(v2)) => {
                    let (r1, c1) = choose|r: int, c: int|
                        tile.first_valid_in_search(row, col, rad, r, c) && v1 == #[trigger] tile.sample_at(r, c);
                    let (r2, c2) = choose|r: int, c: int|
                        tile.first_valid_in_search(row, col, rad, r, c) && v2 == #[trigger] tile.sample_at(r, c);
                    law_first_valid_is_unique(tile, row, col, rad, r1, c1, r2, c2);
                },
                (Ok(v1), Err(_)) => {
                    let (r1, c1) = choose|r: int, c: int|
                        tile.first_valid_in_search(row, col, rad, r, c) && v1 == #[trigger] tile.sample_at(r, c);
                    assert(is_void(tile.sample_at(r1, c1)));
                },
                (Err(_), Ok(v2)) => {
                    let (r2, c2) = choose|r: int, c: int|
                        tile.first_valid_in_search(row, col, rad, r, c) && v2 == #[trigger] tile.sample_at(r, c);
                    assert(is_void(tile.sample_at(r2, c2)));
                },
                (Err(_), Err(_)) => {},
            }
        }
    }
}

/// Only the raw value -32768 marks a void. Every other sample, elevations below sea level
/// included, resolves to itself under every void policy, and a resolved elevation is never the
/// void marker itself.
pub proof fn law_only_the_void_marker_is_void(tile: HgtTile, row: int, col: int, policy: VoidPolicy, res: Result<i16, TerrainError>)
    requires
        resolved_sample(tile, row, col, policy, res),
    ensures
        tile.sample_at(row, col) != -32768i16 ==> res == Ok::<i16, TerrainError>(
            tile.sample_at(row, col),
        ),
        tile.sample_at(row, col) == -32768i16 && policy == VoidPolicy::Error ==> res is Err,
        tile.sample_at(row, col) == -32768i16 && policy == VoidPolicy::Zero ==> res == Ok::<
            i16,
            TerrainError,
        >(0),
        res matches Ok(v) ==> v != -32768i16,
{
    if tile.sample_at(row, col) == -32768i16 {
        if let VoidPolicy::NearestValid { max_radius_cells } = policy {
            if let Ok(v) = res {
                let (r, c) = choose|r: int, c: int|
                    tile.first_valid_in_search(row, col, max_radius_cells as int, r, c) && v
                        == #[trigger] tile.sample_at(r, c);
                assert(!is_void(tile.sample_at(r, c)));
            }
        }
    }
}

/// The ring search skips exactly the void markers: the cell it settles on holds a sample other
/// than -32768, every cell it examined before holds -32768, and when it finds nothing every
/// cell within the radius holds -32768.
pub proof fn law_ring_search_skips_only_void_markers(tile: HgtTile, row: int, col: int, max_radius: int, r: int, c: int)
    ensures
        tile.first_valid_in_search(row, col, max_radius, r, c) ==> {
            &&& tile.sample_at(r, c) != -32768i16
            &&& forall|r2: int, c2: int|
                in_search(tile.side_spec() as int, row, col, max_radius, r2, c2) && searched_before(
                    row,
                    col,
                    r2,
                    c2,
                    r,
                    c,
                ) ==> #[trigger] tile.sample_at(r2, c2) == -32768i16
        },
        tile.no_valid_in_search(row, col, max_radius) ==> forall|r2: int, c2: int|
            in_search(tile.side_spec() as int, row, col, max_radius, r2, c2) ==> #[trigger] tile.sample_at(
                r2,
                c2,
            ) == -32768i16,
{
}

/// Terrain dataset state for SRTM `.hgt` tiles under one directory: the bounded cache of
/// decoded tiles, the count of tiles decoded so far, and the void policy. Elevations are
/// orthometric heights in meters above mean sea level (EGM96).
#[derive(Debug)]
pub struct SrtmDataset {
    root: PathBuf,
    cache: CacheState,
    loaded_tile_count: usize,
    void_policy: VoidPolicy,
}

impl SrtmDataset {
    /// The tile directory.
    pub closed spec fn root_view(&self) -> PathBuf {
        self.root
    }

    /// The cached tiles, most recently used first.
    pub closed spec fn cache_view(&self) -> CacheEntries {
        self.cache.entries_view()
    }

    /// How many tiles the cache keeps at most.
    pub closed spec fn capacity_view(&self) -> nat {
        self.cache.capacity_view()
    }

    /// How many tiles have been decoded and stored so far.
    pub closed spec fn loaded_view(&self) -> nat {
        self.loaded_tile_count as nat
    }

    /// The configured void handling.
    pub closed spec fn policy_view(&self) -> VoidPolicy {
        self.void_policy
    }

    /// A dataset rooted at a directory of `.hgt` tiles: empty cache of 64 tiles, nothing
    /// loaded, voids are errors.
    pub fn new(root: PathBuf) -> (d: Self)
        ensures
            d.root_view() == root,
            d.cache_view() == CacheEntries::empty(),
            d.capacity_view() == DEFAULT_MAX_CACHED_TILES,
            d.loaded_view() == 0,
            d.policy_view() == VoidPolicy::Error,
    {
        SrtmDataset {
            root,
            cache: CacheState::new(DEFAULT_MAX_CACHED_TILES),
            loaded_tile_count: 0,
            void_policy: VoidPolicy::Error,
        }
    }

    /// This dataset with void handling `policy`.
    pub fn with_void_policy(self, policy: VoidPolicy) -> (d: Self)
        ensures
            d.root_view() == self.root_view(),
            d.cache_view() == self.cache_view(),
            d.capacity_view() == self.capacity_view(),
            d.loaded_view() == self.loaded_view(),
            d.policy_view() == policy,
    {
        let mut d = self;
        d.void_policy = policy;
        d
    }

    /// This dataset with room for `max_tiles` cached tiles (at least one).
    pub fn with_max_cached_tiles(self, max_tiles: usize) -> (d: Self)
        ensures
            d.root_view() == self.root_view(),
            d.capacity_view() == at_least_one(max_tiles as int),
            d.cache_view() == after_set_capacity(self.cache_view(), at_least_one(max_tiles as int)),
            d.loaded_view() == self.loaded_view(),
            d.policy_view() == self.policy_view(),
    {
        let mut d = self;
        d.set_max_cached_tiles(max_tiles);
        d
    }

    /// The tile directory.
    pub fn root(&self) -> (r: &PathBuf)
        ensures
            *r == self.root_view(),
    {
        &self.root
    }

    /// Drops every cached tile; the capacity and load count stay.
    pub fn clear_cache(&mut self)
        ensures
            final(self).root_view() == old(self).root_view(),
            final(self).cache_view() == CacheEntries::empty(),
            final(self).capacity_view() == old(self).capacity_view(),
            final(self).loaded_view() == old(self).loaded_view(),
            final(self).policy_view() == old(self).policy_view(),
    {
        self.cache.clear();
    }

    /// Number of tiles currently cached (never more than the capacity; each key at most once).
    pub fn cached_tile_count(&self) -> (n: usize)
        ensures
            n == self.cache_view().len(),
            n <= self.capacity_view(),
            keys_distinct(self.cache_view()),
    {
        self.cache.len()
    }

    /// Number of tiles decoded and stored since the dataset was created.
    pub fn loaded_tile_count(&self) -> (n: usize)
        ensures
            n == self.loaded_view(),
    {
        self.loaded_tile_count
    }

    /// How many tiles the cache keeps at most (at least one).
    pub fn cache_capacity(&self) -> (n: usize)
        ensures
            n == self.capacity_view(),
            n >= 1,
    {
        self.cache.capacity()
    }

    /// Changes the cache capacity to `max_tiles` (at least one), evicting least recently used
    /// tiles beyond it.
    pub fn set_max_cached_tiles(&mut self, max_tiles: usize)
        ensures
            final(self).root_view() == old(self).root_view(),
            final(self).capacity_view() == at_least_one(max_tiles as int),
            final(self).cache_view() == after_set_capacity(
                old(self).cache_view(),
                at_least_one(max_tiles as int),
            ),
            final(self).loaded_view() == old(self).loaded_view(),
            final(self).policy_view() == old(self).policy_view(),
    {
        self.cache.set_capacity(max_tiles);
    }

    /// The configured void handling.
    pub fn void_policy(&self) -> (p: VoidPolicy)
        ensures
            p == self.policy_view(),
    {
        self.void_policy
    }

    /// The geoid model SRTM heights are referenced to (EGM96, per the NASA/USGS product
    /// definition).
    pub fn vertical_datum(&self) -> (m: Option<EgmModel>)
        ensures
            m == Some(EgmModel::Egm96),
    {
        Some(EgmModel::Egm96)
    }

    /// The cached tile for `key`, if any; a hit becomes the most recently used tile.
    pub fn cached_tile(&mut self, key: TileKey) -> (res: Option<Arc<HgtTile>>)
        ensures
            final(self).root_view() == old(self).root_view(),
            final(self).capacity_view() == old(self).capacity_view(),
            final(self).cache_view() == after_get(old(self).cache_view(), key),
            final(self).loaded_view() == old(self).loaded_view(),
            final(self).policy_view() == old(self).policy_view(),
            res is Some <==> holds_key(old(self).cache_view(), key),
            res matches Some(t) ==> t == old(self).cache_view()[key_index(old(self).cache_view(), key)].1,
    {
        self.cache.get(key)
    }

    /// Records a freshly decoded `tile` for `key` and returns the tile to use: when another
    /// lookup cached `key` in the meantime, that cached tile wins and nothing is recorded;
    /// otherwise `tile` becomes the most recently used entry and the load count grows by one
    /// (wrapping at `usize::MAX`).
    pub fn store_loaded_tile(&mut self, key: TileKey, tile: HgtTile) -> (res: Arc<HgtTile>)
        ensures
            final(self).root_view() == old(self).root_view(),
            final(self).capacity_view() == old(self).capacity_view(),
            final(self).policy_view() == old(self).policy_view(),
            holds_key(old(self).cache_view(), key) ==> {
                &&& res == old(self).cache_view()[key_index(old(self).cache_view(), key)].1
                &&& final(self).cache_view() == after_get(old(self).cache_view(), key)
                &&& final(self).loaded_view() == old(self).loaded_view()
            },
            !holds_key(old(self).cache_view(), key) ==> {
                &&& *res == tile
                &&& final(self).cache_view() == after_insert(
                    old(self).cache_view(),
                    old(self).capacity_view() as int,
                    key,
                    res,
                )
                &&& final(self).loaded_view() == (if old(self).loaded_view() < usize::MAX {
                    old(self).loaded_view() + 1
                } else {
                    0
                })
            },
    {
        if let Some(existing) = self.cache.get(key) {
            return existing;
        }
        let stored = Arc::new(tile);
        self.cache.insert(key, share_tile(&stored));
        self.loaded_tile_count = if self.loaded_tile_count < usize::MAX {
            self.loaded_tile_count + 1
        } else {
            0
        };
        stored
    }

    /// The elevation sample at (`row`, `col`) of `tile` in meters, resolving a void sample by
    /// the dataset's void policy.
    pub fn resolve_sample_value(&self, tile: &HgtTile, row: usize, col: usize) -> (res: Result<i16, TerrainError>)
        requires
            row < tile.side_spec(),
            col < tile.side_spec(),
        ensures
            resolved_sample(*tile, row as int, col as int, self.policy_view(), res),
    {
        let raw = tile.sample_raw(row, col);
        if raw != VOID_SAMPLE {
            return Ok(raw);
        }
        match self.void_policy {
            VoidPolicy::Error => {
                let key = tile.key();
                Err(
                    TerrainError::VoidSample {
                        tile_lat_floor_deg: key.lat_floor_deg,
                        tile_lon_floor_deg: key.lon_floor_deg,
                        row,
                        col,
                    },
                )
            },
            VoidPolicy::Zero => Ok(0),
            VoidPolicy::NearestValid { max_radius_cells } => {
                self.resolve_void_nearest_in_tile(tile, row, col, max_radius_cells)
            },
        }
    }

    /// The first valid sample the ring search around (`row`, `col`) meets within
    /// `max_radius_cells` rings, or [`TerrainError::VoidSampleNoNeighbor`].
    pub fn resolve_void_nearest_in_tile(&self, tile: &HgtTile, row: usize, col: usize, max_radius_cells: usize) -> (res: Result<i16, TerrainError>)
        requires
            row < tile.side_spec(),
            col < tile.side_spec(),
        ensures
            nearest_resolution(*tile, row as int, col as int, max_radius_cells, res),
    {
        match tile.nearest_valid_cell(row, col, max_radius_cells) {
            Some((r, c)) => {
                let v = tile.sample_raw(r, c);
                assert(tile.first_valid_in_search(row as int, col as int, max_radius_cells as int, r as int, c as int));
                Ok(v)
            },
            None => {
                let key = tile.key();
                Err(
                    TerrainError::VoidSampleNoNeighbor {
                        tile_lat_floor_deg: key.lat_floor_deg,
                        tile_lon_floor_deg: key.lon_floor_deg,
                        row,
                        col,
                        max_radius_cells,
                    },
                )
            },
        }
    }
}

} // verus!
