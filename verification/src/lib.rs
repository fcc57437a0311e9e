//! Frame-explicit geodesy building blocks: geoid grid layouts and decoding, SRTM terrain
//! tiles with a bounded tile cache and void handling, vertical-frame conversion planning,
//! and the plain-value side of the C interface.

pub mod altitude;
pub mod codec;
pub mod ffi;
pub mod geoid;
pub mod height;
pub mod terrain;
pub mod text;
