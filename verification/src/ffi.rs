//! Plain-value side of the C interface: status codes, option records and their translation
//! into library settings.

use vstd::prelude::*;

use crate::altitude::VerticalFrame;
use crate::geoid::EgmModel;
use crate::height::Interpolation;
use crate::terrain::VoidPolicy;

verus! {

/// Status code returned by C interface functions (`Success` is 0, the others follow in
/// declaration order).
#[derive(Clone, Copy, Debug, PartialEq, Eq, Structural)]
pub enum SwStatus {
    Success,
    NullPointer,
    InvalidArgument,
    InitializationError,
    QueryError,
    InternalError,
}

/// Geoid model selection (`Egm96` is 0, `Egm2008` is 1).
#[derive(Clone, Copy, Debug, PartialEq, Eq, Structural)]
pub enum SwGeoidModel {
    Egm96,
    Egm2008,
}

/// Interpolation mode for geoid and terrain queries.
#[derive(Clone, Copy, Debug, PartialEq, Eq, Structural)]
pub enum SwInterpolation {
    Nearest,
    Bilinear,
    Bicubic,
}

/// Vertical reference frame for altitude values; `Msl` means MSL in the converter's geoid
/// model.
#[derive(Clone, Copy, Debug, PartialEq, Eq, Structural)]
pub enum SwVerticalFrame {
    Agl,
    Msl,
    Hae,
}

/// Terrain void sample handling policy.
#[derive(Clone, Copy, Debug, PartialEq, Eq, Structural)]
pub enum SwVoidPolicy {
    Error,
    Zero,
    NearestValid,
}

/// Converter construction options.
#[derive(Clone, Copy, Debug, PartialEq, Eq, Structural)]
pub struct SwConverterOptions {
    pub geoid_model: SwGeoidModel,
    pub geoid_interpolation: SwInterpolation,
    pub terrain_interpolation: SwInterpolation,
    pub terrain_cache_tiles: u32,
    pub void_policy: SwVoidPolicy,
    pub void_policy_radius_cells: u32,
    pub preload_geoid: u8,
}

/// The options used when a caller passes none: EGM96, bilinear sampling, 64 cached tiles,
/// voids are errors (search radius 3 when switched to nearest-valid), geoid preloaded.
pub open spec fn default_options() -> SwConverterOptions {
    SwConverterOptions {
        geoid_model: SwGeoidModel::Egm96,
        geoid_interpolation: SwInterpolation::Bilinear,
        terrain_interpolation: SwInterpolation::Bilinear,
        terrain_cache_tiles: 64,
        void_policy: SwVoidPolicy::Error,
        void_policy_radius_cells: 3,
        preload_geoid: 1,
    }
}

impl Default for SwConverterOptions {
    fn default() -> (o: Self)
        ensures
            o == default_options(),
    {
        SwConverterOptions {
            geoid_model: SwGeoidModel::Egm96,
            geoid_interpolation: SwInterpolation::Bilinear,
            terrain_interpolation: SwInterpolation::Bilinear,
            terrain_cache_tiles: 64,
            void_policy: SwVoidPolicy::Error,
            void_policy_radius_cells: 3,
            preload_geoid: 1,
        }
    }
}

/// The library interpolation mode a C mode names.
pub open spec fn interpolation_of(value: SwInterpolation) -> Interpolation {
    match value {
        SwInterpolation::Nearest => Interpolation::Nearest,
        SwInterpolation::Bilinear => Interpolation::Bilinear,
        SwInterpolation::Bicubic => Interpolation::Bicubic,
    }
}

/// The library void policy a C policy and radius name.
pub open spec fn void_policy_of(value: SwVoidPolicy, radius_cells: u32) -> VoidPolicy {
    match value {
        SwVoidPolicy::Error => VoidPolicy::Error,
        SwVoidPolicy::Zero => VoidPolicy::Zero,
        SwVoidPolicy::NearestValid => VoidPolicy::NearestValid { max_radius_cells: radius_cells as usize },
    }
}

/// The geoid model a C selection names.
pub open spec fn geoid_model_of(value: SwGeoidModel) -> EgmModel {
    match value {
        SwGeoidModel::Egm96 => EgmModel::Egm96,
        SwGeoidModel::Egm2008 => EgmModel::Egm2008,
    }
}

/// Each C code names the library value of the same name: the three interpolation modes, the
/// three void policies (the radius carried only by nearest-valid), the two geoid models and
/// the three vertical frames (`Msl` in the converter's model) map one-to-one, by name.
pub proof fn law_c_codes_keep_their_names(radius_cells: u32)
    ensures
        interpolation_of(SwInterpolation::Nearest) == Interpolation::Nearest,
        interpolation_of(SwInterpolation::Bilinear) == Interpolation::Bilinear,
        interpolation_of(SwInterpolation::Bicubic) == Interpolation::Bicubic,
        forall|a: SwInterpolation, b: SwInterpolation|
            #[trigger] interpolation_of(a) == #[trigger] interpolation_of(b) ==> a == b,
        void_policy_of(SwVoidPolicy::Error, radius_cells) == VoidPolicy::Error,
        void_policy_of(SwVoidPolicy::Zero, radius_cells) == VoidPolicy::Zero,
        void_policy_of(SwVoidPolicy::NearestValid, radius_cells) == (VoidPolicy::NearestValid {
            max_radius_cells: radius_cells as usize,
        }),
        geoid_model_of(SwGeoidModel::Egm96) == EgmModel::Egm96,
        geoid_model_of(SwGeoidModel::Egm2008) == EgmModel::Egm2008,
        default_options().geoid_interpolation == SwInterpolation::Bilinear,
        default_options().terrain_interpolation == SwInterpolation::Bilinear,
{
}

/// Translates a C interpolation mode./// Translates a C interpolation mode.
pub fn to_interpolation(value: SwInterpolation) -> (res: Result<Interpolation, SwStatus>)
    ensures
        res == Ok::<Interpolation, SwStatus>(interpolation_of(value)),
{
    match value {
        SwInterpolation::Nearest => Ok(Interpolation::Nearest),
        SwInterpolation::Bilinear => Ok(Interpolation::Bilinear),
        SwInterpolation::Bicubic => Ok(Interpolation::Bicubic),
    }
}

/// Translates a C vertical frame; `Msl` is MSL in `geoid_model`, the converter's model.
pub fn to_vertical_frame(value: SwVerticalFrame, geoid_model: EgmModel) -> (res: Result<VerticalFrame, SwStatus>)
    ensures
        res == Ok::<VerticalFrame, SwStatus>(match value {
            SwVerticalFrame::Agl => VerticalFrame::Agl,
            SwVerticalFrame::Msl => VerticalFrame::Msl(geoid_model),
            SwVerticalFrame::Hae => VerticalFrame::Hae,
        }),
{
    match value {
        SwVerticalFrame::Agl => Ok(VerticalFrame::Agl),
        SwVerticalFrame::Msl => Ok(VerticalFrame::Msl(geoid_model)),
        SwVerticalFrame::Hae => Ok(VerticalFrame::Hae),
    }
}

/// Translates a C void policy; the radius only matters for `NearestValid`.
pub fn to_void_policy(value: SwVoidPolicy, radius_cells: u32) -> (res: Result<VoidPolicy, SwStatus>)
    ensures
        res == Ok::<VoidPolicy, SwStatus>(void_policy_of(value, radius_cells)),
{
    match value {
        SwVoidPolicy::Error => Ok(VoidPolicy::Error),
        SwVoidPolicy::Zero => Ok(VoidPolicy::Zero),
        SwVoidPolicy::NearestValid => Ok(VoidPolicy::NearestValid { max_radius_cells: radius_cells as usize }),
    }
}

/// Translates a C geoid model selection.
pub fn to_geoid_model(value: SwGeoidModel) -> (m: EgmModel)
    ensures
        m == geoid_model_of(value),
{
    match value {
        SwGeoidModel::Egm96 => EgmModel::Egm96,
        SwGeoidModel::Egm2008 => EgmModel::Egm2008,
    }
}

/// Everything a converter is built from, in library terms.
#[derive(Clone, Copy, Debug, PartialEq, Eq, Structural)]
pub struct ConverterSettings {
    pub geoid_model: EgmModel,
    pub geoid_interpolation: Interpolation,
    pub terrain_interpolation: Interpolation,
    pub max_cached_tiles: usize,
    pub void_policy: VoidPolicy,
    pub preload_geoid: bool,
}

/// The settings `options` describe; with no options, the defaults.
pub fn converter_settings(options: Option<SwConverterOptions>) -> (res: Result<ConverterSettings, SwStatus>)
    ensures
        res matches Ok(s) && ({
            let o = match options {
                Some(o) => o,
                None => default_options(),
            };
            &&& s.geoid_model == geoid_model_of(o.geoid_model)
            &&& s.geoid_interpolation == interpolation_of(o.geoid_interpolation)
            &&& s.terrain_interpolation == interpolation_of(o.terrain_interpolation)
            &&& s.max_cached_tiles == o.terrain_cache_tiles as usize
            &&& s.void_policy == void_policy_of(o.void_policy, o.void_policy_radius_cells)
            &&& s.preload_geoid == (o.preload_geoid != 0)
        }),
{
    let o = match options {
        Some(o) => o,
        None => SwConverterOptions::default(),
    };
    let geoid_interpolation = to_interpolation(o.geoid_interpolation)?;
    let terrain_interpolation = to_interpolation(o.terrain_interpolation)?;
    let void_policy = to_void_policy(o.void_policy, o.void_policy_radius_cells)?;
    Ok(
        ConverterSettings {
            geoid_model: to_geoid_model(o.geoid_model),
            geoid_interpolation,
            terrain_interpolation,
            max_cached_tiles: o.terrain_cache_tiles as usize,
            void_policy,
            preload_geoid: o.preload_geoid != 0,
        },
    )
}

/// The status and message a C function reports for a null pointer passed as argument `name`.
pub fn null_argument(name: &str) -> (r: (SwStatus, String))
    ensures
        r.0 == SwStatus::NullPointer,
        r.1@ == name@ + " must be non-null"@,
{
    let mut m = String::new();
    m.append(name);
    m.append(" must be non-null");
    (SwStatus::NullPointer, m)
}

/// Checks the text of a path argument `name` (`None` when its bytes are not UTF-8): it must be
/// valid UTF-8 and non-empty; otherwise returns the status and message to report.
pub fn check_path_text(name: &str, text: Option<&str>) -> (res: Result<(), (SwStatus, String)>)
    ensures
        res is Ok <==> (text matches Some(t) && t@.len() > 0),
        res matches Err((status, message)) ==> status == SwStatus::InvalidArgument
            && message@ == name@ + if text is None {
            " must be valid UTF-8"@
        } else {
            " must be non-empty"@
        },
{
    match text {
        None => {
            let mut m = String::new();
            m.append(name);
            m.append(" must be valid UTF-8");
            Err((SwStatus::InvalidArgument, m))
        },
        Some(t) => {
            if t.is_empty() {
                let mut m = String::new();
                m.append(name);
                m.append(" must be non-empty");
                Err((SwStatus::InvalidArgument, m))
            } else {
                Ok(())
            }
        },
    }
}

/// The kinds of altitude errors the C interface distinguishes.
#[derive(Clone, Copy, Debug, PartialEq, Eq, Structural)]
pub enum AltitudeErrorKind {
    /// A geoid lookup failed.
    Geoid,
    /// A terrain lookup failed.
    Terrain,
    /// A coordinate argument was out of range or not finite.
    InvalidCoordinate,
    /// A height argument was not finite.
    InvalidHeight,
    /// A frame or datum did not match the converter's models.
    Frame,
}

/// The status an altitude error of `kind` is reported with: bad arguments (coordinates,
/// heights, frames in another model) are `InvalidArgument`, failed lookups `QueryError`.
pub fn status_from_altitude_error(kind: AltitudeErrorKind) -> (s: SwStatus)
    ensures
        s == (match kind {
            AltitudeErrorKind::InvalidCoordinate | AltitudeErrorKind::InvalidHeight
            | AltitudeErrorKind::Frame => SwStatus::InvalidArgument,
            AltitudeErrorKind::Geoid | AltitudeErrorKind::Terrain => SwStatus::QueryError,
        }),
{
    match kind {
        AltitudeErrorKind::InvalidCoordinate | AltitudeErrorKind::InvalidHeight
        | AltitudeErrorKind::Frame => SwStatus::InvalidArgument,
        AltitudeErrorKind::Geoid | AltitudeErrorKind::Terrain => SwStatus::QueryError,
    }
}

} // verus!
