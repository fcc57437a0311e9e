//! Vertical frames (`AGL` / `MSL(model)` / `HAE`) and the datum checks and conversion plans
//! that keep heights in different frames from being mixed.

use vstd::prelude::*;

use crate::geoid::{model_debug_name, EgmModel};

verus! {

/// Vertical reference frame of a height in meters.
#[derive(Clone, Copy, Debug, PartialEq, Eq, Structural)]
pub enum VerticalFrame {
    /// Height above the local terrain surface of the DEM.
    Agl,
    /// Orthometric height above mean sea level, relative to the named geoid model.
    Msl(EgmModel),
    /// Ellipsoidal height above the WGS84 reference ellipsoid.
    Hae,
}

/// Frame and datum errors: values in one model handed to a converter of another.
#[derive(Clone, Copy, Debug, PartialEq, Eq, Structural)]
pub enum FrameError {
    /// An `Msl` value names a different geoid model than the converter's geoid.
    GeoidModelMismatch { value: EgmModel, converter: EgmModel },
    /// A geoid re-reference was given a sample that is not `Msl` in its source model.
    ExpectedMslSample { expected: EgmModel, found: VerticalFrame },
    /// The terrain heights are referenced to a different geoid model than the converter's.
    TerrainDatumMismatch { terrain: EgmModel, geoid: EgmModel },
}

/// The `Debug` rendering of a frame (`Agl`, `Msl(Egm96)`, `Msl(Egm2008)`, `Hae`).
pub open spec fn frame_debug_name(frame: VerticalFrame) -> Seq<char> {
    match frame {
        VerticalFrame::Agl => "Agl"@,
        VerticalFrame::Msl(EgmModel::Egm96) => "Msl(Egm96)"@,
        VerticalFrame::Msl(EgmModel::Egm2008) => "Msl(Egm2008)"@,
        VerticalFrame::Hae => "Hae"@,
    }
}

impl VerticalFrame {
    /// The `Debug` rendering of this frame, as error messages print it.
    pub fn debug_name(self) -> (s: &'static str)
        ensures
            s@ == frame_debug_name(self),
    {
        match self {
            VerticalFrame::Agl => "Agl",
            VerticalFrame::Msl(EgmModel::Egm96) => "Msl(Egm96)",
            VerticalFrame::Msl(EgmModel::Egm2008) => "Msl(Egm2008)",
            VerticalFrame::Hae => "Hae",
        }
    }
}

/// The human-readable message of a frame error, with the remedy it calls for.
pub open spec fn frame_error_message(e: FrameError) -> Seq<char> {
    match e {
        FrameError::GeoidModelMismatch { value, converter } => "MSL value is referenced to "@
            + model_debug_name(value) + " but the converter's geoid is "@ + model_debug_name(
            converter,
        ) + "; re-reference it first with GeoidShift ("@ + model_debug_name(value) + " -> "@
            + model_debug_name(converter) + "), or convert it with a "@ + model_debug_name(value)
            + " converter \u{2014} the models differ by decimeters"@,
        FrameError::ExpectedMslSample { expected, found } =>
            "geoid re-referencing needs an MSL sample referenced to "@ + model_debug_name(expected)
            + ", got "@ + frame_debug_name(found) + "; convert to MSL in the source model first"@,
        FrameError::TerrainDatumMismatch { terrain, geoid } => "terrain heights are "@
            + model_debug_name(terrain) + "-orthometric but the converter's geoid is "@
            + model_debug_name(geoid) + "; AGL conversions would mix datums \u{2014} use a "@
            + model_debug_name(terrain) + " geoid with this terrain dataset"@,
    }
}

impl FrameError {
    /// The human-readable message of this error.
    pub fn message(&self) -> (m: String)
        ensures
            m@ == frame_error_message(*self),
    {
        let mut m = String::new();
        match self {
            FrameError::GeoidModelMismatch { value, converter } => {
                m.append("MSL value is referenced to ");
                m.append(value.debug_name());
                m.append(" but the converter's geoid is ");
                m.append(converter.debug_name());
                m.append("; re-reference it first with GeoidShift (");
                m.append(value.debug_name());
                m.append(" -> ");
                m.append(converter.debug_name());
                m.append("), or convert it with a ");
                m.append(value.debug_name());
                m.append(" converter \u{2014} the models differ by decimeters");
            },
            FrameError::ExpectedMslSample { expected, found } => {
                m.append("geoid re-referencing needs an MSL sample referenced to ");
                m.append(expected.debug_name());
                m.append(", got ");
                m.append(found.debug_name());
                m.append("; convert to MSL in the source model first");
            },
            FrameError::TerrainDatumMismatch { terrain, geoid } => {
                m.append("terrain heights are ");
                m.append(terrain.debug_name());
                m.append("-orthometric but the converter's geoid is ");
                m.append(geoid.debug_name());
                m.append("; AGL conversions would mix datums \u{2014} use a ");
                m.append(terrain.debug_name());
                m.append(" geoid with this terrain dataset");
            },
        }
        assert(m@ =~= frame_error_message(*self));
        m
    }
}

/// The terrain provider of geoid-only converters: it makes no orthometric claim.
#[derive(Clone, Copy, Debug, Default)]
pub struct NoTerrain;

impl NoTerrain {
    /// No vertical datum: this provider has no terrain heights to contradict a geoid.
    pub fn vertical_datum(&self) -> (m: Option<EgmModel>)
        ensures
            m is None,
    {
        None
    }
}

/// The display label of a frame: `AGL`, `MSL(EGM96)`, `MSL(EGM2008)` or `HAE`.
pub open spec fn frame_label(frame: VerticalFrame) -> Seq<char> {
    match frame {
        VerticalFrame::Agl => "AGL"@,
        VerticalFrame::Msl(EgmModel::Egm96) => "MSL(EGM96)"@,
        VerticalFrame::Msl(EgmModel::Egm2008) => "MSL(EGM2008)"@,
        VerticalFrame::Hae => "HAE"@,
    }
}

impl VerticalFrame {
    /// The display label of this frame, e.g. `MSL(EGM2008)`.
    pub fn label(self) -> (s: &'static str)
        ensures
            s@ == frame_label(self),
    {
        match self {
            VerticalFrame::Agl => "AGL",
            VerticalFrame::Msl(EgmModel::Egm96) => "MSL(EGM96)",
            VerticalFrame::Msl(EgmModel::Egm2008) => "MSL(EGM2008)",
            VerticalFrame::Hae => "HAE",
        }
    }
}

/// Accepts an `Msl` value referenced to `value` only when it is the converter's model.
pub fn require_geoid_model(value: EgmModel, converter: EgmModel) -> (res: Result<(), FrameError>)
    ensures
        res is Ok <==> value == converter,
        res matches Err(e) ==> e == (FrameError::GeoidModelMismatch { value, converter }),
{
    if value == converter {
        Ok(())
    } else {
        Err(FrameError::GeoidModelMismatch { value, converter })
    }
}

/// Accepts terrain heights referenced to `terrain` (none: no orthometric claim) together with
/// a geoid of model `geoid` only when the two datums agree.
pub fn require_datum_coherence(terrain: Option<EgmModel>, geoid: EgmModel) -> (res: Result<(), FrameError>)
    ensures
        res is Ok <==> (terrain matches Some(t) ==> t == geoid),
        res matches Err(e) ==> e == (FrameError::TerrainDatumMismatch { terrain: terrain->0, geoid }),
{
    match terrain {
        None => Ok(()),
        Some(t) => {
            if t == geoid {
                Ok(())
            } else {
                Err(FrameError::TerrainDatumMismatch { terrain: t, geoid })
            }
        },
    }
}

/// How a height reaches MSL from its source frame.
#[derive(Clone, Copy, Debug, PartialEq, Eq, Structural)]
pub enum ToMsl {
    /// `MSL = ground_msl + AGL` (one terrain query).
    AddGround,
    /// Already MSL.
    Keep,
    /// `MSL = HAE - N` (one geoid query).
    SubtractGeoid,
}

/// How an MSL height reaches the target frame.
#[derive(Clone, Copy, Debug, PartialEq, Eq, Structural)]
pub enum FromMsl {
    /// `AGL = MSL - ground_msl` (one terrain query).
    SubtractGround,
    /// Stays MSL.
    Keep,
    /// `HAE = MSL + N` (one geoid query).
    AddGeoid,
}

/// The steps a height conversion takes: none for a conversion to the same frame, otherwise
/// through MSL.
#[derive(Clone, Copy, Debug, PartialEq, Eq, Structural)]
pub enum ConversionPlan {
    /// Same source and target frame: the value is returned unchanged, no data is queried.
    Identity,
    /// Source to MSL, then MSL to target.
    ViaMsl { to_msl: ToMsl, from_msl: FromMsl },
}

/// The step from `frame` to MSL.
pub open spec fn to_msl_step(frame: VerticalFrame) -> ToMsl {
    match frame {
        VerticalFrame::Agl => ToMsl::AddGround,
        VerticalFrame::Msl(_) => ToMsl::Keep,
        VerticalFrame::Hae => ToMsl::SubtractGeoid,
    }
}

/// The step from MSL to `frame`.
pub open spec fn from_msl_step(frame: VerticalFrame) -> FromMsl {
    match frame {
        VerticalFrame::Agl => FromMsl::SubtractGround,
        VerticalFrame::Msl(_) => FromMsl::Keep,
        VerticalFrame::Hae => FromMsl::AddGeoid,
    }
}

/// The datum check `frame` needs on a converter with geoid model `geoid` over terrain
/// referenced to `terrain`: an `Msl` model must be the geoid's, an `Agl` height needs terrain
/// and geoid in the same datum.
pub open spec fn frame_check(frame: VerticalFrame, geoid: EgmModel, terrain: Option<EgmModel>) -> Option<FrameError> {
    match frame {
        VerticalFrame::Msl(m) => if m == geoid {
            None
        } else {
            Some(FrameError::GeoidModelMismatch { value: m, converter: geoid })
        },
        VerticalFrame::Agl => match terrain {
            Some(t) => if t == geoid {
                None
            } else {
                Some(FrameError::TerrainDatumMismatch { terrain: t, geoid })
            },
            None => None,
        },
        VerticalFrame::Hae => None,
    }
}

/// The plan (or the first failed datum check, source frame first) for converting a height
/// from `source` to `target`: every frame is checked, a same-frame conversion included.
pub open spec fn conversion_plan(source: VerticalFrame, target: VerticalFrame, geoid: EgmModel, terrain: Option<EgmModel>) -> Result<ConversionPlan, FrameError> {
    match frame_check(source, geoid, terrain) {
        Some(e) => Err(e),
        None => if source == target {
            Ok(ConversionPlan::Identity)
        } else {
            match frame_check(target, geoid, terrain) {
                Some(e) => Err(e),
                None => Ok(
                    ConversionPlan::ViaMsl {
                        to_msl: to_msl_step(source),
                        from_msl: from_msl_step(target),
                    },
                ),
            }
        },
    }
}

fn check_frame(frame: VerticalFrame, geoid: EgmModel, terrain: Option<EgmModel>) -> (res: Result<(), FrameError>)
    ensures
        res is Ok <==> frame_check(frame, geoid, terrain) is None,
        res matches Err(e) ==> frame_check(frame, geoid, terrain) == Some(e),
{
    match frame {
        VerticalFrame::Msl(model) => require_geoid_model(model, geoid),
        VerticalFrame::Agl => require_datum_coherence(terrain, geoid),
        VerticalFrame::Hae => Ok(()),
    }
}

/// Plans the conversion of a height from `source` to `target` on a converter whose geoid is
/// `geoid` and whose terrain heights are referenced to `terrain`. The source frame is checked
/// first: an `Msl` tag naming another model, or `Agl` over terrain in another datum, is an
/// error even when the target is the same frame. A same-frame conversion that passes is the
/// identity; otherwise the target is checked too and the conversion goes through MSL.
pub fn plan_conversion(source: VerticalFrame, target: VerticalFrame, geoid: EgmModel, terrain: Option<EgmModel>) -> (res: Result<ConversionPlan, FrameError>)
    ensures
        res == conversion_plan(source, target, geoid, terrain),
{
    check_frame(source, geoid, terrain)?;
    if source == target {
        return Ok(ConversionPlan::Identity);
    }
    check_frame(target, geoid, terrain)?;
    let to_msl = match source {
        VerticalFrame::Agl => ToMsl::AddGround,
        VerticalFrame::Msl(_) => ToMsl::Keep,
        VerticalFrame::Hae => ToMsl::SubtractGeoid,
    };
    let from_msl = match target {
        VerticalFrame::Agl => FromMsl::SubtractGround,
        VerticalFrame::Msl(_) => FromMsl::Keep,
        VerticalFrame::Hae => FromMsl::AddGeoid,
    };
    Ok(ConversionPlan::ViaMsl { to_msl, from_msl })
}

/// Checks that a sample handed to a geoid re-reference from `from` to `to` is `Msl` in `from`,
/// and returns the frame of the re-referenced sample (`Msl` in `to`).
pub fn shift_target_frame(frame: VerticalFrame, from: EgmModel, to: EgmModel) -> (res: Result<VerticalFrame, FrameError>)
    ensures
        res is Ok <==> frame == VerticalFrame::Msl(from),
        res matches Ok(f) ==> f == VerticalFrame::Msl(to),
        res matches Err(e) ==> e == (FrameError::ExpectedMslSample { expected: from, found: frame }),
{
    if frame != VerticalFrame::Msl(from) {
        return Err(FrameError::ExpectedMslSample { expected: from, found: frame });
    }
    Ok(VerticalFrame::Msl(to))
}

/// How a geoid re-reference between two models obtains its shift.
#[derive(Clone, Copy, Debug, PartialEq, Eq, Structural)]
pub enum ShiftPlan {
    /// Same model: the shift is exactly zero and neither grid is queried.
    Identity,
    /// Different models: the shift is the source model's undulation minus the target's (one
    /// query of each grid).
    Difference,
}

/// Plans the shift of a re-reference from model `from` to model `to`.
pub fn plan_geoid_shift(from: EgmModel, to: EgmModel) -> (p: ShiftPlan)
    ensures
        p == (if from == to {
            ShiftPlan::Identity
        } else {
            ShiftPlan::Difference
        }),
{
    if from == to {
        ShiftPlan::Identity
    } else {
        ShiftPlan::Difference
    }
}

/// Geoid queries a plan makes.
pub open spec fn geoid_queries(plan: ConversionPlan) -> int {
    match plan {
        ConversionPlan::Identity => 0,
        ConversionPlan::ViaMsl { to_msl, from_msl } => (if to_msl == ToMsl::SubtractGeoid {
            1int
        } else {
            0int
        }) + (if from_msl == FromMsl::AddGeoid {
            1int
        } else {
            0int
        }),
    }
}

/// Terrain queries a plan makes.
pub open spec fn terrain_queries(plan: ConversionPlan) -> int {
    match plan {
        ConversionPlan::Identity => 0,
        ConversionPlan::ViaMsl { to_msl, from_msl } => (if to_msl == ToMsl::AddGround {
            1int
        } else {
            0int
        }) + (if from_msl == FromMsl::SubtractGround {
            1int
        } else {
            0int
        }),
    }
}

/// The step that undoes `step`.
pub open spec fn undo_from_msl(step: FromMsl) -> ToMsl {
    match step {
        FromMsl::SubtractGround => ToMsl::AddGround,
        FromMsl::Keep => ToMsl::Keep,
        FromMsl::AddGeoid => ToMsl::SubtractGeoid,
    }
}

/// The step that undoes `step`.
pub open spec fn undo_to_msl(step: ToMsl) -> FromMsl {
    match step {
        ToMsl::AddGround => FromMsl::SubtractGround,
        ToMsl::Keep => FromMsl::Keep,
        ToMsl::SubtractGeoid => FromMsl::AddGeoid,
    }
}

/// A conversion to the same frame, when the frame passes the converter's datum check, is the
/// identity and queries nothing; when it does not pass, the conversion fails with that check's
/// error (the value is never passed through).
pub proof fn law_same_frame_is_identity(frame: VerticalFrame, geoid: EgmModel, terrain: Option<EgmModel>)
    ensures
        frame_check(frame, geoid, terrain) is None ==> conversion_plan(frame, frame, geoid, terrain)
            == Ok::<ConversionPlan, FrameError>(ConversionPlan::Identity),
        frame_check(frame, geoid, terrain) matches Some(e) ==> conversion_plan(
            frame,
            frame,
            geoid,
            terrain,
        ) == Err::<ConversionPlan, FrameError>(e),
        geoid_queries(ConversionPlan::Identity) == 0,
        terrain_queries(ConversionPlan::Identity) == 0,
{
}

/// A conversion between different frames queries the geoid once per `Hae` end and the
/// terrain once per `Agl` end, and nothing else.
pub proof fn law_queries_follow_frames(source: VerticalFrame, target: VerticalFrame, geoid: EgmModel, terrain: Option<EgmModel>)
    requires
        source != target,
        conversion_plan(source, target, geoid, terrain) is Ok,
    ensures
        geoid_queries(conversion_plan(source, target, geoid, terrain)->Ok_0) == (if source
            == VerticalFrame::Hae {
            1int
        } else {
            0int
        }) + (if target == VerticalFrame::Hae {
            1int
        } else {
            0int
        }),
        terrain_queries(conversion_plan(source, target, geoid, terrain)->Ok_0) == (if source
            == VerticalFrame::Agl {
            1int
        } else {
            0int
        }) + (if target == VerticalFrame::Agl {
            1int
        } else {
            0int
        }),
{
}

/// An `Msl` value in a model other than the converter's geoid is never converted or passed
/// through, not even to its own frame: the conversion fails (with the model mismatch itself
/// when the value is the source, or when the source passes its own check).
pub proof fn law_model_mismatch_is_rejected(source: VerticalFrame, target: VerticalFrame, model: EgmModel, geoid: EgmModel, terrain: Option<EgmModel>)
    requires
        source == VerticalFrame::Msl(model) || target == VerticalFrame::Msl(model),
        model != geoid,
    ensures
        conversion_plan(source, target, geoid, terrain) is Err,
        source == VerticalFrame::Msl(model) ==> conversion_plan(source, target, geoid, terrain)
            == Err::<ConversionPlan, FrameError>(
            FrameError::GeoidModelMismatch { value: model, converter: geoid },
        ),
        target == VerticalFrame::Msl(model) && frame_check(source, geoid, terrain) is None
            ==> conversion_plan(source, target, geoid, terrain) == Err::<ConversionPlan, FrameError>(
            FrameError::GeoidModelMismatch { value: model, converter: geoid },
        ),
{
}

/// An `Agl` height is never converted, nor passed through to `Agl`, over terrain whose datum
/// differs from the geoid's.
pub proof fn law_agl_requires_coherent_datums(other: VerticalFrame, terrain_model: EgmModel, geoid: EgmModel)
    requires
        terrain_model != geoid,
    ensures
        conversion_plan(VerticalFrame::Agl, other, geoid, Some(terrain_model)) == Err::<
            ConversionPlan,
            FrameError,
        >(FrameError::TerrainDatumMismatch { terrain: terrain_model, geoid }),
        conversion_plan(other, VerticalFrame::Agl, geoid, Some(terrain_model)) is Err,
{
}

/// Converting back plans the inverse steps: a conversion from `source` to `target` succeeds
/// exactly when the one from `target` to `source` does, and each step of the return trip
/// undoes the corresponding step of the way out.
pub proof fn law_round_trip_plans_invert(source: VerticalFrame, target: VerticalFrame, geoid: EgmModel, terrain: Option<EgmModel>)
    ensures
        conversion_plan(source, target, geoid, terrain) is Ok <==> conversion_plan(
            target,
            source,
            geoid,
            terrain,
        ) is Ok,
        conversion_plan(source, target, geoid, terrain) matches Ok(ConversionPlan::ViaMsl { to_msl, from_msl })
            ==> conversion_plan(target, source, geoid, terrain) == Ok::<ConversionPlan, FrameError>(
            ConversionPlan::ViaMsl { to_msl: undo_from_msl(from_msl), from_msl: undo_to_msl(to_msl) },
        ),
{
}

/// Over terrain that makes no orthometric claim, every frame in the converter's own model is
/// accepted: only `Msl` values in another model are refused.
pub proof fn law_geoid_only_accepts_own_frames(source: VerticalFrame, target: VerticalFrame, geoid: EgmModel)
    requires
        source != VerticalFrame::Msl(crate::geoid::other_model(geoid)),
        target != VerticalFrame::Msl(crate::geoid::other_model(geoid)),
    ensures
        conversion_plan(source, target, geoid, None) is Ok,
{
}

} // verus!
