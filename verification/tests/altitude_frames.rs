use small_world::altitude::{
    plan_conversion, plan_geoid_shift, require_datum_coherence, require_geoid_model,
    shift_target_frame, ConversionPlan, FrameError, FromMsl, NoTerrain, ShiftPlan, ToMsl,
    VerticalFrame,
};
use small_world::geoid::EgmModel;
use small_world::height::Interpolation;

fn queries(plan: ConversionPlan) -> (usize, usize) {
    match plan {
        ConversionPlan::Identity => (0, 0),
        ConversionPlan::ViaMsl { to_msl, from_msl } => {
            let geoid = (to_msl == ToMsl::SubtractGeoid) as usize
                + (from_msl == FromMsl::AddGeoid) as usize;
            let terrain = (to_msl == ToMsl::AddGround) as usize
                + (from_msl == FromMsl::SubtractGround) as usize;
            (geoid, terrain)
        }
    }
}

#[test]
fn frame_pair_queries_use_only_required_references() {
    let msl = VerticalFrame::Msl(EgmModel::Egm96);
    let cases = [
        (VerticalFrame::Agl, VerticalFrame::Agl, 0, 0),
        (VerticalFrame::Agl, msl, 0, 1),
        (VerticalFrame::Agl, VerticalFrame::Hae, 1, 1),
        (msl, VerticalFrame::Agl, 0, 1),
        (msl, msl, 0, 0),
        (msl, VerticalFrame::Hae, 1, 0),
        (VerticalFrame::Hae, VerticalFrame::Agl, 1, 1),
        (VerticalFrame::Hae, msl, 1, 0),
        (VerticalFrame::Hae, VerticalFrame::Hae, 0, 0),
    ];
    for (source, target, expected_geoid_queries, expected_terrain_queries) in cases {
        let plan =
            plan_conversion(source, target, EgmModel::Egm96, Some(EgmModel::Egm96)).unwrap();
        let (geoid, terrain) = queries(plan);
        assert_eq!(geoid, expected_geoid_queries, "source={source:?} target={target:?}");
        assert_eq!(
            terrain, expected_terrain_queries,
            "source={source:?} target={target:?}"
        );
    }
}

#[test]
fn same_frame_plan_still_checks_the_frame() {
    let own = VerticalFrame::Msl(EgmModel::Egm96);
    assert_eq!(
        plan_conversion(own, own, EgmModel::Egm96, Some(EgmModel::Egm96)).unwrap(),
        ConversionPlan::Identity
    );
    assert_eq!(
        plan_conversion(VerticalFrame::Hae, VerticalFrame::Hae, EgmModel::Egm2008, Some(EgmModel::Egm96))
            .unwrap(),
        ConversionPlan::Identity
    );
    let foreign = VerticalFrame::Msl(EgmModel::Egm2008);
    assert_eq!(
        plan_conversion(foreign, foreign, EgmModel::Egm96, Some(EgmModel::Egm96)).unwrap_err(),
        FrameError::GeoidModelMismatch {
            value: EgmModel::Egm2008,
            converter: EgmModel::Egm96
        }
    );
    assert_eq!(
        plan_conversion(VerticalFrame::Agl, VerticalFrame::Agl, EgmModel::Egm2008, Some(EgmModel::Egm96))
            .unwrap_err(),
        FrameError::TerrainDatumMismatch {
            terrain: EgmModel::Egm96,
            geoid: EgmModel::Egm2008
        }
    );
    assert_eq!(
        plan_conversion(VerticalFrame::Agl, VerticalFrame::Agl, EgmModel::Egm2008, None).unwrap(),
        ConversionPlan::Identity
    );
}

#[test]
fn mismatched_msl_model_plan_is_rejected() {
    let err = plan_conversion(
        VerticalFrame::Msl(EgmModel::Egm2008),
        VerticalFrame::Hae,
        EgmModel::Egm96,
        Some(EgmModel::Egm96),
    )
    .unwrap_err();
    assert_eq!(
        err,
        FrameError::GeoidModelMismatch {
            value: EgmModel::Egm2008,
            converter: EgmModel::Egm96
        }
    );
    let err = plan_conversion(
        VerticalFrame::Hae,
        VerticalFrame::Msl(EgmModel::Egm2008),
        EgmModel::Egm96,
        None,
    )
    .unwrap_err();
    assert!(matches!(err, FrameError::GeoidModelMismatch { .. }));
}

#[test]
fn agl_plan_refuses_mixed_datums() {
    let err = plan_conversion(
        VerticalFrame::Agl,
        VerticalFrame::Hae,
        EgmModel::Egm2008,
        Some(EgmModel::Egm96),
    )
    .unwrap_err();
    assert_eq!(
        err,
        FrameError::TerrainDatumMismatch {
            terrain: EgmModel::Egm96,
            geoid: EgmModel::Egm2008
        }
    );
    // MSL <-> HAE needs no terrain, so the same converter still handles it.
    assert_eq!(
        plan_conversion(
            VerticalFrame::Msl(EgmModel::Egm2008),
            VerticalFrame::Hae,
            EgmModel::Egm2008,
            Some(EgmModel::Egm96)
        )
        .unwrap(),
        ConversionPlan::ViaMsl {
            to_msl: ToMsl::Keep,
            from_msl: FromMsl::AddGeoid
        }
    );
    // Source errors come first.
    let err = plan_conversion(
        VerticalFrame::Agl,
        VerticalFrame::Msl(EgmModel::Egm96),
        EgmModel::Egm2008,
        Some(EgmModel::Egm96),
    )
    .unwrap_err();
    assert!(matches!(err, FrameError::TerrainDatumMismatch { .. }));
}

#[test]
fn geoid_only_terrain_makes_no_datum_claim() {
    assert_eq!(NoTerrain.vertical_datum(), None);
    assert_eq!(
        plan_conversion(VerticalFrame::Agl, VerticalFrame::Hae, EgmModel::Egm96, NoTerrain.vertical_datum())
            .unwrap(),
        ConversionPlan::ViaMsl {
            to_msl: ToMsl::AddGround,
            from_msl: FromMsl::AddGeoid
        }
    );
}

#[test]
fn datum_checks() {
    assert!(require_geoid_model(EgmModel::Egm96, EgmModel::Egm96).is_ok());
    assert!(require_geoid_model(EgmModel::Egm2008, EgmModel::Egm96).is_err());
    assert!(require_datum_coherence(None, EgmModel::Egm2008).is_ok());
    assert!(require_datum_coherence(Some(EgmModel::Egm96), EgmModel::Egm96).is_ok());
    assert!(require_datum_coherence(Some(EgmModel::Egm96), EgmModel::Egm2008).is_err());
}

#[test]
fn geoid_shift_moves_the_tag_with_the_value() {
    assert_eq!(
        shift_target_frame(
            VerticalFrame::Msl(EgmModel::Egm96),
            EgmModel::Egm96,
            EgmModel::Egm2008
        )
        .unwrap(),
        VerticalFrame::Msl(EgmModel::Egm2008)
    );
    let err = shift_target_frame(VerticalFrame::Hae, EgmModel::Egm96, EgmModel::Egm2008)
        .unwrap_err();
    assert_eq!(
        err,
        FrameError::ExpectedMslSample {
            expected: EgmModel::Egm96,
            found: VerticalFrame::Hae
        }
    );
    assert!(shift_target_frame(
        VerticalFrame::Msl(EgmModel::Egm2008),
        EgmModel::Egm96,
        EgmModel::Egm2008
    )
    .is_err());
}

#[test]
fn frame_labels_are_log_friendly() {
    assert_eq!(VerticalFrame::Hae.label(), "HAE");
    assert_eq!(VerticalFrame::Agl.label(), "AGL");
    assert_eq!(VerticalFrame::Msl(EgmModel::Egm2008).label(), "MSL(EGM2008)");
    assert_eq!(VerticalFrame::Msl(EgmModel::Egm96).label(), "MSL(EGM96)");
    assert_eq!(Interpolation::default(), Interpolation::Bilinear);
}

#[test]
fn round_trip_plans_are_inverse() {
    let frames = [
        VerticalFrame::Agl,
        VerticalFrame::Msl(EgmModel::Egm96),
        VerticalFrame::Hae,
    ];
    for source in frames {
        for target in frames {
            let there = plan_conversion(source, target, EgmModel::Egm96, Some(EgmModel::Egm96)).unwrap();
            let back = plan_conversion(target, source, EgmModel::Egm96, Some(EgmModel::Egm96)).unwrap();
            assert_eq!(queries(there), queries(back));
        }
    }
}

#[test]
fn frame_error_messages_explain_the_remedy() {
    let mismatch = FrameError::GeoidModelMismatch {
        value: EgmModel::Egm2008,
        converter: EgmModel::Egm96,
    };
    let text = mismatch.message();
    assert!(text.contains("Egm2008"), "{text}");
    assert!(text.contains("Egm96"), "{text}");
    assert_eq!(
        text,
        "MSL value is referenced to Egm2008 but the converter's geoid is Egm96; re-reference it first with GeoidShift (Egm2008 -> Egm96), or convert it with a Egm2008 converter \u{2014} the models differ by decimeters"
    );
    let expected = FrameError::ExpectedMslSample {
        expected: EgmModel::Egm96,
        found: VerticalFrame::Hae,
    };
    assert_eq!(
        expected.message(),
        "geoid re-referencing needs an MSL sample referenced to Egm96, got Hae; convert to MSL in the source model first"
    );
    let datum = FrameError::TerrainDatumMismatch {
        terrain: EgmModel::Egm96,
        geoid: EgmModel::Egm2008,
    };
    assert_eq!(
        datum.message(),
        "terrain heights are Egm96-orthometric but the converter's geoid is Egm2008; AGL conversions would mix datums \u{2014} use a Egm96 geoid with this terrain dataset"
    );
    assert_eq!(VerticalFrame::Msl(EgmModel::Egm2008).debug_name(), "Msl(Egm2008)");
}

#[test]
fn geoid_shift_between_equal_models_queries_nothing() {
    assert_eq!(
        plan_geoid_shift(EgmModel::Egm96, EgmModel::Egm96),
        ShiftPlan::Identity
    );
    assert_eq!(
        plan_geoid_shift(EgmModel::Egm2008, EgmModel::Egm2008),
        ShiftPlan::Identity
    );
    assert_eq!(
        plan_geoid_shift(EgmModel::Egm96, EgmModel::Egm2008),
        ShiftPlan::Difference
    );
}
