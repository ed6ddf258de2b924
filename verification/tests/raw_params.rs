use nefoxide::error::{NikonError, SdkOperation};
use nefoxide::params::{
    is_supported, raw_development_requests, F64Bits, FilmGrainParams, RawDevelopment,
    RawDevelopmentFlags, RawDevelopmentValue, RawInfoReply, RawParamReply, WhiteBalanceParams,
};
use nefoxide::protocol::{NikonLibrary, NikonSession, QueryStep, SdkReply, SdkStep, SessionQuery, SessionStep};

fn flags() -> RawDevelopmentFlags {
    RawDevelopmentFlags {
        raw_parameter_set: 1 << 0,
        raw_quality: 1 << 1,
        exp_comp: 1 << 2,
        wb_adjustment: 1 << 3,
        tint: 1 << 4,
        nr: 1 << 5,
        picture_control: 1 << 6,
        color_mode: 1 << 7,
        sharpness: 1 << 8,
        tone_comp: 1 << 9,
        saturation: 1 << 10,
        hue_adjustment: 1 << 11,
        filter_effect: 1 << 12,
        active_d_lighting: 1 << 13,
        dehaze: 1 << 14,
        film_grain: 1 << 15,
    }
}

#[test]
fn supported_means_a_shared_bit() {
    assert!(is_supported(0b1010, 0b0010));
    assert!(!is_supported(0b1010, 0b0101));
    assert!(!is_supported(0, u64::MAX));
    assert!(is_supported(u64::MAX, 1 << 63));
}

#[test]
fn requests_are_the_supported_parameters_in_order() {
    let mask = (1 << 15) | (1 << 3) | (1 << 0) | (1 << 20);
    assert_eq!(
        raw_development_requests(mask, &flags()),
        vec![RawDevelopment::RawParameterSet, RawDevelopment::WBAdjustment, RawDevelopment::FilmGrain]
    );
    assert_eq!(raw_development_requests(0, &flags()), Vec::<RawDevelopment>::new());
    assert_eq!(raw_development_requests(u64::MAX, &flags()), RawDevelopment::all());
}

fn opened<'a>(library: &'a NikonLibrary) -> NikonSession<'a> {
    match library.open_session(b"a.nef", b"/p.icm", &vec![SdkReply { code: 0, value: 1 }; 4]) {
        SessionStep::Opened(session) => session,
        _ => panic!("session did not open"),
    }
}

fn library() -> NikonLibrary {
    match NikonLibrary::open(&vec![SdkReply { code: 0, value: 0 }; 2], 0) {
        SdkStep::Done(Ok(library)) => library,
        _ => panic!("library did not open"),
    }
}

fn ok(value: RawDevelopmentValue) -> RawParamReply {
    RawParamReply { code: 0, value }
}

#[test]
fn parameters_are_present_exactly_when_supported() {
    let library = library();
    let session = opened(&library);
    let mask = (1 << 0) | (1 << 2) | (1 << 3) | (1 << 11) | (1 << 15);
    let info = Some(RawInfoReply { code: 0, supported_mask: mask });
    let wb = WhiteBalanceParams { mode: 1, color_temperature: 5200, red: 10, green: 20, blue: 30 };
    let grain = FilmGrainParams { intensity: 2, size: 1 };
    let replies = vec![
        ok(RawDevelopmentValue::RawParameterSet(1)),
        ok(RawDevelopmentValue::ExpComp(F64Bits { bits: (-0.7f64).to_bits() })),
        ok(RawDevelopmentValue::WBAdjustment(wb)),
        ok(RawDevelopmentValue::HueAdjustment(-3)),
        ok(RawDevelopmentValue::FilmGrain(grain)),
    ];
    let params = match session.raw_params(&flags(), info, &replies) {
        QueryStep::Done(Ok(params)) => params,
        _ => panic!("expected the parameters"),
    };
    assert_eq!(params.supported_mask, mask);
    assert_eq!(params.raw_parameter_set, Some(1));
    assert_eq!(params.raw_quality, None);
    assert_eq!(params.exposure_compensation.map(|b| f64::from_bits(b.bits)), Some(-0.7));
    assert_eq!(params.white_balance, Some(wb));
    assert_eq!(params.tint, None);
    assert_eq!(params.picture_control, None);
    assert_eq!(params.hue_adjustment, Some(-3));
    assert_eq!(params.film_grain, Some(grain));
    assert_eq!(params.dehaze, None);
}

#[test]
fn parameter_reading_queries_in_order() {
    let library = library();
    let session = opened(&library);
    match session.raw_params(&flags(), None, &vec![]) {
        QueryStep::Query(q) => assert_eq!(q, SessionQuery::GetRawDevelopmentInfo { session_id: 1 }),
        _ => panic!("expected the mask query"),
    }
    let info = Some(RawInfoReply { code: 0, supported_mask: (1 << 2) | (1 << 9) });
    match session.raw_params(&flags(), info, &vec![]) {
        QueryStep::Query(q) => assert_eq!(
            q,
            SessionQuery::GetRawDevelopmentParam { session_id: 1, kind: RawDevelopment::ExpComp, flag: 1 << 2 }
        ),
        _ => panic!("expected the first parameter query"),
    }
    let replies = vec![ok(RawDevelopmentValue::ExpComp(F64Bits { bits: 0 }))];
    match session.raw_params(&flags(), info, &replies) {
        QueryStep::Query(q) => assert_eq!(
            q,
            SessionQuery::GetRawDevelopmentParam { session_id: 1, kind: RawDevelopment::ToneComp, flag: 1 << 9 }
        ),
        _ => panic!("expected the second parameter query"),
    }
}

#[test]
fn parameter_reading_stops_at_the_first_failure() {
    let library = library();
    let session = opened(&library);
    match session.raw_params(&flags(), Some(RawInfoReply { code: 6, supported_mask: u64::MAX }), &vec![]) {
        QueryStep::Done(Err(e)) => {
            assert_eq!(e, NikonError::Sdk { operation: SdkOperation::GetRawDevelopmentInfo, code: 6 })
        }
        _ => panic!("expected a failure"),
    }
    let info = Some(RawInfoReply { code: 0, supported_mask: (1 << 2) | (1 << 5) | (1 << 9) });
    let replies = vec![
        ok(RawDevelopmentValue::ExpComp(F64Bits { bits: 0 })),
        RawParamReply { code: 0x41, value: RawDevelopmentValue::NR(0) },
    ];
    match session.raw_params(&flags(), info, &replies) {
        QueryStep::Done(Err(e)) => {
            assert_eq!(e, NikonError::Sdk { operation: SdkOperation::GetRawDevelopmentParam(RawDevelopment::NR), code: 0x41 });
            assert_eq!(e.message(), "Nikon SDK GetRawDevelopmentParam(NR) failed with code 0x0041");
        }
        _ => panic!("expected a failure"),
    }
}

#[test]
fn picture_control_is_read_then_applied() {
    let library = library();
    let session = opened(&library);
    let id = session.session_id();
    match session.apply_current_picture_control(&flags(), None, None) {
        QueryStep::Query(q) => assert_eq!(
            q,
            SessionQuery::GetRawDevelopmentParam { session_id: id, kind: RawDevelopment::PictureControl, flag: 1 << 6 }
        ),
        _ => panic!("expected the read"),
    }
    match session.apply_current_picture_control(&flags(), Some(0), None) {
        QueryStep::Query(q) => assert_eq!(q, SessionQuery::ApplyPictureControl { session_id: id }),
        _ => panic!("expected the apply"),
    }
    assert!(matches!(session.apply_current_picture_control(&flags(), Some(0), Some(0)), QueryStep::Done(Ok(()))));
}

#[test]
fn picture_control_failures_are_attributed() {
    let library = library();
    let session = opened(&library);
    match session.apply_current_picture_control(&flags(), Some(7), None) {
        QueryStep::Done(Err(e)) => assert_eq!(
            e.message(),
            "Nikon SDK GetRawDevelopmentParam(PictureControl) failed with code 0x0007"
        ),
        _ => panic!("expected the read's failure"),
    }
    match session.apply_current_picture_control(&flags(), Some(0), Some(9)) {
        QueryStep::Done(Err(e)) => {
            assert_eq!(e, NikonError::Sdk { operation: SdkOperation::ApplyPictureControl, code: 9 });
            assert_eq!(e.message(), "Nikon SDK RawDevelopment(PictureControl) failed with code 0x0009");
        }
        _ => panic!("expected the apply's failure"),
    }
}

#[test]
fn parameter_names() {
    assert_eq!(RawDevelopment::ExpComp.name(), "ExpComp");
    assert_eq!(RawDevelopment::ActiveDLighting.name(), "ActiveDLighting");
    assert_eq!(RawDevelopment::all().len(), 16);
}
