use nefoxide::error::{NikonError, SdkOperation};
use nefoxide::params::F64Bits;
use nefoxide::protocol::{NikonLibrary, NikonSession, QueryStep, SdkReply, SdkStep, SessionQuery, SessionStep};
use nefoxide::render::{
    high_byte_index, narrow_samples, native_high_byte_index, render_request, rgb8_from_samples,
    ImageDataReply, ImageInfo, ImageInfoReply, RenderRequest,
};

const OK: u64 = 0;

fn with_session(f: impl FnOnce(&NikonSession)) {
    let library = match NikonLibrary::open(&vec![SdkReply { code: OK, value: 0 }; 2], OK) {
        SdkStep::Done(Ok(library)) => library,
        _ => panic!("library did not open"),
    };
    let mut replies = vec![SdkReply { code: OK, value: 0 }; 4];
    replies[0].value = 3;
    match library.open_session(b"a.nef", b"/p.icm", &replies) {
        SessionStep::Opened(session) => f(&session),
        _ => panic!("session did not open"),
    }
}

fn info(width: u32, height: u32, byte_depth: u32) -> ImageInfo {
    ImageInfo { width, height, byte_depth, color: 1, orientation: 1, resolution: F64Bits { bits: 300f64.to_bits() } }
}

fn info_reply(code: u64, width: u64, height: u64, byte_depth: u64) -> ImageInfoReply {
    ImageInfoReply { code, width, height, byte_depth, color: 7, orientation: 3, resolution: F64Bits { bits: 240f64.to_bits() } }
}

#[test]
fn image_info_queries_then_casts_reply_fields() {
    with_session(|session| {
        match session.image_info(None) {
            QueryStep::Query(q) => assert_eq!(q, SessionQuery::GetImageInfo { session_id: 3 }),
            _ => panic!("expected the image-info query"),
        }
        match session.image_info(Some(info_reply(OK, 0x1_0000_1000, 4000, 2))) {
            QueryStep::Done(Ok(info)) => {
                assert_eq!(info.width, 0x1000);
                assert_eq!(info.height, 4000);
                assert_eq!(info.byte_depth, 2);
                assert_eq!(info.color, 7);
                assert_eq!(info.orientation, 3);
                assert_eq!(f64::from_bits(info.resolution.bits), 240.0);
            }
            _ => panic!("expected the image info"),
        }
        match session.image_info(Some(info_reply(0x21, 1, 1, 1))) {
            QueryStep::Done(Err(e)) => {
                assert_eq!(e, NikonError::Sdk { operation: SdkOperation::GetImageInfo, code: 0x21 });
                assert_eq!(e.message(), "Nikon SDK GetImageInfo failed with code 0x0021");
            }
            _ => panic!("expected a failure"),
        }
    });
}

#[test]
fn render_request_covers_the_whole_image() {
    let req = render_request(&info(6000, 4000, 2)).unwrap();
    assert_eq!((req.top, req.left, req.bottom, req.right), (0, 0, 4000, 6000));
    assert_eq!(req.data_size, 6000 * 4000 * 3 * 2);
    let req = render_request(&info(32767, 32767, u32::MAX)).unwrap();
    assert_eq!(req.data_size, 32767u64 * 32767 * 3 * u32::MAX as u64);
}

#[test]
fn render_request_refuses_images_beyond_the_rect() {
    let e = render_request(&info(32768, 10, 1)).unwrap_err();
    assert_eq!(e, NikonError::ImageTooLarge { width: 32768, height: 10 });
    assert_eq!(e.message(), "image is too large for the Nikon SDK Rect: 32768x10");
    let e = render_request(&info(10, 40000, 1)).unwrap_err();
    assert_eq!(e, NikonError::ImageTooLarge { width: 10, height: 40000 });
}

#[test]
fn rendering_queries_info_then_data_then_converts() {
    with_session(|session| {
        match session.render_rgb8(None, None, 1) {
            QueryStep::Query(q) => assert_eq!(q, SessionQuery::GetImageInfo { session_id: 3 }),
            _ => panic!("expected the image-info query"),
        }
        let reply = info_reply(OK, 2, 1, 2);
        match session.render_rgb8(Some(reply), None, 1) {
            QueryStep::Query(q) => assert_eq!(
                q,
                SessionQuery::GetImageData {
                    session_id: 3,
                    image_id: 0,
                    request: RenderRequest { top: 0, left: 0, bottom: 1, right: 2, data_size: 12 },
                }
            ),
            _ => panic!("expected the image-data query"),
        }
        let data = vec![0x34, 0x12, 0x00, 0xff, 0xff, 0x00, 0xcd, 0xab, 0x00, 0x01, 0x00, 0x80];
        match session.render_rgb8(Some(reply), Some(ImageDataReply { code: OK, data: data.clone() }), 1) {
            QueryStep::Done(Ok(image)) => {
                assert_eq!(image.data, vec![0x12, 0xff, 0x00, 0xab, 0x01, 0x80]);
                assert_eq!(image.info.width, 2);
            }
            _ => panic!("expected a rendering"),
        }
        match session.render_rgb8(Some(reply), Some(ImageDataReply { code: OK, data }), 0) {
            QueryStep::Done(Ok(image)) => assert_eq!(image.data, vec![0x34, 0x00, 0xff, 0xcd, 0x00, 0x00]),
            _ => panic!("expected a rendering"),
        }
    });
}

#[test]
fn rendering_failures() {
    with_session(|session| {
        match session.render_rgb8(Some(info_reply(9, 2, 1, 1)), None, 0) {
            QueryStep::Done(Err(e)) => assert_eq!(e, NikonError::Sdk { operation: SdkOperation::GetImageInfo, code: 9 }),
            _ => panic!("expected a failure"),
        }
        match session.render_rgb8(Some(info_reply(OK, 40000, 1, 1)), None, 0) {
            QueryStep::Done(Err(e)) => assert_eq!(e, NikonError::ImageTooLarge { width: 40000, height: 1 }),
            _ => panic!("expected the image to be refused before any data query"),
        }
        let reply = info_reply(OK, 1, 1, 1);
        match session.render_rgb8(Some(reply), Some(ImageDataReply { code: 0x30, data: vec![] }), 0) {
            QueryStep::Done(Err(e)) => {
                assert_eq!(e, NikonError::Sdk { operation: SdkOperation::GetImageData, code: 0x30 });
                assert_eq!(e.message(), "Nikon SDK GetImageData failed with code 0x0030");
            }
            _ => panic!("expected a failure"),
        }
        match session.render_rgb8(Some(info_reply(OK, 1, 1, 3)), Some(ImageDataReply { code: OK, data: vec![0; 9] }), 0) {
            QueryStep::Done(Err(e)) => assert_eq!(e, NikonError::UnsupportedByteDepth(3)),
            _ => panic!("expected a failure"),
        }
    });
}

#[test]
fn one_byte_samples_are_kept() {
    let raw = vec![1, 2, 3, 4, 5, 6];
    let image = rgb8_from_samples(info(2, 1, 1), raw.clone(), 0).unwrap();
    assert_eq!(image.data, raw);
    assert_eq!(image.info, info(2, 1, 1));
}

#[test]
fn two_byte_samples_keep_their_high_byte() {
    let samples: Vec<u16> = vec![0x1234, 0xff00, 0x00ff, 0xabcd, 0x0100, 0x8000];
    let raw: Vec<u8> = samples.iter().flat_map(|s| s.to_ne_bytes()).collect();
    let image = rgb8_from_samples(info(2, 1, 2), raw, native_high_byte_index()).unwrap();
    assert_eq!(image.data, vec![0x12, 0xff, 0x00, 0xab, 0x01, 0x80]);
}

#[test]
fn other_depths_are_refused() {
    let e = rgb8_from_samples(info(1, 1, 3), vec![0; 9], 0).unwrap_err();
    assert_eq!(e, NikonError::UnsupportedByteDepth(3));
    assert_eq!(e.message(), "unsupported Nikon SDK byte depth: 3");
    let e = rgb8_from_samples(info(1, 1, 0), vec![], 1).unwrap_err();
    assert_eq!(e, NikonError::UnsupportedByteDepth(0));
}

#[test]
fn narrowing_drops_a_trailing_odd_byte() {
    assert_eq!(narrow_samples(&[1, 2, 3, 4, 5], 0), vec![1, 3]);
    assert_eq!(narrow_samples(&[1, 2, 3, 4, 5], 1), vec![2, 4]);
    assert_eq!(narrow_samples(&[], 1), Vec::<u8>::new());
}

#[test]
fn native_high_byte_matches_the_machine() {
    let high = native_high_byte_index();
    let bytes = 0x0102u16.to_ne_bytes();
    assert_eq!(bytes[high], 0x01);
}

#[test]
fn high_byte_index_follows_the_probe() {
    assert_eq!(high_byte_index(256), 1);
    assert_eq!(high_byte_index(1), 0);
    assert_eq!(high_byte_index(u16::from_ne_bytes([0, 1])), native_high_byte_index());
}
