use nefoxide::jpeg::{export_result, EncodeFailure, ExportError};
use nefoxide::cli::{conversion_summary, parse_command, CliCommand};
use nefoxide::compare::CompareError;
use nefoxide::error::{NikonError, SdkOperation};
use nefoxide::jpeg::{encode_jpeg, nx_like_jpeg_settings, ChromaSubsampling, JpegPreset};
use nefoxide::params::{F64Bits, RawDevelopment};
use nefoxide::paths::{nikon_srgb_profile_path, repo_root};
use nefoxide::render::{ImageInfo, RgbImage};

fn args(list: &[&str]) -> Vec<String> {
    list.iter().map(|s| s.to_string()).collect()
}

fn info(width: u32, height: u32) -> ImageInfo {
    ImageInfo { width, height, byte_depth: 1, color: 0, orientation: 0, resolution: F64Bits { bits: 0 } }
}

#[test]
fn commands_parse() {
    assert_eq!(
        parse_command(&args(&["cli", "convert", "in.nef", "out.jpg"])),
        Ok(CliCommand::Convert { input: "in.nef".to_string(), output: "out.jpg".to_string() })
    );
    assert_eq!(
        parse_command(&args(&["cli", "compare", "a.jpg", "b.jpg"])),
        Ok(CliCommand::Compare { ours: "a.jpg".to_string(), reference: "b.jpg".to_string() })
    );
    assert_eq!(
        parse_command(&args(&["cli", "raw-params", "in.nef"])),
        Ok(CliCommand::RawParams { input: "in.nef".to_string() })
    );
}

#[test]
fn command_errors() {
    let usage = "usage: nefoxide-cli <convert <input.nef> <output.jpg>|compare <ours.jpg> <reference.jpg>|raw-params <input.nef>>";
    assert_eq!(parse_command(&args(&[])), Err(usage.to_string()));
    assert_eq!(parse_command(&args(&["cli"])), Err(usage.to_string()));
    assert_eq!(parse_command(&args(&["cli", "render"])), Err(usage.to_string()));
    assert_eq!(parse_command(&args(&["cli", "convert"])), Err("missing input NEF path".to_string()));
    assert_eq!(parse_command(&args(&["cli", "convert", "a"])), Err("missing output JPG path".to_string()));
    assert_eq!(
        parse_command(&args(&["cli", "convert", "a", "b", "c"])),
        Err("usage: nefoxide-cli convert <input.nef> <output.jpg>".to_string())
    );
    assert_eq!(parse_command(&args(&["cli", "compare"])), Err("missing first image path".to_string()));
    assert_eq!(parse_command(&args(&["cli", "compare", "a"])), Err("missing reference image path".to_string()));
    assert_eq!(
        parse_command(&args(&["cli", "compare", "a", "b", "c"])),
        Err("usage: nefoxide-cli compare <ours.jpg> <reference.jpg>".to_string())
    );
    assert_eq!(parse_command(&args(&["cli", "raw-params"])), Err("missing input NEF path".to_string()));
    assert_eq!(
        parse_command(&args(&["cli", "raw-params", "a", "b"])),
        Err("usage: nefoxide-cli raw-params <input.nef>".to_string())
    );
}

#[test]
fn error_messages() {
    assert_eq!(NikonError::PathEncoding.message(), "path cannot be passed to Nikon SDK as UTF-8 C string");
    assert_eq!(
        NikonError::ImageTooLarge { width: 40000, height: 0 }.message(),
        "image is too large for the Nikon SDK Rect: 40000x0"
    );
    assert_eq!(
        NikonError::UnsupportedByteDepth(18446744073709551615).message(),
        "unsupported Nikon SDK byte depth: 18446744073709551615"
    );
    assert_eq!(
        NikonError::Sdk { operation: SdkOperation::GetImageData, code: 0 }.message(),
        "Nikon SDK GetImageData failed with code 0x0000"
    );
    assert_eq!(
        NikonError::Sdk { operation: SdkOperation::ApplyRawParameterSet, code: 0x12345 }.message(),
        "Nikon SDK RawDevelopment(RawParameterSet) failed with code 0x12345"
    );
    assert_eq!(
        NikonError::Sdk { operation: SdkOperation::GetRawDevelopmentParam(RawDevelopment::FilmGrain), code: u64::MAX }
            .message(),
        "Nikon SDK GetRawDevelopmentParam(FilmGrain) failed with code 0xffffffffffffffff"
    );
    assert_eq!(SdkOperation::ApplyPictureControl.name(), "RawDevelopment(PictureControl)");
}

#[test]
fn summary_and_dimension_messages() {
    let mut i = info(6048, 4024);
    i.byte_depth = 2;
    assert_eq!(
        conversion_summary("/in/a.nef", "/out/a.jpg", &i),
        "converted /in/a.nef -> /out/a.jpg (6048x4024, 2 byte/channel)"
    );
    let e = CompareError::DimensionsDiffer { ours_width: 10, ours_height: 20, reference_width: 30, reference_height: 40 };
    assert_eq!(e.message("ours.jpg", "ref.jpg"), "image dimensions differ: ours.jpg is (10, 20), ref.jpg is (30, 40)");
}

#[test]
fn jpeg_export_uses_nx_like_settings() {
    let settings = nx_like_jpeg_settings();
    assert_eq!(settings.preset, JpegPreset::BaselineBalanced);
    assert_eq!(settings.quality, 95);
    assert_eq!(settings.subsampling, ChromaSubsampling::S444);
}

#[test]
fn jpeg_export_encodes_a_small_image() {
    let data: Vec<u8> = (0..16 * 8 * 3).map(|i| (i * 7 % 256) as u8).collect();
    let image = RgbImage { info: info(16, 8), data };
    let jpeg = encode_jpeg(&image, vec![1, 2, 3, 4]).expect("encodes");
    assert_eq!(&jpeg[..2], &[0xff, 0xd8]);
    assert_eq!(&jpeg[jpeg.len() - 2..], &[0xff, 0xd9]);
    assert!(jpeg.windows(11).any(|w| w == b"ICC_PROFILE"));
}

fn expected_head(icc: &[u8]) -> Vec<u8> {
    let mut head = vec![0xff, 0xd8];
    head.extend_from_slice(&[
        0xff, 0xe0, 0x00, 0x10, b'J', b'F', b'I', b'F', 0x00, 0x01, 0x01, 0x01, 0x00, 0x48, 0x00, 0x48, 0x00, 0x00,
    ]);
    if !icc.is_empty() {
        let len = 16 + icc.len();
        head.extend_from_slice(&[0xff, 0xe2, (len >> 8) as u8, (len & 0xff) as u8]);
        head.extend_from_slice(b"ICC_PROFILE\0");
        head.extend_from_slice(&[1, 1]);
        head.extend_from_slice(icc);
    }
    head
}

const QUALITY95_TABLE: [u8; 64] = [
    2, 2, 2, 2, 2, 2, 2, 2, 2, 2, 3, 3, 2, 3, 3, 4, 3, 3, 3, 3, 4, 6, 4, 4, 4, 4, 4, 6, 9, 5, 6, 5,
    5, 6, 5, 9, 8, 9, 7, 7, 7, 9, 8, 14, 11, 9, 9, 11, 14, 16, 13, 12, 13, 16, 19, 17, 17, 19, 24, 23, 24, 31,
    31, 42,
];

fn check_tables_and_frame(jpeg: &[u8], at: usize, width: u16, height: u16) {
    let mut dqt = vec![0xff, 0xdb, 0x00, 0x84, 0x00];
    dqt.extend_from_slice(&QUALITY95_TABLE);
    dqt.push(0x01);
    dqt.extend_from_slice(&QUALITY95_TABLE);
    assert_eq!(&jpeg[at..at + dqt.len()], &dqt[..]);
    let frame = at + dqt.len();
    let expected = [
        0xff, 0xc0, 0x00, 0x11, 0x08,
        (height >> 8) as u8, (height & 0xff) as u8, (width >> 8) as u8, (width & 0xff) as u8,
        0x03, 0x01, 0x11, 0x00, 0x02, 0x11, 0x01, 0x03, 0x11, 0x01,
    ];
    assert_eq!(&jpeg[frame..frame + expected.len()], &expected);
}

#[test]
fn jpeg_export_head_carries_profile_and_444_frame() {
    let data: Vec<u8> = (0..16 * 8 * 3).map(|i| (i * 5 % 256) as u8).collect();
    let image = RgbImage { info: info(16, 8), data };
    let icc = vec![1u8, 2, 3, 4];
    let jpeg = encode_jpeg(&image, icc.clone()).expect("encodes");
    let head = expected_head(&icc);
    assert_eq!(&jpeg[..head.len()], &head[..]);
    check_tables_and_frame(&jpeg, head.len(), 16, 8);
}

#[test]
fn jpeg_export_without_profile_has_no_app2() {
    let image = RgbImage { info: info(3, 5), data: vec![128; 3 * 5 * 3] };
    let jpeg = encode_jpeg(&image, vec![]).expect("encodes");
    let head = expected_head(&[]);
    assert_eq!(&jpeg[..head.len()], &head[..]);
    check_tables_and_frame(&jpeg, head.len(), 3, 5);
}

#[test]
fn jpeg_export_refuses_bad_images() {
    match encode_jpeg(&RgbImage { info: info(0, 8), data: vec![] }, vec![]) {
        Err(ExportError::Encode(EncodeFailure::InvalidDimensions { width, height })) => {
            assert_eq!((width, height), (0, 8))
        }
        _ => panic!("expected invalid dimensions"),
    }
    match encode_jpeg(&RgbImage { info: info(2, 2), data: vec![0; 11] }, vec![]) {
        Err(ExportError::Encode(EncodeFailure::BufferSizeMismatch { expected, actual })) => {
            assert_eq!((expected, actual), (12, 11))
        }
        _ => panic!("expected a size mismatch"),
    }
}

#[test]
fn repository_paths() {
    assert_eq!(repo_root("/src/nefoxide/crates/nefoxide-cli"), Some("/src/nefoxide".to_string()));
    assert_eq!(repo_root(""), None);
    assert_eq!(repo_root("/"), None);
    assert_eq!(repo_root("/crates"), None);
    assert_eq!(repo_root("crates/cli"), Some("".to_string()));
    assert_eq!(
        nikon_srgb_profile_path("/src/nefoxide"),
        "/src/nefoxide/lib/NikonSDK/Profiles/NKsRGB.icm"
    );
    let root = repo_root("/Users/dev/NefOxide/crates/nefoxide-nikon").expect("has a grandparent");
    assert_eq!(nikon_srgb_profile_path(&root), "/Users/dev/NefOxide/lib/NikonSDK/Profiles/NKsRGB.icm");
    assert_eq!(nikon_srgb_profile_path("rel/"), "rel/lib/NikonSDK/Profiles/NKsRGB.icm");
    assert_eq!(nikon_srgb_profile_path(""), "lib/NikonSDK/Profiles/NKsRGB.icm");
}

#[test]
fn encoder_results_map_to_export_results() {
    assert_eq!(export_result(Ok(vec![0xff, 0xd8])).unwrap(), vec![0xff, 0xd8]);
    match export_result(Err(EncodeFailure::Other(mozjpeg_rs::Error::AllocationFailed))) {
        Err(ExportError::Encode(EncodeFailure::Other(e))) => assert_eq!(e, mozjpeg_rs::Error::AllocationFailed),
        _ => panic!("expected an encoding failure"),
    }
    match export_result(Err(EncodeFailure::BufferSizeMismatch { expected: 12, actual: 11 })) {
        Err(ExportError::Encode(EncodeFailure::BufferSizeMismatch { expected, actual })) => {
            assert_eq!((expected, actual), (12, 11))
        }
        _ => panic!("expected a size mismatch"),
    }
}
