use nefoxide::compare::{compare, compare_encoded, is_orange, pixel_statistics, CompareError, CompareFailure, RgbPixels};

fn float_orange(red: u8, green: u8, blue: u8) -> bool {
    red > 120
        && green > 45
        && green < 190
        && blue < 130
        && red as f32 > green as f32 * 1.12
        && green as f32 > blue as f32 * 1.05
}

#[test]
fn orange_test_matches_single_precision_formula_everywhere() {
    for red in 0..=255u8 {
        for green in 0..=255u8 {
            for blue in 0..=255u8 {
                assert_eq!(is_orange(red, green, blue), float_orange(red, green, blue), "{red} {green} {blue}");
            }
        }
    }
}

#[test]
fn orange_edge_cases() {
    // 1.05f32 * 120 rounds just below 126, so green 126 passes.
    assert!(is_orange(200, 126, 120));
    assert!(!is_orange(200, 125, 120));
    // 1.05f32 * 80 rounds to exactly 84, so green 84 fails.
    assert!(!is_orange(200, 84, 80));
    assert!(is_orange(200, 85, 80));
    // red must exceed 1.12 * green: 28 * 100 / 25 = 112.
    assert!(is_orange(121, 108, 10));
    assert!(!is_orange(121, 109, 10));
}

#[test]
fn statistics_of_two_pixels() {
    let ours = vec![200, 100, 50, 10, 10, 10];
    let reference = vec![210, 90, 50, 20, 5, 10];
    let s = pixel_statistics(&ours, &reference);
    assert_eq!(s.all_count, 2);
    assert_eq!(s.all_delta, [20, -15, 0]);
    assert_eq!(s.orange_count, 1);
    assert_eq!(s.orange_delta, [10, -10, 0]);
    assert_eq!(s.orange_ours, [200, 100, 50]);
    assert_eq!(s.orange_reference, [210, 90, 50]);
}

#[test]
fn orange_delta_is_reference_less_ours() {
    let ours: Vec<u8> = (0..3000u32).map(|i| ((i * 37 + 11) % 256) as u8).collect();
    let reference: Vec<u8> = (0..3000u32).map(|i| ((i * 53 + 7) % 256) as u8).collect();
    let s = pixel_statistics(&ours, &reference);
    assert_eq!(s.all_count, 1000);
    assert!(s.orange_count <= s.all_count);
    for c in 0..3 {
        assert_eq!(s.orange_delta[c], s.orange_reference[c] as i128 - s.orange_ours[c] as i128);
        let ours_total: i128 = ours.iter().skip(c).step_by(3).map(|v| *v as i128).sum();
        let reference_total: i128 = reference.iter().skip(c).step_by(3).map(|v| *v as i128).sum();
        assert_eq!(s.all_delta[c], reference_total - ours_total);
    }
}

#[test]
fn statistics_cover_the_common_pixels() {
    let s = pixel_statistics(&[1, 2, 3, 4, 5, 6, 7], &[1, 2, 3, 4]);
    assert_eq!(s.all_count, 1);
    let s = pixel_statistics(&[], &[]);
    assert_eq!(s.all_count, 0);
    assert_eq!(s.orange_count, 0);
}

#[test]
fn images_of_different_dimensions_are_refused() {
    let a = RgbPixels { width: 2, height: 1, data: vec![0; 6] };
    let b = RgbPixels { width: 1, height: 2, data: vec![0; 6] };
    assert_eq!(
        compare(&a, &b),
        Err(CompareError::DimensionsDiffer { ours_width: 2, ours_height: 1, reference_width: 1, reference_height: 2 })
    );
    let s = compare(&a, &RgbPixels { width: 2, height: 1, data: vec![1; 6] }).unwrap();
    assert_eq!(s.all_delta, [2, 2, 2]);
}

fn png(width: u32, height: u32, data: Vec<u8>) -> Vec<u8> {
    let image = image::RgbImage::from_raw(width, height, data).expect("sized buffer");
    let mut bytes = std::io::Cursor::new(Vec::new());
    image.write_to(&mut bytes, image::ImageFormat::Png).expect("encodes");
    bytes.into_inner()
}

#[test]
fn encoded_images_are_decoded_then_compared() {
    let ours = png(2, 1, vec![200, 100, 50, 10, 20, 30]);
    let reference = png(2, 1, vec![210, 90, 50, 10, 20, 40]);
    let stats = compare_encoded(&ours, "ours.png", &reference, "ref.PNG").expect("compares");
    assert_eq!(stats.all_count, 2);
    assert_eq!(stats.all_delta, [10, -10, 10]);
    assert_eq!(stats.orange_count, 1);
    assert_eq!(stats.orange_delta, [10, -10, 0]);
    assert_eq!(stats.orange_ours, [200, 100, 50]);
    assert_eq!(stats.orange_reference, [210, 90, 50]);
}

#[test]
fn decoding_failures_are_attributed_in_order() {
    let good = png(1, 1, vec![1, 2, 3]);
    assert!(matches!(compare_encoded(b"junk", "ours.png", b"junk", "ref.png"), Err(CompareFailure::Ours(_))));
    assert!(matches!(compare_encoded(&good, "ours.xyz", &good, "ref.png"), Err(CompareFailure::Ours(_))));
    assert!(matches!(compare_encoded(&good, "ours.png", b"junk", "ref.png"), Err(CompareFailure::Reference(_))));
    match compare_encoded(&good, "ours.png", &png(2, 1, vec![0; 6]), "ref.png") {
        Err(CompareFailure::Pixels(e)) => assert_eq!(
            e,
            CompareError::DimensionsDiffer { ours_width: 1, ours_height: 1, reference_width: 2, reference_height: 1 }
        ),
        _ => panic!("expected a dimension mismatch"),
    }
}
