use vstd::prelude::*;

use image::ImageFormat;

verus! {

#[verifier::external_type_specification]
#[verifier::external_body]
pub struct ExImageError(image::ImageError);

/// A decoded 8-bit RGB image: three bytes per pixel, row by row.
#[derive(Debug)]
pub struct RgbPixels {
    pub width: u32,
    pub height: u32,
    pub data: Vec<u8>,
}

/// Colour statistics of two images, taken pixel by pixel.
///
/// `*_delta` sums reference minus ours per channel; the `orange_*` fields
/// cover only the pixels that are orange-ish in our image.
#[derive(Debug, Clone, Copy, PartialEq, Eq)]
pub struct ComparisonStats {
    pub all_count: u64,
    pub all_delta: [i128; 3],
    pub orange_count: u64,
    pub orange_delta: [i128; 3],
    pub orange_ours: [u128; 3],
    pub orange_reference: [u128; 3],
}

/// Two images that cannot be compared pixel by pixel.
#[derive(Debug, Clone, Copy, PartialEq, Eq, Structural)]
pub enum CompareError {
    DimensionsDiffer { ours_width: u32, ours_height: u32, reference_width: u32, reference_height: u32 },
}

/// The orange-ish test on a pixel of our image: red above 120, green strictly
/// between 45 and 190, blue below 130, red more than 1.12 times green and green
/// more than 1.05 times blue, the two products taken as single-precision
/// products of the constants. In integers: the first product is never below
/// 28 * green / 25 by a whole step, and the second falls just short of
/// 21 * blue / 20 for blue of 60, 100 and 120, where green equal to that
/// product passes.
pub open spec fn orange(red: u8, green: u8, blue: u8) -> bool {
    &&& red > 120
    &&& green > 45
    &&& green < 190
    &&& blue < 130
    &&& 25 * red > 28 * green
    &&& (20 * green > 21 * blue || (20 * green == 21 * blue && (blue == 60 || blue == 100 || blue == 120)))
}

/// Whether a pixel of our image is orange-ish (see [`orange`]).
pub fn is_orange(red: u8, green: u8, blue: u8) -> (r: bool)
    ensures
        r == orange(red, green, blue),
{
    let r: u32 = red as u32;
    let g: u32 = green as u32;
    let b: u32 = blue as u32;
    r > 120 && g > 45 && g < 190 && b < 130 && 25 * r > 28 * g
        && (20 * g > 21 * b || (20 * g == 21 * b && (b == 60 || b == 100 || b == 120)))
}

/// Number of whole pixels the two buffers have in common.
pub open spec fn common_pixels(ours: Seq<u8>, reference: Seq<u8>) -> nat {
    if ours.len() <= reference.len() { ours.len() / 3 } else { reference.len() / 3 }
}

/// Whether pixel `k` of `ours` is orange-ish.
pub open spec fn orange_at(ours: Seq<u8>, k: int) -> bool {
    orange(ours[3 * k], ours[3 * k + 1], ours[3 * k + 2])
}

/// Sum over the first `n` pixels of reference minus ours in channel `c`.
pub open spec fn delta_total(ours: Seq<u8>, reference: Seq<u8>, n: nat, c: int) -> int
    decreases n,
{
    if n == 0 {
        0
    } else {
        delta_total(ours, reference, (n - 1) as nat, c) + reference[3 * (n - 1) + c] - ours[3 * (n - 1) + c]
    }
}

/// Number of orange-ish pixels among the first `n` of `ours`.
pub open spec fn orange_total(ours: Seq<u8>, n: nat) -> nat
    decreases n,
{
    if n == 0 {
        0
    } else {
        orange_total(ours, (n - 1) as nat) + if orange_at(ours, n - 1) { 1nat } else { 0nat }
    }
}

/// Sum of channel `c` of `image` over the pixels among the first `n` that are
/// orange-ish in `ours`.
pub open spec fn orange_channel_total(ours: Seq<u8>, image: Seq<u8>, n: nat, c: int) -> nat
    decreases n,
{
    if n == 0 {
        0
    } else {
        orange_channel_total(ours, image, (n - 1) as nat, c)
            + if orange_at(ours, n - 1) { image[3 * (n - 1) + c] as nat } else { 0nat }
    }
}

/// Sum of reference minus ours in channel `c` over the pixels among the first
/// `n` that are orange-ish in `ours`.
pub open spec fn orange_delta_total(ours: Seq<u8>, reference: Seq<u8>, n: nat, c: int) -> int
    decreases n,
{
    if n == 0 {
        0
    } else {
        orange_delta_total(ours, reference, (n - 1) as nat, c)
            + if orange_at(ours, n - 1) { reference[3 * (n - 1) + c] - ours[3 * (n - 1) + c] } else { 0 }
    }
}

/// The statistics of the first `n` pixels of the two buffers.
pub open spec fn stats_of(ours: Seq<u8>, reference: Seq<u8>, n: nat, s: ComparisonStats) -> bool {
    &&& s.all_count == n
    &&& s.orange_count == orange_total(ours, n)
    &&& forall|c: int| 0 <= c < 3 ==> {
        &&& #[trigger] s.all_delta[c] == delta_total(ours, reference, n, c)
        &&& s.orange_delta[c] == orange_delta_total(ours, reference, n, c)
        &&& s.orange_ours[c] == orange_channel_total(ours, ours, n, c)
        &&& s.orange_reference[c] == orange_channel_total(ours, reference, n, c)
    }
}

/// The statistics of the pixels that the two buffers have in common: every
/// such pixel counts, and the orange-ish ones of `ours` count again apart.
pub fn pixel_statistics(ours: &[u8], reference: &[u8]) -> (s: ComparisonStats)
    ensures
        stats_of(ours@, reference@, common_pixels(ours@, reference@), s),
{
    let ours_len: usize = ours.len();
    let reference_len: usize = reference.len();
    let n: usize = if ours_len <= reference_len { ours_len / 3 } else { reference_len / 3 };
    let mut s = ComparisonStats {
        all_count: 0,
        all_delta: [0i128, 0i128, 0i128],
        orange_count: 0,
        orange_delta: [0i128, 0i128, 0i128],
        orange_ours: [0u128, 0u128, 0u128],
        orange_reference: [0u128, 0u128, 0u128],
    };
    let mut k: usize = 0;
    while k < n
        invariant
            n == common_pixels(ours@, reference@),
            ours_len == ours@.len(),
            reference_len == reference@.len(),
            3 * n <= ours_len,
            3 * n <= reference_len,
            k <= n,
            stats_of(ours@, reference@, k as nat, s),
            forall|c: int| 0 <= c < 3 ==> {
                &&& -255 * k <= #[trigger] delta_total(ours@, reference@, k as nat, c) <= 255 * k
                &&& -255 * k <= orange_delta_total(ours@, reference@, k as nat, c) <= 255 * k
                &&& orange_channel_total(ours@, ours@, k as nat, c) <= 255 * k
                &&& orange_channel_total(ours@, reference@, k as nat, c) <= 255 * k
            },
            orange_total(ours@, k as nat) <= k,
        decreases n - k,
    {
        let base: usize = 3 * k;
        let o0: u8 = ours[base];
        let o1: u8 = ours[base + 1];
        let o2: u8 = ours[base + 2];
        let r0: u8 = reference[base];
        let r1: u8 = reference[base + 1];
        let r2: u8 = reference[base + 2];
        let d0: i128 = r0 as i128 - o0 as i128;
        let d1: i128 = r1 as i128 - o1 as i128;
        let d2: i128 = r2 as i128 - o2 as i128;
        let next_all = [s.all_delta[0] + d0, s.all_delta[1] + d1, s.all_delta[2] + d2];
        let orange_here = is_orange(o0, o1, o2);
        let ghost kk: nat = (k + 1) as nat;
        assert(orange_here == orange_at(ours@, kk - 1));
        if orange_here {
            s = ComparisonStats {
                all_count: s.all_count + 1,
                all_delta: next_all,
                orange_count: s.orange_count + 1,
                orange_delta: [s.orange_delta[0] + d0, s.orange_delta[1] + d1, s.orange_delta[2] + d2],
                orange_ours: [
                    s.orange_ours[0] + o0 as u128,
                    s.orange_ours[1] + o1 as u128,
                    s.orange_ours[2] + o2 as u128,
                ],
                orange_reference: [
                    s.orange_reference[0] + r0 as u128,
                    s.orange_reference[1] + r1 as u128,
                    s.orange_reference[2] + r2 as u128,
                ],
            };
        } else {
            s = ComparisonStats {
                all_count: s.all_count + 1,
                all_delta: next_all,
                ..s
            };
        }
        k = k + 1;
        assert forall|c: int| 0 <= c < 3 implies {
            &&& #[trigger] s.all_delta[c] == delta_total(ours@, reference@, k as nat, c)
            &&& s.orange_delta[c] == orange_delta_total(ours@, reference@, k as nat, c)
            &&& s.orange_ours[c] == orange_channel_total(ours@, ours@, k as nat, c)
            &&& s.orange_reference[c] == orange_channel_total(ours@, reference@, k as nat, c)
        } by {
            assert(c == 0 || c == 1 || c == 2);
        }
    }
    s
}

/// Compares our rendering with a reference image of the same dimensions,
/// pixel by pixel; images of different dimensions are refused.
pub fn compare(ours: &RgbPixels, reference: &RgbPixels) -> (r: Result<ComparisonStats, CompareError>)
    ensures
        (ours.width == reference.width && ours.height == reference.height) <==> r is Ok,
        r matches Err(e) ==> e == (CompareError::DimensionsDiffer {
            ours_width: ours.width,
            ours_height: ours.height,
            reference_width: reference.width,
            reference_height: reference.height,
        }),
        r matches Ok(s) ==> stats_of(ours.data@, reference.data@, common_pixels(ours.data@, reference.data@), s),
{
    if ours.width != reference.width || ours.height != reference.height {
        return Err(CompareError::DimensionsDiffer {
            ours_width: ours.width,
            ours_height: ours.height,
            reference_width: reference.width,
            reference_height: reference.height,
        });
    }
    Ok(pixel_statistics(ours.data.as_slice(), reference.data.as_slice()))
}

/// Over the orange-ish pixels, the summed difference per channel is the
/// reference's channel sum less ours; and no more pixels are orange-ish than
/// were compared.
pub proof fn lemma_orange_delta_is_difference(ours: Seq<u8>, reference: Seq<u8>, n: nat, c: int)
    ensures
        orange_delta_total(ours, reference, n, c)
            == orange_channel_total(ours, reference, n, c) - orange_channel_total(ours, ours, n, c),
        orange_total(ours, n) <= n,
    decreases n,
{
    if n > 0 {
        lemma_orange_delta_is_difference(ours, reference, (n - 1) as nat, c);
    }
}

/// The summed difference over all pixels is the reference's channel sum less
/// ours.
pub proof fn lemma_delta_is_difference(ours: Seq<u8>, reference: Seq<u8>, n: nat, c: int)
    ensures
        delta_total(ours, reference, n, c) == channel_total(reference, n, c) - channel_total(ours, n, c),
    decreases n,
{
    if n > 0 {
        lemma_delta_is_difference(ours, reference, (n - 1) as nat, c);
    }
}

/// Sum of channel `c` over the first `n` pixels of `image`.
pub open spec fn channel_total(image: Seq<u8>, n: nat, c: int) -> int
    decreases n,
{
    if n == 0 { 0 } else { channel_total(image, (n - 1) as nat, c) + image[3 * (n - 1) + c] }
}

/// Of any two images compared, the statistics keep the per-channel orange
/// difference equal to the orange reference sum less the orange sum of ours,
/// and the orange count within the pixel count.
pub proof fn lemma_statistics_consistent(ours: Seq<u8>, reference: Seq<u8>, s: ComparisonStats)
    requires
        stats_of(ours, reference, common_pixels(ours, reference), s),
    ensures
        s.orange_count <= s.all_count,
        forall|c: int| 0 <= c < 3 ==> #[trigger] s.orange_delta[c] == s.orange_reference[c] - s.orange_ours[c],
{
    let n = common_pixels(ours, reference);
    assert forall|c: int| 0 <= c < 3 implies #[trigger] s.orange_delta[c] == s.orange_reference[c] - s.orange_ours[c] by {
        lemma_orange_delta_is_difference(ours, reference, n, c);
        assert(s.all_delta[c] == delta_total(ours, reference, n, c));
    }
    lemma_orange_delta_is_difference(ours, reference, n, 0);
}

/// Statistics of no pixels are all zero.
pub proof fn lemma_statistics_start(ours: Seq<u8>, reference: Seq<u8>, s: ComparisonStats)
    requires
        stats_of(ours, reference, 0, s),
    ensures
        s.all_count == 0,
        s.orange_count == 0,
        forall|c: int| 0 <= c < 3 ==> {
            &&& #[trigger] s.all_delta[c] == 0
            &&& s.orange_delta[c] == 0
            &&& s.orange_ours[c] == 0
            &&& s.orange_reference[c] == 0
        },
{
    assert forall|c: int| 0 <= c < 3 implies {
        &&& #[trigger] s.all_delta[c] == 0
        &&& s.orange_delta[c] == 0
        &&& s.orange_ours[c] == 0
        &&& s.orange_reference[c] == 0
    } by {
        assert(s.all_delta[c] == delta_total(ours, reference, 0, c));
        assert(delta_total(ours, reference, 0, c) == 0);
        assert(s.orange_delta[c] == orange_delta_total(ours, reference, 0, c));
        assert(s.orange_ours[c] == orange_channel_total(ours, ours, 0, c));
        assert(s.orange_reference[c] == orange_channel_total(ours, reference, 0, c));
    }
}

/// One more pixel pair, pixel `n` of each image, adds to the statistics that
/// pair alone: one to the count, reference minus ours to each channel's
/// delta; and, exactly when OUR pixel passes the orange-ish test (ratio tests
/// included), whatever the reference pixel is, one to the orange count, our
/// pixel to our orange sums, the reference pixel to the reference's orange
/// sums, and reference minus ours to the orange deltas. Otherwise the orange
/// figures stay as they were.
pub proof fn lemma_statistics_step(
    ours: Seq<u8>,
    reference: Seq<u8>,
    n: nat,
    s: ComparisonStats,
    t: ComparisonStats,
)
    requires
        3 * n + 3 <= ours.len(),
        3 * n + 3 <= reference.len(),
        stats_of(ours, reference, n, s),
        stats_of(ours, reference, n + 1, t),
    ensures
        t.all_count == s.all_count + 1,
        t.orange_count == s.orange_count + if orange(ours[3 * n as int], ours[3 * n as int + 1], ours[3 * n as int + 2]) { 1int } else { 0int },
        forall|c: int| 0 <= c < 3 ==> #[trigger] t.all_delta[c] == s.all_delta[c] + reference[3 * n as int + c] - ours[3 * n as int + c],
        forall|c: int| 0 <= c < 3 ==> #[trigger] t.orange_ours[c] == s.orange_ours[c]
            + if orange(ours[3 * n as int], ours[3 * n as int + 1], ours[3 * n as int + 2]) { ours[3 * n as int + c] as int } else { 0int },
        forall|c: int| 0 <= c < 3 ==> #[trigger] t.orange_reference[c] == s.orange_reference[c]
            + if orange(ours[3 * n as int], ours[3 * n as int + 1], ours[3 * n as int + 2]) { reference[3 * n as int + c] as int } else { 0int },
        forall|c: int| 0 <= c < 3 ==> #[trigger] t.orange_delta[c] == s.orange_delta[c]
            + if orange(ours[3 * n as int], ours[3 * n as int + 1], ours[3 * n as int + 2]) {
                reference[3 * n as int + c] - ours[3 * n as int + c]
            } else {
                0int
            },
{
    let k = 3 * n as int;
    let here = orange(ours[k], ours[k + 1], ours[k + 2]);
    assert forall|c: int| 0 <= c < 3 implies {
        &&& t.all_delta[c] == s.all_delta[c] + reference[k + c] - ours[k + c]
        &&& t.orange_ours[c] == s.orange_ours[c] + if here { ours[k + c] as int } else { 0int }
        &&& t.orange_reference[c] == s.orange_reference[c] + if here { reference[k + c] as int } else { 0int }
        &&& t.orange_delta[c] == s.orange_delta[c] + if here { reference[k + c] - ours[k + c] } else { 0int }
    } by {
        assert(s.all_delta[c] == delta_total(ours, reference, n, c));
        assert(t.all_delta[c] == delta_total(ours, reference, n + 1, c));
    }
}

/// Whether `rgb` is the 8-bit RGB data of a `width` x `height` image that the
/// `image` crate can decode from `bytes`, read from a file at `path` whose
/// extension names the format. The JPEG decoder's SIMD paths are picked at run
/// time, so this is a relation, not a function.
pub uninterp spec fn image_decodes(bytes: Seq<u8>, path: Seq<char>, width: u32, height: u32, rgb: Seq<u8>) -> bool;

/// `image::open(path)?.to_rgb8()` on the file's bytes, already read: the
/// format chosen from the extension of `path` (`ImageFormat::from_path`), the
/// bytes decoded in it (`image::load_from_memory_with_format`) and converted
/// to 8-bit RGB (`DynamicImage::to_rgb8`).
///
/// Claimed: a decoded image is one the crate can decode from these bytes for
/// this path, with three bytes per pixel. When decoding fails is not claimed:
/// that rests on the decoders of every format.
#[verifier::external_body]
fn decode_rgb8(bytes: &[u8], path: &str) -> (r: Result<RgbPixels, image::ImageError>)
    ensures
        r matches Ok(p) ==> p.data@.len() == 3 * p.width * p.height,
        r matches Ok(p) ==> image_decodes(bytes@, path@, p.width, p.height, p.data@),
{
    let format = ImageFormat::from_path(path)?;
    let rgb = image::load_from_memory_with_format(bytes, format)?.to_rgb8();
    Ok(RgbPixels { width: rgb.width(), height: rgb.height(), data: rgb.into_raw() })
}

/// Why two encoded images were not compared.
#[derive(Debug)]
pub enum CompareFailure {
    /// Our image was not decoded.
    Ours(image::ImageError),
    /// The reference image was not decoded; ours was.
    Reference(image::ImageError),
    /// Both were decoded, to images that cannot be compared.
    Pixels(CompareError),
}

/// Whether `bytes` read from `path` decode to some 8-bit RGB image.
pub open spec fn decodable(bytes: Seq<u8>, path: Seq<char>) -> bool {
    exists|w: u32, h: u32, rgb: Seq<u8>| #[trigger] image_decodes(bytes, path, w, h, rgb) && rgb.len() == 3 * w * h
}

/// Compares two encoded images, ours read from `ours_path` and the reference
/// from `reference_path`: ours is decoded first and its failure reported; then
/// the reference; then the decoded pixels are compared as [`compare`] does.
pub fn compare_encoded(
    ours: &[u8],
    ours_path: &str,
    reference: &[u8],
    reference_path: &str,
) -> (r: Result<ComparisonStats, CompareFailure>)
    ensures
        r matches Err(CompareFailure::Reference(_)) ==> decodable(ours@, ours_path@),
        r matches Err(CompareFailure::Pixels(e)) ==> exists|ow: u32, oh: u32, od: Seq<u8>, rw: u32, rh: u32, rd: Seq<u8>|
            #![trigger image_decodes(ours@, ours_path@, ow, oh, od), image_decodes(reference@, reference_path@, rw, rh, rd)]
            {
                &&& image_decodes(ours@, ours_path@, ow, oh, od) && od.len() == 3 * ow * oh
                &&& image_decodes(reference@, reference_path@, rw, rh, rd) && rd.len() == 3 * rw * rh
                &&& (ow != rw || oh != rh)
                &&& e == (CompareError::DimensionsDiffer {
                    ours_width: ow,
                    ours_height: oh,
                    reference_width: rw,
                    reference_height: rh,
                })
            },
        r matches Ok(s) ==> exists|ow: u32, oh: u32, od: Seq<u8>, rw: u32, rh: u32, rd: Seq<u8>|
            #![trigger image_decodes(ours@, ours_path@, ow, oh, od), image_decodes(reference@, reference_path@, rw, rh, rd)]
            {
                &&& image_decodes(ours@, ours_path@, ow, oh, od) && od.len() == 3 * ow * oh
                &&& image_decodes(reference@, reference_path@, rw, rh, rd) && rd.len() == 3 * rw * rh
                &&& ow == rw && oh == rh
                &&& stats_of(od, rd, common_pixels(od, rd), s)
            },
{
    let ours_pixels = match decode_rgb8(ours, ours_path) {
        Ok(p) => p,
        Err(e) => {
            return Err(CompareFailure::Ours(e));
        },
    };
    let reference_pixels = match decode_rgb8(reference, reference_path) {
        Ok(p) => p,
        Err(e) => {
            return Err(CompareFailure::Reference(e));
        },
    };
    match compare(&ours_pixels, &reference_pixels) {
        Ok(s) => Ok(s),
        Err(e) => Err(CompareFailure::Pixels(e)),
    }
}

} // verus!
