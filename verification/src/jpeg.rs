use vstd::prelude::*;

use mozjpeg_rs::{Encoder, Error, Preset, Subsampling};

use crate::render::RgbImage;

verus! {

#[verifier::external_type_specification]
#[verifier::external_body]
pub struct ExMozjpegError(mozjpeg_rs::Error);

/// Encoder presets.
#[derive(Debug, Clone, Copy, PartialEq, Eq, Structural)]
pub enum JpegPreset {
    BaselineFastest,
    BaselineBalanced,
    ProgressiveBalanced,
    ProgressiveSmallest,
}

/// Chroma subsampling modes.
#[derive(Debug, Clone, Copy, PartialEq, Eq, Structural)]
pub enum ChromaSubsampling {
    S444,
    S422,
    S420,
    S440,
    Gray,
}

/// Settings of the JPEG export.
#[derive(Debug, Clone, Copy, PartialEq, Eq, Structural)]
pub struct JpegSettings {
    pub preset: JpegPreset,
    pub quality: u8,
    pub subsampling: ChromaSubsampling,
}

/// Why the encoder refused an image: the two size errors told apart, any
/// other failure carried as the encoder reported it.
#[derive(Debug)]
pub enum EncodeFailure {
    /// A zero width or height, or a buffer size that does not fit in memory.
    InvalidDimensions { width: u32, height: u32 },
    /// The pixel buffer's length is not width x height x 3.
    BufferSizeMismatch { expected: usize, actual: usize },
    /// Any other failure, such as an allocation that failed.
    Other(mozjpeg_rs::Error),
}

/// Failure of the JPEG export.
#[derive(Debug)]
pub enum ExportError {
    /// The encoder refused the image.
    Encode(EncodeFailure),
}

/// The encoder's invalid-dimensions error for a `width` x `height` image.
pub open spec fn invalid_dimensions(width: u32, height: u32) -> EncodeFailure {
    EncodeFailure::InvalidDimensions { width, height }
}

/// The encoder's size-mismatch error for a buffer of `actual` bytes where
/// `expected` were due.
pub open spec fn size_mismatch(expected: int, actual: int) -> EncodeFailure {
    EncodeFailure::BufferSizeMismatch { expected: expected as usize, actual: actual as usize }
}

/// Whether `jpeg` is a file the encoder can produce from the 8-bit RGB pixels
/// `rgb` of a `width` x `height` image with the preset `preset`, quality
/// `quality`, chroma subsampling `subsampling` and embedded profile `icc`. The
/// encoder's output rests on the machine (its SIMD paths are picked at run
/// time), so this is a relation, not a function.
pub uninterp spec fn mozjpeg_encodes(rgb: Seq<u8>, width: u32, height: u32, preset: JpegPreset, quality: u8, subsampling: ChromaSubsampling, icc: Seq<u8>, jpeg: Seq<u8>) -> bool;

/// The export settings that match Nikon NX Studio: sequential baseline with all
/// optimisations, quality 95, no chroma subsampling.
pub open spec fn nx_like_settings() -> JpegSettings {
    JpegSettings { preset: JpegPreset::BaselineBalanced, quality: 95, subsampling: ChromaSubsampling::S444 }
}

/// Whether `bytes` opens with a JPEG start-of-image marker.
pub open spec fn starts_with_soi(bytes: Seq<u8>) -> bool {
    bytes.len() >= 2 && bytes[0] == 0xFFu8 && bytes[1] == 0xD8u8
}

/// Whether `s` begins with `prefix`.
pub open spec fn starts_with(s: Seq<u8>, prefix: Seq<u8>) -> bool {
    prefix.len() <= s.len() && s.subrange(0, prefix.len() as int) == prefix
}

/// `v` as two big-endian bytes.
pub open spec fn be16(v: int) -> Seq<u8> {
    seq![((v / 256) % 256) as u8, (v % 256) as u8]
}

/// The JFIF APP0 segment: version 1.01, 72 x 72 dots per inch, no thumbnail.
pub open spec fn jfif_app0() -> Seq<u8> {
    seq![
        0xFFu8, 0xE0u8, 0x00u8, 0x10u8, 0x4Au8, 0x46u8, 0x49u8, 0x46u8, 0x00u8,
        0x01u8, 0x01u8, 0x01u8, 0x00u8, 0x48u8, 0x00u8, 0x48u8, 0x00u8, 0x00u8,
    ]
}

/// The identifier `ICC_PROFILE` and its NUL, as ICC-carrying APP2 segments
/// begin.
pub open spec fn icc_identifier() -> Seq<u8> {
    seq![0x49u8, 0x43u8, 0x43u8, 0x5Fu8, 0x50u8, 0x52u8, 0x4Fu8, 0x46u8, 0x49u8, 0x4Cu8, 0x45u8, 0x00u8]
}

/// Most profile bytes one APP2 segment carries.
pub open spec fn icc_chunk_size() -> nat {
    65519
}

/// Number of APP2 segments a profile of `len` bytes takes.
pub open spec fn icc_chunk_count(len: nat) -> nat {
    ((len + icc_chunk_size() - 1) / (icc_chunk_size() as int)) as nat
}

/// Profile bytes carried by segment `k`.
pub open spec fn icc_chunk(icc: Seq<u8>, k: nat) -> Seq<u8> {
    let start = k * icc_chunk_size();
    let end = if (k + 1) * icc_chunk_size() < icc.len() { ((k + 1) * icc_chunk_size()) as int } else { icc.len() as int };
    icc.subrange(start as int, end)
}

/// APP2 segment `k` of `count` carrying the profile.
pub open spec fn icc_segment(icc: Seq<u8>, k: nat, count: nat) -> Seq<u8> {
    let chunk = icc_chunk(icc, k);
    seq![0xFFu8, 0xE2u8] + be16(16 + chunk.len() as int) + icc_identifier() + seq![(k + 1) as u8, count as u8] + chunk
}

/// The APP2 segments that carry the profile from segment `k` on.
pub open spec fn icc_segments_from(icc: Seq<u8>, k: nat) -> Seq<u8>
    decreases icc_chunk_count(icc.len()) - k,
{
    if k >= icc_chunk_count(icc.len()) {
        Seq::empty()
    } else {
        icc_segment(icc, k, icc_chunk_count(icc.len())) + icc_segments_from(icc, k + 1)
    }
}

/// The frame header of an 8-bit baseline three-component image with no chroma
/// subsampling: Y, Cb and Cr each sampled 1 x 1, Y on table 0, Cb and Cr on 1.
pub open spec fn baseline_444_frame(width: u32, height: u32) -> Seq<u8> {
    seq![0xFFu8, 0xC0u8, 0x00u8, 0x11u8, 0x08u8] + be16(height as int % 65536) + be16(width as int % 65536)
        + seq![0x03u8, 0x01u8, 0x11u8, 0x00u8, 0x02u8, 0x11u8, 0x01u8, 0x03u8, 0x11u8, 0x01u8]
}

/// The quantisation table of quality 95 in zig-zag order: the ImageMagick
/// table scaled to 10 %, used for luma and chroma alike.
pub open spec fn quality95_table() -> Seq<u8> {
    seq![
        2u8, 2u8, 2u8, 2u8, 2u8, 2u8, 2u8, 2u8, 2u8, 2u8, 3u8, 3u8, 2u8, 3u8, 3u8, 4u8,
        3u8, 3u8, 3u8, 3u8, 4u8, 6u8, 4u8, 4u8, 4u8, 4u8, 4u8, 6u8, 9u8, 5u8, 6u8, 5u8,
        5u8, 6u8, 5u8, 9u8, 8u8, 9u8, 7u8, 7u8, 7u8, 9u8, 8u8, 14u8, 11u8, 9u8, 9u8, 11u8,
        14u8, 16u8, 13u8, 12u8, 13u8, 16u8, 19u8, 17u8, 17u8, 19u8, 24u8, 23u8, 24u8, 31u8, 31u8, 42u8,
    ]
}

/// The quantisation-table segment of the NX-like export: both 8-bit tables of
/// quality 95, luma in slot 0 and chroma in slot 1.
pub open spec fn quality95_dqt() -> Seq<u8> {
    seq![0xFFu8, 0xDBu8, 0x00u8, 0x84u8, 0x00u8] + quality95_table() + seq![0x01u8] + quality95_table()
}

/// Whether `jpeg` opens as an NX-like export of a `width` x `height` image
/// with the embedded profile `icc`: start of image, the JFIF segment, the
/// profile's APP2 segments, the quality-95 quantisation tables, and the
/// baseline 4:4:4 frame header.
pub open spec fn nx_like_jpeg_head(jpeg: Seq<u8>, width: u32, height: u32, icc: Seq<u8>) -> bool {
    starts_with(
        jpeg,
        seq![0xFFu8, 0xD8u8] + jfif_app0() + icc_segments_from(icc, 0) + quality95_dqt()
            + baseline_444_frame(width, height),
    )
}

/// `mozjpeg_rs::Encoder::new(preset).quality(q).subsampling(s).icc_profile(icc).encode_rgb(rgb, w, h)`,
/// one encoder set up and used, its error told apart by variant.
///
/// Claimed, as the crate's source shows (no resource limits are set by any
/// preset): a zero width or height is refused as invalid dimensions; so is a
/// buffer size width x height x 3 beyond `usize`; otherwise a buffer of
/// another length is refused as a size mismatch; a valid image can still
/// fail, but with neither of these two errors. A profile that needs more
/// than 255 segments is refused. A produced file is one the encoder can
/// produce from these pixels, size, quality and profile; it starts with the
/// start-of-image marker; with the NX-like settings it opens with the JFIF
/// segment, the profile's APP2 segments, the quality-95 quantisation tables
/// and the baseline 4:4:4 frame header for the image's size. Success on valid
/// input is not claimed (the encoder can fail to allocate), nor the Huffman
/// tables or the coded data, which rest on code whose results may vary
/// between machines.
#[verifier::external_body]
fn mozjpeg_encode_rgb(
    rgb: &[u8],
    width: u32,
    height: u32,
    settings: JpegSettings,
    icc_profile: Vec<u8>,
) -> (r: Result<Vec<u8>, EncodeFailure>)
    ensures
        width == 0 || height == 0 ==> r is Err && r->Err_0 == invalid_dimensions(width, height),
        width > 0 && height > 0 && width * height * 3 > usize::MAX ==> r is Err && r->Err_0 == invalid_dimensions(width, height),
        width > 0 && height > 0 && width * height * 3 <= usize::MAX && rgb@.len() != width * height * 3 ==> r is Err && r->Err_0 == size_mismatch(width * height * 3, rgb@.len() as int),
        width > 0 && height > 0 && rgb@.len() == width * height * 3 && r is Err ==> r->Err_0 is Other,
        r matches Ok(jpeg) ==> mozjpeg_encodes(rgb@, width, height, settings.preset, settings.quality, settings.subsampling, icc_profile@, jpeg@),
        r matches Ok(jpeg) ==> starts_with_soi(jpeg@),
        r is Ok ==> icc_chunk_count(icc_profile@.len()) <= 255,
        settings == nx_like_settings() && r is Ok ==> nx_like_jpeg_head(r.unwrap()@, width, height, icc_profile@),
{
    let preset = match settings.preset {
        JpegPreset::BaselineFastest => Preset::BaselineFastest, JpegPreset::BaselineBalanced => Preset::BaselineBalanced,
        JpegPreset::ProgressiveBalanced => Preset::ProgressiveBalanced, JpegPreset::ProgressiveSmallest => Preset::ProgressiveSmallest,
    };
    let subsampling = match settings.subsampling {
        ChromaSubsampling::S444 => Subsampling::S444, ChromaSubsampling::S422 => Subsampling::S422,
        ChromaSubsampling::S420 => Subsampling::S420, ChromaSubsampling::S440 => Subsampling::S440,
        ChromaSubsampling::Gray => Subsampling::Gray,
    };
    let encoder = Encoder::new(preset).quality(settings.quality).subsampling(subsampling).icc_profile(icc_profile);
    match encoder.encode_rgb(rgb, width, height) {
        Err(Error::InvalidDimensions { width, height }) => Err(EncodeFailure::InvalidDimensions { width, height }),
        Err(Error::BufferSizeMismatch { expected, actual }) => Err(EncodeFailure::BufferSizeMismatch { expected, actual }),
        encoded => encoded.map_err(EncodeFailure::Other),
    }
}

/// The export settings that match Nikon NX Studio.
pub fn nx_like_jpeg_settings() -> (s: JpegSettings)
    ensures
        s == nx_like_settings(),
{
    JpegSettings { preset: JpegPreset::BaselineBalanced, quality: 95, subsampling: ChromaSubsampling::S444 }
}

/// Encodes a rendering as a JPEG with the NX-like settings (sequential
/// baseline, quality 95, 4:4:4), embedding `icc_profile`: the encoder is
/// handed the image's pixels and size. An image with no pixels, or whose
/// data is not three bytes per pixel, is refused with the encoder's size
/// error; a valid image fails only with another encoder failure. A produced
/// file is the encoder's file for these pixels, and opens with the JFIF
/// segment, the profile's segments, the quality-95 quantisation tables and
/// the baseline 4:4:4 frame header for the image's size.
pub fn encode_jpeg(image: &RgbImage, icc_profile: Vec<u8>) -> (r: Result<Vec<u8>, ExportError>)
    ensures
        ({
            let w = image.info.width;
            let h = image.info.height;
            let len = image.data@.len();
            &&& w == 0 || h == 0 ==> (r matches Err(ExportError::Encode(e))
                && e == (EncodeFailure::InvalidDimensions { width: w, height: h }))
            &&& w > 0 && h > 0 && w * h * 3 > usize::MAX ==> (r matches Err(ExportError::Encode(e))
                && e == (EncodeFailure::InvalidDimensions { width: w, height: h }))
            &&& w > 0 && h > 0 && w * h * 3 <= usize::MAX && len != w * h * 3 ==> (
                r matches Err(ExportError::Encode(e)) && e == (EncodeFailure::BufferSizeMismatch {
                    expected: (w * h * 3) as usize,
                    actual: len as usize,
                }))
            &&& w > 0 && h > 0 && len == w * h * 3 ==> (r matches Err(ExportError::Encode(e)) ==> e is Other)
            &&& r matches Ok(jpeg) ==> mozjpeg_encodes(
                image.data@, w, h, JpegPreset::BaselineBalanced, 95, ChromaSubsampling::S444, icc_profile@, jpeg@)
            &&& r matches Ok(jpeg) ==> starts_with_soi(jpeg@)
            &&& r is Ok ==> icc_chunk_count(icc_profile@.len()) <= 255
            &&& r is Ok ==> nx_like_jpeg_head(r.unwrap()@, w, h, icc_profile@)
        }),
{
    let settings = nx_like_jpeg_settings();
    export_result(mozjpeg_encode_rgb(image.data.as_slice(), image.info.width, image.info.height, settings, icc_profile))
}

/// The export's result for what the encoder returned: its file, or its
/// failure as an encoding error.
pub fn export_result(encoded: Result<Vec<u8>, EncodeFailure>) -> (r: Result<Vec<u8>, ExportError>)
    ensures
        encoded is Ok <==> r is Ok,
        encoded matches Ok(jpeg) ==> (r matches Ok(out) && out@ == jpeg@),
        encoded matches Err(e) ==> (r matches Err(ExportError::Encode(x)) && x == e),
{
    match encoded {
        Ok(jpeg) => Ok(jpeg),
        Err(e) => Err(ExportError::Encode(e)),
    }
}

} // verus!
