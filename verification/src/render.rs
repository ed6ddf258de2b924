use vstd::prelude::*;

use crate::error::{NikonError, SdkOperation};
use crate::params::F64Bits;
use crate::protocol::{NikonSession, QueryStep, SessionQuery};

verus! {

/// Largest extent the SDK's 16-bit image rectangle can describe.
pub const MAX_RECT_EXTENT: u32 = 32767;

/// Colour channels per rendered pixel.
pub const CHANNEL_COUNT: u64 = 3;

/// What the SDK reports of the developed image.
///
/// The resolution is carried as the bit pattern of the SDK's double.
#[derive(Debug, Clone, Copy, PartialEq, Eq, Structural)]
pub struct ImageInfo {
    pub width: u32,
    pub height: u32,
    pub byte_depth: u32,
    pub color: u64,
    pub orientation: u64,
    pub resolution: F64Bits,
}

/// The SDK's answer to an image-info query: its result code and the numbers
/// it reports, each as wide as the SDK's `unsigned long`.
#[derive(Debug, Clone, Copy, PartialEq, Eq, Structural)]
pub struct ImageInfoReply {
    pub code: u64,
    pub width: u64,
    pub height: u64,
    pub byte_depth: u64,
    pub color: u64,
    pub orientation: u64,
    pub resolution: F64Bits,
}

/// An 8-bit RGB rendering: three bytes per pixel, row by row.
#[derive(Debug)]
pub struct RgbImage {
    pub info: ImageInfo,
    pub data: Vec<u8>,
}

/// The SDK's answer to an image-data query: its result code and the buffer
/// it filled.
#[derive(Debug)]
pub struct ImageDataReply {
    pub code: u64,
    pub data: Vec<u8>,
}

/// The arguments of an image-data request.
#[derive(Debug, Clone, Copy, PartialEq, Eq, Structural)]
pub struct RenderRequest {
    pub top: i16,
    pub left: i16,
    pub bottom: i16,
    pub right: i16,
    /// Size in bytes of the buffer the SDK fills.
    pub data_size: u64,
}

/// Bytes of the buffer that holds the SDK's rendering of `info`.
pub open spec fn render_byte_count(info: ImageInfo) -> int {
    info.width * info.height * CHANNEL_COUNT * info.byte_depth
}

/// Whether `info` is too large for the SDK's rectangle.
pub open spec fn exceeds_rect(info: ImageInfo) -> bool {
    info.width > MAX_RECT_EXTENT || info.height > MAX_RECT_EXTENT
}

/// The image info an image-info reply describes; the dimensions and the depth
/// cut to 32 bits as a cast does.
pub open spec fn reply_info(reply: ImageInfoReply) -> ImageInfo {
    ImageInfo {
        width: reply.width as u32,
        height: reply.height as u32,
        byte_depth: reply.byte_depth as u32,
        color: reply.color,
        orientation: reply.orientation,
        resolution: reply.resolution,
    }
}

/// The request for the whole of an image that fits the rectangle.
pub open spec fn whole_image_request(info: ImageInfo) -> RenderRequest {
    RenderRequest {
        top: 0,
        left: 0,
        bottom: info.height as i16,
        right: info.width as i16,
        data_size: render_byte_count(info) as u64,
    }
}

/// One byte per two-byte sample: byte `high` of each complete pair; a trailing
/// odd byte is dropped.
pub open spec fn narrowed(raw: Seq<u8>, high: int) -> Seq<u8> {
    Seq::new(raw.len() / 2, |i: int| raw[2 * i + high])
}

/// The 8-bit data for `info` made from the SDK's samples `raw`, whose most
/// significant byte is byte `high` of a two-byte sample; none for a depth
/// other than one or two bytes.
pub open spec fn rgb8_data(info: ImageInfo, raw: Seq<u8>, high: int) -> Option<Seq<u8>> {
    if info.byte_depth == 1 {
        Some(raw)
    } else if info.byte_depth == 2 {
        Some(narrowed(raw, high))
    } else {
        None
    }
}

fn info_from_reply(reply: &ImageInfoReply) -> (info: ImageInfo)
    ensures
        info == reply_info(*reply),
{
    ImageInfo {
        width: reply.width as u32,
        height: reply.height as u32,
        byte_depth: reply.byte_depth as u32,
        color: reply.color,
        orientation: reply.orientation,
        resolution: reply.resolution,
    }
}

proof fn lemma_byte_count_fits(w: u32, h: u32, d: u32)
    requires
        w <= MAX_RECT_EXTENT,
        h <= MAX_RECT_EXTENT,
    ensures
        w * h * 3 * d <= u64::MAX,
        w * h <= 32767 * 32767,
        w * h * 3 <= 32767 * 32767 * 3,
{
    assert(w * h <= 32767 * 32767) by (nonlinear_arith)
        requires w <= 32767, h <= 32767;
    assert(w * h * 3 * d <= 32767 * 32767 * 3 * 4294967295) by (nonlinear_arith)
        requires w * h <= 32767 * 32767, d <= 4294967295;
}

/// The request for the pixel data of `info`: the whole image, in a buffer of
/// width x height x 3 x byte-depth bytes. Fails when a dimension exceeds the
/// SDK's rectangle.
pub fn render_request(info: &ImageInfo) -> (r: Result<RenderRequest, NikonError>)
    ensures
        exceeds_rect(*info) <==> r is Err,
        r matches Err(e) ==> e == (NikonError::ImageTooLarge {
            width: info.width as u64,
            height: info.height as u64,
        }),
        r matches Ok(req) ==> {
            &&& req == whole_image_request(*info)
            &&& req.bottom == info.height && req.right == info.width
            &&& req.data_size == render_byte_count(*info)
        },
{
    if info.width > MAX_RECT_EXTENT || info.height > MAX_RECT_EXTENT {
        return Err(NikonError::ImageTooLarge { width: info.width as u64, height: info.height as u64 });
    }
    proof { lemma_byte_count_fits(info.width, info.height, info.byte_depth); }
    let data_size: u64 = info.width as u64 * info.height as u64 * CHANNEL_COUNT * info.byte_depth as u64;
    Ok(RenderRequest {
        top: 0,
        left: 0,
        bottom: info.height as i16,
        right: info.width as i16,
        data_size,
    })
}

/// Keeps byte `high` of every complete two-byte sample of `raw`.
pub fn narrow_samples(raw: &[u8], high: usize) -> (out: Vec<u8>)
    requires
        high < 2,
    ensures
        out@ == narrowed(raw@, high as int),
{
    let len: usize = raw.len();
    let count: usize = len / 2;
    let mut out: Vec<u8> = Vec::with_capacity(count);
    let mut i: usize = 0;
    while i < count
        invariant
            high < 2,
            len == raw@.len(),
            count == len / 2,
            2 * count <= len,
            i <= count,
            out@.len() == i,
            forall|k: int| 0 <= k < i ==> out@[k] == raw@[2 * k + high],
        decreases count - i,
    {
        out.push(raw[2 * i + high]);
        i = i + 1;
    }
    assert(out@ =~= narrowed(raw@, high as int));
    out
}

/// `u16::from_ne_bytes`: the two bytes read in the machine's byte order.
///
/// The contract claims only that the value is the little-endian or the
/// big-endian reading of the pair; which one is left open, as it depends on
/// the machine.
#[verifier::external_body]
fn u16_from_ne_bytes(bytes: [u8; 2]) -> (r: u16)
    ensures
        r == bytes[0] + 256 * bytes[1] || r == 256 * bytes[0] + bytes[1],
{
    u16::from_ne_bytes(bytes)
}

/// Index, within a native-order two-byte sample, of its most significant byte.
pub fn native_high_byte_index() -> (high: usize)
    ensures
        high < 2,
{
    let probe = u16_from_ne_bytes([0u8, 1u8]);
    high_byte_index(probe)
}

/// Index of the most significant byte of a two-byte sample, given how the
/// machine reads the bytes `[0, 1]`: 256 means little-endian (the high byte
/// comes second), anything else big-endian (it comes first).
pub fn high_byte_index(probe: u16) -> (high: usize)
    ensures
        high == if probe == 256 { 1usize } else { 0usize },
{
    if probe == 256 { 1 } else { 0 }
}

/// The 8-bit rendering for `info` from the SDK's samples `raw`: kept as they
/// are for one byte per sample, cut to byte `high` (the most significant one)
/// of each two-byte sample for two; any other depth is refused.
pub fn rgb8_from_samples(info: ImageInfo, raw: Vec<u8>, high: usize) -> (r: Result<RgbImage, NikonError>)
    requires
        high < 2,
    ensures
        rgb8_data(info, raw@, high as int) is Some <==> r is Ok,
        r matches Err(e) ==> e == NikonError::UnsupportedByteDepth(info.byte_depth as u64),
        r matches Ok(img) ==> img.info == info && Some(img.data@) == rgb8_data(info, raw@, high as int),
        raw@.len() == render_byte_count(info) ==> (r matches Ok(img)
            ==> img.data@.len() == info.width * info.height * CHANNEL_COUNT),
{
    if info.byte_depth == 1 {
        assert(render_byte_count(info) == info.width * info.height * CHANNEL_COUNT) by (nonlinear_arith)
            requires info.byte_depth == 1;
        Ok(RgbImage { info, data: raw })
    } else if info.byte_depth == 2 {
        let data = narrow_samples(raw.as_slice(), high);
        assert(render_byte_count(info) == (info.width * info.height * CHANNEL_COUNT) * 2) by (nonlinear_arith)
            requires info.byte_depth == 2;
        Ok(RgbImage { info, data })
    } else {
        Err(NikonError::UnsupportedByteDepth(info.byte_depth as u64))
    }
}

impl<'library> NikonSession<'library> {
    /// Next step of reading the image info: query it, then take the reply;
    /// a failing query ends it with the image-info error.
    pub fn image_info(&self, reply: Option<ImageInfoReply>) -> (step: QueryStep<ImageInfo>)
        ensures
            reply is None ==> (step matches QueryStep::Query(q)
                && q == (SessionQuery::GetImageInfo { session_id: self.id() })),
            reply matches Some(i) ==> (step matches QueryStep::Done(result) && (
                if i.code != self.library().success() {
                    result == Err::<ImageInfo, NikonError>(
                        NikonError::Sdk { operation: SdkOperation::GetImageInfo, code: i.code },
                    )
                } else {
                    result == Ok::<ImageInfo, NikonError>(reply_info(i))
                })),
    {
        match reply {
            None => QueryStep::Query(SessionQuery::GetImageInfo { session_id: self.session_id() }),
            Some(i) => match self.opened_on().check(SdkOperation::GetImageInfo, i.code) {
                Err(e) => QueryStep::Done(Err(e)),
                Ok(()) => QueryStep::Done(Ok(info_from_reply(&i))),
            },
        }
    }

    /// Next step of rendering the session's image as 8-bit RGB: query the
    /// image info; refuse an image beyond the SDK's rectangle; query the
    /// whole image's data; and make the 8-bit data, keeping byte `high` of a
    /// two-byte sample. A failing query ends it with that query's error.
    pub fn render_rgb8(
        &self,
        info_reply: Option<ImageInfoReply>,
        data_reply: Option<ImageDataReply>,
        high: usize,
    ) -> (step: QueryStep<RgbImage>)
        requires
            high < 2,
        ensures
            ({
                let ok = self.library().success();
                let i = info_reply.unwrap();
                let info = reply_info(i);
                let d = data_reply.unwrap();
                &&& info_reply is None ==> (step matches QueryStep::Query(q)
                    && q == (SessionQuery::GetImageInfo { session_id: self.id() }))
                &&& info_reply is Some && i.code != ok ==> (step matches QueryStep::Done(Err(e))
                    && e == (NikonError::Sdk { operation: SdkOperation::GetImageInfo, code: i.code }))
                &&& info_reply is Some && i.code == ok && exceeds_rect(info) ==> (
                    step matches QueryStep::Done(Err(e))
                    && e == (NikonError::ImageTooLarge { width: info.width as u64, height: info.height as u64 }))
                &&& info_reply is Some && i.code == ok && !exceeds_rect(info) && data_reply is None ==> (
                    step matches QueryStep::Query(q) && q == (SessionQuery::GetImageData {
                        session_id: self.id(),
                        image_id: 0,
                        request: whole_image_request(info),
                    }))
                &&& info_reply is Some && i.code == ok && !exceeds_rect(info) && data_reply is Some
                    && d.code != ok ==> (step matches QueryStep::Done(Err(e))
                    && e == (NikonError::Sdk { operation: SdkOperation::GetImageData, code: d.code }))
                &&& info_reply is Some && i.code == ok && !exceeds_rect(info) && data_reply is Some
                    && d.code == ok && rgb8_data(info, d.data@, high as int) is None ==> (
                    step matches QueryStep::Done(Err(e))
                    && e == NikonError::UnsupportedByteDepth(info.byte_depth as u64))
                &&& info_reply is Some && i.code == ok && !exceeds_rect(info) && data_reply is Some
                    && d.code == ok && rgb8_data(info, d.data@, high as int) is Some ==> (
                    step matches QueryStep::Done(Ok(img)) && img.info == info
                    && img.data@ == rgb8_data(info, d.data@, high as int).unwrap()
                    && (d.data@.len() == whole_image_request(info).data_size
                        ==> img.data@.len() == info.width * info.height * 3))
            }),
    {
        let info = match self.image_info(info_reply) {
            QueryStep::Query(q) => {
                return QueryStep::Query(q);
            },
            QueryStep::Done(Err(e)) => {
                return QueryStep::Done(Err(e));
            },
            QueryStep::Done(Ok(info)) => info,
        };
        let request = match render_request(&info) {
            Err(e) => {
                return QueryStep::Done(Err(e));
            },
            Ok(request) => request,
        };
        match data_reply {
            None => QueryStep::Query(SessionQuery::GetImageData {
                session_id: self.session_id(),
                image_id: 0,
                request,
            }),
            Some(d) => match self.opened_on().check(SdkOperation::GetImageData, d.code) {
                Err(e) => QueryStep::Done(Err(e)),
                Ok(()) => QueryStep::Done(rgb8_from_samples(info, d.data, high)),
            },
        }
    }
}

} // verus!
