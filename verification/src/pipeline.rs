//! Image pipeline: from an inline image payload to the bitmaps a device
//! takes, one per tile.

use crate::registry::{
    DeviceProfile, ImageFormat, ImageMirroring, ImageMode, ImageRotation, LogicalPosition,
};
use vstd::prelude::*;
use vstd::string::StrSliceExecFns;

verus! {

#[derive(Debug, Clone, Copy, PartialEq, Eq, Structural)]
pub enum ImageError {
    /// The payload is no data URL, or its body does not decode.
    BadPayload,
    /// The payload's media subtype is neither `jpeg` nor `png`.
    UnsupportedFormat,
    /// The image has no pixels.
    EmptyImage,
}

#[derive(Debug, Clone, Copy, PartialEq, Eq, Structural)]
pub enum Codec {
    Jpeg,
    Png,
}

/// A picture as a plain value: its pixel size and its bytes. For a decoded
/// picture the bytes are RGB, row by row; for a bitmap they are the encoded
/// stream.
pub ghost struct Raster {
    pub width: nat,
    pub height: nat,
    pub bytes: Seq<u8>,
}

/// A decoded picture: 8-bit RGB, row-major, three bytes per pixel.
#[derive(Debug, Clone)]
pub struct DecodedImage {
    width: u32,
    height: u32,
    pixels: Vec<u8>,
}

/// A bitmap in the encoding a tile takes, with the pixel size it encodes.
#[derive(Debug, Clone)]
pub struct NativeBitmap {
    pub width: u32,
    pub height: u32,
    pub data: Vec<u8>,
}

impl View for NativeBitmap {
    type V = Raster;

    open spec fn view(&self) -> Raster {
        Raster { width: self.width as nat, height: self.height as nat, bytes: self.data@ }
    }
}

impl View for DecodedImage {
    type V = Raster;

    closed spec fn view(&self) -> Raster {
        Raster { width: self.width as nat, height: self.height as nat, bytes: self.pixels@ }
    }
}

/// The media subtype that `data_url::DataUrl::process` followed by
/// `mime_type` reads from a payload, in lower case; `None` where the payload
/// is no data URL.
pub uninterp spec fn media_subtype(payload: Seq<char>) -> Option<Seq<char>>;

/// The body that `data_url::DataUrl::decode_to_vec` yields for a payload;
/// `None` where the payload is no data URL or its body does not decode.
pub uninterp spec fn media_body(payload: Seq<char>) -> Option<Seq<u8>>;

/// What `image::load_from_memory_with_format` decodes from `body`, converted
/// to 8-bit RGB: width, height and bytes; `None` where decoding fails.
pub uninterp spec fn decoded_raster(body: Seq<u8>, png: bool) -> Option<(u32, u32, Seq<u8>)>;

/// The RGB bytes that `image::imageops::resize` with the Lanczos3 filter
/// gives for a raster and a new size.
pub uninterp spec fn resampled(
    width: u32,
    height: u32,
    pixels: Seq<u8>,
    new_width: u32,
    new_height: u32,
) -> Seq<u8>;

/// The JPEG stream that `image::codecs::jpeg::JpegEncoder` writes at quality
/// 90 for RGB bytes of the given size; `None` where the encoder fails.
pub uninterp spec fn jpeg_encoding(pixels: Seq<u8>, width: u32, height: u32) -> Option<Seq<u8>>;

/// Calls `data_url::DataUrl::process` and reads the subtype of
/// `mime_type()`. Trusted: the result is the named `media_subtype` of the
/// payload.
#[verifier::external_body]
fn data_url_subtype(payload: &str) -> (subtype: Option<String>)
    ensures
        match subtype {
            Some(s) => media_subtype(payload@) == Some(s@),
            None => media_subtype(payload@) is None,
        },
{
    match data_url::DataUrl::process(payload) {
        Ok(url) => Some(url.mime_type().subtype.clone()),
        Err(_) => None,
    }
}

/// Calls `data_url::DataUrl::decode_to_vec` on the processed payload.
/// Trusted: the result is the named `media_body` of the payload.
#[verifier::external_body]
fn data_url_body(payload: &str) -> (body: Option<Vec<u8>>)
    ensures
        match body {
            Some(b) => media_body(payload@) == Some(b@),
            None => media_body(payload@) is None,
        },
{
    match data_url::DataUrl::process(payload) {
        Ok(url) => match url.decode_to_vec() {
            Ok((body, _)) => Some(body),
            Err(_) => None,
        },
        Err(_) => None,
    }
}

/// Calls `image::load_from_memory_with_format` and converts the picture to
/// 8-bit RGB. Trusted: the result is the named `decoded_raster` of the body
/// and codec.
#[verifier::external_body]
fn decode_raster(body: &[u8], codec: Codec) -> (raster: Option<(u32, u32, Vec<u8>)>)
    ensures
        match raster {
            Some(r) => decoded_raster(body@, codec is Png) == Some((r.0, r.1, r.2@)),
            None => decoded_raster(body@, codec is Png) is None,
        },
{
    let format = match codec {
        Codec::Jpeg => image::ImageFormat::Jpeg,
        Codec::Png => image::ImageFormat::Png,
    };
    match image::load_from_memory_with_format(body, format) {
        Ok(picture) => {
            let rgb = picture.into_rgb8();
            Some((rgb.width(), rgb.height(), rgb.into_raw()))
        },
        Err(_) => None,
    }
}

/// Calls `image::imageops::resize` with the Lanczos3 filter on an RGB
/// raster. Trusted: the result is the named `resampled` raster, and it holds
/// three bytes for each pixel of the new size.
#[verifier::external_body]
fn resample(width: u32, height: u32, pixels: &[u8], new_width: u32, new_height: u32) -> (out: Vec<
    u8,
>)
    requires
        width > 0,
        height > 0,
        pixels@.len() == 3 * (width * height),
        0 < new_width <= 4096,
        0 < new_height <= 4096,
    ensures
        out@ == resampled(width, height, pixels@, new_width, new_height),
        out@.len() == 3 * (new_width * new_height),
{
    let source = image::ImageBuffer::<image::Rgb<u8>, &[u8]>::from_raw(width, height, pixels)
        .unwrap();
    image::imageops::resize(&source, new_width, new_height, image::imageops::FilterType::Lanczos3)
        .into_raw()
}

/// Calls `image::codecs::jpeg::JpegEncoder::encode` at quality 90 on RGB
/// bytes, writing into a vector. Trusted: the result is the named
/// `jpeg_encoding`, and there is one for every size from 1 to 65535 each
/// way: the encoder refuses other sizes, and besides that fails only where
/// its writer fails or an ICC profile is too large, and this call writes to
/// a vector and sets no profile.
#[verifier::external_body]
fn encode_jpeg(pixels: &[u8], width: u32, height: u32) -> (data: Option<Vec<u8>>)
    requires
        pixels@.len() == 3 * (width * height),
    ensures
        match data {
            Some(d) => jpeg_encoding(pixels@, width, height) == Some(d@),
            None => jpeg_encoding(pixels@, width, height) is None,
        },
        0 < width <= 0xFFFF && 0 < height <= 0xFFFF ==> data is Some,
{
    let mut data: Vec<u8> = Vec::new();
    let outcome = image::codecs::jpeg::JpegEncoder::new_with_quality(&mut data, 90).encode(
        pixels,
        width,
        height,
        image::ExtendedColorType::Rgb8,
    );
    match outcome {
        Ok(()) => Some(data),
        Err(_) => None,
    }
}

/// Whether two strings hold the same characters.
pub fn same_text(a: &str, b: &str) -> (same: bool)
    ensures
        same == (a@ == b@),
{
    let n = a.unicode_len();
    if n != b.unicode_len() {
        return false;
    }
    let mut i: usize = 0;
    while i < n
        invariant
            n == a@.len(),
            n == b@.len(),
            i <= n,
            forall|k: int| 0 <= k < i ==> a@[k] == b@[k],
        decreases n - i,
    {
        if a.get_char(i) != b.get_char(i) {
            return false;
        }
        i += 1;
    }
    assert(a@ =~= b@);
    true
}

pub open spec fn spec_codec_for(subtype: Seq<char>) -> Result<Codec, ImageError> {
    if subtype == "jpeg"@ {
        Ok(Codec::Jpeg)
    } else if subtype == "png"@ {
        Ok(Codec::Png)
    } else {
        Err(ImageError::UnsupportedFormat)
    }
}

/// The codec for a media subtype: only `jpeg` and `png` are taken.
pub fn codec_for(subtype: &str) -> (codec: Result<Codec, ImageError>)
    ensures
        codec == spec_codec_for(subtype@),
{
    if same_text(subtype, "jpeg") {
        Ok(Codec::Jpeg)
    } else if same_text(subtype, "png") {
        Ok(Codec::Png)
    } else {
        Err(ImageError::UnsupportedFormat)
    }
}

/// What a raster of the given size and bytes is admitted as.
pub open spec fn spec_admit(width: u32, height: u32, pixels: Seq<u8>) -> Result<
    Raster,
    ImageError,
> {
    if width == 0 || height == 0 {
        Err(ImageError::EmptyImage)
    } else if pixels.len() != 3 * (width * height) {
        Err(ImageError::BadPayload)
    } else {
        Ok(Raster { width: width as nat, height: height as nat, bytes: pixels })
    }
}

/// What a decoder's outcome is admitted as: a failed decode is a bad
/// payload.
pub open spec fn spec_admit_decoded(decoded: Option<(u32, u32, Seq<u8>)>) -> Result<
    Raster,
    ImageError,
> {
    match decoded {
        Some((width, height, pixels)) => spec_admit(width, height, pixels),
        None => Err(ImageError::BadPayload),
    }
}

/// The outcome of preparing a payload, over what the data URL parser and
/// the image decoder yield for it.
pub open spec fn spec_prepare(payload: Seq<char>) -> Result<Raster, ImageError> {
    match (media_subtype(payload), media_body(payload)) {
        (Some(subtype), Some(body)) => match spec_codec_for(subtype) {
            Ok(codec) => spec_admit_decoded(decoded_raster(body, codec is Png)),
            Err(e) => Err(e),
        },
        _ => Err(ImageError::BadPayload),
    }
}

pub open spec fn same_outcome(got: Result<DecodedImage, ImageError>, want: Result<
    Raster,
    ImageError,
>) -> bool {
    match got {
        Ok(image) => image.wf() && want == Ok::<Raster, ImageError>(image@),
        Err(e) => want == Err::<Raster, ImageError>(e),
    }
}

impl DecodedImage {
    /// The picture has pixels, and three bytes for each.
    pub closed spec fn wf(&self) -> bool {
        &&& self.width > 0
        &&& self.height > 0
        &&& self.pixels@.len() == 3 * (self.width * self.height)
    }

    /// What a well-formed picture is known to hold, over its view.
    pub proof fn lemma_wf(&self)
        requires
            self.wf(),
        ensures
            self@.width > 0,
            self@.height > 0,
            self@.width <= u32::MAX,
            self@.height <= u32::MAX,
            self@.bytes.len() == 3 * (self@.width * self@.height),
    {
    }

    /// Admits RGB bytes as a picture: a picture without area is rejected as
    /// empty, bytes that do not match the size as a bad payload.
    pub fn from_rgb(width: u32, height: u32, pixels: Vec<u8>) -> (image: Result<
        DecodedImage,
        ImageError,
    >)
        ensures
            same_outcome(image, spec_admit(width, height, pixels@)),
    {
        if width == 0 || height == 0 {
            return Err(ImageError::EmptyImage);
        }
        assert(width * height <= 0xFFFF_FFFE_0000_0001) by (nonlinear_arith)
            requires
                width <= 0xFFFF_FFFF,
                height <= 0xFFFF_FFFF,
        ;
        let area: u64 = width as u64 * height as u64;
        let wanted: u128 = 3 * (area as u128);
        if pixels.len() as u128 != wanted {
            return Err(ImageError::BadPayload);
        }
        Ok(DecodedImage { width, height, pixels })
    }

    pub fn width(&self) -> (w: u32)
        ensures
            w == self@.width,
    {
        self.width
    }

    pub fn height(&self) -> (h: u32)
        ensures
            h == self@.height,
    {
        self.height
    }

    /// The RGB bytes, row by row.
    pub fn pixels(&self) -> (p: &Vec<u8>)
        ensures
            p@ == self@.bytes,
    {
        &self.pixels
    }
}

/// Admits what the decoder yielded for a payload's body.
pub fn admit_decoded(decoded: Option<(u32, u32, Vec<u8>)>) -> (image: Result<
    DecodedImage,
    ImageError,
>)
    ensures
        same_outcome(
            image,
            spec_admit_decoded(
                match decoded {
                    Some(r) => Some((r.0, r.1, r.2@)),
                    None => None,
                },
            ),
        ),
{
    match decoded {
        Some((width, height, pixels)) => DecodedImage::from_rgb(width, height, pixels),
        None => Err(ImageError::BadPayload),
    }
}

/// Decodes an inline image payload. A payload that is no data URL, or whose
/// body does not decode, is a bad payload; a media subtype other than
/// `jpeg` or `png` is unsupported; a picture without area is empty.
pub fn prepare(payload: &str) -> (image: Result<DecodedImage, ImageError>)
    ensures
        same_outcome(image, spec_prepare(payload@)),
{
    let subtype = match data_url_subtype(payload) {
        Some(s) => s,
        None => {
            return Err(ImageError::BadPayload);
        },
    };
    let body = match data_url_body(payload) {
        Some(b) => b,
        None => {
            return Err(ImageError::BadPayload);
        },
    };
    let codec = match codec_for(subtype.as_str()) {
        Ok(c) => c,
        Err(e) => {
            return Err(e);
        },
    };
    admit_decoded(decode_raster(body.as_slice(), codec))
}

/// Where an image goes: one tile, or the whole touch strip.
#[derive(Debug, Clone, Copy, PartialEq, Eq, Structural)]
pub enum RenderTarget {
    Position(LogicalPosition),
    Strip,
}

/// The first pixel column of zone `i` when `width` columns are split among
/// `zones` zones.
pub open spec fn zone_offset(width: int, zones: int, i: int) -> int {
    i * (width / zones)
}

/// The number of pixel columns of zone `i`: an equal share, and the
/// remainder on top for the last zone.
pub open spec fn zone_width(width: int, zones: int, i: int) -> int {
    if i == zones - 1 {
        width - (zones - 1) * (width / zones)
    } else {
        width / zones
    }
}

/// The zones lie side by side: the first starts at column 0, each starts
/// where the one before it ends, and the last ends at the image's edge.
pub proof fn lemma_zones_cover_image(width: int, zones: int, i: int)
    requires
        width >= 0,
        zones > 0,
        0 <= i < zones,
    ensures
        zone_offset(width, zones, 0) == 0,
        0 <= zone_width(width, zones, i),
        0 <= zone_offset(width, zones, i),
        zone_offset(width, zones, i) + zone_width(width, zones, i) == if i == zones - 1 {
            width
        } else {
            zone_offset(width, zones, i + 1)
        },
        zone_offset(width, zones, i) + zone_width(width, zones, i) <= width,
        width >= zones ==> zone_width(width, zones, i) >= 1,
{
    let share = width / zones;
    assert(width >= zones ==> share >= 1) by (nonlinear_arith)
        requires
            share == width / zones,
            zones > 0,
    ;
    assert(0 <= share && share * zones <= width) by (nonlinear_arith)
        requires
            share == width / zones,
            width >= 0,
            zones > 0,
    ;
    assert(0 <= i * share && (i + 1) * share == i * share + share && (i + 1) * share <= zones
        * share && (zones - 1) * share == zones * share - share && zones * share == share * zones)
        by (nonlinear_arith)
        requires
            0 <= i < zones,
            0 <= share,
    ;
}

/// The first column and the width of zone `i`.
pub fn zone_span(width: u32, zones: u8, i: u8) -> (span: (u32, u32))
    requires
        i < zones,
    ensures
        span.0 == zone_offset(width as int, zones as int, i as int),
        span.1 == zone_width(width as int, zones as int, i as int),
        span.0 + span.1 <= width,
{
    proof {
        lemma_zones_cover_image(width as int, zones as int, i as int);
        lemma_zones_cover_image(width as int, zones as int, zones - 1);
    }
    let share: u32 = width / (zones as u32);
    assert(i * share <= (zones - 1) * share <= width) by (nonlinear_arith)
        requires
            0 <= i <= zones - 1,
            0 <= share,
            (zones - 1) * share + (width - (zones - 1) * share) == width,
            0 <= width - (zones - 1) * share,
    ;
    let offset: u32 = (i as u32) * share;
    if i == zones - 1 {
        (offset, width - offset)
    } else {
        (offset, share)
    }
}

/// The widths of all zones, left to right.
pub fn zone_widths(width: u32, zones: u8) -> (widths: Vec<u32>)
    ensures
        widths@.len() == zones,
        forall|i: int|
            0 <= i < zones ==> widths@[i] == zone_width(width as int, zones as int, i),
{
    let mut widths: Vec<u32> = Vec::new();
    let mut i: u8 = 0;
    while i < zones
        invariant
            i <= zones,
            widths@.len() == i,
            forall|k: int| 0 <= k < i ==> widths@[k] == zone_width(width as int, zones as int, k),
        decreases zones - i,
    {
        let span = zone_span(width, zones, i);
        widths.push(span.1);
        i += 1;
    }
    widths
}

/// How the pixels of one raster are taken from another.
pub enum Placement {
    /// A band of whole columns, starting at column `first`.
    Columns { first: u32 },
    /// The whole raster, rotated and then mirrored.
    Turned { rotation: ImageRotation, mirror: ImageMirroring },
}

pub open spec fn quarter_turn(rotation: ImageRotation) -> bool {
    rotation is Rot90 || rotation is Rot270
}

pub open spec fn flips_columns(mirror: ImageMirroring) -> bool {
    mirror is X || mirror is Both
}

pub open spec fn flips_rows(mirror: ImageMirroring) -> bool {
    mirror is Y || mirror is Both
}

/// Whether a source of `iw` by `ih` pixels can fill `ow` by `oh` pixels
/// under the placement.
pub open spec fn placement_fits(place: Placement, iw: int, ih: int, ow: int, oh: int) -> bool {
    &&& iw > 0 && ih > 0 && ow > 0 && oh > 0
    &&& match place {
        Placement::Columns { first } => first + ow <= iw && oh == ih,
        Placement::Turned { rotation, mirror } => if quarter_turn(rotation) {
            ow == ih && oh == iw
        } else {
            ow == iw && oh == ih
        },
    }
}

/// The source column and row of the pixel at column `x`, row `y` of the
/// result. A clockwise quarter turn takes the source's left column, read
/// bottom-up, as the result's top row; mirroring acts on the turned image.
pub open spec fn source_cell(place: Placement, ow: int, oh: int, x: int, y: int) -> (int, int) {
    match place {
        Placement::Columns { first } => (first + x, y),
        Placement::Turned { rotation, mirror } => {
            let x1 = if flips_columns(mirror) {
                ow - 1 - x
            } else {
                x
            };
            let y1 = if flips_rows(mirror) {
                oh - 1 - y
            } else {
                y
            };
            match rotation {
                ImageRotation::Rot0 => (x1, y1),
                ImageRotation::Rot90 => (y1, ow - 1 - x1),
                ImageRotation::Rot180 => (ow - 1 - x1, oh - 1 - y1),
                ImageRotation::Rot270 => (oh - 1 - y1, x1),
            }
        },
    }
}

/// The index, among the source's pixels, of pixel `p` of the result.
pub open spec fn source_pixel(place: Placement, iw: int, ow: int, oh: int, p: int) -> int {
    let cell = source_cell(place, ow, oh, p % ow, p / ow);
    cell.1 * iw + cell.0
}

/// The RGB bytes of the result: each pixel's three bytes come from its
/// source pixel.
pub open spec fn placed(pixels: Seq<u8>, place: Placement, iw: int, ow: int, oh: int) -> Seq<u8> {
    Seq::new(
        (3 * (ow * oh)) as nat,
        |i: int| pixels[3 * source_pixel(place, iw, ow, oh, i / 3) + i % 3],
    )
}

proof fn lemma_cell(p: int, w: int, h: int)
    requires
        w > 0,
        0 <= p < w * h,
    ensures
        0 <= p / w < h,
        0 <= p % w < w,
{
    assert(0 <= p / w < h && 0 <= p % w < w) by (nonlinear_arith)
        requires
            w > 0,
            0 <= p < w * h,
    ;
}

proof fn lemma_pixel_bound(x: int, y: int, w: int, h: int)
    requires
        0 <= x < w,
        0 <= y < h,
    ensures
        0 <= y * w + x < w * h,
        0 <= y * w,
{
    assert(0 <= y * w + x < w * h && 0 <= y * w) by (nonlinear_arith)
        requires
            0 <= x < w,
            0 <= y < h,
    ;
}

proof fn lemma_source_in_bounds(place: Placement, iw: int, ih: int, ow: int, oh: int, p: int)
    requires
        placement_fits(place, iw, ih, ow, oh),
        0 <= p < ow * oh,
    ensures
        0 <= source_cell(place, ow, oh, p % ow, p / ow).0 < iw,
        0 <= source_cell(place, ow, oh, p % ow, p / ow).1 < ih,
        0 <= source_pixel(place, iw, ow, oh, p) < iw * ih,
{
    lemma_cell(p, ow, oh);
    let cell = source_cell(place, ow, oh, p % ow, p / ow);
    lemma_pixel_bound(cell.0, cell.1, iw, ih);
}

proof fn lemma_fits_within(place: Placement, iw: int, ih: int, ow: int, oh: int)
    requires
        placement_fits(place, iw, ih, ow, oh),
    ensures
        0 < ow * oh <= iw * ih,
{
    match place {
        Placement::Columns { first } => {
            assert(0 < ow * oh <= iw * ih) by (nonlinear_arith)
                requires
                    0 < ow <= iw,
                    0 < oh == ih,
            ;
        },
        Placement::Turned { rotation, mirror } => {
            assert(0 < ow * oh == iw * ih) by (nonlinear_arith)
                requires
                    0 < ow,
                    0 < oh,
                    (ow == ih && oh == iw) || (ow == iw && oh == ih),
            ;
        },
    }
}

/// Fills a raster of `ow` by `oh` pixels from a source of `iw` by `ih`.
pub fn place_pixels(pixels: &Vec<u8>, place: &Placement, iw: u32, ih: u32, ow: u32, oh: u32) -> (out:
    Vec<u8>)
    requires
        placement_fits(*place, iw as int, ih as int, ow as int, oh as int),
        pixels@.len() == 3 * (iw * ih),
    ensures
        out@ == placed(pixels@, *place, iw as int, ow as int, oh as int),
        out@.len() == 3 * (ow * oh),
{
    proof {
        lemma_fits_within(*place, iw as int, ih as int, ow as int, oh as int);
    }
    let available: usize = pixels.len();
    let total: usize = ow as usize * oh as usize;
    let source_width: usize = iw as usize;
    let width: usize = ow as usize;
    let height: usize = oh as usize;
    let mut out: Vec<u8> = Vec::new();
    let mut p: usize = 0;
    while p < total
        invariant
            placement_fits(*place, iw as int, ih as int, ow as int, oh as int),
            pixels@.len() == 3 * (iw * ih),
            pixels@.len() == available,
            total == ow * oh,
            source_width == iw,
            width == ow,
            height == oh,
            p <= total,
            out@.len() == 3 * p,
            forall|i: int|
                0 <= i < 3 * p ==> out@[i] == pixels@[3 * source_pixel(
                    *place,
                    iw as int,
                    ow as int,
                    oh as int,
                    i / 3,
                ) + i % 3],
        decreases total - p,
    {
        proof {
            lemma_source_in_bounds(*place, iw as int, ih as int, ow as int, oh as int, p as int);
            lemma_cell(p as int, ow as int, oh as int);
        }
        let x: usize = p % width;
        let y: usize = p / width;
        let (sx, sy): (usize, usize) = match place {
            Placement::Columns { first } => (*first as usize + x, y),
            Placement::Turned { rotation, mirror } => {
                let x1: usize = match mirror {
                    ImageMirroring::X | ImageMirroring::Both => width - 1 - x,
                    _ => x,
                };
                let y1: usize = match mirror {
                    ImageMirroring::Y | ImageMirroring::Both => height - 1 - y,
                    _ => y,
                };
                match rotation {
                    ImageRotation::Rot0 => (x1, y1),
                    ImageRotation::Rot90 => (y1, width - 1 - x1),
                    ImageRotation::Rot180 => (width - 1 - x1, height - 1 - y1),
                    ImageRotation::Rot270 => (height - 1 - y1, x1),
                }
            },
        };
        proof {
            let cell = source_cell(*place, ow as int, oh as int, x as int, y as int);
            assert(sx == cell.0 && sy == cell.1);
            lemma_pixel_bound(sx as int, sy as int, iw as int, ih as int);
            assert(sy * source_width + sx == source_pixel(
                *place,
                iw as int,
                ow as int,
                oh as int,
                p as int,
            ));
        }
        let at: usize = 3 * (sy * source_width + sx);
        let ghost before = out@;
        out.push(pixels[at]);
        out.push(pixels[at + 1]);
        out.push(pixels[at + 2]);
        assert forall|i: int| 0 <= i < 3 * (p + 1) implies out@[i] == pixels@[3 * source_pixel(
            *place,
            iw as int,
            ow as int,
            oh as int,
            i / 3,
        ) + i % 3] by {
            if i < 3 * p {
                assert(out@[i] == before[i]);
            } else {
                assert(i / 3 == p);
            }
        }
        p += 1;
    }
    assert(out@ =~= placed(pixels@, *place, iw as int, ow as int, oh as int));
    out
}

/// The band of `width` columns of a raster that starts at column `first`.
pub open spec fn spec_crop(r: Raster, first: int, width: int) -> Raster {
    Raster {
        width: width as nat,
        height: r.height,
        bytes: placed(
            r.bytes,
            Placement::Columns { first: first as u32 },
            r.width as int,
            width,
            r.height as int,
        ),
    }
}

/// Cuts a band of whole columns out of a picture.
pub fn crop_columns(image: &DecodedImage, first: u32, width: u32) -> (band: DecodedImage)
    requires
        image.wf(),
        width > 0,
        first + width <= image@.width,
    ensures
        band.wf(),
        band@ == spec_crop(image@, first as int, width as int),
{
    let place = Placement::Columns { first };
    let pixels = place_pixels(&image.pixels, &place, image.width, image.height, width, image.height);
    DecodedImage { width, height: image.height, pixels }
}

/// The bitmap of a raster for a tile format: resampled to the format's
/// size, rotated, mirrored and encoded. `None` where the encoder fails.
pub open spec fn spec_render_tile(r: Raster, format: ImageFormat) -> Option<Raster> {
    let iw = if quarter_turn(format.rotation) {
        format.height
    } else {
        format.width
    };
    let ih = if quarter_turn(format.rotation) {
        format.width
    } else {
        format.height
    };
    let resized = resampled(r.width as u32, r.height as u32, r.bytes, iw as u32, ih as u32);
    let turned = placed(
        resized,
        Placement::Turned { rotation: format.rotation, mirror: format.mirror },
        iw as int,
        format.width as int,
        format.height as int,
    );
    match format.mode {
        ImageMode::Off => Some(
            Raster {
                width: format.width as nat,
                height: format.height as nat,
                bytes: Seq::<u8>::empty(),
            },
        ),
        ImageMode::JPEG => match jpeg_encoding(turned, format.width as u32, format.height as u32) {
            Some(data) => Some(
                Raster { width: format.width as nat, height: format.height as nat, bytes: data },
            ),
            None => None,
        },
    }
}

/// Renders a picture for one tile format. A bitmap always comes out, and it
/// has the format's pixel size.
pub fn render_tile(image: &DecodedImage, format: &ImageFormat) -> (bitmap: Option<NativeBitmap>)
    requires
        image.wf(),
        format.wf(),
    ensures
        bitmap is Some,
        spec_render_tile(image@, *format) == Some(bitmap.unwrap()@),
        bitmap.unwrap().width == format.width,
        bitmap.unwrap().height == format.height,
{
    let width: u32 = format.width as u32;
    let height: u32 = format.height as u32;
    match format.mode {
        ImageMode::Off => Some(NativeBitmap { width, height, data: Vec::new() }),
        ImageMode::JPEG => {
            let (iw, ih): (u32, u32) = match format.rotation {
                ImageRotation::Rot90 | ImageRotation::Rot270 => (height, width),
                _ => (width, height),
            };
            let resized = resample(image.width, image.height, image.pixels.as_slice(), iw, ih);
            let place = Placement::Turned { rotation: format.rotation, mirror: format.mirror };
            let turned = place_pixels(&resized, &place, iw, ih, width, height);
            match encode_jpeg(turned.as_slice(), width, height) {
                Some(data) => Some(NativeBitmap { width, height, data }),
                None => None,
            }
        },
    }
}

/// The format of the tile at a logical position.
pub open spec fn tile_format(profile: DeviceProfile, pos: LogicalPosition) -> ImageFormat {
    match pos {
        LogicalPosition::Key(_) => profile.key_format,
        LogicalPosition::Encoder(_) => profile.zone_format,
    }
}

/// The wire index and bitmap for one position; `None` where the position is
/// outside the layout or the encoder fails.
pub open spec fn spec_render_at(r: Raster, profile: DeviceProfile, pos: LogicalPosition) -> Option<
    (u8, Raster),
> {
    match (profile.spec_wire_index_of(pos), spec_render_tile(r, tile_format(profile, pos))) {
        (Some(index), Some(bitmap)) => Some((index, bitmap)),
        _ => None,
    }
}

pub open spec fn one_or_none(entry: Option<(u8, Raster)>) -> Seq<(u8, Raster)> {
    match entry {
        Some(e) => seq![e],
        None => Seq::empty(),
    }
}

/// What zone `z` of the touch strip receives: the bitmap of its band of
/// columns, and nothing where the band has no width.
pub open spec fn spec_zone_entry(r: Raster, profile: DeviceProfile, z: int) -> Seq<(u8, Raster)> {
    let width = zone_width(r.width as int, profile.touch_zones as int, z);
    if width == 0 {
        Seq::empty()
    } else {
        one_or_none(
            spec_render_at(
                spec_crop(r, zone_offset(r.width as int, profile.touch_zones as int, z), width),
                profile,
                LogicalPosition::Encoder(z as u8),
            ),
        )
    }
}

/// What the first `upto` zones of the touch strip receive, left to right.
pub open spec fn spec_render_strip(r: Raster, profile: DeviceProfile, upto: int) -> Seq<
    (u8, Raster),
>
    decreases upto,
{
    if upto <= 0 {
        Seq::empty()
    } else {
        spec_render_strip(r, profile, upto - 1) + spec_zone_entry(r, profile, upto - 1)
    }
}

pub open spec fn spec_render(r: Raster, profile: DeviceProfile, target: RenderTarget) -> Seq<
    (u8, Raster),
> {
    match target {
        RenderTarget::Position(pos) => one_or_none(spec_render_at(r, profile, pos)),
        RenderTarget::Strip => spec_render_strip(r, profile, profile.touch_zones as int),
    }
}

/// Wire indices and bitmaps as plain values.
pub open spec fn tiles_view(tiles: Seq<(u8, NativeBitmap)>) -> Seq<(u8, Raster)> {
    tiles.map_values(|t: (u8, NativeBitmap)| (t.0, t.1@))
}

fn render_at(image: &DecodedImage, profile: &DeviceProfile, pos: LogicalPosition) -> (entry: Option<
    (u8, NativeBitmap),
>)
    requires
        image.wf(),
        profile.wf(),
    ensures
        match entry {
            Some(e) => spec_render_at(image@, *profile, pos) == Some((e.0, e.1@)) && e.1.width
                == tile_format(*profile, pos).width && e.1.height == tile_format(
                *profile,
                pos,
            ).height,
            None => spec_render_at(image@, *profile, pos) is None,
        },
        entry is Some <==> profile.spec_wire_index_of(pos) is Some,
{
    let index = match profile.wire_index_of(pos) {
        Some(i) => i,
        None => {
            return None;
        },
    };
    let bitmap = match pos {
        LogicalPosition::Key(_) => render_tile(image, &profile.key_format),
        LogicalPosition::Encoder(_) => render_tile(image, &profile.zone_format),
    };
    match bitmap {
        Some(b) => Some((index, b)),
        None => None,
    }
}

/// Renders a picture for a target. For one position inside the layout:
/// exactly one pair of wire index and bitmap, the bitmap in the tile's pixel
/// size; for a position outside the layout, nothing. For the strip: the
/// picture is split into as many bands of columns as there are touch zones,
/// the remainder going to the last, and each band with any width is rendered
/// for its zone; a picture at least as wide as there are zones gives every
/// zone its bitmap.
pub fn render(image: &DecodedImage, profile: &DeviceProfile, target: RenderTarget) -> (tiles: Vec<
    (u8, NativeBitmap),
>)
    requires
        image.wf(),
        profile.wf(),
    ensures
        tiles_view(tiles@) == spec_render(image@, *profile, target),
        target matches RenderTarget::Position(pos) ==> {
            &&& tiles@.len() <= 1
            &&& (tiles@.len() == 1 <==> profile.spec_wire_index_of(pos) is Some)
            &&& forall|i: int|
                0 <= i < tiles@.len() ==> {
                    &&& Some(tiles@[i].0) == profile.spec_wire_index_of(pos)
                    &&& tiles@[i].1.width == tile_format(*profile, pos).width
                    &&& tiles@[i].1.height == tile_format(*profile, pos).height
                }
        },
        target is Strip ==> {
            &&& tiles@.len() <= profile.touch_zones
            &&& (image@.width >= profile.touch_zones ==> tiles@.len() == profile.touch_zones)
            &&& forall|i: int|
                0 <= i < tiles@.len() ==> {
                    &&& tiles@[i].1.width == profile.zone_format.width
                    &&& tiles@[i].1.height == profile.zone_format.height
                }
        },
{
    let mut tiles: Vec<(u8, NativeBitmap)> = Vec::new();
    match target {
        RenderTarget::Position(pos) => {
            match render_at(image, profile, pos) {
                Some(entry) => {
                    tiles.push(entry);
                    assert(tiles_view(tiles@) =~= spec_render(image@, *profile, target));
                },
                None => {
                    assert(tiles_view(tiles@) =~= spec_render(image@, *profile, target));
                },
            }
        },
        RenderTarget::Strip => {
            let zones: u8 = profile.touch_zones;
            let mut z: u8 = 0;
            assert(tiles_view(tiles@) =~= spec_render_strip(image@, *profile, 0));
            while z < zones
                invariant
                    image.wf(),
                    profile.wf(),
                    zones == profile.touch_zones,
                    z <= zones,
                    tiles@.len() <= z,
                    image@.width >= zones ==> tiles@.len() == z,
                    tiles_view(tiles@) == spec_render_strip(image@, *profile, z as int),
                    forall|i: int|
                        0 <= i < tiles@.len() ==> {
                            &&& tiles@[i].1.width == profile.zone_format.width
                            &&& tiles@[i].1.height == profile.zone_format.height
                        },
                decreases zones - z,
            {
                let ghost before = tiles@;
                proof {
                    profile.lemma_wire_index_bounds(LogicalPosition::Encoder(z));
                    lemma_zones_cover_image(image.width as int, zones as int, z as int);
                }
                let span = zone_span(image.width, zones, z);
                if span.1 > 0 {
                    let band = crop_columns(image, span.0, span.1);
                    match render_at(&band, profile, LogicalPosition::Encoder(z)) {
                        Some(entry) => {
                            tiles.push(entry);
                        },
                        None => {},
                    }
                }
                assert(tiles_view(tiles@) =~= tiles_view(before) + spec_zone_entry(
                    image@,
                    *profile,
                    z as int,
                ));
                z += 1;
            }
        },
    }
    tiles
}

/// A picture rendered for one position inside the layout comes out as
/// exactly one pair, the position's wire index with a bitmap of the tile's
/// pixel size, wherever the encoder yields a stream for it.
pub proof fn lemma_single_position_renders_once(
    r: Raster,
    profile: DeviceProfile,
    pos: LogicalPosition,
)
    requires
        profile.wf(),
        profile.spec_wire_index_of(pos) is Some,
        spec_render_tile(r, tile_format(profile, pos)) is Some,
    ensures
        spec_render(r, profile, RenderTarget::Position(pos)).len() == 1,
        spec_render(r, profile, RenderTarget::Position(pos))[0].0 == profile.spec_wire_index_of(
            pos,
        ).unwrap(),
        spec_render(r, profile, RenderTarget::Position(pos))[0].1.width == tile_format(
            profile,
            pos,
        ).width,
        spec_render(r, profile, RenderTarget::Position(pos))[0].1.height == tile_format(
            profile,
            pos,
        ).height,
{
}

} // verus!
