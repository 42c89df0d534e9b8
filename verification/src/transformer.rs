//! Decoding, sizing, resampling and PNG encoding of one image.

use crate::error::PipelineError;
use vstd::prelude::*;

verus! {

/// Edge length of the square every image is fitted into.
pub const MAX_IMAGE_SIZE: u32 = 512;

/// Length of the shorter edge after scaling by `bound / long`: the exact
/// quotient `short * bound / long` rounded to the nearest whole unit, halves
/// upwards, and never less than one.
pub open spec fn scaled_edge(short: int, long: int, bound: int) -> int {
    let rounded = (2 * short * bound + long) / (2 * long);
    if rounded < 1 {
        1
    } else {
        rounded
    }
}

/// Dimensions of a `width` x `height` image scaled so that its longer edge
/// is exactly `bound`.
pub open spec fn fitted(width: int, height: int, bound: int) -> (int, int) {
    if width >= height {
        (bound, scaled_edge(height, width, bound))
    } else {
        (scaled_edge(width, height, bound), bound)
    }
}

/// The scaled shorter edge lies between one and the bound, and less than one
/// unit away from the exact proportional length; where that length is half a
/// unit or more, the edge is the whole number nearest to it.
pub proof fn scaled_edge_is_close(short: int, long: int, bound: int)
    requires
        1 <= short <= long,
        1 <= bound,
    ensures
        1 <= scaled_edge(short, long, bound) <= bound,
        -long < scaled_edge(short, long, bound) * long - short * bound < long,
        2 * (short * bound) >= long ==> -long < 2 * (scaled_edge(short, long, bound) * long
            - short * bound) <= long,
{
    let exact = short * bound;
    let num = 2 * exact + long;
    let den = 2 * long;
    let q = num / den;
    let ql = q * long;
    let edge = scaled_edge(short, long, bound);
    assert(2 * short * bound == 2 * exact && 1 <= exact <= long * bound) by (nonlinear_arith)
        requires
            exact == short * bound,
            1 <= short <= long,
            bound >= 1,
    ;
    assert(num == den * q + num % den && 0 <= num % den < den) by {
        vstd::arithmetic::div_mod::lemma_fundamental_div_mod(num, den);
        vstd::arithmetic::div_mod::lemma_mod_bound(num, den);
    }
    assert(den * q == 2 * ql) by (nonlinear_arith)
        requires
            den == 2 * long,
            ql == q * long,
    ;
    // The remainder of the division says how far the quotient is from the exact length.
    assert(-long < 2 * ql - 2 * exact <= long);
    assert(0 <= q <= bound && (q < 1 ==> ql == 0)) by (nonlinear_arith)
        requires
            ql == q * long,
            -long < 2 * ql - 2 * exact <= long,
            1 <= exact <= long * bound,
            long >= 1,
    ;
    assert(edge * long == if q < 1 { long } else { ql }) by (nonlinear_arith)
        requires
            edge == if q < 1 { 1 } else { q },
            ql == q * long,
    ;
}

/// Scaling to fit makes the longer edge exactly `bound`, keeps both edges
/// between one and `bound`, and leaves the shorter edge less than one unit
/// away from the length that would preserve the aspect ratio exactly.
pub proof fn fitted_preserves_aspect(width: int, height: int, bound: int)
    requires
        1 <= width,
        1 <= height,
        1 <= bound,
    ensures
        ({
            let (nw, nh) = fitted(width, height, bound);
            &&& 1 <= nw <= bound
            &&& 1 <= nh <= bound
            &&& nw == bound || nh == bound
            &&& width >= height ==> nw == bound && -width < nh * width - height * bound < width
            &&& width <= height ==> nh == bound && -height < nw * height - width * bound < height
        }),
{
    if width >= height {
        scaled_edge_is_close(height, width, bound);
    }
    if width <= height {
        scaled_edge_is_close(width, height, bound);
    }
    if width == height {
        // A square stays a square.
        assert(scaled_edge(width, width, bound) == bound) by (nonlinear_arith)
            requires
                -width < scaled_edge(width, width, bound) * width - width * bound < width,
                width >= 1,
        ;
    }
}

/// Computes the dimensions of `width` x `height` scaled to fit `bound`, or
/// nothing for an empty image or an empty bound.
pub fn fit_within(width: u32, height: u32, bound: u32) -> (r: Option<(u32, u32)>)
    ensures
        r is None <==> width == 0 || height == 0 || bound == 0,
        r matches Some(d) ==> (d.0 as int, d.1 as int) == fitted(
            width as int,
            height as int,
            bound as int,
        ),
{
    if width == 0 || height == 0 || bound == 0 {
        return None;
    }
    if width >= height {
        Some((bound, scale_edge(height, width, bound)))
    } else {
        Some((scale_edge(width, height, bound), bound))
    }
}

fn scale_edge(short: u32, long: u32, bound: u32) -> (r: u32)
    requires
        1 <= short <= long,
        1 <= bound,
    ensures
        r as int == scaled_edge(short as int, long as int, bound as int),
{
    proof {
        scaled_edge_is_close(short as int, long as int, bound as int);
        assert(2 * short * bound <= 2 * 0xffff_ffff * 0xffff_ffff) by (nonlinear_arith)
            requires
                0 <= short <= 0xffff_ffff,
                0 <= bound <= 0xffff_ffff,
        ;
    }
    let doubled: u128 = 2 * (short as u128) * (bound as u128);
    let rounded: u128 = (doubled + long as u128) / (2 * (long as u128));
    if rounded < 1 {
        1
    } else {
        rounded as u32
    }
}

/// The kinds of image file that are decoded.
#[derive(Clone, Copy, Debug, PartialEq, Eq, Structural)]
pub enum ImageKind {
    Png,
    Jpeg,
    Gif,
    WebP,
    Tiff,
    Bmp,
}

/// How a PNG file begins.
pub const PNG_SIGNATURE: [u8; 8] = [0x89, 0x50, 0x4e, 0x47, 0x0d, 0x0a, 0x1a, 0x0a];

/// How a JPEG file begins.
pub const JPEG_SIGNATURE: [u8; 3] = [0xff, 0xd8, 0xff];

/// How a GIF file of the 1989 revision begins: `GIF89a`.
pub const GIF89_SIGNATURE: [u8; 6] = [0x47, 0x49, 0x46, 0x38, 0x39, 0x61];

/// How a GIF file of the 1987 revision begins: `GIF87a`.
pub const GIF87_SIGNATURE: [u8; 6] = [0x47, 0x49, 0x46, 0x38, 0x37, 0x61];

/// How the container of a WebP file begins: `RIFF`.
pub const RIFF_SIGNATURE: [u8; 4] = [0x52, 0x49, 0x46, 0x46];

/// What the container of a WebP file holds after its length: `WEBP`.
pub const WEBP_SIGNATURE: [u8; 4] = [0x57, 0x45, 0x42, 0x50];

/// How a big-endian TIFF file begins: `MM`, then forty-two.
pub const TIFF_BE_SIGNATURE: [u8; 4] = [0x4d, 0x4d, 0x00, 0x2a];

/// How a little-endian TIFF file begins: `II`, then forty-two.
pub const TIFF_LE_SIGNATURE: [u8; 4] = [0x49, 0x49, 0x2a, 0x00];

/// How a BMP file begins: `BM`.
pub const BMP_SIGNATURE: [u8; 2] = [0x42, 0x4d];

/// Whether `bytes` holds `signature` from `offset` on.
pub open spec fn holds_at(bytes: Seq<u8>, offset: int, signature: Seq<u8>) -> bool {
    offset + signature.len() <= bytes.len() && bytes.subrange(offset, offset + signature.len())
        == signature
}

/// The kind of image file that `bytes` claims to be by the way it begins.
pub open spec fn kind_of(bytes: Seq<u8>) -> Option<ImageKind> {
    if holds_at(bytes, 0, PNG_SIGNATURE@) {
        Some(ImageKind::Png)
    } else if holds_at(bytes, 0, JPEG_SIGNATURE@) {
        Some(ImageKind::Jpeg)
    } else if holds_at(bytes, 0, GIF89_SIGNATURE@) || holds_at(bytes, 0, GIF87_SIGNATURE@) {
        Some(ImageKind::Gif)
    } else if holds_at(bytes, 0, RIFF_SIGNATURE@) && holds_at(bytes, 8, WEBP_SIGNATURE@) {
        Some(ImageKind::WebP)
    } else if holds_at(bytes, 0, TIFF_BE_SIGNATURE@) || holds_at(bytes, 0, TIFF_LE_SIGNATURE@) {
        Some(ImageKind::Tiff)
    } else if holds_at(bytes, 0, BMP_SIGNATURE@) {
        Some(ImageKind::Bmp)
    } else {
        None
    }
}

fn holds<const N: usize>(bytes: &[u8], offset: usize, signature: &[u8; N]) -> (found: bool)
    requires
        offset <= 8,
        N <= 8,
    ensures
        found == holds_at(bytes@, offset as int, signature@),
{
    if bytes.len() < offset + N {
        return false;
    }
    let mut at: usize = 0;
    while at < N
        invariant
            at <= N <= 8,
            offset <= 8,
            offset + N <= bytes@.len(),
            signature@.len() == N,
            forall|i: int| 0 <= i < at ==> bytes@[offset + i] == signature@[i],
        decreases N - at,
    {
        if bytes[offset + at] != signature[at] {
            assert(bytes@.subrange(offset as int, offset + N)[at as int] != signature@[at as int]);
            return false;
        }
        at = at + 1;
    }
    assert(bytes@.subrange(offset as int, offset + N) =~= signature@);
    true
}

/// Tells the kind of image file from the way `bytes` begins.
pub fn detect_kind(bytes: &[u8]) -> (kind: Option<ImageKind>)
    ensures
        kind == kind_of(bytes@),
{
    if holds(bytes, 0, &PNG_SIGNATURE) {
        Some(ImageKind::Png)
    } else if holds(bytes, 0, &JPEG_SIGNATURE) {
        Some(ImageKind::Jpeg)
    } else if holds(bytes, 0, &GIF89_SIGNATURE) || holds(bytes, 0, &GIF87_SIGNATURE) {
        Some(ImageKind::Gif)
    } else if holds(bytes, 0, &RIFF_SIGNATURE) && holds(bytes, 8, &WEBP_SIGNATURE) {
        Some(ImageKind::WebP)
    } else if holds(bytes, 0, &TIFF_BE_SIGNATURE) || holds(bytes, 0, &TIFF_LE_SIGNATURE) {
        Some(ImageKind::Tiff)
    } else if holds(bytes, 0, &BMP_SIGNATURE) {
        Some(ImageKind::Bmp)
    } else {
        None
    }
}

/// Width, height and RGBA8 pixels (row by row, four bytes each) that decoding
/// `bytes` as an image file of this kind yields, or nothing where the
/// decoder refuses them.
pub uninterp spec fn decoded_rgba8(kind: ImageKind, bytes: Seq<u8>) -> Option<
    (u32, u32, Seq<u8>),
>;

/// RGBA8 pixels of the `width` x `height` image `pixels` resampled to
/// `nwidth` x `nheight` with the triangle (linear) filter.
pub uninterp spec fn resampled_rgba8(
    width: u32,
    height: u32,
    pixels: Seq<u8>,
    nwidth: u32,
    nheight: u32,
) -> Seq<u8>;

/// The PNG file that holds the `width` x `height` RGBA8 image `pixels`, or
/// nothing where the encoder refuses it.
pub uninterp spec fn png_encoded_rgba8(width: u32, height: u32, pixels: Seq<u8>) -> Option<
    Seq<u8>,
>;

/// Calls `image::load_from_memory_with_format` with the format that stands
/// for `kind`, and turns the image into RGBA8 with `DynamicImage::into_rgba8`.
/// Trusted: the outcome depends on the kind and the bytes alone, and is
/// `None` exactly when the crate reports an error.
#[verifier::external_body]
fn decode_rgba8(kind: ImageKind, bytes: &[u8]) -> (r: Option<(u32, u32, Vec<u8>)>)
    ensures
        r is None ==> decoded_rgba8(kind, bytes@) is None,
        r matches Some(d) ==> decoded_rgba8(kind, bytes@) == Some((d.0, d.1, d.2@)),
{
    let format = match kind {
        ImageKind::Png => image::ImageFormat::Png,
        ImageKind::Jpeg => image::ImageFormat::Jpeg,
        ImageKind::Gif => image::ImageFormat::Gif,
        ImageKind::WebP => image::ImageFormat::WebP,
        ImageKind::Tiff => image::ImageFormat::Tiff,
        ImageKind::Bmp => image::ImageFormat::Bmp,
    };
    let rgba = image::load_from_memory_with_format(bytes, format).ok()?.into_rgba8();
    Some((rgba.width(), rgba.height(), rgba.into_raw()))
}

/// Calls `image::imageops::resize` with `FilterType::Triangle`. Trusted: the
/// result depends on the arguments alone (this filter is computed with
/// basic floating-point arithmetic only) and is an RGBA8 buffer of exactly
/// the dimensions asked for. The preconditions keep away the inputs on which
/// the crate panics: an empty image, a buffer shorter than the image, and
/// buffers longer than an allocation can be (the intermediate one has the
/// old width, the new height and sixteen bytes per pixel).
#[verifier::external_body]
fn resample_rgba8(width: u32, height: u32, pixels: &Vec<u8>, nwidth: u32, nheight: u32) -> (out:
    Vec<u8>)
    requires
        width >= 1,
        height >= 1,
        pixels@.len() == 4 * width * height,
        nwidth >= 1,
        nheight >= 1,
        16 * width * nheight <= isize::MAX,
        4 * nwidth * nheight <= isize::MAX,
    ensures
        out@ == resampled_rgba8(width, height, pixels@, nwidth, nheight),
        out@.len() == 4 * nwidth * nheight,
{
    let source = image::ImageBuffer::<image::Rgba<u8>, &[u8]>::from_raw(
        width,
        height,
        pixels.as_slice(),
    ).unwrap();
    image::imageops::resize(&source, nwidth, nheight, image::imageops::FilterType::Triangle).into_raw()
}

/// Calls `image::write_buffer_with_format` with `ExtendedColorType::Rgba8`
/// and `ImageFormat::Png` on a buffer in memory. Trusted: the file depends on
/// the arguments alone, and is `None` exactly when the crate reports an
/// error. The precondition keeps away the buffer lengths on which the
/// encoder panics.
#[verifier::external_body]
fn encode_png_rgba8(width: u32, height: u32, pixels: &Vec<u8>) -> (r: Option<Vec<u8>>)
    requires
        pixels@.len() == 4 * width * height,
    ensures
        r is None ==> png_encoded_rgba8(width, height, pixels@) is None,
        r matches Some(file) ==> png_encoded_rgba8(width, height, pixels@) == Some(file@),
{
    let mut out = std::io::Cursor::new(Vec::new());
    let color = image::ExtendedColorType::Rgba8;
    match image::write_buffer_with_format(&mut out, pixels, width, height, color, image::ImageFormat::Png) {
        Ok(()) => Some(out.into_inner()),
        Err(_) => None,
    }
}

/// What a raster is to the contracts: its dimensions and its RGBA8 pixels.
pub struct RasterView {
    pub width: u32,
    pub height: u32,
    pub pixels: Seq<u8>,
}

impl RasterView {
    /// Neither edge is empty and the pixel buffer holds four bytes for every
    /// pixel, no more and no fewer.
    pub open spec fn well_formed(self) -> bool {
        &&& self.width >= 1
        &&& self.height >= 1
        &&& self.pixels.len() == 4 * self.width * self.height
    }
}

/// A decoded image: RGBA8 pixels, row by row.
#[derive(Debug, PartialEq, Eq)]
pub struct Raster {
    width: u32,
    height: u32,
    pixels: Vec<u8>,
}

impl View for Raster {
    type V = RasterView;

    closed spec fn view(&self) -> RasterView {
        RasterView { width: self.width, height: self.height, pixels: self.pixels@ }
    }
}

/// Whether an exec result agrees with the outcome that a contract names.
pub open spec fn raster_agrees(
    got: Result<Raster, PipelineError>,
    want: Result<RasterView, PipelineError>,
) -> bool {
    match (got, want) {
        (Ok(raster), Ok(view)) => raster@ == view,
        (Err(e), Err(f)) => e == f,
        _ => false,
    }
}

/// Whether an exec result agrees with the bytes, or the error, that a
/// contract names.
pub open spec fn bytes_agree(
    got: Result<Vec<u8>, PipelineError>,
    want: Result<Seq<u8>, PipelineError>,
) -> bool {
    match (got, want) {
        (Ok(bytes), Ok(seq)) => bytes@ == seq,
        (Err(e), Err(f)) => e == f,
        _ => false,
    }
}

/// The raster that a decoder's answer stands for: a decode error where the
/// decoder gave nothing, or gave an empty or misshapen image.
pub open spec fn decode_outcome(decoded: Option<(u32, u32, Seq<u8>)>) -> Result<
    RasterView,
    PipelineError,
> {
    match decoded {
        Some((width, height, pixels)) => {
            let view = RasterView { width, height, pixels };
            if view.well_formed() {
                Ok(view)
            } else {
                Err(PipelineError::DecodeError)
            }
        },
        None => Err(PipelineError::DecodeError),
    }
}

/// The raster that `bytes` holds: what the decoder for their kind makes of
/// them, or a decode error where they begin like no kind of image file that
/// is decoded.
pub open spec fn decoded(bytes: Seq<u8>) -> Result<RasterView, PipelineError> {
    match kind_of(bytes) {
        Some(kind) => decode_outcome(decoded_rgba8(kind, bytes)),
        None => Err(PipelineError::DecodeError),
    }
}

/// Whether the buffer that resampling a `width`-wide image to the height
/// `nheight` goes through can be allocated at all on this machine: it holds
/// sixteen bytes for each of `width` x `nheight` pixels.
pub open spec fn resample_fits_memory(width: u32, nheight: u32) -> bool {
    16 * width * nheight <= isize::MAX
}

/// The raster that resizing `source` to fit the square yields.
pub open spec fn resize_outcome(source: RasterView) -> Result<RasterView, PipelineError> {
    let (nwidth, nheight) = fitted(
        source.width as int,
        source.height as int,
        MAX_IMAGE_SIZE as int,
    );
    if resample_fits_memory(source.width, nheight as u32) {
        Ok(
            RasterView {
                width: nwidth as u32,
                height: nheight as u32,
                pixels: resampled_rgba8(
                    source.width,
                    source.height,
                    source.pixels,
                    nwidth as u32,
                    nheight as u32,
                ),
            },
        )
    } else {
        Err(PipelineError::LocalResourceError)
    }
}

/// Whatever the source image, a resized one fits the square exactly: its
/// longer edge is `MAX_IMAGE_SIZE`, its pixel buffer has the length its
/// dimensions call for, and its shorter edge is less than one unit away from
/// the length that would keep the aspect ratio exactly.
pub proof fn resized_fits_the_square(source: RasterView)
    requires
        source.well_formed(),
    ensures
        resize_outcome(source) matches Ok(resized) ==> {
            &&& 1 <= resized.width <= MAX_IMAGE_SIZE
            &&& 1 <= resized.height <= MAX_IMAGE_SIZE
            &&& resized.width == MAX_IMAGE_SIZE || resized.height == MAX_IMAGE_SIZE
            &&& source.width >= source.height ==> resized.width == MAX_IMAGE_SIZE
                && -source.width < resized.height * source.width - source.height
                * MAX_IMAGE_SIZE < source.width
            &&& source.width <= source.height ==> resized.height == MAX_IMAGE_SIZE
                && -source.height < resized.width * source.height - source.width
                * MAX_IMAGE_SIZE < source.height
        },
{
    fitted_preserves_aspect(source.width as int, source.height as int, MAX_IMAGE_SIZE as int);
}

/// The PNG file for `raster`, or a local resource error where the encoder
/// gives none.
pub open spec fn encode_outcome(raster: RasterView) -> Result<Seq<u8>, PipelineError> {
    match png_encoded_rgba8(raster.width, raster.height, raster.pixels) {
        Some(file) => Ok(file),
        None => Err(PipelineError::LocalResourceError),
    }
}

/// The whole transform: decode, resize to fit, encode as PNG; the first
/// failing stage decides the error.
pub open spec fn transformed(bytes: Seq<u8>) -> Result<Seq<u8>, PipelineError> {
    match decoded(bytes) {
        Ok(source) => match resize_outcome(source) {
            Ok(resized) => encode_outcome(resized),
            Err(e) => Err(e),
        },
        Err(e) => Err(e),
    }
}

impl Raster {
    #[verifier::type_invariant]
    spec fn shape_holds(self) -> bool {
        self@.well_formed()
    }

    /// Builds a raster from its parts, or nothing where an edge is empty or
    /// the buffer is not exactly four bytes per pixel.
    pub fn new(width: u32, height: u32, pixels: Vec<u8>) -> (r: Option<Raster>)
        ensures
            r is Some <==> (RasterView { width, height, pixels: pixels@ }).well_formed(),
            r matches Some(raster) ==> raster@ == (RasterView { width, height, pixels: pixels@ }),
    {
        if width == 0 || height == 0 {
            return None;
        }
        assert(width * height <= 0xffff_ffff * 0xffff_ffff) by (nonlinear_arith)
            requires
                0 <= width <= 0xffff_ffff,
                0 <= height <= 0xffff_ffff,
        ;
        let area: u64 = (width as u64) * (height as u64);
        assert(4 * width * height == 4 * area) by (nonlinear_arith)
            requires
                area == width * height,
        ;
        let len: usize = pixels.len();
        if area > (u64::MAX / 4) || (len as u64) != 4 * area {
            return None;
        }
        Some(Raster { width, height, pixels })
    }

    /// Width in pixels, at least one.
    pub fn width(&self) -> (w: u32)
        ensures
            w == self@.width,
            self@.well_formed(),
    {
        proof {
            use_type_invariant(self);
        }
        self.width
    }

    /// Height in pixels, at least one.
    pub fn height(&self) -> (h: u32)
        ensures
            h == self@.height,
            self@.well_formed(),
    {
        proof {
            use_type_invariant(self);
        }
        self.height
    }

    /// The RGBA8 pixels, row by row.
    pub fn pixels(&self) -> (p: &Vec<u8>)
        ensures
            p@ == self@.pixels,
            self@.well_formed(),
    {
        proof {
            use_type_invariant(self);
        }
        &self.pixels
    }

    /// Turns a decoder's answer into a raster, refusing what is no proper
    /// image.
    pub fn from_decoded(decoded: Option<(u32, u32, Vec<u8>)>) -> (r: Result<Raster, PipelineError>)
        ensures
            raster_agrees(
                r,
                decode_outcome(
                    match decoded {
                        Some(d) => Some((d.0, d.1, d.2@)),
                        None => None,
                    },
                ),
            ),
    {
        match decoded {
            Some((width, height, pixels)) => match Raster::new(width, height, pixels) {
                Some(raster) => Ok(raster),
                None => Err(PipelineError::DecodeError),
            },
            None => Err(PipelineError::DecodeError),
        }
    }

    /// Decodes `bytes` as an image.
    pub fn decode(bytes: &[u8]) -> (r: Result<Raster, PipelineError>)
        ensures
            raster_agrees(r, decoded(bytes@)),
    {
        match detect_kind(bytes) {
            Some(kind) => Raster::from_decoded(decode_rgba8(kind, bytes)),
            None => Err(PipelineError::DecodeError),
        }
    }

    /// The dimensions this raster has once its longer edge is scaled to
    /// `MAX_IMAGE_SIZE`.
    pub fn target_size(&self) -> (d: (u32, u32))
        ensures
            (d.0 as int, d.1 as int) == fitted(
                self@.width as int,
                self@.height as int,
                MAX_IMAGE_SIZE as int,
            ),
            1 <= d.0 <= MAX_IMAGE_SIZE,
            1 <= d.1 <= MAX_IMAGE_SIZE,
            d.0 == MAX_IMAGE_SIZE || d.1 == MAX_IMAGE_SIZE,
    {
        proof {
            use_type_invariant(self);
            fitted_preserves_aspect(
                self.width as int,
                self.height as int,
                MAX_IMAGE_SIZE as int,
            );
        }
        match fit_within(self.width, self.height, MAX_IMAGE_SIZE) {
            Some(d) => d,
            None => (MAX_IMAGE_SIZE, MAX_IMAGE_SIZE),
        }
    }

    /// Resamples this raster so that it fits the square exactly on its
    /// longer edge, whether that shrinks or enlarges it.
    pub fn resize_to_fit(&self) -> (r: Result<Raster, PipelineError>)
        ensures
            raster_agrees(r, resize_outcome(self@)),
    {
        proof {
            use_type_invariant(self);
        }
        let (nwidth, nheight) = self.target_size();
        if !fits_memory(self.width, nheight) {
            return Err(PipelineError::LocalResourceError);
        }
        assert(4 * nwidth * nheight <= 4 * 512 * 512) by (nonlinear_arith)
            requires
                0 <= nwidth <= 512,
                0 <= nheight <= 512,
        ;
        let pixels = resample_rgba8(self.width, self.height, &self.pixels, nwidth, nheight);
        Ok(Raster { width: nwidth, height: nheight, pixels })
    }

    /// Encodes this raster as a PNG file.
    pub fn encode_png(&self) -> (r: Result<Vec<u8>, PipelineError>)
        ensures
            bytes_agree(r, encode_outcome(self@)),
    {
        proof {
            use_type_invariant(self);
        }
        match encode_png_rgba8(self.width, self.height, &self.pixels) {
            Some(file) => Ok(file),
            None => Err(PipelineError::LocalResourceError),
        }
    }
}

fn fits_memory(width: u32, nheight: u32) -> (ok: bool)
    ensures
        ok == (16 * width * nheight <= isize::MAX),
{
    assert(width * nheight <= 0xffff_ffff * 0xffff_ffff) by (nonlinear_arith)
        requires
            0 <= width <= 0xffff_ffff,
            0 <= nheight <= 0xffff_ffff,
    ;
    let area: u64 = (width as u64) * (nheight as u64);
    assert(16 * width * nheight == 16 * area) by (nonlinear_arith)
        requires
            area == width * nheight,
    ;
    area <= (isize::MAX as u64) / 16
}

/// Decodes `bytes`, resizes the image to fit the square and encodes it as
/// PNG.
pub fn transform(bytes: &[u8]) -> (r: Result<Vec<u8>, PipelineError>)
    ensures
        bytes_agree(r, transformed(bytes@)),
{
    match Raster::decode(bytes) {
        Ok(source) => match source.resize_to_fit() {
            Ok(resized) => resized.encode_png(),
            Err(e) => Err(e),
        },
        Err(e) => Err(e),
    }
}

} // verus!
