//! The QR companion of a link: module matrix, colored raster bounded to
//! 550 pixels a side, and its PNG byte stream.
use crate::link::LinkError;
use vstd::prelude::*;
use vstd::string::*;

verus! {

/// The largest raster side, in pixels.
pub const MAX_SIDE: u32 = 550;

/// Blank modules around the symbol on each side.
pub const QUIET_ZONE: usize = 4;

/// Color of dark modules.
pub const DARK: [u8; 3] = [123, 255, 6];

/// Color of light modules and of the quiet zone.
pub const LIGHT: [u8; 3] = [28, 32, 31];

/// The modules of a QR symbol, row by row, `true` for dark.
pub struct QrMatrix {
    pub width: usize,
    pub dark: Vec<bool>,
}

impl QrMatrix {
    /// A symbol of one of the forty standard sizes, with one entry per module.
    pub open spec fn wf(&self) -> bool {
        &&& 21 <= self.width <= 177
        &&& self.width % 4 == 1
        &&& self.dark@.len() == self.width * self.width
    }
}

/// A colored raster, three bytes (red, green, blue) per pixel, row by row.
pub struct Raster {
    pub width: u32,
    pub height: u32,
    pub pixels: Vec<u8>,
}

/// The rendered QR code of a link.
pub struct QrImage {
    /// Raster width in pixels.
    pub width: u32,
    /// Raster height in pixels.
    pub height: u32,
    /// The raster as a PNG byte stream.
    pub png: Vec<u8>,
}

/// Pixels per module when a symbol of `width` modules and its quiet zone are
/// scaled to fit `max_side`, never less than one.
pub open spec fn unit_size(width: int, max_side: int) -> int {
    let n = width + 2 * QUIET_ZONE;
    if max_side / n >= 1 {
        max_side / n
    } else {
        1
    }
}

/// Side in pixels of the raster of a symbol of `width` modules.
pub open spec fn raster_side(width: int, max_side: int) -> int {
    (width + 2 * QUIET_ZONE) * unit_size(width, max_side)
}

/// Whether the pixel at column `x`, row `y` falls on a dark module.
pub open spec fn on_dark_module(dark: Seq<bool>, width: int, unit: int, x: int, y: int) -> bool {
    let col = x / unit - QUIET_ZONE;
    let row = y / unit - QUIET_ZONE;
    0 <= col < width && 0 <= row < width && dark[row * width + col]
}

/// The raster of a module matrix: `side` by `side` pixels of three bytes, row
/// by row, each in the color of the module it falls on.
pub open spec fn raster_pixels(
    dark: Seq<bool>,
    width: int,
    side: int,
    unit: int,
    dark_color: Seq<u8>,
    light_color: Seq<u8>,
) -> Seq<u8> {
    Seq::new(
        (3 * side * side) as nat,
        |k: int|
            if on_dark_module(dark, width, unit, (k / 3) % side, (k / 3) / side) {
                dark_color[k % 3]
            } else {
                light_color[k % 3]
            },
    )
}

/// The PNG stream that the image crate writes for an RGB raster.
pub uninterp spec fn png_of(width: u32, height: u32, pixels: Seq<u8>) -> Seq<u8>;

/// Error-correction levels of a QR symbol, from the least redundant.
#[derive(Debug, Clone, Copy, PartialEq, Eq, Structural)]
pub enum ErrorCorrection {
    Low,
    Medium,
    Quartile,
    High,
}

/// The error-correction level of every QR code made here.
pub const QR_ERROR_CORRECTION: ErrorCorrection = ErrorCorrection::Medium;

/// The largest standard QR version.
pub const MAX_VERSION: u8 = 40;

/// The modules, row by row, of the symbol of `version` at the level `ec` that
/// holds `data` as one byte-mode segment; `None` where it does not fit.
pub uninterp spec fn byte_symbol_of(data: Seq<u8>, version: nat, ec: ErrorCorrection) -> Option<
    Seq<bool>,
>;

/// Whether `data`, as one byte-mode segment, fits in a symbol of `version`
/// at the level `ec`.
pub open spec fn byte_symbol_fits(data: Seq<u8>, version: nat, ec: ErrorCorrection) -> bool {
    byte_symbol_of(data, version, ec) is Some
}

/// `version` is the smallest standard version that holds `data` at the fixed
/// error-correction level.
pub open spec fn least_version(data: Seq<u8>, version: nat) -> bool {
    &&& 1 <= version <= MAX_VERSION
    &&& byte_symbol_fits(data, version, QR_ERROR_CORRECTION)
    &&& forall|u: nat| 1 <= u < version ==> !#[trigger] byte_symbol_fits(data, u, QR_ERROR_CORRECTION)
}

/// Modules per side of a standard QR symbol of `version`.
pub open spec fn symbol_width(version: nat) -> nat {
    17 + 4 * version
}

/// Relies on qrcode's `Bits` (`new` with `Version::Normal`, `push_byte_data`,
/// `push_terminator`) and `QrCode::with_bits`, then `width` and `to_colors`
/// to read the modules; `None` where the data does not fit.
#[verifier::external_body]
fn byte_mode_symbol(data: &[u8], version: u8, ec: ErrorCorrection) -> (r: Option<QrMatrix>)
    requires
        1 <= version <= MAX_VERSION,
    ensures
        r is Some <==> byte_symbol_of(data@, version as nat, ec) is Some,
        r matches Some(m) ==> m.width == symbol_width(version as nat) && m.dark@.len() == m.width
            * m.width && byte_symbol_of(data@, version as nat, ec) == Some(m.dark@),
{
    let level = match ec {
        ErrorCorrection::Low => qrcode::EcLevel::L,
        ErrorCorrection::Medium => qrcode::EcLevel::M,
        ErrorCorrection::Quartile => qrcode::EcLevel::Q,
        ErrorCorrection::High => qrcode::EcLevel::H,
    };
    let mut bits = qrcode::bits::Bits::new(qrcode::Version::Normal(version as i16));
    bits.push_byte_data(data).ok()?;
    bits.push_terminator(level).ok()?;
    let code = qrcode::QrCode::with_bits(bits, level).ok()?;
    let dark = code.to_colors().into_iter().map(|c| c == qrcode::Color::Dark).collect();
    Some(QrMatrix { width: code.width(), dark })
}

/// No standard version holds `data` as one byte-mode segment at the fixed
/// error-correction level.
pub open spec fn exceeds_qr_capacity(data: Seq<u8>) -> bool {
    forall|v: nat| 1 <= v <= MAX_VERSION ==> !#[trigger] byte_symbol_fits(data, v, QR_ERROR_CORRECTION)
}

/// The smallest version that holds some data is unique, so the symbol, and
/// the image drawn from it, depend on the text alone.
pub proof fn lemma_least_version_unique(data: Seq<u8>, v: nat, w: nat)
    requires
        least_version(data, v),
        least_version(data, w),
    ensures
        v == w,
{
    if v < w {
        assert(!byte_symbol_fits(data, v, QR_ERROR_CORRECTION));
    } else if w < v {
        assert(!byte_symbol_fits(data, w, QR_ERROR_CORRECTION));
    }
}

/// Encodes `text` as one byte-mode segment in the smallest standard version
/// that holds it, at the fixed error-correction level.
pub fn qr_modules(text: &str) -> (r: Option<QrMatrix>)
    ensures
        r is None <==> exceeds_qr_capacity(text.spec_bytes()),
        r matches Some(m) ==> {
            &&& m.wf()
            &&& exists|v: nat|
                #[trigger] least_version(text.spec_bytes(), v) && m.width == symbol_width(v)
                    && byte_symbol_of(text.spec_bytes(), v, QR_ERROR_CORRECTION) == Some(m.dark@)
        },
{
    let data = text.as_bytes();
    let mut version: u8 = 1;
    while version <= MAX_VERSION
        invariant
            1 <= version <= MAX_VERSION + 1,
            data@ == text.spec_bytes(),
            forall|u: nat| 1 <= u < version ==> !#[trigger] byte_symbol_fits(
                data@,
                u,
                QR_ERROR_CORRECTION,
            ),
        decreases MAX_VERSION + 1 - version,
    {
        if let Some(m) = byte_mode_symbol(data, version, QR_ERROR_CORRECTION) {
            assert(m.width % 4 == 1) by {
                assert(m.width == 17 + 4 * version);
            }
            assert(least_version(text.spec_bytes(), version as nat));
            return Some(m);
        }
        version = version + 1;
    }
    None
}

/// Relies on `qrcode::render::Renderer` for `Rgb<u8>`: with a four-module
/// quiet zone and `max_dimensions(max_side, max_side)`, `build` scales each
/// module to a square of whole pixels, dark modules in `dark`, the rest in
/// `light`; the buffer's `width`, `height` and `into_raw` are read back.
#[verifier::external_body]
fn render_raster(m: &QrMatrix, quiet_zone: u32, dark: [u8; 3], light: [u8; 3], max_side: u32) -> (r: Raster)
    requires
        m.wf(),
        quiet_zone == QUIET_ZONE,
    ensures
        r.width == raster_side(m.width as int, max_side as int),
        r.height == r.width,
        r.pixels@ == raster_pixels(
            m.dark@,
            m.width as int,
            r.width as int,
            unit_size(m.width as int, max_side as int),
            dark@,
            light@,
        ),
{
    let colors: Vec<qrcode::Color> = m.dark.iter().map(|&d| if d { qrcode::Color::Dark } else { qrcode::Color::Light }).collect();
    let img = qrcode::render::Renderer::<image::Rgb<u8>>::new(&colors, m.width, quiet_zone)
        .dark_color(image::Rgb(dark))
        .light_color(image::Rgb(light))
        .max_dimensions(max_side, max_side)
        .build();
    Raster { width: img.width(), height: img.height(), pixels: img.into_raw() }
}

/// Relies on image's `RgbImage::from_raw` and `DynamicImage::write_to` with
/// the PNG format into an in-memory buffer, which fails only on a zero side.
#[verifier::external_body]
fn encode_png(r: &Raster) -> (out: Option<Vec<u8>>)
    requires
        r.pixels@.len() == 3 * r.width * r.height,
    ensures
        r.width > 0 && r.height > 0 ==> out is Some,
        out matches Some(v) ==> v@ == png_of(r.width, r.height, r.pixels@),
{
    let buffer = image::RgbImage::from_raw(r.width, r.height, r.pixels.clone())?;
    let mut bytes = std::io::Cursor::new(Vec::new());
    image::DynamicImage::ImageRgb8(buffer).write_to(&mut bytes, image::ImageOutputFormat::Png).ok()?;
    Some(bytes.into_inner())
}

/// Every standard symbol, quiet zone included, fits in a raster of at most
/// `MAX_SIDE` pixels a side, of at least one pixel per module.
pub proof fn lemma_raster_side_bounds(width: int)
    requires
        21 <= width <= 177,
    ensures
        unit_size(width, MAX_SIDE as int) >= 2,
        0 < raster_side(width, MAX_SIDE as int) <= MAX_SIDE,
{
    let n: int = width + 2 * QUIET_ZONE;
    let u: int = MAX_SIDE as int / n;
    assert(u >= 2) by (nonlinear_arith)
        requires n <= 185, n > 0, u == 550int / n;
    assert(n * u <= 550) by (nonlinear_arith)
        requires n > 0, u == 550int / n;
    assert(n * u > 0) by (nonlinear_arith)
        requires n > 0, u >= 2;
}

/// Renders a module matrix as the colored, size-bounded raster and encodes
/// it as PNG.
pub fn qr_image_from_matrix(m: &QrMatrix) -> (r: Result<QrImage, LinkError>)
    requires
        m.wf(),
    ensures
        r is Ok,
        r matches Ok(img) ==> {
            &&& img.width == raster_side(m.width as int, MAX_SIDE as int)
            &&& img.height == img.width
            &&& 0 < img.width <= MAX_SIDE
            &&& img.png@ == png_of(
                img.width,
                img.height,
                raster_pixels(
                    m.dark@,
                    m.width as int,
                    img.width as int,
                    unit_size(m.width as int, MAX_SIDE as int),
                    DARK@,
                    LIGHT@,
                ),
            )
        },
        r matches Err(e) ==> e == LinkError::ImageEncodingFailure,
{
    let raster = render_raster(m, QUIET_ZONE as u32, DARK, LIGHT, MAX_SIDE);
    proof {
        lemma_raster_side_bounds(m.width as int);
    }
    match encode_png(&raster) {
        Some(png) => Ok(QrImage { width: raster.width, height: raster.height, png }),
        None => Err(LinkError::ImageEncodingFailure),
    }
}

/// Renders `text` (one byte-mode segment, medium error correction, smallest
/// version that holds it) as a QR code image of at most 550 by 550 pixels;
/// fails with `PayloadTooLarge` exactly where no QR version holds the text.
pub fn encode_qr_code_to_image_bytes(text: &str) -> (r: Result<QrImage, LinkError>)
    ensures
        exceeds_qr_capacity(text.spec_bytes()) ==> r == Err::<QrImage, LinkError>(
            LinkError::PayloadTooLarge,
        ),
        !exceeds_qr_capacity(text.spec_bytes()) ==> r is Ok,
        r matches Ok(img) ==> {
            &&& 0 < img.width && img.width == img.height && img.height <= MAX_SIDE
            &&& exists|v: nat|
                #[trigger] least_version(text.spec_bytes(), v) && img.width == raster_side(
                    symbol_width(v) as int,
                    MAX_SIDE as int,
                ) && img.png@ == png_of(
                    img.width,
                    img.height,
                    raster_pixels(
                        byte_symbol_of(text.spec_bytes(), v, QR_ERROR_CORRECTION)->Some_0,
                        symbol_width(v) as int,
                        img.width as int,
                        unit_size(symbol_width(v) as int, MAX_SIDE as int),
                        DARK@,
                        LIGHT@,
                    ),
                )
        },
{
    match qr_modules(text) {
        Some(m) => {
            let r = qr_image_from_matrix(&m);
            proof {
                let v = choose|v: nat|
                    #[trigger] least_version(text.spec_bytes(), v) && m.width == symbol_width(v)
                        && byte_symbol_of(text.spec_bytes(), v, QR_ERROR_CORRECTION) == Some(
                        m.dark@,
                    );
                assert(least_version(text.spec_bytes(), v));
            }
            r
        },
        None => Err(LinkError::PayloadTooLarge),
    }
}

} // verus!
