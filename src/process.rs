//! Threshold parameters, the image model and the thresholding kernel.
use crate::convert::{hsl_of, hsv_of, rgb_to_hsl, rgb_to_hsv, rgb_to_yuv, yuv_of};
use crate::enums::{space_named, ColorSpace};
use vstd::prelude::*;

verus! {

/// What a thresholding call keeps: a colour space and, for each of its
/// three channels ("depths"), a range and a polarity.
#[derive(Clone, Copy, Debug, PartialEq, Eq, Structural)]
pub struct ThreshParams {
    pub color_space: ColorSpace,
    pub depth1_min: u8,
    pub depth1_max: u8,
    pub depth1_pass: bool,
    pub depth2_min: u8,
    pub depth2_max: u8,
    pub depth2_pass: bool,
    pub depth3_min: u8,
    pub depth3_max: u8,
    pub depth3_pass: bool,
}

/// One channel's test. With `pass` it is the band `min <= v <= max`; without
/// it the value must lie at or below `min` and at or above `max` at once.
pub open spec fn band_holds(v: u8, min: u8, max: u8, pass: bool) -> bool {
    if pass {
        min <= v && v <= max
    } else {
        v <= min && v >= max
    }
}

impl ThreshParams {
    /// Whether a converted pixel lies in the threshold region.
    pub open spec fn admits(self, c: (u8, u8, u8)) -> bool {
        &&& band_holds(c.0, self.depth1_min, self.depth1_max, self.depth1_pass)
        &&& band_holds(c.1, self.depth2_min, self.depth2_max, self.depth2_pass)
        &&& band_holds(c.2, self.depth3_min, self.depth3_max, self.depth3_pass)
    }

    /// Every channel passes the full byte range.
    pub open spec fn admits_everything(self) -> bool {
        &&& self.depth1_pass && self.depth1_min == 0 && self.depth1_max == 255
        &&& self.depth2_pass && self.depth2_min == 0 && self.depth2_max == 255
        &&& self.depth3_pass && self.depth3_min == 0 && self.depth3_max == 255
    }

    /// The parameters after a reset: every channel passes `[0, 255]`.
    pub fn admitting_all(color_space: ColorSpace) -> (p: ThreshParams)
        ensures
            p.color_space == color_space,
            p.admits_everything(),
    {
        ThreshParams {
            color_space,
            depth1_min: 0,
            depth1_max: 255,
            depth1_pass: true,
            depth2_min: 0,
            depth2_max: 255,
            depth2_pass: true,
            depth3_min: 0,
            depth3_max: 255,
            depth3_pass: true,
        }
    }

    /// Builds parameters from the state of the controls: the selected colour
    /// space by name, and per channel its minimum, maximum and polarity.
    /// An unknown colour-space name gives `None`.
    pub fn from_choice(choice: &str, mins: [u8; 3], maxs: [u8; 3], passes: [bool; 3]) -> (r: Option<
        ThreshParams,
    >)
        ensures
            r is None <==> space_named(choice@) is None,
            r matches Some(p) ==> {
                &&& Some(p.color_space) == space_named(choice@)
                &&& p.depth1_min == mins[0] && p.depth1_max == maxs[0] && p.depth1_pass == passes[0]
                &&& p.depth2_min == mins[1] && p.depth2_max == maxs[1] && p.depth2_pass == passes[1]
                &&& p.depth3_min == mins[2] && p.depth3_max == maxs[2] && p.depth3_pass == passes[2]
            },
    {
        match ColorSpace::from_str(choice) {
            None => None,
            Some(color_space) => Some(
                ThreshParams {
                    color_space,
                    depth1_min: mins[0],
                    depth1_max: maxs[0],
                    depth1_pass: passes[0],
                    depth2_min: mins[1],
                    depth2_max: maxs[1],
                    depth2_pass: passes[1],
                    depth3_min: mins[2],
                    depth3_max: maxs[2],
                    depth3_pass: passes[2],
                },
            ),
        }
    }
}

fn band_test(v: u8, min: u8, max: u8, pass: bool) -> (r: bool)
    ensures
        r == band_holds(v, min, max, pass),
{
    if pass {
        v >= min && v <= max
    } else {
        v <= min && v >= max
    }
}

/// The spaces whose conversion is exact rational arithmetic; HSI needs an
/// arc cosine for its hue and CIE L*a*b* a cube root.
pub open spec fn is_exact_space(s: ColorSpace) -> bool {
    !(s == ColorSpace::HSI || s == ColorSpace::LabCIE)
}

/// The bytes that a pixel converts to in an exact colour space.
pub open spec fn converted(r: u8, g: u8, b: u8, s: ColorSpace) -> Option<(u8, u8, u8)> {
    match s {
        ColorSpace::RGB => Some((r, g, b)),
        ColorSpace::HSBorHSV => Some(hsv_of(r, g, b)),
        ColorSpace::HSL => Some(hsl_of(r, g, b)),
        ColorSpace::YUV => Some(yuv_of(r, g, b)),
        _ => None,
    }
}

/// Converts an RGB pixel into `target`. The result is `None` exactly for the
/// spaces that are not exact rational arithmetic (HSI and CIE L*a*b*).
pub fn convert_from_rgb(u8_rgb: [u8; 3], target: ColorSpace) -> (r: Option<[u8; 3]>)
    ensures
        r is Some <==> is_exact_space(target),
        target == ColorSpace::RGB ==> r == Some(u8_rgb),
        r matches Some(c) ==> converted(u8_rgb[0], u8_rgb[1], u8_rgb[2], target) == Some(
            (c[0], c[1], c[2]),
        ),
{
    let (r, g, b) = (u8_rgb[0], u8_rgb[1], u8_rgb[2]);
    match target {
        ColorSpace::RGB => Some(u8_rgb),
        ColorSpace::HSBorHSV => Some(rgb_to_hsv(r, g, b)),
        ColorSpace::HSL => Some(rgb_to_hsl(r, g, b)),
        ColorSpace::YUV => Some(rgb_to_yuv(r, g, b)),
        _ => None,
    }
}

/// The channel layouts of an image, eight bits per channel.
#[derive(Clone, Copy, Debug, PartialEq, Eq, Structural)]
pub enum ColorType {
    L8,
    La8,
    Rgb8,
    Rgba8,
}

/// The number of bytes of one pixel.
pub open spec fn channels(c: ColorType) -> nat {
    match c {
        ColorType::L8 => 1,
        ColorType::La8 => 2,
        ColorType::Rgb8 => 3,
        ColorType::Rgba8 => 4,
    }
}

impl ColorType {
    /// The number of bytes of one pixel.
    pub fn channel_count(&self) -> (n: usize)
        ensures
            n == channels(*self),
    {
        match self {
            ColorType::L8 => 1,
            ColorType::La8 => 2,
            ColorType::Rgb8 => 3,
            ColorType::Rgba8 => 4,
        }
    }
}

/// The sRGB luma of a colour: `(2126 r + 7152 g + 722 b) / 10000`, rounded down.
pub open spec fn luma(r: u8, g: u8, b: u8) -> u8 {
    ((2126 * r + 7152 * g + 722 * b) / 10000) as u8
}

/// Relies on image's `Pixel::to_luma` for `Rgba<u8>`, which computes the
/// luma above in `u32` and does not read alpha.
#[verifier::external_body]
fn luma_of(r: u8, g: u8, b: u8) -> (l: u8)
    ensures
        l == luma(r, g, b),
{
    image::Pixel::to_luma(&image::Rgba([r, g, b, 255])).0[0]
}

/// The bytes that an RGBA colour is stored as in a layout: grey layouts keep
/// its luma, layouts without alpha drop the alpha.
pub open spec fn narrow(c: ColorType, r: u8, g: u8, b: u8, a: u8) -> Seq<u8> {
    match c {
        ColorType::L8 => seq![luma(r, g, b)],
        ColorType::La8 => seq![luma(r, g, b), a],
        ColorType::Rgb8 => seq![r, g, b],
        ColorType::Rgba8 => seq![r, g, b, a],
    }
}

fn narrow_exec(c: ColorType, r: u8, g: u8, b: u8, a: u8) -> (v: Vec<u8>)
    ensures
        v@ == narrow(c, r, g, b, a),
{
    match c {
        ColorType::L8 => vec![luma_of(r, g, b)],
        ColorType::La8 => vec![luma_of(r, g, b), a],
        ColorType::Rgb8 => vec![r, g, b],
        ColorType::Rgba8 => vec![r, g, b, a],
    }
}

/// What an image is: its size, its layout and its bytes, row by row.
pub struct ImageView {
    pub width: nat,
    pub height: nat,
    pub color: ColorType,
    pub bytes: Seq<u8>,
}

impl ImageView {
    pub open spec fn pixel_count(self) -> nat {
        self.width * self.height
    }

    /// The bytes hold exactly one pixel per grid position.
    pub open spec fn wf(self) -> bool {
        self.bytes.len() == self.pixel_count() * channels(self.color)
    }

    /// Pixel `j` (in row-major order) widened to RGBA: grey repeats its
    /// level, and a missing alpha is 255.
    pub open spec fn rgba(self, j: int) -> (u8, u8, u8, u8) {
        let n = channels(self.color) as int;
        let p = |k: int| self.bytes[j * n + k];
        match self.color {
            ColorType::L8 => (p(0), p(0), p(0), 255u8),
            ColorType::La8 => (p(0), p(0), p(0), p(1)),
            ColorType::Rgb8 => (p(0), p(1), p(2), 255u8),
            ColorType::Rgba8 => (p(0), p(1), p(2), p(3)),
        }
    }
}

/// Byte `t` of the image that thresholding `img` gives, where `conv[j]` is
/// pixel `j` converted into the parameters' colour space: a pixel in the
/// region keeps its bytes, any other takes the replacement colour with
/// alpha 255.
pub open spec fn thresholded_byte(
    img: ImageView,
    conv: Seq<(u8, u8, u8)>,
    params: ThreshParams,
    color: (u8, u8, u8),
    t: int,
) -> u8 {
    let n = channels(img.color) as int;
    if params.admits(conv[t / n]) {
        img.bytes[t]
    } else {
        narrow(img.color, color.0, color.1, color.2, 255)[t % n]
    }
}

/// The image that thresholding `img` gives: same size and layout, each
/// byte as `thresholded_byte` says.
pub open spec fn thresholded(
    img: ImageView,
    conv: Seq<(u8, u8, u8)>,
    params: ThreshParams,
    color: (u8, u8, u8),
) -> ImageView {
    ImageView {
        bytes: Seq::new(img.bytes.len(), |t: int| thresholded_byte(img, conv, params, color, t)),
        ..img
    }
}

/// Converted pixels held as arrays, read as triples.
pub open spec fn triples(v: Seq<[u8; 3]>) -> Seq<(u8, u8, u8)> {
    Seq::new(v.len(), |j: int| (v[j][0], v[j][1], v[j][2]))
}

/// Every exact conversion is defined on the whole RGB cube and gives three
/// channels in `[0, 255]`; only HSI and CIE L*a*b* are left to the caller.
pub proof fn lemma_conversion_in_byte_range(r: u8, g: u8, b: u8, s: ColorSpace)
    ensures
        converted(r, g, b, s) is Some <==> is_exact_space(s),
        converted(r, g, b, s) matches Some(c) ==> {
            &&& 0 <= c.0 <= 255
            &&& 0 <= c.1 <= 255
            &&& 0 <= c.2 <= 255
        },
{
}

/// Converting into RGB hands the pixel back unchanged.
pub proof fn lemma_rgb_is_identity(r: u8, g: u8, b: u8)
    ensures
        converted(r, g, b, ColorSpace::RGB) == Some((r, g, b)),
{
}

/// A reject band whose minimum lies below its maximum admits no value.
pub proof fn lemma_reject_band_below_max_is_empty(v: u8, min: u8, max: u8)
    requires
        min < max,
    ensures
        !band_holds(v, min, max, false),
{
}

/// Thresholding keeps the width, the height and the layout of the image,
/// and with them the number of bytes.
pub proof fn lemma_threshold_keeps_shape(
    img: ImageView,
    conv: Seq<(u8, u8, u8)>,
    params: ThreshParams,
    color: (u8, u8, u8),
)
    ensures
        thresholded(img, conv, params, color).width == img.width,
        thresholded(img, conv, params, color).height == img.height,
        thresholded(img, conv, params, color).color == img.color,
        thresholded(img, conv, params, color).bytes.len() == img.bytes.len(),
        img.wf() ==> thresholded(img, conv, params, color).wf(),
{
}

/// With parameters that pass every channel over `[0, 255]`, thresholding
/// gives back the image unchanged, whatever the conversions.
pub proof fn lemma_admitting_all_keeps_image(
    img: ImageView,
    conv: Seq<(u8, u8, u8)>,
    params: ThreshParams,
    color: (u8, u8, u8),
)
    requires
        params.admits_everything(),
    ensures
        thresholded(img, conv, params, color) == img,
{
    assert(thresholded(img, conv, params, color).bytes =~= img.bytes);
}

/// Thresholding depends on its inputs alone: equal images, conversions,
/// parameters and replacement colours give equal results.
pub proof fn lemma_threshold_is_deterministic(
    a: ImageView,
    b: ImageView,
    conv_a: Seq<(u8, u8, u8)>,
    conv_b: Seq<(u8, u8, u8)>,
    params_a: ThreshParams,
    params_b: ThreshParams,
    color_a: (u8, u8, u8),
    color_b: (u8, u8, u8),
)
    requires
        a == b,
        conv_a == conv_b,
        params_a == params_b,
        color_a == color_b,
    ensures
        thresholded(a, conv_a, params_a, color_a) == thresholded(b, conv_b, params_b, color_b),
{
}

/// Every pixel of `img` converted into an exact colour space.
pub open spec fn exact_conversions(img: ImageView, s: ColorSpace) -> Seq<(u8, u8, u8)> {
    Seq::new(
        img.pixel_count(),
        |j: int| converted(img.rgba(j).0, img.rgba(j).1, img.rgba(j).2, s).unwrap(),
    )
}

/// Byte `j * n + k` of an image with `p` pixels of `n` bytes lies inside it,
/// and belongs to pixel `j`.
proof fn lemma_pixel_byte(j: int, k: int, n: int, p: int)
    requires
        0 <= j < p,
        0 <= k < n,
    ensures
        0 <= j * n + k < p * n,
        (j * n + k) / n == j,
        (j * n + k) % n == k,
{
    assert(0 <= j * n + k < p * n) by (nonlinear_arith)
        requires
            0 <= j < p,
            0 <= k < n,
    ;
    vstd::arithmetic::div_mod::lemma_fundamental_div_mod_converse(j * n + k, n, j, k);
}

/// Pixel by pixel, thresholding either keeps a pixel's bytes (when its
/// conversion is in the region) or stores the replacement colour with
/// alpha 255 in the image's layout.
pub proof fn lemma_each_pixel_kept_or_replaced(
    img: ImageView,
    conv: Seq<(u8, u8, u8)>,
    params: ThreshParams,
    color: (u8, u8, u8),
    j: int,
)
    requires
        img.wf(),
        0 <= j < img.pixel_count(),
    ensures
        ({
            let n = channels(img.color) as int;
            let out = thresholded(img, conv, params, color).bytes.subrange(j * n, j * n + n);
            if params.admits(conv[j]) {
                out == img.bytes.subrange(j * n, j * n + n)
            } else {
                out == narrow(img.color, color.0, color.1, color.2, 255)
            }
        }),
{
    let n = channels(img.color) as int;
    let p = img.pixel_count() as int;
    let out = thresholded(img, conv, params, color).bytes.subrange(j * n, j * n + n);
    assert forall|k: int| 0 <= k < n implies #[trigger] out[k] == if params.admits(conv[j]) {
        img.bytes[j * n + k]
    } else {
        narrow(img.color, color.0, color.1, color.2, 255)[k]
    } by {
        lemma_pixel_byte(j, k, n, p);
    }
    lemma_pixel_byte(j, n - 1, n, p);
    if params.admits(conv[j]) {
        assert(out =~= img.bytes.subrange(j * n, j * n + n));
    } else {
        assert(out =~= narrow(img.color, color.0, color.1, color.2, 255));
    }
}

/// An image held as bytes in one of the four eight-bit layouts.
#[derive(Debug, PartialEq, Eq)]
pub struct ImageToProc {
    width: u32,
    height: u32,
    color: ColorType,
    data: Vec<u8>,
}

impl Clone for ImageToProc {
    fn clone(&self) -> (r: ImageToProc)
        ensures
            r@ == self@,
    {
        proof {
            use_type_invariant(self);
        }
        ImageToProc { width: self.width, height: self.height, color: self.color, data: self.data.clone() }
    }
}

impl View for ImageToProc {
    type V = ImageView;

    closed spec fn view(&self) -> ImageView {
        ImageView {
            width: self.width as nat,
            height: self.height as nat,
            color: self.color,
            bytes: self.data@,
        }
    }
}

impl ImageToProc {
    #[verifier::type_invariant]
    spec fn well_formed(&self) -> bool {
        self@.wf()
    }

    /// Whether a pixel is in the threshold region of `params`: each of its
    /// three converted channels passes that channel's test.
    pub fn is_pixel_in_threshold(pixel: [u8; 3], params: &ThreshParams) -> (r: bool)
        ensures
            r == params.admits((pixel[0], pixel[1], pixel[2])),
    {
        let d1_b = band_test(pixel[0], params.depth1_min, params.depth1_max, params.depth1_pass);
        let d2_b = band_test(pixel[1], params.depth2_min, params.depth2_max, params.depth2_pass);
        let d3_b = band_test(pixel[2], params.depth3_min, params.depth3_max, params.depth3_pass);
        d1_b && d2_b && d3_b
    }

    /// Wraps the bytes of an image; `None` when their number is not
    /// `width * height` pixels of the layout.
    pub fn from_raw(width: u32, height: u32, color: ColorType, data: Vec<u8>) -> (r: Option<
        ImageToProc,
    >)
        ensures
            r is Some <==> data@.len() == width * height * channels(color),
            r matches Some(img) ==> img@ == (ImageView {
                width: width as nat,
                height: height as nat,
                color,
                bytes: data@,
            }),
    {
        let n = color.channel_count() as u128;
        assert((width as u128) * (height as u128) * n <= 0x4_0000_0000_0000_0000u128) by (nonlinear_arith)
            requires
                n <= 4,
        ;
        let need = (width as u128) * (height as u128) * n;
        if data.len() as u128 != need {
            return None;
        }
        Some(ImageToProc { width, height, color, data })
    }

    /// A one-pixel black RGB image.
    pub fn blank() -> (r: ImageToProc)
        ensures
            r@ == (ImageView { width: 1, height: 1, color: ColorType::Rgb8, bytes: seq![0u8, 0u8, 0u8] }),
    {
        let data = vec![0u8, 0u8, 0u8];
        proof {
            assert(data@ =~= seq![0u8, 0u8, 0u8]);
            assert(data@.len() == 1nat * 1nat * 3nat);
        }
        ImageToProc { width: 1, height: 1, color: ColorType::Rgb8, data }
    }

    /// The parts of an image: its bytes, width, height and layout.
    pub fn deconstruct(img: &ImageToProc) -> (r: (&[u8], u32, u32, ColorType))
        ensures
            r.0@ == img@.bytes,
            r.1 == img@.width,
            r.2 == img@.height,
            r.3 == img@.color,
    {
        (img.data.as_slice(), img.width, img.height, img.color)
    }

    /// The number of pixels.
    pub fn pixel_count(&self) -> (n: usize)
        ensures
            n == self@.pixel_count(),
    {
        proof {
            use_type_invariant(self);
            vstd::arithmetic::div_mod::lemma_div_by_multiple(
                self@.pixel_count() as int,
                channels(self.color) as int,
            );
        }
        let n = self.color.channel_count();
        self.data.len() / n
    }

    /// Every pixel widened to RGBA, in row-major order.
    pub fn rgba_pixels(&self) -> (v: Vec<[u8; 4]>)
        ensures
            v@.len() == self@.pixel_count(),
            forall|j: int|
                0 <= j < v@.len() ==> ((#[trigger] v@[j])[0], v@[j][1], v@[j][2], v@[j][3])
                    == self@.rgba(j),
    {
        proof {
            use_type_invariant(self);
        }
        let n = self.color.channel_count();
        let p = self.pixel_count();
        let len = self.data.len();
        let mut v: Vec<[u8; 4]> = Vec::with_capacity(p);
        for j in 0..p
            invariant
                len == self.data@.len(),
                n == channels(self.color),
                p == self@.pixel_count(),
                self@.wf(),
                v@.len() == j,
                forall|i: int|
                    0 <= i < j ==> ((#[trigger] v@[i])[0], v@[i][1], v@[i][2], v@[i][3])
                        == self@.rgba(i),
        {
            proof {
                assert(p * n == self.data@.len());
                lemma_pixel_byte(j as int, 0, n as int, p as int);
                lemma_pixel_byte(j as int, n - 1, n as int, p as int);
                assert(1 <= n <= 4);
                assert(j * n + (n - 1) < self.data@.len());
            }
            let base = j * n;
            let px = match self.color {
                ColorType::L8 => [self.data[base], self.data[base], self.data[base], 255],
                ColorType::La8 => [self.data[base], self.data[base], self.data[base], self.data[base + 1]],
                ColorType::Rgb8 => [self.data[base], self.data[base + 1], self.data[base + 2], 255],
                ColorType::Rgba8 => [
                    self.data[base],
                    self.data[base + 1],
                    self.data[base + 2],
                    self.data[base + 3],
                ],
            };
            v.push(px);
        }
        v
    }

    /// Thresholds the image with the pixels already converted into the
    /// parameters' colour space (`converted[j]` for pixel `j`), returning a
    /// new image of the same size and layout.
    pub fn threshold_converted(
        &self,
        converted: &Vec<[u8; 3]>,
        params: ThreshParams,
        thresh_color: (u8, u8, u8),
    ) -> (r: ImageToProc)
        requires
            converted@.len() == self@.pixel_count(),
        ensures
            r@.width == self@.width,
            r@.height == self@.height,
            r@.color == self@.color,
            r@ == thresholded(self@, triples(converted@), params, thresh_color),
    {
        proof {
            use_type_invariant(self);
        }
        let ghost conv = triples(converted@);
        let n = self.color.channel_count();
        let p = self.pixel_count();
        let len = self.data.len();
        let repl = narrow_exec(self.color, thresh_color.0, thresh_color.1, thresh_color.2, 255);
        let mut out: Vec<u8> = Vec::with_capacity(len);
        for j in 0..p
            invariant
                len == self.data@.len(),
                len == p * n,
                1 <= n <= 4,
                n == channels(self.color),
                p == self@.pixel_count(),
                p == converted@.len(),
                conv == triples(converted@),
                repl@ == narrow(self.color, thresh_color.0, thresh_color.1, thresh_color.2, 255),
                out@.len() == j * n,
                forall|t: int|
                    0 <= t < out@.len() ==> #[trigger] out@[t] == thresholded_byte(
                        self@,
                        conv,
                        params,
                        thresh_color,
                        t,
                    ),
        {
            let keep = ImageToProc::is_pixel_in_threshold(converted[j], &params);
            assert(keep == params.admits(conv[j as int]));
            for k in 0..n
                invariant
                    len == self.data@.len(),
                    len == p * n,
                    1 <= n <= 4,
                    n == channels(self.color),
                    j < p,
                    conv == triples(converted@),
                    keep == params.admits(conv[j as int]),
                    repl@ == narrow(self.color, thresh_color.0, thresh_color.1, thresh_color.2, 255),
                    out@.len() == j * n + k,
                    forall|t: int|
                        0 <= t < out@.len() ==> #[trigger] out@[t] == thresholded_byte(
                            self@,
                            conv,
                            params,
                            thresh_color,
                            t,
                        ),
            {
                proof {
                    lemma_pixel_byte(j as int, k as int, n as int, p as int);
                    assert(repl@.len() == n);
                }
                let byte = if keep {
                    self.data[j * n + k]
                } else {
                    repl[k]
                };
                out.push(byte);
            }
            assert(out@.len() == (j + 1) * n) by (nonlinear_arith)
                requires
                    out@.len() == j * n + n,
            ;
        }
        let r = ImageToProc { width: self.width, height: self.height, color: self.color, data: out };
        assert(r@.bytes =~= thresholded(self@, conv, params, thresh_color).bytes);
        r
    }

    /// Thresholds the image in the parameters' colour space: each pixel in
    /// the region keeps its bytes, every other one takes `thresh_color` with
    /// alpha 255. `None` when that colour space is not exact rational
    /// arithmetic; `threshold_converted` takes such conversions from the caller.
    pub fn threshold_img(&self, params: ThreshParams, thresh_color: (u8, u8, u8)) -> (r: Option<
        ImageToProc,
    >)
        ensures
            r is Some <==> is_exact_space(params.color_space),
            r matches Some(img) ==> {
                &&& img@.width == self@.width
                &&& img@.height == self@.height
                &&& img@.color == self@.color
                &&& img@ == thresholded(
                    self@,
                    exact_conversions(self@, params.color_space),
                    params,
                    thresh_color,
                )
            },
    {
        match params.color_space {
            ColorSpace::HSI | ColorSpace::LabCIE => {
                return None;
            },
            _ => {},
        }
        let px = self.rgba_pixels();
        let mut conv: Vec<[u8; 3]> = Vec::with_capacity(px.len());
        for j in 0..px.len()
            invariant
                is_exact_space(params.color_space),
                px@.len() == self@.pixel_count(),
                forall|i: int|
                    0 <= i < px@.len() ==> ((#[trigger] px@[i])[0], px@[i][1], px@[i][2], px@[i][3])
                        == self@.rgba(i),
                conv@.len() == j,
                forall|i: int|
                    0 <= i < j ==> Some(#[trigger] triples(conv@)[i]) == converted(
                        self@.rgba(i).0,
                        self@.rgba(i).1,
                        self@.rgba(i).2,
                        params.color_space,
                    ),
        {
            let rgb = [px[j][0], px[j][1], px[j][2]];
            assert(rgb[0] == self@.rgba(j as int).0 && rgb[1] == self@.rgba(j as int).1 && rgb[2]
                == self@.rgba(j as int).2);
            let c = convert_from_rgb(rgb, params.color_space).unwrap();
            let ghost before = conv@;
            conv.push(c);
            assert forall|i: int| 0 <= i < j implies Some(#[trigger] triples(conv@)[i]) == converted(
                self@.rgba(i).0,
                self@.rgba(i).1,
                self@.rgba(i).2,
                params.color_space,
            ) by {
                assert(conv@[i] == before[i]);
                assert(triples(conv@)[i] == triples(before)[i]);
            }
            assert(triples(conv@)[j as int] == (c[0], c[1], c[2]));
            assert(Some(triples(conv@)[j as int]) == converted(
                self@.rgba(j as int).0,
                self@.rgba(j as int).1,
                self@.rgba(j as int).2,
                params.color_space,
            ));
        }
        assert(triples(conv@) =~= exact_conversions(self@, params.color_space));
        Some(self.threshold_converted(&conv, params, thresh_color))
    }
}

} // verus!
