//! RGB rasters with eight bits per channel, their mathematical model, and the
//! operations a mosaic is built from. Decoding and pixel copying are done by
//! the `image` crate; the contracts of those calls are stated here and
//! everything else is proved from them.

use vstd::prelude::*;
use vstd::arithmetic::div_mod::{lemma_fundamental_div_mod, lemma_fundamental_div_mod_converse,
    lemma_mod_pos_bound};

verus! {

/// Model of a raster: its dimensions and its samples, row after row, three
/// per pixel in the order red, green, blue.
pub struct RasterView {
    pub width: nat,
    pub height: nat,
    pub data: Seq<u8>,
}

impl RasterView {
    /// There are exactly three samples per pixel.
    pub open spec fn wf(self) -> bool {
        self.data.len() == 3 * self.width * self.height
    }

    /// Pixel `(i, j)` lies inside the raster.
    pub open spec fn contains(self, i: int, j: int) -> bool {
        0 <= i < self.width && 0 <= j < self.height
    }

    /// Position in `data` of channel `c` of pixel `(i, j)`.
    pub open spec fn offset(self, i: int, j: int, c: int) -> int {
        3 * (j * self.width + i) + c
    }

    /// Channel `c` of pixel `(i, j)`.
    pub open spec fn sample(self, i: int, j: int, c: int) -> u8 {
        self.data[self.offset(i, j, c)]
    }

    /// The raster of the given size with every sample zero.
    pub open spec fn blank(width: nat, height: nat) -> RasterView {
        RasterView { width, height, data: Seq::new(3 * width * height, |k: int| 0u8) }
    }

    /// This raster with `top` copied over it, the top-left corner of `top`
    /// at pixel `(x, y)`; what falls outside this raster is dropped.
    pub open spec fn overlaid(self, top: RasterView, x: int, y: int) -> RasterView {
        RasterView {
            width: self.width,
            height: self.height,
            data: Seq::new(
                self.data.len(),
                |k: int|
                    {
                        let i = (k / 3) % (self.width as int);
                        let j = (k / 3) / (self.width as int);
                        if x <= i < x + top.width && y <= j < y + top.height {
                            top.sample(i - x, j - y, k % 3)
                        } else {
                            self.data[k]
                        }
                    },
            ),
        }
    }

    /// Every in-bounds sample has its own position in `data`, from which the
    /// pixel and the channel can be read back.
    pub proof fn lemma_offset(self, i: int, j: int, c: int)
        requires
            self.wf(),
            self.contains(i, j),
            0 <= c < 3,
        ensures
            0 <= self.offset(i, j, c) < self.data.len(),
            self.offset(i, j, c) / 3 == j * self.width + i,
            self.offset(i, j, c) % 3 == c,
            (j * self.width + i) % (self.width as int) == i,
            (j * self.width + i) / (self.width as int) == j,
    {
        let w = self.width as int;
        let h = self.height as int;
        let p = j * w + i;
        assert(0 <= p < w * h) by (nonlinear_arith)
            requires
                0 <= i < w,
                0 <= j < h,
                p == j * w + i,
        ;
        assert(3 * w * h == 3 * (w * h)) by (nonlinear_arith);
        lemma_fundamental_div_mod_converse(3 * p + c, 3, p, c);
        lemma_fundamental_div_mod_converse(p, w, j, i);
    }

    /// Two well-formed rasters of one size with the same samples are equal.
    pub proof fn lemma_equal_by_samples(self, other: RasterView)
        requires
            self.wf(),
            other.wf(),
            self.width == other.width,
            self.height == other.height,
            forall|i: int, j: int, c: int|
                self.contains(i, j) && 0 <= c < 3 ==> self.sample(i, j, c) == other.sample(
                    i,
                    j,
                    c,
                ),
        ensures
            self == other,
    {
        let w = self.width as int;
        assert forall|k: int| 0 <= k < self.data.len() implies self.data[k] == other.data[k] by {
            let h = self.height as int;
            assert(3 * w * h == 3 * (w * h)) by (nonlinear_arith);
            assert(w > 0) by (nonlinear_arith)
                requires
                    0 <= k < 3 * (w * h),
                    w >= 0,
            ;
            let p = k / 3;
            let c = k % 3;
            let i = p % w;
            let j = p / w;
            lemma_fundamental_div_mod(p, w);
            lemma_mod_pos_bound(p, w);
            assert(0 <= j < h) by (nonlinear_arith)
                requires
                    0 <= p < w * h,
                    w > 0,
                    p == w * j + i,
                    0 <= i < w,
            ;
            assert(w * j == j * w) by (nonlinear_arith);
            assert(self.offset(i, j, c) == k);
            assert(self.sample(i, j, c) == other.sample(i, j, c));
        }
        assert(self.data =~= other.data);
    }

    /// What `overlaid` does, pixel by pixel: inside the rectangle of `top`
    /// the samples are those of `top`, elsewhere they are unchanged.
    pub proof fn lemma_overlaid_sample(self, top: RasterView, x: int, y: int, i: int, j: int, c: int)
        requires
            self.wf(),
            self.contains(i, j),
            0 <= c < 3,
        ensures
            self.overlaid(top, x, y).wf(),
            self.overlaid(top, x, y).width == self.width,
            self.overlaid(top, x, y).height == self.height,
            self.overlaid(top, x, y).sample(i, j, c) == (if x <= i < x + top.width && y <= j < y
                + top.height {
                top.sample(i - x, j - y, c)
            } else {
                self.sample(i, j, c)
            }),
    {
        self.lemma_offset(i, j, c);
    }

    /// A blank raster is well formed and zero everywhere.
    pub proof fn lemma_blank_sample(width: nat, height: nat, i: int, j: int, c: int)
        requires
            Self::blank(width, height).contains(i, j),
            0 <= c < 3,
        ensures
            Self::blank(width, height).wf(),
            Self::blank(width, height).sample(i, j, c) == 0,
    {
        Self::blank(width, height).lemma_offset(i, j, c);
    }
}

/// An RGB raster with eight bits per channel.
pub struct Raster {
    width: u32,
    height: u32,
    data: Vec<u8>,
}

impl View for Raster {
    type V = RasterView;

    closed spec fn view(&self) -> RasterView {
        RasterView { width: self.width as nat, height: self.height as nat, data: self.data@ }
    }
}

/// Makes `image::DynamicImage`, a decoded picture of any pixel format, known
/// as a type whose inside is not looked at.
#[verifier::external_type_specification]
#[verifier::external_body]
pub struct ExDynamicImage(image::DynamicImage);

/// Makes `image::ImageError`, the reason a picture could not be decoded,
/// known as a type whose inside is not looked at.
#[verifier::external_type_specification]
#[verifier::external_body]
pub struct ExImageError(image::ImageError);

/// The pixels of a decoded picture as RGB with eight bits per channel, as
/// `DynamicImage::to_rgb8` gives them: the width, the height and the raw
/// samples.
pub uninterp spec fn rgb8_of(picture: image::DynamicImage) -> (u32, u32, Seq<u8>);

/// What `image::load_from_memory` makes of a byte string: `None` where the
/// bytes are not an image it can read, else the pixels of the picture.
pub uninterp spec fn decoded_rgb8(bytes: Seq<u8>) -> Option<(u32, u32, Seq<u8>)>;

/// The raster that a byte string decodes to, if it is an image.
pub open spec fn decoded_tile(bytes: Seq<u8>) -> Option<RasterView> {
    match decoded_rgb8(bytes) {
        Some((width, height, samples)) => Raster::spec_from_raw(width, height, samples),
        None => None,
    }
}

/// Calls `image::load_from_memory`. Trusted: whether the bytes decode, and
/// to which pixels, depends on the bytes alone.
#[verifier::external_body]
fn load_picture(bytes: &[u8]) -> (r: Result<image::DynamicImage, image::ImageError>)
    ensures
        r is Ok <==> decoded_rgb8(bytes@) is Some,
        r is Ok ==> Some(rgb8_of(r->Ok_0)) == decoded_rgb8(bytes@),
{
    image::load_from_memory(bytes)
}

/// Calls `DynamicImage::to_rgb8` and takes the resulting buffer apart.
/// Trusted: the buffer holds at least three samples per pixel.
#[verifier::external_body]
fn picture_to_rgb8(picture: &image::DynamicImage) -> (r: (u32, u32, Vec<u8>))
    ensures
        (r.0, r.1, r.2@) == rgb8_of(*picture),
        3 * r.0 * r.1 <= r.2@.len(),
{
    let rgb = picture.to_rgb8();
    (rgb.width(), rgb.height(), rgb.into_raw())
}

/// Calls `image::RgbImage::new`. Trusted: the new image has the given size
/// and every sample is zero. The call panics where the buffer would be
/// larger than a vector can be, which the precondition rules out.
#[verifier::external_body]
fn blank_rgb8(width: u32, height: u32) -> (r: Raster)
    requires
        3 * width * height <= isize::MAX,
    ensures
        r@ == RasterView::blank(width as nat, height as nat),
{
    Raster { width, height, data: image::RgbImage::new(width, height).into_raw() }
}

/// Calls `image::imageops::overlay` on RGB buffers. Trusted: pixels of
/// `bottom` under the rectangle of `top` placed at `(x, y)` become those of
/// `top`, RGB pixels having no transparency; all other pixels and the size
/// stay as they were.
#[verifier::external_body]
fn overlay_rgb8(bottom: &mut Raster, top: &Raster, x: u32, y: u32)
    requires
        old(bottom)@.wf(),
        top@.wf(),
    ensures
        final(bottom)@ == old(bottom)@.overlaid(top@, x as int, y as int),
{
    let (width, height) = (bottom.width, bottom.height);
    let mut below = image::ImageBuffer::<image::Rgb<u8>, &mut [u8]>::from_raw(
        width,
        height,
        &mut bottom.data[..],
    ).unwrap();
    let above = image::ImageBuffer::<image::Rgb<u8>, &[u8]>::from_raw(
        top.width,
        top.height,
        &top.data[..],
    ).unwrap();
    image::imageops::overlay(&mut below, &above, i64::from(x), i64::from(y));
}

impl Raster {
    /// There are exactly three samples per pixel.
    pub open spec fn wf(&self) -> bool {
        self@.wf()
    }

    /// The raster made of the first `3·width·height` samples of a buffer, if
    /// the buffer holds that many.
    pub open spec fn spec_from_raw(width: u32, height: u32, samples: Seq<u8>) -> Option<
        RasterView,
    > {
        if 3 * width * height <= samples.len() {
            Some(
                RasterView {
                    width: width as nat,
                    height: height as nat,
                    data: samples.subrange(0, 3 * width * height),
                },
            )
        } else {
            None
        }
    }

    /// Builds a raster from raw samples, row after row, three per pixel.
    /// Samples beyond the last pixel are dropped; a buffer that is too short
    /// gives `None`.
    pub fn from_raw(width: u32, height: u32, samples: Vec<u8>) -> (r: Option<Raster>)
        ensures
            r is Some <==> 3 * width * height <= samples@.len(),
            r is Some ==> r->0.wf() && Some(r->0@) == Self::spec_from_raw(width, height, samples@),
    {
        assert(0 <= 3 * (width as int) * (height as int) <= 3 * 0xFFFF_FFFF * 0xFFFF_FFFF)
            by (nonlinear_arith)
            requires
                0 <= width <= 0xFFFF_FFFF,
                0 <= height <= 0xFFFF_FFFF,
        ;
        let needed: u128 = 3 * (width as u128) * (height as u128);
        if needed <= samples.len() as u128 {
            let mut data = samples;
            data.truncate(needed as usize);
            Some(Raster { width, height, data })
        } else {
            None
        }
    }

    /// Decodes an encoded image into an RGB raster, whatever its own pixel
    /// format; `None` where the bytes are not an image.
    pub fn decode(bytes: &[u8]) -> (r: Option<Raster>)
        ensures
            r is Some <==> decoded_tile(bytes@) is Some,
            r is Some ==> r->0.wf() && Some(r->0@) == decoded_tile(bytes@),
    {
        match load_picture(bytes) {
            Ok(picture) => {
                let (width, height, samples) = picture_to_rgb8(&picture);
                Self::from_raw(width, height, samples)
            },
            Err(_) => None,
        }
    }

    /// A raster of the given size with every sample zero.
    pub fn blank(width: u32, height: u32) -> (r: Raster)
        requires
            3 * width * height <= isize::MAX,
        ensures
            r.wf(),
            r@ == RasterView::blank(width as nat, height as nat),
    {
        blank_rgb8(width, height)
    }

    /// Copies `top` over this raster with its top-left corner at `(x, y)`.
    pub fn overlay(&mut self, top: &Raster, x: u32, y: u32)
        requires
            old(self).wf(),
            top.wf(),
        ensures
            final(self).wf(),
            final(self)@ == old(self)@.overlaid(top@, x as int, y as int),
    {
        overlay_rgb8(self, top, x, y);
    }

    /// Width in pixels.
    pub fn width(&self) -> (w: u32)
        ensures
            w == self@.width,
    {
        self.width
    }

    /// Height in pixels.
    pub fn height(&self) -> (h: u32)
        ensures
            h == self@.height,
    {
        self.height
    }

    /// The samples, row after row, three per pixel.
    pub fn as_raw(&self) -> (samples: &Vec<u8>)
        ensures
            samples@ == self@.data,
    {
        &self.data
    }

    /// Gives up the raster for its samples.
    pub fn into_raw(self) -> (samples: Vec<u8>)
        ensures
            samples@ == self@.data,
    {
        self.data
    }

    /// The red, green and blue samples of pixel `(i, j)`, or `None` outside
    /// the raster.
    pub fn pixel(&self, i: u32, j: u32) -> (p: Option<(u8, u8, u8)>)
        requires
            self.wf(),
        ensures
            p is Some <==> self@.contains(i as int, j as int),
            p is Some ==> p->0 == (
                self@.sample(i as int, j as int, 0),
                self@.sample(i as int, j as int, 1),
                self@.sample(i as int, j as int, 2),
            ),
    {
        if i >= self.width || j >= self.height {
            return None;
        }
        let len: usize = self.data.len();
        proof {
            let w = self.width as int;
            self@.lemma_offset(i as int, j as int, 0);
            self@.lemma_offset(i as int, j as int, 2);
            assert(self@.offset(i as int, j as int, 2) == 3 * (j * w + i) + 2);
            assert(j * w >= 0) by (nonlinear_arith)
                requires
                    j >= 0,
                    w >= 0,
            ;
            assert(3 * (j * w + i) + 2 < len);
        }
        let at: usize = 3 * ((j as usize) * (self.width as usize) + (i as usize));
        Some((self.data[at], self.data[at + 1], self.data[at + 2]))
    }
}

} // verus!
