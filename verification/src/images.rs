//! The two verified phases of the transform pipeline on a real image value,
//! around the blur stage (which takes a floating-point sigma and therefore
//! runs outside the verified library).
//!
//! An image value is opaque here; its pixel grid and its dimensions carry
//! names that the trusted wrappers around the image crate relate.

use vstd::prelude::*;
use crate::ops::Ops;
use crate::ops::SCALE_ONE;
use crate::ops::scaled_dim;
use crate::ops::spec_effective_scale;
use crate::ops::spec_scaled_dim;

verus! {

#[verifier::external_type_specification]
#[verifier::external_body]
pub struct ExDynamicImage(image::DynamicImage);

/// The width in pixels of an image value.
pub uninterp spec fn img_width(img: image::DynamicImage) -> u32;

/// The height in pixels of an image value.
pub uninterp spec fn img_height(img: image::DynamicImage) -> u32;

/// The pixel grid of an image value: its rows, top to bottom, each a row of
/// pixels, left to right, read as packed channel values.
pub uninterp spec fn img_pixels(img: image::DynamicImage) -> Seq<Seq<u32>>;

/// What a Lanczos resample of a pixel grid to the given dimensions returns:
/// a pure function of the source pixels and the target dimensions.
pub uninterp spec fn lanczos_resized(g: Seq<Seq<u32>>, w: u32, h: u32) -> Seq<Seq<u32>>;

/// A pixel grid with every row mirrored.
pub open spec fn rows_mirrored(g: Seq<Seq<u32>>) -> Seq<Seq<u32>> {
    g.map_values(|row: Seq<u32>| row.reverse())
}

/// Relies on image::DynamicImage::width.
#[verifier::external_body]
fn width_of(img: &image::DynamicImage) -> (r: u32)
    ensures
        r == img_width(*img),
{
    img.width()
}

/// Relies on image::DynamicImage::height.
#[verifier::external_body]
fn height_of(img: &image::DynamicImage) -> (r: u32)
    ensures
        r == img_height(*img),
{
    img.height()
}

/// Relies on image::DynamicImage::fliph (imageops::flip_horizontal): every
/// row of pixels is mirrored; the dimensions are unchanged.
#[verifier::external_body]
fn flip_h(img: image::DynamicImage) -> (r: image::DynamicImage)
    ensures
        img_width(r) == img_width(img),
        img_height(r) == img_height(img),
        img_pixels(r) == rows_mirrored(img_pixels(img)),
{
    img.fliph()
}

/// Relies on image::DynamicImage::flipv (imageops::flip_vertical): the rows
/// of pixels are reversed; the dimensions are unchanged.
#[verifier::external_body]
fn flip_v(img: image::DynamicImage) -> (r: image::DynamicImage)
    ensures
        img_width(r) == img_width(img),
        img_height(r) == img_height(img),
        img_pixels(r) == img_pixels(img).reverse(),
{
    img.flipv()
}

/// Relies on image::imageops::resize with the Lanczos filter: the result has
/// exactly the requested dimensions, and its pixels are a function of the
/// source pixels and those dimensions alone.
#[verifier::external_body]
fn resize_lanczos(img: image::DynamicImage, w: u32, h: u32) -> (r: image::DynamicImage)
    ensures
        img_width(r) == w,
        img_height(r) == h,
        img_pixels(r) == lanczos_resized(img_pixels(img), w, h),
{
    image::DynamicImage::ImageRgba8(image::imageops::resize(
        &img,
        w,
        h,
        image::imageops::FilterType::Lanczos3,
    ))
}

/// The width after the phase before the blur: already scaled when the
/// effective scale is below one, untouched otherwise.
pub open spec fn spec_pre_width(ops: Ops, w: u32) -> u32 {
    if spec_effective_scale(ops) < SCALE_ONE {
        spec_scaled_dim(w, spec_effective_scale(ops))
    } else {
        w
    }
}

/// The height after the phase before the blur.
pub open spec fn spec_pre_height(ops: Ops, h: u32) -> u32 {
    if spec_effective_scale(ops) < SCALE_ONE {
        spec_scaled_dim(h, spec_effective_scale(ops))
    } else {
        h
    }
}

/// The width after the phase behind the blur: scaled from the width the
/// image has at that point, only when the effective scale is above one.
pub open spec fn spec_post_width(ops: Ops, w: u32) -> u32 {
    if spec_effective_scale(ops) > SCALE_ONE {
        spec_scaled_dim(w, spec_effective_scale(ops))
    } else {
        w
    }
}

/// The height after the phase behind the blur.
pub open spec fn spec_post_height(ops: Ops, h: u32) -> u32 {
    if spec_effective_scale(ops) > SCALE_ONE {
        spec_scaled_dim(h, spec_effective_scale(ops))
    } else {
        h
    }
}

/// The pixel grid after the downscale stage: resampled when the effective
/// scale is below one, untouched otherwise.
pub open spec fn spec_downscaled(ops: Ops, g: Seq<Seq<u32>>, w: u32, h: u32) -> Seq<Seq<u32>> {
    let s = spec_effective_scale(ops);
    if s < SCALE_ONE {
        lanczos_resized(g, spec_scaled_dim(w, s), spec_scaled_dim(h, s))
    } else {
        g
    }
}

/// The pixel grid after the flip stage: rows mirrored when a horizontal
/// flip was asked for, then rows reversed when a vertical flip was.
pub open spec fn spec_flipped(ops: Ops, g: Seq<Seq<u32>>) -> Seq<Seq<u32>> {
    let g1 = if ops.fliph == Some(true) {
        rows_mirrored(g)
    } else {
        g
    };
    if ops.flipv == Some(true) {
        g1.reverse()
    } else {
        g1
    }
}

impl Ops {
    /// Everything before the blur stage: the downscale (only when the
    /// effective scale is below one), then the horizontal flip, then the
    /// vertical flip. The flips therefore act on the already downscaled
    /// raster.
    pub fn exec_pre(&self, img: image::DynamicImage) -> (r: image::DynamicImage)
        ensures
            img_width(r) == spec_pre_width(*self, img_width(img)),
            img_height(r) == spec_pre_height(*self, img_height(img)),
            img_pixels(r) == spec_flipped(
                *self,
                spec_downscaled(*self, img_pixels(img), img_width(img), img_height(img)),
            ),
    {
        let mut out = img;
        let s = self.effective_scale();
        if s < SCALE_ONE {
            let w = width_of(&out);
            let h = height_of(&out);
            out = resize_lanczos(out, scaled_dim(w, s), scaled_dim(h, s));
        }
        if matches!(self.fliph, Some(true)) {
            out = flip_h(out);
        }
        if matches!(self.flipv, Some(true)) {
            out = flip_v(out);
        }
        out
    }

    /// Everything after the blur stage: the upscale, run only when the
    /// effective scale is above one, from the dimensions the image has at
    /// that point. Below or at one the image passes through untouched.
    pub fn exec_post(&self, img: image::DynamicImage) -> (r: image::DynamicImage)
        ensures
            img_width(r) == spec_post_width(*self, img_width(img)),
            img_height(r) == spec_post_height(*self, img_height(img)),
            img_pixels(r) == (if spec_effective_scale(*self) > SCALE_ONE {
                lanczos_resized(
                    img_pixels(img),
                    spec_scaled_dim(img_width(img), spec_effective_scale(*self)),
                    spec_scaled_dim(img_height(img), spec_effective_scale(*self)),
                )
            } else {
                img_pixels(img)
            }),
    {
        let s = self.effective_scale();
        if s > SCALE_ONE {
            let w = width_of(&img);
            let h = height_of(&img);
            resize_lanczos(img, scaled_dim(w, s), scaled_dim(h, s))
        } else {
            img
        }
    }
}

/// Whatever the scale regime, the two phases together scale each dimension
/// exactly once: a dimension that goes in as `d` comes out of the second
/// phase as `round(d × effective scale)` — given that the stage between
/// them, the blur, keeps the dimensions, which it does.
pub proof fn lemma_dims_scaled_once(ops: Ops, w: u32, h: u32)
    ensures
        spec_post_width(ops, spec_pre_width(ops, w)) == spec_scaled_dim(
            w,
            spec_effective_scale(ops),
        ),
        spec_post_height(ops, spec_pre_height(ops, h)) == spec_scaled_dim(
            h,
            spec_effective_scale(ops),
        ),
{
    assert((w as int * 1000 + 500) / 1000 == w as int) by (nonlinear_arith);
    assert((h as int * 1000 + 500) / 1000 == h as int) by (nonlinear_arith);
}

} // verus!
