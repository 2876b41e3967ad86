use asset_server::ops::Ops;
use image::DynamicImage;
use image::GenericImageView;
use image::Rgba;
use image::RgbaImage;

fn gradient(w: u32, h: u32) -> DynamicImage {
    let buf = RgbaImage::from_fn(w, h, |x, y| {
        Rgba([(x * 37 % 256) as u8, (y * 53 % 256) as u8, ((x + y) % 256) as u8, 255])
    });
    DynamicImage::ImageRgba8(buf)
}

fn ops(
    fliph: Option<bool>,
    flipv: Option<bool>,
    scale: Option<u32>,
    blur: Option<u32>,
) -> Ops {
    Ops { fliph, flipv, scale, blur }
}

#[test]
fn pre_phase_downscales_to_rounded_dimensions() {
    let img = gradient(7, 5);
    let out = ops(None, None, Some(500), None).exec_pre(img);
    assert_eq!(out.width(), 4);
    assert_eq!(out.height(), 3);
}

#[test]
fn pre_phase_leaves_dimensions_alone_at_or_above_unit_scale() {
    let img = gradient(7, 5);
    let out = ops(Some(true), Some(true), Some(2000), None).exec_pre(img);
    assert_eq!(out.width(), 7);
    assert_eq!(out.height(), 5);
}

#[test]
fn post_phase_upscales_to_rounded_dimensions() {
    let img = gradient(7, 5);
    let out = ops(None, None, Some(1500), None).exec_post(img);
    assert_eq!(out.width(), 11);
    assert_eq!(out.height(), 8);
}

#[test]
fn post_phase_is_identity_at_or_below_unit_scale() {
    let img = gradient(7, 5);
    let before = img.to_rgba8();
    let out = ops(Some(true), None, Some(500), None).exec_post(img);
    assert_eq!(out.to_rgba8(), before);
}

#[test]
fn horizontal_flip_mirrors_each_row() {
    let img = gradient(4, 3);
    let before = img.to_rgba8();
    let out = ops(Some(true), None, None, None).exec_pre(img);
    assert_eq!(out.dimensions(), (4, 3));
    let after = out.to_rgba8();
    assert_ne!(after, before);
    for y in 0..3 {
        for x in 0..4 {
            assert_eq!(after.get_pixel(x, y), before.get_pixel(3 - x, y));
        }
    }
}

#[test]
fn vertical_flip_reverses_the_rows() {
    let img = gradient(4, 3);
    let before = img.to_rgba8();
    let out = ops(None, Some(true), None, None).exec_pre(img);
    let after = out.to_rgba8();
    assert_ne!(after, before);
    for y in 0..3 {
        for x in 0..4 {
            assert_eq!(after.get_pixel(x, y), before.get_pixel(x, 2 - y));
        }
    }
}

#[test]
fn both_flips_together_rotate_half_a_turn() {
    let img = gradient(4, 3);
    let before = img.to_rgba8();
    let out = ops(Some(true), Some(true), None, None).exec_pre(img);
    let after = out.to_rgba8();
    for y in 0..3 {
        for x in 0..4 {
            assert_eq!(after.get_pixel(x, y), before.get_pixel(3 - x, 2 - y));
        }
    }
}

#[test]
fn the_scale_floor_can_collapse_a_tiny_image_to_nothing() {
    let img = gradient(4, 2);
    let out = ops(None, None, Some(50), None).exec_pre(img);
    assert_eq!(out.width(), 0);
    assert_eq!(out.height(), 0);
}

#[test]
fn downscale_then_flip_matches_the_manual_order() {
    let img = gradient(8, 6);
    let out = ops(Some(true), None, Some(500), None).exec_pre(img);

    let manual = gradient(8, 6)
        .resize_exact(4, 3, image::imageops::FilterType::Lanczos3)
        .fliph();
    assert_eq!(out.to_rgba8(), manual.to_rgba8());
}
