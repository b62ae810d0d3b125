use gl_nt::glenum::{
    CLAMP_TO_BORDER, CLAMP_TO_EDGE, COLOR_ATTACHMENT0, FRAMEBUFFER, FRAMEBUFFER_COMPLETE, LINEAR,
    LINEAR_MIPMAP_LINEAR, LINEAR_MIPMAP_NEAREST, MIRRORED_REPEAT, NEAREST, REPEAT, RGB, RGBA,
    RGBA8, TEXTURE0, TEXTURE_2D, TEXTURE_MAG_FILTER, TEXTURE_MIN_FILTER, TEXTURE_WRAP_S,
    TEXTURE_WRAP_T, UNSIGNED_BYTE,
};
use gl_nt::texture::{
    flip_rows, framebuffer_complete, upload_format, FramebufferError, ImageColor, PixelFormat,
};
use gl_nt::{Framebuffer, GlCall, TextureBuilder, TextureFilter, TextureWrap};

fn param(pname: u32, value: u32) -> GlCall {
    GlCall::TexParameteri { target: TEXTURE_2D, pname, param: value as i32 }
}

fn empty_image(width: i32, height: i32) -> GlCall {
    GlCall::TexImage2D {
        target: TEXTURE_2D,
        level: 0,
        internal_format: RGBA8 as i32,
        width,
        height,
        format: RGBA,
        kind: UNSIGNED_BYTE,
        pixels: None,
    }
}

#[test]
fn wrap_modes_map_to_their_enumerants() {
    assert_eq!(TextureWrap::Repeat.to_gl(), REPEAT);
    assert_eq!(TextureWrap::MirroredRepeat.to_gl(), MIRRORED_REPEAT);
    assert_eq!(TextureWrap::ClampToEdge.to_gl(), CLAMP_TO_EDGE);
    assert_eq!(TextureWrap::ClampToBorder.to_gl(), CLAMP_TO_BORDER);
}

#[test]
fn filters_map_to_their_enumerants() {
    assert_eq!(TextureFilter::Nearest.to_gl(), NEAREST);
    assert_eq!(TextureFilter::Linear.to_gl(), LINEAR);
    assert_eq!(TextureFilter::LinearMipmapLinear.to_gl(), LINEAR_MIPMAP_LINEAR);
    assert_eq!(TextureFilter::LinearMipmapNearest.to_gl(), LINEAR_MIPMAP_NEAREST);
}

#[test]
fn default_builder_repeats_samples_nearest_and_makes_mipmaps() {
    let (texture, calls) = TextureBuilder::new().empty(9, 640, 480);
    assert_eq!(texture.width(), 640);
    assert_eq!(texture.height(), 480);
    assert_eq!(
        calls,
        vec![
            GlCall::BindTexture { target: TEXTURE_2D, texture: 9 },
            param(TEXTURE_WRAP_S, REPEAT),
            param(TEXTURE_WRAP_T, REPEAT),
            param(TEXTURE_MIN_FILTER, NEAREST),
            param(TEXTURE_MAG_FILTER, NEAREST),
            empty_image(640, 480),
            GlCall::GenerateMipmap { target: TEXTURE_2D },
            GlCall::BindTexture { target: TEXTURE_2D, texture: 0 },
        ]
    );
}

#[test]
fn builder_settings_reach_the_texture() {
    let builder = TextureBuilder::new()
        .with_wrapping(TextureWrap::ClampToEdge, TextureWrap::MirroredRepeat)
        .with_filtering(TextureFilter::LinearMipmapLinear, TextureFilter::Linear)
        .generate_mipmaps(false);
    let (_, calls) = builder.empty(3, 16, 8);
    assert_eq!(
        calls,
        vec![
            GlCall::BindTexture { target: TEXTURE_2D, texture: 3 },
            param(TEXTURE_WRAP_S, CLAMP_TO_EDGE),
            param(TEXTURE_WRAP_T, MIRRORED_REPEAT),
            param(TEXTURE_MIN_FILTER, LINEAR_MIPMAP_LINEAR),
            param(TEXTURE_MAG_FILTER, LINEAR),
            empty_image(16, 8),
            GlCall::BindTexture { target: TEXTURE_2D, texture: 0 },
        ]
    );
}

#[test]
fn later_settings_override_earlier_ones() {
    let builder = TextureBuilder::new()
        .with_wrapping(TextureWrap::ClampToEdge, TextureWrap::ClampToEdge)
        .with_wrapping(TextureWrap::ClampToBorder, TextureWrap::Repeat)
        .generate_mipmaps(false)
        .generate_mipmaps(true);
    let (_, calls) = builder.empty(1, 1, 1);
    assert_eq!(calls[1], param(TEXTURE_WRAP_S, CLAMP_TO_BORDER));
    assert_eq!(calls[2], param(TEXTURE_WRAP_T, REPEAT));
    assert_eq!(calls[6], GlCall::GenerateMipmap { target: TEXTURE_2D });
}

#[test]
fn texture_binds_to_the_requested_unit() {
    let (texture, _) = TextureBuilder::new().empty(12, 2, 2);
    assert_eq!(
        texture.bind(3),
        vec![
            GlCall::ActiveTexture { unit: TEXTURE0 + 3 },
            GlCall::BindTexture { target: TEXTURE_2D, texture: 12 },
        ]
    );
    assert_eq!(texture.bind(0)[0], GlCall::ActiveTexture { unit: 0x84C0 });
    assert_eq!(texture.unbind(), vec![GlCall::BindTexture { target: TEXTURE_2D, texture: 0 }]);
    assert_eq!(texture.delete_calls(), vec![GlCall::DeleteTexture { texture: 12 }]);
}

#[test]
fn rgb_images_upload_as_rgb_and_others_as_rgba() {
    assert_eq!(upload_format(ImageColor::Rgb8), PixelFormat::Rgb8);
    assert_eq!(upload_format(ImageColor::Rgba8), PixelFormat::Rgba8);
    assert_eq!(upload_format(ImageColor::Other), PixelFormat::Rgba8);
    assert_eq!(PixelFormat::Rgb8.to_gl(), RGB);
    assert_eq!(PixelFormat::Rgba8.to_gl(), RGBA);
    assert_eq!(PixelFormat::Rgb8.channels(), 3);
    assert_eq!(PixelFormat::Rgba8.channels(), 4);
}

#[test]
fn flip_reverses_the_rows() {
    let pixels: Vec<u8> = (0..12).collect();
    assert_eq!(flip_rows(&pixels, 4, 3), vec![8, 9, 10, 11, 4, 5, 6, 7, 0, 1, 2, 3]);
    assert_eq!(flip_rows(&vec![], 0, 5), Vec::<u8>::new());
    assert_eq!(flip_rows(&vec![1, 2, 3], 3, 1), vec![1, 2, 3]);
}

#[test]
fn flip_agrees_with_the_image_crate() {
    let raw: Vec<u8> = (0..(3 * 5 * 4)).map(|v| v as u8).collect();
    let img = image::RgbaImage::from_raw(3, 5, raw.clone()).unwrap();
    let expected = image::DynamicImage::ImageRgba8(img).flipv().to_rgba8().into_raw();
    assert_eq!(flip_rows(&raw, 3 * 4, 5), expected);
}

#[test]
fn images_upload_bottom_row_first() {
    let pixels: Vec<u8> = vec![1, 2, 3, 4, 5, 6, 7, 8, 9, 10, 11, 12];
    let builder = TextureBuilder::new().generate_mipmaps(false);
    let (texture, calls) = builder.from_image(5, 2, 2, PixelFormat::Rgb8, &pixels);
    assert_eq!(texture.width(), 2);
    assert_eq!(texture.height(), 2);
    assert_eq!(
        calls[5],
        GlCall::TexImage2D {
            target: TEXTURE_2D,
            level: 0,
            internal_format: RGB as i32,
            width: 2,
            height: 2,
            format: RGB,
            kind: UNSIGNED_BYTE,
            pixels: Some(vec![7, 8, 9, 10, 11, 12, 1, 2, 3, 4, 5, 6]),
        }
    );
    assert_eq!(calls.len(), 7);
    assert_eq!(calls[6], GlCall::BindTexture { target: TEXTURE_2D, texture: 0 });
}

#[test]
fn rgba_image_keeps_its_size_and_format() {
    let pixels: Vec<u8> = vec![0; 3 * 1 * 4];
    let (texture, calls) = TextureBuilder::new().from_image(6, 3, 1, PixelFormat::Rgba8, &pixels);
    assert_eq!((texture.width(), texture.height()), (3, 1));
    match &calls[5] {
        GlCall::TexImage2D { internal_format, format, width, height, .. } => {
            assert_eq!((*internal_format, *format, *width, *height), (RGBA as i32, RGBA, 3, 1));
        }
        other => panic!("unexpected call {:?}", other),
    }
    assert_eq!(calls[6], GlCall::GenerateMipmap { target: TEXTURE_2D });
}

#[test]
fn huge_image_sizes_wrap_like_a_cast() {
    let (texture, _) = TextureBuilder::new().from_image(1, u32::MAX, 0, PixelFormat::Rgba8, &vec![]);
    assert_eq!(texture.width(), -1);
    assert_eq!(texture.height(), 0);
}

#[test]
fn framebuffer_makes_a_default_texture_and_attaches_it() {
    let (fb, calls) = Framebuffer::new(2, 4, 800, 600);
    let (_, texture_calls) = TextureBuilder::new().empty(4, 800, 600);
    let mut expected = texture_calls;
    expected.push(GlCall::BindFramebuffer { target: FRAMEBUFFER, framebuffer: 2 });
    expected.push(GlCall::FramebufferTexture2D {
        target: FRAMEBUFFER,
        attachment: COLOR_ATTACHMENT0,
        textarget: TEXTURE_2D,
        texture: 4,
        level: 0,
    });
    assert_eq!(calls, expected);
    assert_eq!(calls[5], empty_image(800, 600));
    assert_eq!(calls[6], GlCall::GenerateMipmap { target: TEXTURE_2D });
    assert_eq!(fb.texture().width(), 800);
    assert_eq!(fb.texture().height(), 600);
    assert_eq!(fb.bind(), vec![GlCall::BindFramebuffer { target: FRAMEBUFFER, framebuffer: 2 }]);
    assert_eq!(fb.unbind(), vec![GlCall::BindFramebuffer { target: FRAMEBUFFER, framebuffer: 0 }]);
}

#[test]
fn complete_framebuffer_goes_back_to_the_window() {
    let (fb, _) = Framebuffer::new(2, 4, 8, 8);
    let unbind = vec![GlCall::BindFramebuffer { target: FRAMEBUFFER, framebuffer: 0 }];
    assert_eq!(fb.complete_setup(FRAMEBUFFER_COMPLETE), Ok(unbind.clone()));
    assert_eq!(fb.complete_resize(FRAMEBUFFER_COMPLETE), Ok(unbind));
    assert_eq!(fb.complete_setup(0x8CD6), Err(FramebufferError::Incomplete));
    assert_eq!(fb.complete_resize(0), Err(FramebufferError::IncompleteAfterResize));
}

#[test]
fn framebuffer_completeness() {
    assert!(framebuffer_complete(FRAMEBUFFER_COMPLETE));
    assert!(framebuffer_complete(0x8CD5));
    assert!(!framebuffer_complete(0x8CD6));
    assert!(!framebuffer_complete(0));
}

#[test]
fn resize_reallocates_the_texture() {
    let (mut fb, _) = Framebuffer::new(2, 4, 800, 600);
    let calls = fb.resize(1024, 768).unwrap();
    assert_eq!(
        calls,
        vec![
            GlCall::BindTexture { target: TEXTURE_2D, texture: 4 },
            empty_image(1024, 768),
            GlCall::BindTexture { target: TEXTURE_2D, texture: 0 },
            GlCall::BindFramebuffer { target: FRAMEBUFFER, framebuffer: 2 },
        ]
    );
    assert_eq!(fb.texture().width(), 1024);
    assert_eq!(fb.texture().height(), 768);
}

#[test]
fn resize_to_a_non_positive_size_is_ignored() {
    let (mut fb, _) = Framebuffer::new(2, 4, 800, 600);
    assert!(fb.resize(0, 768).is_none());
    assert!(fb.resize(1024, -1).is_none());
    assert!(fb.resize(-5, -5).is_none());
    assert_eq!((fb.texture().width(), fb.texture().height()), (800, 600));
    assert!(fb.resize(1, 1).is_some());
    assert_eq!((fb.texture().width(), fb.texture().height()), (1, 1));
}

#[test]
fn framebuffer_release_deletes_its_texture_too() {
    let (fb, _) = Framebuffer::new(2, 4, 8, 8);
    assert_eq!(
        fb.delete_calls(),
        vec![GlCall::DeleteFramebuffer { framebuffer: 2 }, GlCall::DeleteTexture { texture: 4 }]
    );
}

#[test]
fn the_last_positive_resize_decides_the_size() {
    let (mut fb, _) = Framebuffer::new(2, 4, 800, 600);
    for (w, h) in [(100, 50), (0, 10), (320, 240), (-3, 7), (5, 0)] {
        fb.resize(w, h);
    }
    assert_eq!((fb.texture().width(), fb.texture().height()), (320, 240));
    assert_eq!(
        fb.delete_calls(),
        vec![GlCall::DeleteFramebuffer { framebuffer: 2 }, GlCall::DeleteTexture { texture: 4 }]
    );
}

fn png(img: image::DynamicImage) -> Vec<u8> {
    let mut out = std::io::Cursor::new(Vec::new());
    img.write_to(&mut out, image::ImageFormat::Png).unwrap();
    out.into_inner()
}

#[test]
fn flip_uses_only_the_image_rows() {
    let pixels: Vec<u8> = vec![1, 2, 3, 4, 9, 9];
    assert_eq!(flip_rows(&pixels, 2, 2), vec![3, 4, 1, 2]);
}

#[test]
fn encoded_rgb_image_uploads_as_rgb_bottom_row_first() {
    let raw: Vec<u8> = (0..(2 * 3 * 3)).map(|v| v as u8).collect();
    let img = image::RgbImage::from_raw(2, 3, raw.clone()).unwrap();
    let bytes = png(image::DynamicImage::ImageRgb8(img));
    let builder = TextureBuilder::new().generate_mipmaps(false);
    let (texture, calls) = builder.from_encoded(7, &bytes, "assets/tile.png").unwrap();
    assert_eq!((texture.width(), texture.height()), (2, 3));
    let (_, expected) = builder.from_image(7, 2, 3, PixelFormat::Rgb8, &raw);
    assert_eq!(calls, expected);
    match &calls[5] {
        GlCall::TexImage2D { format, pixels, .. } => {
            assert_eq!(*format, RGB);
            assert_eq!(pixels.as_ref().unwrap()[..6], raw[12..18]);
        }
        other => panic!("unexpected call {:?}", other),
    }
}

#[test]
fn encoded_grey_image_is_converted_to_rgba() {
    let img = image::GrayImage::from_raw(2, 1, vec![10, 200]).unwrap();
    let bytes = png(image::DynamicImage::ImageLuma8(img));
    let (texture, calls) = TextureBuilder::new().from_encoded(3, &bytes, "grey.PNG").unwrap();
    assert_eq!((texture.width(), texture.height()), (2, 1));
    assert_eq!(
        calls[5],
        GlCall::TexImage2D {
            target: TEXTURE_2D,
            level: 0,
            internal_format: RGBA as i32,
            width: 2,
            height: 1,
            format: RGBA,
            kind: UNSIGNED_BYTE,
            pixels: Some(vec![10, 10, 10, 255, 200, 200, 200, 255]),
        }
    );
}

#[test]
fn encoded_image_agrees_with_the_image_crate_pipeline() {
    let raw: Vec<u8> = (0..(3 * 2 * 4)).map(|v| (v * 7) as u8).collect();
    let img = image::DynamicImage::ImageRgba8(image::RgbaImage::from_raw(3, 2, raw).unwrap());
    let bytes = png(img.clone());
    let expected = img.flipv().to_rgba8().into_raw();
    let (_, calls) = TextureBuilder::new().from_encoded(1, &bytes, "x.png").unwrap();
    match &calls[5] {
        GlCall::TexImage2D { pixels, format, .. } => {
            assert_eq!(*format, RGBA);
            assert_eq!(pixels.as_ref().unwrap(), &expected);
        }
        other => panic!("unexpected call {:?}", other),
    }
}

#[test]
fn unknown_extension_or_bad_bytes_fail_to_decode() {
    let img = image::GrayImage::from_raw(1, 1, vec![0]).unwrap();
    let bytes = png(image::DynamicImage::ImageLuma8(img));
    assert!(TextureBuilder::new().from_encoded(1, &bytes, "image.nope").is_err());
    assert!(TextureBuilder::new().from_encoded(1, &bytes, "no_extension").is_err());
    match TextureBuilder::new().from_encoded(1, &[1, 2, 3], "broken.png") {
        Ok(_) => panic!("garbage decoded"),
        Err(e) => assert!(!e.message.is_empty()),
    }
}
