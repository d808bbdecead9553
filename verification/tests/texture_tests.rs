use glcore::command::{GlCommand, TexParam};
use glcore::device::Device;
use glcore::texture::{Texture, TextureFormat, GL_LINEAR, GL_LINEAR_MIPMAP_LINEAR, GL_REPEAT};

#[test]
fn texture_from_2x2_rgb_succeeds_fully_configured() {
    let mut dev = Device::new();
    // Four pixels, three bytes each, rows bottom-up.
    let pixels: Vec<u8> = vec![
        255, 0, 0, /* */ 0, 255, 0, // bottom row
        0, 0, 255, /* */ 255, 255, 255, // top row
    ];
    let (tex, cs) = Texture::new(&mut dev, pixels.clone(), 2, 2, TextureFormat::Rgb);

    assert!(dev.is_texture_live(tex.id()));
    assert_eq!(tex.unit_number(), -1);
    assert_eq!(
        dev.texture_settings(tex.id()),
        Some((GL_REPEAT, GL_REPEAT, GL_LINEAR_MIPMAP_LINEAR, GL_LINEAR))
    );
    assert_eq!(dev.texture_extent(tex.id()), Some((2, 2, true)));
    assert_eq!(dev.read_texture(tex.id()).unwrap(), pixels);

    assert_eq!(cs.len(), 8);
    assert_eq!(cs[0], GlCommand::GenTexture { id: tex.id() });
    assert_eq!(cs[1], GlCommand::BindTexture { id: tex.id() });
    assert_eq!(cs[2], GlCommand::TexParameter { param: TexParam::WrapS, value: GL_REPEAT });
    assert_eq!(cs[3], GlCommand::TexParameter { param: TexParam::WrapT, value: GL_REPEAT });
    assert_eq!(
        cs[4],
        GlCommand::TexParameter { param: TexParam::MinFilter, value: GL_LINEAR_MIPMAP_LINEAR }
    );
    assert_eq!(cs[5], GlCommand::TexParameter { param: TexParam::MagFilter, value: GL_LINEAR });
    match &cs[6] {
        GlCommand::TexImage2d { width, height, format, pixels: p } => {
            assert_eq!((*width, *height), (2, 2));
            assert!(matches!(format, TextureFormat::Rgb));
            assert_eq!(*p, pixels);
        }
        other => panic!("expected TexImage2d, got {:?}", other),
    }
    assert_eq!(cs[7], GlCommand::GenerateMipmap {});
}

#[test]
fn binding_twice_issues_no_allocation() {
    let mut dev = Device::new();
    let pixels: Vec<u8> = vec![1, 2, 3, 4, 5, 6, 7, 8, 9, 10, 11, 12];
    let (tex, _) = Texture::new(&mut dev, pixels.clone(), 2, 2, TextureFormat::Rgb);

    let cs1 = tex.bind(&mut dev);
    let cs2 = tex.bind(&mut dev);
    for cs in [&cs1, &cs2] {
        assert_eq!(cs.len(), 1);
        assert_eq!(cs[0], GlCommand::BindTexture { id: tex.id() });
        for c in cs.iter() {
            assert!(!matches!(c, GlCommand::GenTexture { .. }));
            assert!(!matches!(c, GlCommand::TexImage2d { .. }));
        }
    }
    // The texture object itself is untouched by binding.
    assert_eq!(dev.read_texture(tex.id()).unwrap(), pixels);
    assert_eq!(dev.texture_extent(tex.id()), Some((2, 2, true)));
}

#[test]
fn assigned_unit_is_activated_on_bind() {
    let mut dev = Device::new();
    let pixels: Vec<u8> = vec![0; 12];
    let (mut tex, _) = Texture::new(&mut dev, pixels, 2, 2, TextureFormat::Rgb);
    tex.set_activate_number(1);
    let cs = tex.bind(&mut dev);
    assert_eq!(cs.len(), 2);
    assert_eq!(cs[0], GlCommand::ActiveTexture { unit: 1 });
    assert_eq!(cs[1], GlCommand::BindTexture { id: tex.id() });
    assert_eq!(dev.active_unit(), 1);
    assert_eq!(dev.unit_binding(1), tex.id());
}

#[test]
fn active_number_switches_unit_only() {
    let mut dev = Device::new();
    let c = Texture::active_number(&mut dev, 3);
    assert_eq!(c, GlCommand::ActiveTexture { unit: 3 });
    assert_eq!(dev.active_unit(), 3);
    assert_eq!(dev.unit_binding(3), 0);
}

#[test]
fn rgba_payload_sized_by_format() {
    let mut dev = Device::new();
    let pixels: Vec<u8> = (0..16u8).collect();
    let (tex, _) = Texture::new(&mut dev, pixels.clone(), 2, 2, TextureFormat::Rgba);
    assert_eq!(dev.read_texture(tex.id()).unwrap(), pixels);
    assert_eq!(TextureFormat::Rgba.channels(), 4);
    assert_eq!(TextureFormat::Rgb.channels(), 3);
    assert_eq!(TextureFormat::Rgb.resolve(), 0x1907);
    assert_eq!(TextureFormat::Rgba.resolve(), 0x1908);
}

#[test]
fn delete_texture_clears_units() {
    let mut dev = Device::new();
    let (mut tex, _) = Texture::new(&mut dev, vec![0; 12], 2, 2, TextureFormat::Rgb);
    let id = tex.id();
    tex.set_activate_number(2);
    tex.bind(&mut dev);
    assert_eq!(dev.unit_binding(2), id);
    let c = tex.delete(&mut dev);
    assert_eq!(c, GlCommand::DeleteTexture { id });
    assert!(!dev.is_texture_live(id));
    assert_eq!(dev.unit_binding(2), 0);
}

fn encode_png_rgb(width: u32, height: u32, pixels: Vec<u8>) -> Vec<u8> {
    let img = image::RgbImage::from_raw(width, height, pixels).expect("sized payload");
    let mut out = std::io::Cursor::new(Vec::new());
    image::DynamicImage::ImageRgb8(img)
        .write_to(&mut out, image::ImageOutputFormat::Png)
        .expect("png encode");
    out.into_inner()
}

#[test]
fn decoded_texture_is_flipped_both_ways() {
    // Top-first pixel rows, as a decoder sees them: A B / C D.
    let a = [10u8, 11, 12];
    let b = [20u8, 21, 22];
    let c = [30u8, 31, 32];
    let d = [40u8, 41, 42];
    let mut top_first = Vec::new();
    for px in [a, b, c, d] {
        top_first.extend_from_slice(&px);
    }
    let encoded = encode_png_rgb(2, 2, top_first);

    let mut dev = Device::new();
    let (tex, cs) = Texture::from_encoded(&mut dev, &encoded).expect("valid png decodes");
    assert_eq!(cs.len(), 8);
    assert_eq!(dev.texture_extent(tex.id()), Some((2, 2, true)));

    // Mirrored horizontally and vertically: D C / B A.
    let mut expected = Vec::new();
    for px in [d, c, b, a] {
        expected.extend_from_slice(&px);
    }
    assert_eq!(dev.read_texture(tex.id()).unwrap(), expected);
}

#[test]
fn undecodable_bytes_yield_none() {
    let mut dev = Device::new();
    assert!(Texture::from_encoded(&mut dev, &[1, 2, 3, 4]).is_none());
    assert!(!dev.is_texture_live(1));
}
