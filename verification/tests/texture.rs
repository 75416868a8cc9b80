use richter_render::texture::{
    diffuse_sampler_descriptor, lightmap_sampler_descriptor, texture_descriptor, AddressMode,
    FilterMode, DiffuseData, Extent3d, FullbrightData, LightmapData, TextureData,
    TextureDimension, TextureFormat, COLOR_ATTACHMENT_FORMAT,
};
use std::borrow::Cow;

#[test]
fn formats_by_channel() {
    let diffuse = TextureData::Diffuse(DiffuseData {
        rgba: Cow::Borrowed(&[1, 2, 3, 4]),
    });
    let fullbright = TextureData::Fullbright(FullbrightData {
        fullbright: Cow::Borrowed(&[1]),
    });
    let lightmap = TextureData::Lightmap(LightmapData {
        lightmap: Cow::Owned(vec![9, 8]),
    });
    assert_eq!(diffuse.format(), TextureFormat::Rgba8UnormSrgb);
    assert_eq!(fullbright.format(), TextureFormat::R8Unorm);
    assert_eq!(lightmap.format(), TextureFormat::R8Unorm);
    assert_eq!(COLOR_ATTACHMENT_FORMAT, TextureFormat::Bgra8UnormSrgb);
}

#[test]
fn stride_by_channel() {
    let diffuse = TextureData::Diffuse(DiffuseData {
        rgba: Cow::Borrowed(&[1, 2, 3, 4]),
    });
    let fullbright = TextureData::Fullbright(FullbrightData {
        fullbright: Cow::Borrowed(&[1]),
    });
    let lightmap = TextureData::Lightmap(LightmapData {
        lightmap: Cow::Owned(vec![9, 8]),
    });
    assert_eq!(diffuse.stride(), 4);
    assert_eq!(fullbright.stride(), 1);
    assert_eq!(lightmap.stride(), 1);
}

#[test]
fn data_and_size_by_channel() {
    let diffuse = TextureData::Diffuse(DiffuseData {
        rgba: Cow::Borrowed(&[1, 2, 3, 4]),
    });
    let fullbright = TextureData::Fullbright(FullbrightData {
        fullbright: Cow::Borrowed(&[]),
    });
    let lightmap = TextureData::Lightmap(LightmapData {
        lightmap: Cow::Owned(vec![9, 8]),
    });
    assert_eq!(diffuse.data(), &[1, 2, 3, 4]);
    assert_eq!(diffuse.size(), 4);
    assert_eq!(fullbright.data(), &[] as &[u8]);
    assert_eq!(fullbright.size(), 0);
    assert_eq!(lightmap.data(), &[9, 8]);
    assert_eq!(lightmap.size(), 2);
}

#[test]
fn descriptor_of_a_sampled_texture() {
    let d = texture_descriptor(Some("skin"), 64, 32, TextureFormat::Rgba8UnormSrgb);
    assert_eq!(d.label, Some("skin"));
    assert_eq!(
        d.size,
        Extent3d {
            width: 64,
            height: 32,
            depth: 1
        }
    );
    assert_eq!(d.mip_level_count, 1);
    assert_eq!(d.sample_count, 1);
    assert_eq!(d.dimension, TextureDimension::D2);
    assert_eq!(d.format, TextureFormat::Rgba8UnormSrgb);
    assert!(d.usage.copy_dst);
    assert!(d.usage.sampled);
    assert!(!d.usage.copy_src);
    assert!(!d.usage.storage);
    assert!(!d.usage.output_attachment);
    let unnamed = texture_descriptor(None, 1, 1, TextureFormat::R8Unorm);
    assert_eq!(unnamed.label, None);
}

#[test]
fn upload_of_a_diffuse_texture() {
    let pixels: Vec<u8> = (0..24).collect();
    let data = TextureData::Diffuse(DiffuseData {
        rgba: Cow::Owned(pixels.clone()),
    });
    let upload = richter_render::create_texture(Some("wall"), 3, 2, &data).unwrap();
    assert_eq!(
        upload.descriptor,
        texture_descriptor(Some("wall"), 3, 2, TextureFormat::Rgba8UnormSrgb)
    );
    assert_eq!(upload.mip_level, 0);
    assert_eq!(upload.origin.x, 0);
    assert_eq!(upload.origin.y, 0);
    assert_eq!(upload.origin.z, 0);
    assert_eq!(upload.data, pixels.as_slice());
    assert_eq!(upload.layout.offset, 0);
    assert_eq!(upload.layout.bytes_per_row, 12);
    assert_eq!(upload.layout.rows_per_image, 0);
    assert_eq!(
        upload.extent,
        Extent3d {
            width: 3,
            height: 2,
            depth: 1
        }
    );
}

#[test]
fn upload_of_single_channel_textures() {
    let data = TextureData::Lightmap(LightmapData {
        lightmap: Cow::Borrowed(&[1, 2, 3, 4, 5, 6]),
    });
    let upload = richter_render::create_texture(None, 3, 2, &data).unwrap();
    assert_eq!(upload.layout.bytes_per_row, 3);
    assert_eq!(upload.descriptor.format, TextureFormat::R8Unorm);
    assert_eq!(upload.descriptor.label, None);
    let data = TextureData::Fullbright(FullbrightData {
        fullbright: Cow::Borrowed(&[1, 2, 3, 4, 5, 6, 7]),
    });
    let upload = richter_render::create_texture(None, 2, 3, &data).unwrap();
    assert_eq!(upload.layout.bytes_per_row, 2);
    assert_eq!(upload.data.len(), 7);
}

fn fault(width: u32, height: u32, data: &TextureData) -> richter_render::RenderErrorKind {
    match richter_render::create_texture(None, width, height, data) {
        Ok(_) => panic!("expected an error"),
        Err(error) => error.kind(),
    }
}

#[test]
fn upload_refuses_a_texture_without_pixels() {
    let data = TextureData::Diffuse(DiffuseData {
        rgba: Cow::Borrowed(&[0; 16]),
    });
    assert_eq!(fault(0, 2, &data), richter_render::RenderErrorKind::EmptyExtent);
    assert_eq!(fault(2, 0, &data), richter_render::RenderErrorKind::EmptyExtent);
    assert_eq!(fault(0, 0, &data), richter_render::RenderErrorKind::EmptyExtent);
}

#[test]
fn upload_refuses_a_row_beyond_the_row_pitch() {
    let data = TextureData::Diffuse(DiffuseData {
        rgba: Cow::Borrowed(&[0; 16]),
    });
    assert_eq!(
        fault(0x4000_0000, 1, &data),
        richter_render::RenderErrorKind::RowTooWide
    );
    assert_eq!(
        fault(0x3FFF_FFFF, 1, &data),
        richter_render::RenderErrorKind::DataTooShort
    );
    let single = TextureData::Lightmap(LightmapData {
        lightmap: Cow::Borrowed(&[0; 16]),
    });
    assert_eq!(
        fault(u32::MAX, u32::MAX, &single),
        richter_render::RenderErrorKind::DataTooShort
    );
}

#[test]
fn upload_refuses_data_that_do_not_fill_the_texture() {
    let data = TextureData::Diffuse(DiffuseData {
        rgba: Cow::Borrowed(&[0; 15]),
    });
    assert_eq!(fault(2, 2, &data), richter_render::RenderErrorKind::DataTooShort);
    let exact = TextureData::Diffuse(DiffuseData {
        rgba: Cow::Borrowed(&[0; 16]),
    });
    assert!(richter_render::create_texture(None, 2, 2, &exact).is_ok());
}

#[test]
fn default_textures() {
    let diffuse = richter_render::texture::default_diffuse();
    assert_eq!((diffuse.width, diffuse.height), (2, 2));
    assert_eq!(
        diffuse.data.data(),
        &[
            0xFF, 0x00, 0xFF, 0xFF, 0x00, 0x00, 0x00, 0xFF, 0x00, 0x00, 0x00, 0xFF, 0xFF, 0x00,
            0xFF, 0xFF
        ]
    );
    assert_eq!(diffuse.data.format(), TextureFormat::Rgba8UnormSrgb);
    let fullbright = richter_render::texture::default_fullbright();
    assert_eq!((fullbright.width, fullbright.height), (1, 1));
    assert_eq!(fullbright.data.data(), &[0xFF]);
    assert!(matches!(fullbright.data, TextureData::Fullbright(_)));
    let lightmap = richter_render::texture::default_lightmap();
    assert_eq!((lightmap.width, lightmap.height), (1, 1));
    assert_eq!(lightmap.data.data(), &[0xFF]);
    assert!(matches!(lightmap.data, TextureData::Lightmap(_)));
    for texture in [diffuse, fullbright, lightmap] {
        let upload =
            richter_render::create_texture(None, texture.width, texture.height, &texture.data)
                .unwrap();
        assert_eq!(
            upload.data.len() as u32,
            texture.width * texture.height * texture.data.stride()
        );
    }
}

#[test]
fn sampler_descriptors() {
    let diffuse = diffuse_sampler_descriptor();
    assert_eq!(diffuse.address_mode_u, AddressMode::Repeat);
    assert_eq!(diffuse.address_mode_v, AddressMode::Repeat);
    assert_eq!(diffuse.address_mode_w, AddressMode::Repeat);
    assert_eq!(diffuse.mag_filter, FilterMode::Nearest);
    assert_eq!(diffuse.min_filter, FilterMode::Linear);
    assert_eq!(diffuse.mipmap_filter, FilterMode::Nearest);
    assert_eq!(diffuse.lod_min_clamp, -1000);
    assert_eq!(diffuse.lod_max_clamp, 1000);
    let lightmap = lightmap_sampler_descriptor();
    assert_eq!(lightmap.address_mode_u, AddressMode::ClampToEdge);
    assert_eq!(lightmap.address_mode_v, AddressMode::ClampToEdge);
    assert_eq!(lightmap.address_mode_w, AddressMode::ClampToEdge);
    assert_eq!(lightmap.mag_filter, FilterMode::Linear);
    assert_eq!(lightmap.min_filter, FilterMode::Linear);
    assert_eq!(lightmap.mipmap_filter, FilterMode::Nearest);
    assert_eq!(lightmap.lod_min_clamp, -1000);
    assert_eq!(lightmap.lod_max_clamp, 1000);
}
