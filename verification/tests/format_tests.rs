use ash::vk;
use magma::format::{Format, FormatFeatures, FormatProperties};

#[test]
fn format_codes_match_vulkan() {
    assert_eq!(Format::R4G4UnormPack8.into_vulkan(), vk::Format::R4G4_UNORM_PACK8.as_raw());
    assert_eq!(Format::R8G8B8A8Srgb.into_vulkan(), vk::Format::R8G8B8A8_SRGB.as_raw());
    assert_eq!(Format::B8G8R8A8Unorm.into_vulkan(), vk::Format::B8G8R8A8_UNORM.as_raw());
    assert_eq!(Format::D32Sfloat_S8Uint.into_vulkan(), vk::Format::D32_SFLOAT_S8_UINT.as_raw());
    assert_eq!(Format::BC7SrgbBlock.into_vulkan(), vk::Format::BC7_SRGB_BLOCK.as_raw());
    assert_eq!(Format::ASTC_12x12SrgbBlock.into_vulkan(), vk::Format::ASTC_12X12_SRGB_BLOCK.as_raw());
}

#[test]
fn format_code_round_trip() {
    for code in 1..=184 {
        let f = Format::from_vulkan(code).expect("every code from 1 to 184 names a format");
        assert_eq!(f.into_vulkan(), code);
    }
    assert_eq!(Format::from_vulkan(0), None);
    assert_eq!(Format::from_vulkan(185), None);
    assert_eq!(Format::from_vulkan(-1), None);
    assert_eq!(Format::from_vulkan(vk::Format::R8_UNORM.as_raw()), Some(Format::R8Unorm));
}

#[test]
fn format_sizes() {
    assert_eq!(Format::R8Unorm.size(), Some(1));
    assert_eq!(Format::R16G16B16Sfloat.size(), Some(6));
    assert_eq!(Format::R64G64B64A64Sfloat.size(), Some(32));
    assert_eq!(Format::D24Unorm_S8Uint.size(), None);
    assert_eq!(Format::BC1_RGBUnormBlock.size(), Some(8));
}

#[test]
fn format_block_dimensions() {
    assert_eq!(Format::R8G8B8A8Unorm.block_dimensions(), (1, 1));
    assert_eq!(Format::BC3UnormBlock.block_dimensions(), (4, 4));
    assert_eq!(Format::ASTC_10x6UnormBlock.block_dimensions(), (10, 6));
    assert_eq!(Format::ASTC_12x10SrgbBlock.block_dimensions(), (12, 10));
}

#[test]
fn format_features_from_vulkan() {
    let flags = vk::FormatFeatureFlags::SAMPLED_IMAGE
        | vk::FormatFeatureFlags::BLIT_DST
        | vk::FormatFeatureFlags::TRANSFER_SRC
        | vk::FormatFeatureFlags::FRAGMENT_DENSITY_MAP_EXT;
    let f = FormatFeatures::from_vulkan(flags.as_raw());
    assert!(f.sampled_image);
    assert!(f.blit_dst);
    assert!(f.transfer_src);
    assert!(f.ext_fragment_density_map);
    assert!(!f.storage_image);
    assert!(!f.transfer_dst);
    assert!(!f.img_sampled_image_filter_cubic);
    assert_eq!(FormatFeatures::from_vulkan(0), FormatFeatures::default());
    let all = FormatFeatures::from_vulkan(u32::MAX);
    assert!(all.storage_image_atomic && all.disjoint && all.khr_acceleration_structure_vertex_buffer);
}

#[test]
fn format_features_bits_match_vulkan() {
    let cases: Vec<(vk::FormatFeatureFlags, fn(&FormatFeatures) -> bool)> = vec![
        (vk::FormatFeatureFlags::STORAGE_TEXEL_BUFFER_ATOMIC, |f| f.storage_texel_buffer_atomic),
        (vk::FormatFeatureFlags::COLOR_ATTACHMENT_BLEND, |f| f.color_attachment_blend),
        (vk::FormatFeatureFlags::SAMPLED_IMAGE_FILTER_MINMAX, |f| f.sampled_image_filter_minmax),
        (vk::FormatFeatureFlags::SAMPLED_IMAGE_FILTER_CUBIC_IMG, |f| f.img_sampled_image_filter_cubic),
        (vk::FormatFeatureFlags::COSITED_CHROMA_SAMPLES, |f| f.cosited_chroma_samples),
        (
            vk::FormatFeatureFlags::SAMPLED_IMAGE_YCBCR_CONVERSION_CHROMA_RECONSTRUCTION_EXPLICIT_FORCEABLE,
            |f| f.sampled_image_ycbcr_conversion_chroma_reconstruction_explicit_forceable,
        ),
    ];
    for (flag, get) in cases {
        let f = FormatFeatures::from_vulkan(flag.as_raw());
        assert!(get(&f));
        let g = FormatFeatures::from_vulkan(!flag.as_raw());
        assert!(!get(&g));
    }
}

#[test]
fn format_properties_from_vulkan() {
    let p = FormatProperties::from_vulkan(
        vk::FormatFeatureFlags::SAMPLED_IMAGE.as_raw(),
        vk::FormatFeatureFlags::COLOR_ATTACHMENT.as_raw(),
        vk::FormatFeatureFlags::VERTEX_BUFFER.as_raw(),
    );
    assert!(p.linear_tiling_features.sampled_image && !p.linear_tiling_features.color_attachment);
    assert!(p.optimal_tiling_features.color_attachment && !p.optimal_tiling_features.sampled_image);
    assert!(p.buffer_features.vertex_buffer && !p.buffer_features.sampled_image);
    assert_eq!(FormatProperties::default(), FormatProperties::from_vulkan(0, 0, 0));
}
