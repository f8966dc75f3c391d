//! Image and buffer formats.
//!
//! A [`Format`] is identified on the Vulkan side by a 32-bit code; this
//! module holds that encoding and the per-format element sizes, together
//! with the format features a physical device reports.
use vstd::prelude::*;

verus! {

/// An enumeration of all the possible formats.
#[allow(non_camel_case_types)]
#[derive(Copy, Clone, Debug, PartialEq, Eq, Hash, Structural)]
pub enum Format {
    R4G4UnormPack8,
    R4G4B4A4UnormPack16,
    B4G4R4A4UnormPack16,
    R5G6B5UnormPack16,
    B5G6R5UnormPack16,
    R5G5B5A1UnormPack16,
    B5G5R5A1UnormPack16,
    A1R5G5B5UnormPack16,
    R8Unorm,
    R8Snorm,
    R8Uscaled,
    R8Sscaled,
    R8Uint,
    R8Sint,
    R8Srgb,
    R8G8Unorm,
    R8G8Snorm,
    R8G8Uscaled,
    R8G8Sscaled,
    R8G8Uint,
    R8G8Sint,
    R8G8Srgb,
    R8G8B8Unorm,
    R8G8B8Snorm,
    R8G8B8Uscaled,
    R8G8B8Sscaled,
    R8G8B8Uint,
    R8G8B8Sint,
    R8G8B8Srgb,
    B8G8R8Unorm,
    B8G8R8Snorm,
    B8G8R8Uscaled,
    B8G8R8Sscaled,
    B8G8R8Uint,
    B8G8R8Sint,
    B8G8R8Srgb,
    R8G8B8A8Unorm,
    R8G8B8A8Snorm,
    R8G8B8A8Uscaled,
    R8G8B8A8Sscaled,
    R8G8B8A8Uint,
    R8G8B8A8Sint,
    R8G8B8A8Srgb,
    B8G8R8A8Unorm,
    B8G8R8A8Snorm,
    B8G8R8A8Uscaled,
    B8G8R8A8Sscaled,
    B8G8R8A8Uint,
    B8G8R8A8Sint,
    B8G8R8A8Srgb,
    A8B8G8R8UnormPack32,
    A8B8G8R8SnormPack32,
    A8B8G8R8UscaledPack32,
    A8B8G8R8SscaledPack32,
    A8B8G8R8UintPack32,
    A8B8G8R8SintPack32,
    A8B8G8R8SrgbPack32,
    A2R10G10B10UnormPack32,
    A2R10G10B10SnormPack32,
    A2R10G10B10UscaledPack32,
    A2R10G10B10SscaledPack32,
    A2R10G10B10UintPack32,
    A2R10G10B10SintPack32,
    A2B10G10R10UnormPack32,
    A2B10G10R10SnormPack32,
    A2B10G10R10UscaledPack32,
    A2B10G10R10SscaledPack32,
    A2B10G10R10UintPack32,
    A2B10G10R10SintPack32,
    R16Unorm,
    R16Snorm,
    R16Uscaled,
    R16Sscaled,
    R16Uint,
    R16Sint,
    R16Sfloat,
    R16G16Unorm,
    R16G16Snorm,
    R16G16Uscaled,
    R16G16Sscaled,
    R16G16Uint,
    R16G16Sint,
    R16G16Sfloat,
    R16G16B16Unorm,
    R16G16B16Snorm,
    R16G16B16Uscaled,
    R16G16B16Sscaled,
    R16G16B16Uint,
    R16G16B16Sint,
    R16G16B16Sfloat,
    R16G16B16A16Unorm,
    R16G16B16A16Snorm,
    R16G16B16A16Uscaled,
    R16G16B16A16Sscaled,
    R16G16B16A16Uint,
    R16G16B16A16Sint,
    R16G16B16A16Sfloat,
    R32Uint,
    R32Sint,
    R32Sfloat,
    R32G32Uint,
    R32G32Sint,
    R32G32Sfloat,
    R32G32B32Uint,
    R32G32B32Sint,
    R32G32B32Sfloat,
    R32G32B32A32Uint,
    R32G32B32A32Sint,
    R32G32B32A32Sfloat,
    R64Uint,
    R64Sint,
    R64Sfloat,
    R64G64Uint,
    R64G64Sint,
    R64G64Sfloat,
    R64G64B64Uint,
    R64G64B64Sint,
    R64G64B64Sfloat,
    R64G64B64A64Uint,
    R64G64B64A64Sint,
    R64G64B64A64Sfloat,
    B10G11R11UfloatPack32,
    E5B9G9R9UfloatPack32,
    D16Unorm,
    X8_D24UnormPack32,
    D32Sfloat,
    S8Uint,
    D16Unorm_S8Uint,
    D24Unorm_S8Uint,
    D32Sfloat_S8Uint,
    BC1_RGBUnormBlock,
    BC1_RGBSrgbBlock,
    BC1_RGBAUnormBlock,
    BC1_RGBASrgbBlock,
    BC2UnormBlock,
    BC2SrgbBlock,
    BC3UnormBlock,
    BC3SrgbBlock,
    BC4UnormBlock,
    BC4SnormBlock,
    BC5UnormBlock,
    BC5SnormBlock,
    BC6HUfloatBlock,
    BC6HSfloatBlock,
    BC7UnormBlock,
    BC7SrgbBlock,
    ETC2_R8G8B8UnormBlock,
    ETC2_R8G8B8SrgbBlock,
    ETC2_R8G8B8A1UnormBlock,
    ETC2_R8G8B8A1SrgbBlock,
    ETC2_R8G8B8A8UnormBlock,
    ETC2_R8G8B8A8SrgbBlock,
    EAC_R11UnormBlock,
    EAC_R11SnormBlock,
    EAC_R11G11UnormBlock,
    EAC_R11G11SnormBlock,
    ASTC_4x4UnormBlock,
    ASTC_4x4SrgbBlock,
    ASTC_5x4UnormBlock,
    ASTC_5x4SrgbBlock,
    ASTC_5x5UnormBlock,
    ASTC_5x5SrgbBlock,
    ASTC_6x5UnormBlock,
    ASTC_6x5SrgbBlock,
    ASTC_6x6UnormBlock,
    ASTC_6x6SrgbBlock,
    ASTC_8x5UnormBlock,
    ASTC_8x5SrgbBlock,
    ASTC_8x6UnormBlock,
    ASTC_8x6SrgbBlock,
    ASTC_8x8UnormBlock,
    ASTC_8x8SrgbBlock,
    ASTC_10x5UnormBlock,
    ASTC_10x5SrgbBlock,
    ASTC_10x6UnormBlock,
    ASTC_10x6SrgbBlock,
    ASTC_10x8UnormBlock,
    ASTC_10x8SrgbBlock,
    ASTC_10x10UnormBlock,
    ASTC_10x10SrgbBlock,
    ASTC_12x10UnormBlock,
    ASTC_12x10SrgbBlock,
    ASTC_12x12UnormBlock,
    ASTC_12x12SrgbBlock,
}

impl Format {
    /// The Vulkan code of this format (`VkFormat`).
    pub open spec fn spec_code(self) -> i32 {
        match self {
            Format::R4G4UnormPack8 => 1,
            Format::R4G4B4A4UnormPack16 => 2,
            Format::B4G4R4A4UnormPack16 => 3,
            Format::R5G6B5UnormPack16 => 4,
            Format::B5G6R5UnormPack16 => 5,
            Format::R5G5B5A1UnormPack16 => 6,
            Format::B5G5R5A1UnormPack16 => 7,
            Format::A1R5G5B5UnormPack16 => 8,
            Format::R8Unorm => 9,
            Format::R8Snorm => 10,
            Format::R8Uscaled => 11,
            Format::R8Sscaled => 12,
            Format::R8Uint => 13,
            Format::R8Sint => 14,
            Format::R8Srgb => 15,
            Format::R8G8Unorm => 16,
            Format::R8G8Snorm => 17,
            Format::R8G8Uscaled => 18,
            Format::R8G8Sscaled => 19,
            Format::R8G8Uint => 20,
            Format::R8G8Sint => 21,
            Format::R8G8Srgb => 22,
            Format::R8G8B8Unorm => 23,
            Format::R8G8B8Snorm => 24,
            Format::R8G8B8Uscaled => 25,
            Format::R8G8B8Sscaled => 26,
            Format::R8G8B8Uint => 27,
            Format::R8G8B8Sint => 28,
            Format::R8G8B8Srgb => 29,
            Format::B8G8R8Unorm => 30,
            Format::B8G8R8Snorm => 31,
            Format::B8G8R8Uscaled => 32,
            Format::B8G8R8Sscaled => 33,
            Format::B8G8R8Uint => 34,
            Format::B8G8R8Sint => 35,
            Format::B8G8R8Srgb => 36,
            Format::R8G8B8A8Unorm => 37,
            Format::R8G8B8A8Snorm => 38,
            Format::R8G8B8A8Uscaled => 39,
            Format::R8G8B8A8Sscaled => 40,
            Format::R8G8B8A8Uint => 41,
            Format::R8G8B8A8Sint => 42,
            Format::R8G8B8A8Srgb => 43,
            Format::B8G8R8A8Unorm => 44,
            Format::B8G8R8A8Snorm => 45,
            Format::B8G8R8A8Uscaled => 46,
            Format::B8G8R8A8Sscaled => 47,
            Format::B8G8R8A8Uint => 48,
            Format::B8G8R8A8Sint => 49,
            Format::B8G8R8A8Srgb => 50,
            Format::A8B8G8R8UnormPack32 => 51,
            Format::A8B8G8R8SnormPack32 => 52,
            Format::A8B8G8R8UscaledPack32 => 53,
            Format::A8B8G8R8SscaledPack32 => 54,
            Format::A8B8G8R8UintPack32 => 55,
            Format::A8B8G8R8SintPack32 => 56,
            Format::A8B8G8R8SrgbPack32 => 57,
            Format::A2R10G10B10UnormPack32 => 58,
            Format::A2R10G10B10SnormPack32 => 59,
            Format::A2R10G10B10UscaledPack32 => 60,
            Format::A2R10G10B10SscaledPack32 => 61,
            Format::A2R10G10B10UintPack32 => 62,
            Format::A2R10G10B10SintPack32 => 63,
            Format::A2B10G10R10UnormPack32 => 64,
            Format::A2B10G10R10SnormPack32 => 65,
            Format::A2B10G10R10UscaledPack32 => 66,
            Format::A2B10G10R10SscaledPack32 => 67,
            Format::A2B10G10R10UintPack32 => 68,
            Format::A2B10G10R10SintPack32 => 69,
            Format::R16Unorm => 70,
            Format::R16Snorm => 71,
            Format::R16Uscaled => 72,
            Format::R16Sscaled => 73,
            Format::R16Uint => 74,
            Format::R16Sint => 75,
            Format::R16Sfloat => 76,
            Format::R16G16Unorm => 77,
            Format::R16G16Snorm => 78,
            Format::R16G16Uscaled => 79,
            Format::R16G16Sscaled => 80,
            Format::R16G16Uint => 81,
            Format::R16G16Sint => 82,
            Format::R16G16Sfloat => 83,
            Format::R16G16B16Unorm => 84,
            Format::R16G16B16Snorm => 85,
            Format::R16G16B16Uscaled => 86,
            Format::R16G16B16Sscaled => 87,
            Format::R16G16B16Uint => 88,
            Format::R16G16B16Sint => 89,
            Format::R16G16B16Sfloat => 90,
            Format::R16G16B16A16Unorm => 91,
            Format::R16G16B16A16Snorm => 92,
            Format::R16G16B16A16Uscaled => 93,
            Format::R16G16B16A16Sscaled => 94,
            Format::R16G16B16A16Uint => 95,
            Format::R16G16B16A16Sint => 96,
            Format::R16G16B16A16Sfloat => 97,
            Format::R32Uint => 98,
            Format::R32Sint => 99,
            Format::R32Sfloat => 100,
            Format::R32G32Uint => 101,
            Format::R32G32Sint => 102,
            Format::R32G32Sfloat => 103,
            Format::R32G32B32Uint => 104,
            Format::R32G32B32Sint => 105,
            Format::R32G32B32Sfloat => 106,
            Format::R32G32B32A32Uint => 107,
            Format::R32G32B32A32Sint => 108,
            Format::R32G32B32A32Sfloat => 109,
            Format::R64Uint => 110,
            Format::R64Sint => 111,
            Format::R64Sfloat => 112,
            Format::R64G64Uint => 113,
            Format::R64G64Sint => 114,
            Format::R64G64Sfloat => 115,
            Format::R64G64B64Uint => 116,
            Format::R64G64B64Sint => 117,
            Format::R64G64B64Sfloat => 118,
            Format::R64G64B64A64Uint => 119,
            Format::R64G64B64A64Sint => 120,
            Format::R64G64B64A64Sfloat => 121,
            Format::B10G11R11UfloatPack32 => 122,
            Format::E5B9G9R9UfloatPack32 => 123,
            Format::D16Unorm => 124,
            Format::X8_D24UnormPack32 => 125,
            Format::D32Sfloat => 126,
            Format::S8Uint => 127,
            Format::D16Unorm_S8Uint => 128,
            Format::D24Unorm_S8Uint => 129,
            Format::D32Sfloat_S8Uint => 130,
            Format::BC1_RGBUnormBlock => 131,
            Format::BC1_RGBSrgbBlock => 132,
            Format::BC1_RGBAUnormBlock => 133,
            Format::BC1_RGBASrgbBlock => 134,
            Format::BC2UnormBlock => 135,
            Format::BC2SrgbBlock => 136,
            Format::BC3UnormBlock => 137,
            Format::BC3SrgbBlock => 138,
            Format::BC4UnormBlock => 139,
            Format::BC4SnormBlock => 140,
            Format::BC5UnormBlock => 141,
            Format::BC5SnormBlock => 142,
            Format::BC6HUfloatBlock => 143,
            Format::BC6HSfloatBlock => 144,
            Format::BC7UnormBlock => 145,
            Format::BC7SrgbBlock => 146,
            Format::ETC2_R8G8B8UnormBlock => 147,
            Format::ETC2_R8G8B8SrgbBlock => 148,
            Format::ETC2_R8G8B8A1UnormBlock => 149,
            Format::ETC2_R8G8B8A1SrgbBlock => 150,
            Format::ETC2_R8G8B8A8UnormBlock => 151,
            Format::ETC2_R8G8B8A8SrgbBlock => 152,
            Format::EAC_R11UnormBlock => 153,
            Format::EAC_R11SnormBlock => 154,
            Format::EAC_R11G11UnormBlock => 155,
            Format::EAC_R11G11SnormBlock => 156,
            Format::ASTC_4x4UnormBlock => 157,
            Format::ASTC_4x4SrgbBlock => 158,
            Format::ASTC_5x4UnormBlock => 159,
            Format::ASTC_5x4SrgbBlock => 160,
            Format::ASTC_5x5UnormBlock => 161,
            Format::ASTC_5x5SrgbBlock => 162,
            Format::ASTC_6x5UnormBlock => 163,
            Format::ASTC_6x5SrgbBlock => 164,
            Format::ASTC_6x6UnormBlock => 165,
            Format::ASTC_6x6SrgbBlock => 166,
            Format::ASTC_8x5UnormBlock => 167,
            Format::ASTC_8x5SrgbBlock => 168,
            Format::ASTC_8x6UnormBlock => 169,
            Format::ASTC_8x6SrgbBlock => 170,
            Format::ASTC_8x8UnormBlock => 171,
            Format::ASTC_8x8SrgbBlock => 172,
            Format::ASTC_10x5UnormBlock => 173,
            Format::ASTC_10x5SrgbBlock => 174,
            Format::ASTC_10x6UnormBlock => 175,
            Format::ASTC_10x6SrgbBlock => 176,
            Format::ASTC_10x8UnormBlock => 177,
            Format::ASTC_10x8SrgbBlock => 178,
            Format::ASTC_10x10UnormBlock => 179,
            Format::ASTC_10x10SrgbBlock => 180,
            Format::ASTC_12x10UnormBlock => 181,
            Format::ASTC_12x10SrgbBlock => 182,
            Format::ASTC_12x12UnormBlock => 183,
            Format::ASTC_12x12SrgbBlock => 184,
        }
    }

    /// The format whose Vulkan code is `code`, if any.
    pub open spec fn spec_from_code(code: i32) -> Option<Format> {
        if code == 1 { Some(Format::R4G4UnormPack8) }
        else if code == 2 { Some(Format::R4G4B4A4UnormPack16) }
        else if code == 3 { Some(Format::B4G4R4A4UnormPack16) }
        else if code == 4 { Some(Format::R5G6B5UnormPack16) }
        else if code == 5 { Some(Format::B5G6R5UnormPack16) }
        else if code == 6 { Some(Format::R5G5B5A1UnormPack16) }
        else if code == 7 { Some(Format::B5G5R5A1UnormPack16) }
        else if code == 8 { Some(Format::A1R5G5B5UnormPack16) }
        else if code == 9 { Some(Format::R8Unorm) }
        else if code == 10 { Some(Format::R8Snorm) }
        else if code == 11 { Some(Format::R8Uscaled) }
        else if code == 12 { Some(Format::R8Sscaled) }
        else if code == 13 { Some(Format::R8Uint) }
        else if code == 14 { Some(Format::R8Sint) }
        else if code == 15 { Some(Format::R8Srgb) }
        else if code == 16 { Some(Format::R8G8Unorm) }
        else if code == 17 { Some(Format::R8G8Snorm) }
        else if code == 18 { Some(Format::R8G8Uscaled) }
        else if code == 19 { Some(Format::R8G8Sscaled) }
        else if code == 20 { Some(Format::R8G8Uint) }
        else if code == 21 { Some(Format::R8G8Sint) }
        else if code == 22 { Some(Format::R8G8Srgb) }
        else if code == 23 { Some(Format::R8G8B8Unorm) }
        else if code == 24 { Some(Format::R8G8B8Snorm) }
        else if code == 25 { Some(Format::R8G8B8Uscaled) }
        else if code == 26 { Some(Format::R8G8B8Sscaled) }
        else if code == 27 { Some(Format::R8G8B8Uint) }
        else if code == 28 { Some(Format::R8G8B8Sint) }
        else if code == 29 { Some(Format::R8G8B8Srgb) }
        else if code == 30 { Some(Format::B8G8R8Unorm) }
        else if code == 31 { Some(Format::B8G8R8Snorm) }
        else if code == 32 { Some(Format::B8G8R8Uscaled) }
        else if code == 33 { Some(Format::B8G8R8Sscaled) }
        else if code == 34 { Some(Format::B8G8R8Uint) }
        else if code == 35 { Some(Format::B8G8R8Sint) }
        else if code == 36 { Some(Format::B8G8R8Srgb) }
        else if code == 37 { Some(Format::R8G8B8A8Unorm) }
        else if code == 38 { Some(Format::R8G8B8A8Snorm) }
        else if code == 39 { Some(Format::R8G8B8A8Uscaled) }
        else if code == 40 { Some(Format::R8G8B8A8Sscaled) }
        else if code == 41 { Some(Format::R8G8B8A8Uint) }
        else if code == 42 { Some(Format::R8G8B8A8Sint) }
        else if code == 43 { Some(Format::R8G8B8A8Srgb) }
        else if code == 44 { Some(Format::B8G8R8A8Unorm) }
        else if code == 45 { Some(Format::B8G8R8A8Snorm) }
        else if code == 46 { Some(Format::B8G8R8A8Uscaled) }
        else if code == 47 { Some(Format::B8G8R8A8Sscaled) }
        else if code == 48 { Some(Format::B8G8R8A8Uint) }
        else if code == 49 { Some(Format::B8G8R8A8Sint) }
        else if code == 50 { Some(Format::B8G8R8A8Srgb) }
        else if code == 51 { Some(Format::A8B8G8R8UnormPack32) }
        else if code == 52 { Some(Format::A8B8G8R8SnormPack32) }
        else if code == 53 { Some(Format::A8B8G8R8UscaledPack32) }
        else if code == 54 { Some(Format::A8B8G8R8SscaledPack32) }
        else if code == 55 { Some(Format::A8B8G8R8UintPack32) }
        else if code == 56 { Some(Format::A8B8G8R8SintPack32) }
        else if code == 57 { Some(Format::A8B8G8R8SrgbPack32) }
        else if code == 58 { Some(Format::A2R10G10B10UnormPack32) }
        else if code == 59 { Some(Format::A2R10G10B10SnormPack32) }
        else if code == 60 { Some(Format::A2R10G10B10UscaledPack32) }
        else if code == 61 { Some(Format::A2R10G10B10SscaledPack32) }
        else if code == 62 { Some(Format::A2R10G10B10UintPack32) }
        else if code == 63 { Some(Format::A2R10G10B10SintPack32) }
        else if code == 64 { Some(Format::A2B10G10R10UnormPack32) }
        else if code == 65 { Some(Format::A2B10G10R10SnormPack32) }
        else if code == 66 { Some(Format::A2B10G10R10UscaledPack32) }
        else if code == 67 { Some(Format::A2B10G10R10SscaledPack32) }
        else if code == 68 { Some(Format::A2B10G10R10UintPack32) }
        else if code == 69 { Some(Format::A2B10G10R10SintPack32) }
        else if code == 70 { Some(Format::R16Unorm) }
        else if code == 71 { Some(Format::R16Snorm) }
        else if code == 72 { Some(Format::R16Uscaled) }
        else if code == 73 { Some(Format::R16Sscaled) }
        else if code == 74 { Some(Format::R16Uint) }
        else if code == 75 { Some(Format::R16Sint) }
        else if code == 76 { Some(Format::R16Sfloat) }
        else if code == 77 { Some(Format::R16G16Unorm) }
        else if code == 78 { Some(Format::R16G16Snorm) }
        else if code == 79 { Some(Format::R16G16Uscaled) }
        else if code == 80 { Some(Format::R16G16Sscaled) }
        else if code == 81 { Some(Format::R16G16Uint) }
        else if code == 82 { Some(Format::R16G16Sint) }
        else if code == 83 { Some(Format::R16G16Sfloat) }
        else if code == 84 { Some(Format::R16G16B16Unorm) }
        else if code == 85 { Some(Format::R16G16B16Snorm) }
        else if code == 86 { Some(Format::R16G16B16Uscaled) }
        else if code == 87 { Some(Format::R16G16B16Sscaled) }
        else if code == 88 { Some(Format::R16G16B16Uint) }
        else if code == 89 { Some(Format::R16G16B16Sint) }
        else if code == 90 { Some(Format::R16G16B16Sfloat) }
        else if code == 91 { Some(Format::R16G16B16A16Unorm) }
        else if code == 92 { Some(Format::R16G16B16A16Snorm) }
        else if code == 93 { Some(Format::R16G16B16A16Uscaled) }
        else if code == 94 { Some(Format::R16G16B16A16Sscaled) }
        else if code == 95 { Some(Format::R16G16B16A16Uint) }
        else if code == 96 { Some(Format::R16G16B16A16Sint) }
        else if code == 97 { Some(Format::R16G16B16A16Sfloat) }
        else if code == 98 { Some(Format::R32Uint) }
        else if code == 99 { Some(Format::R32Sint) }
        else if code == 100 { Some(Format::R32Sfloat) }
        else if code == 101 { Some(Format::R32G32Uint) }
        else if code == 102 { Some(Format::R32G32Sint) }
        else if code == 103 { Some(Format::R32G32Sfloat) }
        else if code == 104 { Some(Format::R32G32B32Uint) }
        else if code == 105 { Some(Format::R32G32B32Sint) }
        else if code == 106 { Some(Format::R32G32B32Sfloat) }
        else if code == 107 { Some(Format::R32G32B32A32Uint) }
        else if code == 108 { Some(Format::R32G32B32A32Sint) }
        else if code == 109 { Some(Format::R32G32B32A32Sfloat) }
        else if code == 110 { Some(Format::R64Uint) }
        else if code == 111 { Some(Format::R64Sint) }
        else if code == 112 { Some(Format::R64Sfloat) }
        else if code == 113 { Some(Format::R64G64Uint) }
        else if code == 114 { Some(Format::R64G64Sint) }
        else if code == 115 { Some(Format::R64G64Sfloat) }
        else if code == 116 { Some(Format::R64G64B64Uint) }
        else if code == 117 { Some(Format::R64G64B64Sint) }
        else if code == 118 { Some(Format::R64G64B64Sfloat) }
        else if code == 119 { Some(Format::R64G64B64A64Uint) }
        else if code == 120 { Some(Format::R64G64B64A64Sint) }
        else if code == 121 { Some(Format::R64G64B64A64Sfloat) }
        else if code == 122 { Some(Format::B10G11R11UfloatPack32) }
        else if code == 123 { Some(Format::E5B9G9R9UfloatPack32) }
        else if code == 124 { Some(Format::D16Unorm) }
        else if code == 125 { Some(Format::X8_D24UnormPack32) }
        else if code == 126 { Some(Format::D32Sfloat) }
        else if code == 127 { Some(Format::S8Uint) }
        else if code == 128 { Some(Format::D16Unorm_S8Uint) }
        else if code == 129 { Some(Format::D24Unorm_S8Uint) }
        else if code == 130 { Some(Format::D32Sfloat_S8Uint) }
        else if code == 131 { Some(Format::BC1_RGBUnormBlock) }
        else if code == 132 { Some(Format::BC1_RGBSrgbBlock) }
        else if code == 133 { Some(Format::BC1_RGBAUnormBlock) }
        else if code == 134 { Some(Format::BC1_RGBASrgbBlock) }
        else if code == 135 { Some(Format::BC2UnormBlock) }
        else if code == 136 { Some(Format::BC2SrgbBlock) }
        else if code == 137 { Some(Format::BC3UnormBlock) }
        else if code == 138 { Some(Format::BC3SrgbBlock) }
        else if code == 139 { Some(Format::BC4UnormBlock) }
        else if code == 140 { Some(Format::BC4SnormBlock) }
        else if code == 141 { Some(Format::BC5UnormBlock) }
        else if code == 142 { Some(Format::BC5SnormBlock) }
        else if code == 143 { Some(Format::BC6HUfloatBlock) }
        else if code == 144 { Some(Format::BC6HSfloatBlock) }
        else if code == 145 { Some(Format::BC7UnormBlock) }
        else if code == 146 { Some(Format::BC7SrgbBlock) }
        else if code == 147 { Some(Format::ETC2_R8G8B8UnormBlock) }
        else if code == 148 { Some(Format::ETC2_R8G8B8SrgbBlock) }
        else if code == 149 { Some(Format::ETC2_R8G8B8A1UnormBlock) }
        else if code == 150 { Some(Format::ETC2_R8G8B8A1SrgbBlock) }
        else if code == 151 { Some(Format::ETC2_R8G8B8A8UnormBlock) }
        else if code == 152 { Some(Format::ETC2_R8G8B8A8SrgbBlock) }
        else if code == 153 { Some(Format::EAC_R11UnormBlock) }
        else if code == 154 { Some(Format::EAC_R11SnormBlock) }
        else if code == 155 { Some(Format::EAC_R11G11UnormBlock) }
        else if code == 156 { Some(Format::EAC_R11G11SnormBlock) }
        else if code == 157 { Some(Format::ASTC_4x4UnormBlock) }
        else if code == 158 { Some(Format::ASTC_4x4SrgbBlock) }
        else if code == 159 { Some(Format::ASTC_5x4UnormBlock) }
        else if code == 160 { Some(Format::ASTC_5x4SrgbBlock) }
        else if code == 161 { Some(Format::ASTC_5x5UnormBlock) }
        else if code == 162 { Some(Format::ASTC_5x5SrgbBlock) }
        else if code == 163 { Some(Format::ASTC_6x5UnormBlock) }
        else if code == 164 { Some(Format::ASTC_6x5SrgbBlock) }
        else if code == 165 { Some(Format::ASTC_6x6UnormBlock) }
        else if code == 166 { Some(Format::ASTC_6x6SrgbBlock) }
        else if code == 167 { Some(Format::ASTC_8x5UnormBlock) }
        else if code == 168 { Some(Format::ASTC_8x5SrgbBlock) }
        else if code == 169 { Some(Format::ASTC_8x6UnormBlock) }
        else if code == 170 { Some(Format::ASTC_8x6SrgbBlock) }
        else if code == 171 { Some(Format::ASTC_8x8UnormBlock) }
        else if code == 172 { Some(Format::ASTC_8x8SrgbBlock) }
        else if code == 173 { Some(Format::ASTC_10x5UnormBlock) }
        else if code == 174 { Some(Format::ASTC_10x5SrgbBlock) }
        else if code == 175 { Some(Format::ASTC_10x6UnormBlock) }
        else if code == 176 { Some(Format::ASTC_10x6SrgbBlock) }
        else if code == 177 { Some(Format::ASTC_10x8UnormBlock) }
        else if code == 178 { Some(Format::ASTC_10x8SrgbBlock) }
        else if code == 179 { Some(Format::ASTC_10x10UnormBlock) }
        else if code == 180 { Some(Format::ASTC_10x10SrgbBlock) }
        else if code == 181 { Some(Format::ASTC_12x10UnormBlock) }
        else if code == 182 { Some(Format::ASTC_12x10SrgbBlock) }
        else if code == 183 { Some(Format::ASTC_12x12UnormBlock) }
        else if code == 184 { Some(Format::ASTC_12x12SrgbBlock) }
        else { None }
    }

    /// Size in bytes of an element (or block) of this format, if relevant.
    pub open spec fn spec_size(self) -> Option<usize> {
        match self {
            Format::R4G4UnormPack8 => Some(1),
            Format::R4G4B4A4UnormPack16 => Some(2),
            Format::B4G4R4A4UnormPack16 => Some(2),
            Format::R5G6B5UnormPack16 => Some(2),
            Format::B5G6R5UnormPack16 => Some(2),
            Format::R5G5B5A1UnormPack16 => Some(2),
            Format::B5G5R5A1UnormPack16 => Some(2),
            Format::A1R5G5B5UnormPack16 => Some(2),
            Format::R8Unorm => Some(1),
            Format::R8Snorm => Some(1),
            Format::R8Uscaled => Some(1),
            Format::R8Sscaled => Some(1),
            Format::R8Uint => Some(1),
            Format::R8Sint => Some(1),
            Format::R8Srgb => Some(1),
            Format::R8G8Unorm => Some(2),
            Format::R8G8Snorm => Some(2),
            Format::R8G8Uscaled => Some(2),
            Format::R8G8Sscaled => Some(2),
            Format::R8G8Uint => Some(2),
            Format::R8G8Sint => Some(2),
            Format::R8G8Srgb => Some(2),
            Format::R8G8B8Unorm => Some(3),
            Format::R8G8B8Snorm => Some(3),
            Format::R8G8B8Uscaled => Some(3),
            Format::R8G8B8Sscaled => Some(3),
            Format::R8G8B8Uint => Some(3),
            Format::R8G8B8Sint => Some(3),
            Format::R8G8B8Srgb => Some(3),
            Format::B8G8R8Unorm => Some(3),
            Format::B8G8R8Snorm => Some(3),
            Format::B8G8R8Uscaled => Some(3),
            Format::B8G8R8Sscaled => Some(3),
            Format::B8G8R8Uint => Some(3),
            Format::B8G8R8Sint => Some(3),
            Format::B8G8R8Srgb => Some(3),
            Format::R8G8B8A8Unorm => Some(4),
            Format::R8G8B8A8Snorm => Some(4),
            Format::R8G8B8A8Uscaled => Some(4),
            Format::R8G8B8A8Sscaled => Some(4),
            Format::R8G8B8A8Uint => Some(4),
            Format::R8G8B8A8Sint => Some(4),
            Format::R8G8B8A8Srgb => Some(4),
            Format::B8G8R8A8Unorm => Some(4),
            Format::B8G8R8A8Snorm => Some(4),
            Format::B8G8R8A8Uscaled => Some(4),
            Format::B8G8R8A8Sscaled => Some(4),
            Format::B8G8R8A8Uint => Some(4),
            Format::B8G8R8A8Sint => Some(4),
            Format::B8G8R8A8Srgb => Some(4),
            Format::A8B8G8R8UnormPack32 => Some(4),
            Format::A8B8G8R8SnormPack32 => Some(4),
            Format::A8B8G8R8UscaledPack32 => Some(4),
            Format::A8B8G8R8SscaledPack32 => Some(4),
            Format::A8B8G8R8UintPack32 => Some(4),
            Format::A8B8G8R8SintPack32 => Some(4),
            Format::A8B8G8R8SrgbPack32 => Some(4),
            Format::A2R10G10B10UnormPack32 => Some(4),
            Format::A2R10G10B10SnormPack32 => Some(4),
            Format::A2R10G10B10UscaledPack32 => Some(4),
            Format::A2R10G10B10SscaledPack32 => Some(4),
            Format::A2R10G10B10UintPack32 => Some(4),
            Format::A2R10G10B10SintPack32 => Some(4),
            Format::A2B10G10R10UnormPack32 => Some(4),
            Format::A2B10G10R10SnormPack32 => Some(4),
            Format::A2B10G10R10UscaledPack32 => Some(4),
            Format::A2B10G10R10SscaledPack32 => Some(4),
            Format::A2B10G10R10UintPack32 => Some(4),
            Format::A2B10G10R10SintPack32 => Some(4),
            Format::R16Unorm => Some(2),
            Format::R16Snorm => Some(2),
            Format::R16Uscaled => Some(2),
            Format::R16Sscaled => Some(2),
            Format::R16Uint => Some(2),
            Format::R16Sint => Some(2),
            Format::R16Sfloat => Some(2),
            Format::R16G16Unorm => Some(4),
            Format::R16G16Snorm => Some(4),
            Format::R16G16Uscaled => Some(4),
            Format::R16G16Sscaled => Some(4),
            Format::R16G16Uint => Some(4),
            Format::R16G16Sint => Some(4),
            Format::R16G16Sfloat => Some(4),
            Format::R16G16B16Unorm => Some(6),
            Format::R16G16B16Snorm => Some(6),
            Format::R16G16B16Uscaled => Some(6),
            Format::R16G16B16Sscaled => Some(6),
            Format::R16G16B16Uint => Some(6),
            Format::R16G16B16Sint => Some(6),
            Format::R16G16B16Sfloat => Some(6),
            Format::R16G16B16A16Unorm => Some(8),
            Format::R16G16B16A16Snorm => Some(8),
            Format::R16G16B16A16Uscaled => Some(8),
            Format::R16G16B16A16Sscaled => Some(8),
            Format::R16G16B16A16Uint => Some(8),
            Format::R16G16B16A16Sint => Some(8),
            Format::R16G16B16A16Sfloat => Some(8),
            Format::R32Uint => Some(4),
            Format::R32Sint => Some(4),
            Format::R32Sfloat => Some(4),
            Format::R32G32Uint => Some(8),
            Format::R32G32Sint => Some(8),
            Format::R32G32Sfloat => Some(8),
            Format::R32G32B32Uint => Some(12),
            Format::R32G32B32Sint => Some(12),
            Format::R32G32B32Sfloat => Some(12),
            Format::R32G32B32A32Uint => Some(16),
            Format::R32G32B32A32Sint => Some(16),
            Format::R32G32B32A32Sfloat => Some(16),
            Format::R64Uint => Some(8),
            Format::R64Sint => Some(8),
            Format::R64Sfloat => Some(8),
            Format::R64G64Uint => Some(16),
            Format::R64G64Sint => Some(16),
            Format::R64G64Sfloat => Some(16),
            Format::R64G64B64Uint => Some(24),
            Format::R64G64B64Sint => Some(24),
            Format::R64G64B64Sfloat => Some(24),
            Format::R64G64B64A64Uint => Some(32),
            Format::R64G64B64A64Sint => Some(32),
            Format::R64G64B64A64Sfloat => Some(32),
            Format::B10G11R11UfloatPack32 => Some(4),
            Format::E5B9G9R9UfloatPack32 => Some(4),
            Format::D16Unorm => Some(2),
            Format::X8_D24UnormPack32 => Some(4),
            Format::D32Sfloat => Some(4),
            Format::S8Uint => Some(1),
            Format::D16Unorm_S8Uint => None,
            Format::D24Unorm_S8Uint => None,
            Format::D32Sfloat_S8Uint => None,
            Format::BC1_RGBUnormBlock => Some(8),
            Format::BC1_RGBSrgbBlock => Some(8),
            Format::BC1_RGBAUnormBlock => Some(8),
            Format::BC1_RGBASrgbBlock => Some(8),
            Format::BC2UnormBlock => Some(16),
            Format::BC2SrgbBlock => Some(16),
            Format::BC3UnormBlock => Some(16),
            Format::BC3SrgbBlock => Some(16),
            Format::BC4UnormBlock => Some(8),
            Format::BC4SnormBlock => Some(8),
            Format::BC5UnormBlock => Some(16),
            Format::BC5SnormBlock => Some(16),
            Format::BC6HUfloatBlock => Some(16),
            Format::BC6HSfloatBlock => Some(16),
            Format::BC7UnormBlock => Some(16),
            Format::BC7SrgbBlock => Some(16),
            Format::ETC2_R8G8B8UnormBlock => Some(8),
            Format::ETC2_R8G8B8SrgbBlock => Some(8),
            Format::ETC2_R8G8B8A1UnormBlock => Some(8),
            Format::ETC2_R8G8B8A1SrgbBlock => Some(8),
            Format::ETC2_R8G8B8A8UnormBlock => Some(16),
            Format::ETC2_R8G8B8A8SrgbBlock => Some(16),
            Format::EAC_R11UnormBlock => Some(8),
            Format::EAC_R11SnormBlock => Some(8),
            Format::EAC_R11G11UnormBlock => Some(16),
            Format::EAC_R11G11SnormBlock => Some(16),
            Format::ASTC_4x4UnormBlock => Some(16),
            Format::ASTC_4x4SrgbBlock => Some(16),
            Format::ASTC_5x4UnormBlock => Some(16),
            Format::ASTC_5x4SrgbBlock => Some(16),
            Format::ASTC_5x5UnormBlock => Some(16),
            Format::ASTC_5x5SrgbBlock => Some(16),
            Format::ASTC_6x5UnormBlock => Some(16),
            Format::ASTC_6x5SrgbBlock => Some(16),
            Format::ASTC_6x6UnormBlock => Some(16),
            Format::ASTC_6x6SrgbBlock => Some(16),
            Format::ASTC_8x5UnormBlock => Some(16),
            Format::ASTC_8x5SrgbBlock => Some(16),
            Format::ASTC_8x6UnormBlock => Some(16),
            Format::ASTC_8x6SrgbBlock => Some(16),
            Format::ASTC_8x8UnormBlock => Some(16),
            Format::ASTC_8x8SrgbBlock => Some(16),
            Format::ASTC_10x5UnormBlock => Some(16),
            Format::ASTC_10x5SrgbBlock => Some(16),
            Format::ASTC_10x6UnormBlock => Some(16),
            Format::ASTC_10x6SrgbBlock => Some(16),
            Format::ASTC_10x8UnormBlock => Some(16),
            Format::ASTC_10x8SrgbBlock => Some(16),
            Format::ASTC_10x10UnormBlock => Some(16),
            Format::ASTC_10x10SrgbBlock => Some(16),
            Format::ASTC_12x10UnormBlock => Some(16),
            Format::ASTC_12x10SrgbBlock => Some(16),
            Format::ASTC_12x12UnormBlock => Some(16),
            Format::ASTC_12x12SrgbBlock => Some(16),
        }
    }

    /// Block dimensions (width, height) of this format.
    pub open spec fn spec_block_dimensions(self) -> (u32, u32) {
        match self {
            Format::R4G4UnormPack8 => (1, 1),
            Format::R4G4B4A4UnormPack16 => (1, 1),
            Format::B4G4R4A4UnormPack16 => (1, 1),
            Format::R5G6B5UnormPack16 => (1, 1),
            Format::B5G6R5UnormPack16 => (1, 1),
            Format::R5G5B5A1UnormPack16 => (1, 1),
            Format::B5G5R5A1UnormPack16 => (1, 1),
            Format::A1R5G5B5UnormPack16 => (1, 1),
            Format::R8Unorm => (1, 1),
            Format::R8Snorm => (1, 1),
            Format::R8Uscaled => (1, 1),
            Format::R8Sscaled => (1, 1),
            Format::R8Uint => (1, 1),
            Format::R8Sint => (1, 1),
            Format::R8Srgb => (1, 1),
            Format::R8G8Unorm => (1, 1),
            Format::R8G8Snorm => (1, 1),
            Format::R8G8Uscaled => (1, 1),
            Format::R8G8Sscaled => (1, 1),
            Format::R8G8Uint => (1, 1),
            Format::R8G8Sint => (1, 1),
            Format::R8G8Srgb => (1, 1),
            Format::R8G8B8Unorm => (1, 1),
            Format::R8G8B8Snorm => (1, 1),
            Format::R8G8B8Uscaled => (1, 1),
            Format::R8G8B8Sscaled => (1, 1),
            Format::R8G8B8Uint => (1, 1),
            Format::R8G8B8Sint => (1, 1),
            Format::R8G8B8Srgb => (1, 1),
            Format::B8G8R8Unorm => (1, 1),
            Format::B8G8R8Snorm => (1, 1),
            Format::B8G8R8Uscaled => (1, 1),
            Format::B8G8R8Sscaled => (1, 1),
            Format::B8G8R8Uint => (1, 1),
            Format::B8G8R8Sint => (1, 1),
            Format::B8G8R8Srgb => (1, 1),
            Format::R8G8B8A8Unorm => (1, 1),
            Format::R8G8B8A8Snorm => (1, 1),
            Format::R8G8B8A8Uscaled => (1, 1),
            Format::R8G8B8A8Sscaled => (1, 1),
            Format::R8G8B8A8Uint => (1, 1),
            Format::R8G8B8A8Sint => (1, 1),
            Format::R8G8B8A8Srgb => (1, 1),
            Format::B8G8R8A8Unorm => (1, 1),
            Format::B8G8R8A8Snorm => (1, 1),
            Format::B8G8R8A8Uscaled => (1, 1),
            Format::B8G8R8A8Sscaled => (1, 1),
            Format::B8G8R8A8Uint => (1, 1),
            Format::B8G8R8A8Sint => (1, 1),
            Format::B8G8R8A8Srgb => (1, 1),
            Format::A8B8G8R8UnormPack32 => (1, 1),
            Format::A8B8G8R8SnormPack32 => (1, 1),
            Format::A8B8G8R8UscaledPack32 => (1, 1),
            Format::A8B8G8R8SscaledPack32 => (1, 1),
            Format::A8B8G8R8UintPack32 => (1, 1),
            Format::A8B8G8R8SintPack32 => (1, 1),
            Format::A8B8G8R8SrgbPack32 => (1, 1),
            Format::A2R10G10B10UnormPack32 => (1, 1),
            Format::A2R10G10B10SnormPack32 => (1, 1),
            Format::A2R10G10B10UscaledPack32 => (1, 1),
            Format::A2R10G10B10SscaledPack32 => (1, 1),
            Format::A2R10G10B10UintPack32 => (1, 1),
            Format::A2R10G10B10SintPack32 => (1, 1),
            Format::A2B10G10R10UnormPack32 => (1, 1),
            Format::A2B10G10R10SnormPack32 => (1, 1),
            Format::A2B10G10R10UscaledPack32 => (1, 1),
            Format::A2B10G10R10SscaledPack32 => (1, 1),
            Format::A2B10G10R10UintPack32 => (1, 1),
            Format::A2B10G10R10SintPack32 => (1, 1),
            Format::R16Unorm => (1, 1),
            Format::R16Snorm => (1, 1),
            Format::R16Uscaled => (1, 1),
            Format::R16Sscaled => (1, 1),
            Format::R16Uint => (1, 1),
            Format::R16Sint => (1, 1),
            Format::R16Sfloat => (1, 1),
            Format::R16G16Unorm => (1, 1),
            Format::R16G16Snorm => (1, 1),
            Format::R16G16Uscaled => (1, 1),
            Format::R16G16Sscaled => (1, 1),
            Format::R16G16Uint => (1, 1),
            Format::R16G16Sint => (1, 1),
            Format::R16G16Sfloat => (1, 1),
            Format::R16G16B16Unorm => (1, 1),
            Format::R16G16B16Snorm => (1, 1),
            Format::R16G16B16Uscaled => (1, 1),
            Format::R16G16B16Sscaled => (1, 1),
            Format::R16G16B16Uint => (1, 1),
            Format::R16G16B16Sint => (1, 1),
            Format::R16G16B16Sfloat => (1, 1),
            Format::R16G16B16A16Unorm => (1, 1),
            Format::R16G16B16A16Snorm => (1, 1),
            Format::R16G16B16A16Uscaled => (1, 1),
            Format::R16G16B16A16Sscaled => (1, 1),
            Format::R16G16B16A16Uint => (1, 1),
            Format::R16G16B16A16Sint => (1, 1),
            Format::R16G16B16A16Sfloat => (1, 1),
            Format::R32Uint => (1, 1),
            Format::R32Sint => (1, 1),
            Format::R32Sfloat => (1, 1),
            Format::R32G32Uint => (1, 1),
            Format::R32G32Sint => (1, 1),
            Format::R32G32Sfloat => (1, 1),
            Format::R32G32B32Uint => (1, 1),
            Format::R32G32B32Sint => (1, 1),
            Format::R32G32B32Sfloat => (1, 1),
            Format::R32G32B32A32Uint => (1, 1),
            Format::R32G32B32A32Sint => (1, 1),
            Format::R32G32B32A32Sfloat => (1, 1),
            Format::R64Uint => (1, 1),
            Format::R64Sint => (1, 1),
            Format::R64Sfloat => (1, 1),
            Format::R64G64Uint => (1, 1),
            Format::R64G64Sint => (1, 1),
            Format::R64G64Sfloat => (1, 1),
            Format::R64G64B64Uint => (1, 1),
            Format::R64G64B64Sint => (1, 1),
            Format::R64G64B64Sfloat => (1, 1),
            Format::R64G64B64A64Uint => (1, 1),
            Format::R64G64B64A64Sint => (1, 1),
            Format::R64G64B64A64Sfloat => (1, 1),
            Format::B10G11R11UfloatPack32 => (1, 1),
            Format::E5B9G9R9UfloatPack32 => (1, 1),
            Format::D16Unorm => (1, 1),
            Format::X8_D24UnormPack32 => (1, 1),
            Format::D32Sfloat => (1, 1),
            Format::S8Uint => (1, 1),
            Format::D16Unorm_S8Uint => (1, 1),
            Format::D24Unorm_S8Uint => (1, 1),
            Format::D32Sfloat_S8Uint => (1, 1),
            Format::BC1_RGBUnormBlock => (4, 4),
            Format::BC1_RGBSrgbBlock => (4, 4),
            Format::BC1_RGBAUnormBlock => (4, 4),
            Format::BC1_RGBASrgbBlock => (4, 4),
            Format::BC2UnormBlock => (4, 4),
            Format::BC2SrgbBlock => (4, 4),
            Format::BC3UnormBlock => (4, 4),
            Format::BC3SrgbBlock => (4, 4),
            Format::BC4UnormBlock => (4, 4),
            Format::BC4SnormBlock => (4, 4),
            Format::BC5UnormBlock => (4, 4),
            Format::BC5SnormBlock => (4, 4),
            Format::BC6HUfloatBlock => (4, 4),
            Format::BC6HSfloatBlock => (4, 4),
            Format::BC7UnormBlock => (4, 4),
            Format::BC7SrgbBlock => (4, 4),
            Format::ETC2_R8G8B8UnormBlock => (4, 4),
            Format::ETC2_R8G8B8SrgbBlock => (4, 4),
            Format::ETC2_R8G8B8A1UnormBlock => (4, 4),
            Format::ETC2_R8G8B8A1SrgbBlock => (4, 4),
            Format::ETC2_R8G8B8A8UnormBlock => (4, 4),
            Format::ETC2_R8G8B8A8SrgbBlock => (4, 4),
            Format::EAC_R11UnormBlock => (4, 4),
            Format::EAC_R11SnormBlock => (4, 4),
            Format::EAC_R11G11UnormBlock => (4, 4),
            Format::EAC_R11G11SnormBlock => (4, 4),
            Format::ASTC_4x4UnormBlock => (4, 4),
            Format::ASTC_4x4SrgbBlock => (4, 4),
            Format::ASTC_5x4UnormBlock => (5, 4),
            Format::ASTC_5x4SrgbBlock => (5, 4),
            Format::ASTC_5x5UnormBlock => (5, 5),
            Format::ASTC_5x5SrgbBlock => (5, 5),
            Format::ASTC_6x5UnormBlock => (6, 5),
            Format::ASTC_6x5SrgbBlock => (6, 5),
            Format::ASTC_6x6UnormBlock => (6, 6),
            Format::ASTC_6x6SrgbBlock => (6, 6),
            Format::ASTC_8x5UnormBlock => (8, 5),
            Format::ASTC_8x5SrgbBlock => (8, 5),
            Format::ASTC_8x6UnormBlock => (8, 6),
            Format::ASTC_8x6SrgbBlock => (8, 6),
            Format::ASTC_8x8UnormBlock => (8, 8),
            Format::ASTC_8x8SrgbBlock => (8, 8),
            Format::ASTC_10x5UnormBlock => (10, 5),
            Format::ASTC_10x5SrgbBlock => (10, 5),
            Format::ASTC_10x6UnormBlock => (10, 6),
            Format::ASTC_10x6SrgbBlock => (10, 6),
            Format::ASTC_10x8UnormBlock => (10, 8),
            Format::ASTC_10x8SrgbBlock => (10, 8),
            Format::ASTC_10x10UnormBlock => (10, 10),
            Format::ASTC_10x10SrgbBlock => (10, 10),
            Format::ASTC_12x10UnormBlock => (12, 10),
            Format::ASTC_12x10SrgbBlock => (12, 10),
            Format::ASTC_12x12UnormBlock => (12, 12),
            Format::ASTC_12x12SrgbBlock => (12, 12),
        }
    }

    /// Returns the Vulkan code corresponding to the `Format`.
    pub fn into_vulkan(self) -> (code: i32)
        ensures
            code == self.spec_code(),
            1 <= code <= 184,
            Format::spec_from_code(code) == Some(self),
    {
        proof {
            lemma_code_round_trip(self);
        }
        match self {
            Format::R4G4UnormPack8 => 1,
            Format::R4G4B4A4UnormPack16 => 2,
            Format::B4G4R4A4UnormPack16 => 3,
            Format::R5G6B5UnormPack16 => 4,
            Format::B5G6R5UnormPack16 => 5,
            Format::R5G5B5A1UnormPack16 => 6,
            Format::B5G5R5A1UnormPack16 => 7,
            Format::A1R5G5B5UnormPack16 => 8,
            Format::R8Unorm => 9,
            Format::R8Snorm => 10,
            Format::R8Uscaled => 11,
            Format::R8Sscaled => 12,
            Format::R8Uint => 13,
            Format::R8Sint => 14,
            Format::R8Srgb => 15,
            Format::R8G8Unorm => 16,
            Format::R8G8Snorm => 17,
            Format::R8G8Uscaled => 18,
            Format::R8G8Sscaled => 19,
            Format::R8G8Uint => 20,
            Format::R8G8Sint => 21,
            Format::R8G8Srgb => 22,
            Format::R8G8B8Unorm => 23,
            Format::R8G8B8Snorm => 24,
            Format::R8G8B8Uscaled => 25,
            Format::R8G8B8Sscaled => 26,
            Format::R8G8B8Uint => 27,
            Format::R8G8B8Sint => 28,
            Format::R8G8B8Srgb => 29,
            Format::B8G8R8Unorm => 30,
            Format::B8G8R8Snorm => 31,
            Format::B8G8R8Uscaled => 32,
            Format::B8G8R8Sscaled => 33,
            Format::B8G8R8Uint => 34,
            Format::B8G8R8Sint => 35,
            Format::B8G8R8Srgb => 36,
            Format::R8G8B8A8Unorm => 37,
            Format::R8G8B8A8Snorm => 38,
            Format::R8G8B8A8Uscaled => 39,
            Format::R8G8B8A8Sscaled => 40,
            Format::R8G8B8A8Uint => 41,
            Format::R8G8B8A8Sint => 42,
            Format::R8G8B8A8Srgb => 43,
            Format::B8G8R8A8Unorm => 44,
            Format::B8G8R8A8Snorm => 45,
            Format::B8G8R8A8Uscaled => 46,
            Format::B8G8R8A8Sscaled => 47,
            Format::B8G8R8A8Uint => 48,
            Format::B8G8R8A8Sint => 49,
            Format::B8G8R8A8Srgb => 50,
            Format::A8B8G8R8UnormPack32 => 51,
            Format::A8B8G8R8SnormPack32 => 52,
            Format::A8B8G8R8UscaledPack32 => 53,
            Format::A8B8G8R8SscaledPack32 => 54,
            Format::A8B8G8R8UintPack32 => 55,
            Format::A8B8G8R8SintPack32 => 56,
            Format::A8B8G8R8SrgbPack32 => 57,
            Format::A2R10G10B10UnormPack32 => 58,
            Format::A2R10G10B10SnormPack32 => 59,
            Format::A2R10G10B10UscaledPack32 => 60,
            Format::A2R10G10B10SscaledPack32 => 61,
            Format::A2R10G10B10UintPack32 => 62,
            Format::A2R10G10B10SintPack32 => 63,
            Format::A2B10G10R10UnormPack32 => 64,
            Format::A2B10G10R10SnormPack32 => 65,
            Format::A2B10G10R10UscaledPack32 => 66,
            Format::A2B10G10R10SscaledPack32 => 67,
            Format::A2B10G10R10UintPack32 => 68,
            Format::A2B10G10R10SintPack32 => 69,
            Format::R16Unorm => 70,
            Format::R16Snorm => 71,
            Format::R16Uscaled => 72,
            Format::R16Sscaled => 73,
            Format::R16Uint => 74,
            Format::R16Sint => 75,
            Format::R16Sfloat => 76,
            Format::R16G16Unorm => 77,
            Format::R16G16Snorm => 78,
            Format::R16G16Uscaled => 79,
            Format::R16G16Sscaled => 80,
            Format::R16G16Uint => 81,
            Format::R16G16Sint => 82,
            Format::R16G16Sfloat => 83,
            Format::R16G16B16Unorm => 84,
            Format::R16G16B16Snorm => 85,
            Format::R16G16B16Uscaled => 86,
            Format::R16G16B16Sscaled => 87,
            Format::R16G16B16Uint => 88,
            Format::R16G16B16Sint => 89,
            Format::R16G16B16Sfloat => 90,
            Format::R16G16B16A16Unorm => 91,
            Format::R16G16B16A16Snorm => 92,
            Format::R16G16B16A16Uscaled => 93,
            Format::R16G16B16A16Sscaled => 94,
            Format::R16G16B16A16Uint => 95,
            Format::R16G16B16A16Sint => 96,
            Format::R16G16B16A16Sfloat => 97,
            Format::R32Uint => 98,
            Format::R32Sint => 99,
            Format::R32Sfloat => 100,
            Format::R32G32Uint => 101,
            Format::R32G32Sint => 102,
            Format::R32G32Sfloat => 103,
            Format::R32G32B32Uint => 104,
            Format::R32G32B32Sint => 105,
            Format::R32G32B32Sfloat => 106,
            Format::R32G32B32A32Uint => 107,
            Format::R32G32B32A32Sint => 108,
            Format::R32G32B32A32Sfloat => 109,
            Format::R64Uint => 110,
            Format::R64Sint => 111,
            Format::R64Sfloat => 112,
            Format::R64G64Uint => 113,
            Format::R64G64Sint => 114,
            Format::R64G64Sfloat => 115,
            Format::R64G64B64Uint => 116,
            Format::R64G64B64Sint => 117,
            Format::R64G64B64Sfloat => 118,
            Format::R64G64B64A64Uint => 119,
            Format::R64G64B64A64Sint => 120,
            Format::R64G64B64A64Sfloat => 121,
            Format::B10G11R11UfloatPack32 => 122,
            Format::E5B9G9R9UfloatPack32 => 123,
            Format::D16Unorm => 124,
            Format::X8_D24UnormPack32 => 125,
            Format::D32Sfloat => 126,
            Format::S8Uint => 127,
            Format::D16Unorm_S8Uint => 128,
            Format::D24Unorm_S8Uint => 129,
            Format::D32Sfloat_S8Uint => 130,
            Format::BC1_RGBUnormBlock => 131,
            Format::BC1_RGBSrgbBlock => 132,
            Format::BC1_RGBAUnormBlock => 133,
            Format::BC1_RGBASrgbBlock => 134,
            Format::BC2UnormBlock => 135,
            Format::BC2SrgbBlock => 136,
            Format::BC3UnormBlock => 137,
            Format::BC3SrgbBlock => 138,
            Format::BC4UnormBlock => 139,
            Format::BC4SnormBlock => 140,
            Format::BC5UnormBlock => 141,
            Format::BC5SnormBlock => 142,
            Format::BC6HUfloatBlock => 143,
            Format::BC6HSfloatBlock => 144,
            Format::BC7UnormBlock => 145,
            Format::BC7SrgbBlock => 146,
            Format::ETC2_R8G8B8UnormBlock => 147,
            Format::ETC2_R8G8B8SrgbBlock => 148,
            Format::ETC2_R8G8B8A1UnormBlock => 149,
            Format::ETC2_R8G8B8A1SrgbBlock => 150,
            Format::ETC2_R8G8B8A8UnormBlock => 151,
            Format::ETC2_R8G8B8A8SrgbBlock => 152,
            Format::EAC_R11UnormBlock => 153,
            Format::EAC_R11SnormBlock => 154,
            Format::EAC_R11G11UnormBlock => 155,
            Format::EAC_R11G11SnormBlock => 156,
            Format::ASTC_4x4UnormBlock => 157,
            Format::ASTC_4x4SrgbBlock => 158,
            Format::ASTC_5x4UnormBlock => 159,
            Format::ASTC_5x4SrgbBlock => 160,
            Format::ASTC_5x5UnormBlock => 161,
            Format::ASTC_5x5SrgbBlock => 162,
            Format::ASTC_6x5UnormBlock => 163,
            Format::ASTC_6x5SrgbBlock => 164,
            Format::ASTC_6x6UnormBlock => 165,
            Format::ASTC_6x6SrgbBlock => 166,
            Format::ASTC_8x5UnormBlock => 167,
            Format::ASTC_8x5SrgbBlock => 168,
            Format::ASTC_8x6UnormBlock => 169,
            Format::ASTC_8x6SrgbBlock => 170,
            Format::ASTC_8x8UnormBlock => 171,
            Format::ASTC_8x8SrgbBlock => 172,
            Format::ASTC_10x5UnormBlock => 173,
            Format::ASTC_10x5SrgbBlock => 174,
            Format::ASTC_10x6UnormBlock => 175,
            Format::ASTC_10x6SrgbBlock => 176,
            Format::ASTC_10x8UnormBlock => 177,
            Format::ASTC_10x8SrgbBlock => 178,
            Format::ASTC_10x10UnormBlock => 179,
            Format::ASTC_10x10SrgbBlock => 180,
            Format::ASTC_12x10UnormBlock => 181,
            Format::ASTC_12x10SrgbBlock => 182,
            Format::ASTC_12x12UnormBlock => 183,
            Format::ASTC_12x12SrgbBlock => 184,
        }
    }

    /// Returns the `Format` corresponding to a Vulkan code.
    ///
    /// The result is `Some(f)` exactly when `f` is the format whose code is
    /// `code`; codes that name no format of this enumeration give `None`.
    pub fn from_vulkan(code: i32) -> (r: Option<Format>)
        ensures
            r == Format::spec_from_code(code),
            forall|f: Format| r == Some(f) <==> f.spec_code() == code,
            r is Some <==> 1 <= code <= 184,
    {
        proof {
            lemma_from_code_exact(code);
        }
        if code == 1 { Some(Format::R4G4UnormPack8) }
        else if code == 2 { Some(Format::R4G4B4A4UnormPack16) }
        else if code == 3 { Some(Format::B4G4R4A4UnormPack16) }
        else if code == 4 { Some(Format::R5G6B5UnormPack16) }
        else if code == 5 { Some(Format::B5G6R5UnormPack16) }
        else if code == 6 { Some(Format::R5G5B5A1UnormPack16) }
        else if code == 7 { Some(Format::B5G5R5A1UnormPack16) }
        else if code == 8 { Some(Format::A1R5G5B5UnormPack16) }
        else if code == 9 { Some(Format::R8Unorm) }
        else if code == 10 { Some(Format::R8Snorm) }
        else if code == 11 { Some(Format::R8Uscaled) }
        else if code == 12 { Some(Format::R8Sscaled) }
        else if code == 13 { Some(Format::R8Uint) }
        else if code == 14 { Some(Format::R8Sint) }
        else if code == 15 { Some(Format::R8Srgb) }
        else if code == 16 { Some(Format::R8G8Unorm) }
        else if code == 17 { Some(Format::R8G8Snorm) }
        else if code == 18 { Some(Format::R8G8Uscaled) }
        else if code == 19 { Some(Format::R8G8Sscaled) }
        else if code == 20 { Some(Format::R8G8Uint) }
        else if code == 21 { Some(Format::R8G8Sint) }
        else if code == 22 { Some(Format::R8G8Srgb) }
        else if code == 23 { Some(Format::R8G8B8Unorm) }
        else if code == 24 { Some(Format::R8G8B8Snorm) }
        else if code == 25 { Some(Format::R8G8B8Uscaled) }
        else if code == 26 { Some(Format::R8G8B8Sscaled) }
        else if code == 27 { Some(Format::R8G8B8Uint) }
        else if code == 28 { Some(Format::R8G8B8Sint) }
        else if code == 29 { Some(Format::R8G8B8Srgb) }
        else if code == 30 { Some(Format::B8G8R8Unorm) }
        else if code == 31 { Some(Format::B8G8R8Snorm) }
        else if code == 32 { Some(Format::B8G8R8Uscaled) }
        else if code == 33 { Some(Format::B8G8R8Sscaled) }
        else if code == 34 { Some(Format::B8G8R8Uint) }
        else if code == 35 { Some(Format::B8G8R8Sint) }
        else if code == 36 { Some(Format::B8G8R8Srgb) }
        else if code == 37 { Some(Format::R8G8B8A8Unorm) }
        else if code == 38 { Some(Format::R8G8B8A8Snorm) }
        else if code == 39 { Some(Format::R8G8B8A8Uscaled) }
        else if code == 40 { Some(Format::R8G8B8A8Sscaled) }
        else if code == 41 { Some(Format::R8G8B8A8Uint) }
        else if code == 42 { Some(Format::R8G8B8A8Sint) }
        else if code == 43 { Some(Format::R8G8B8A8Srgb) }
        else if code == 44 { Some(Format::B8G8R8A8Unorm) }
        else if code == 45 { Some(Format::B8G8R8A8Snorm) }
        else if code == 46 { Some(Format::B8G8R8A8Uscaled) }
        else if code == 47 { Some(Format::B8G8R8A8Sscaled) }
        else if code == 48 { Some(Format::B8G8R8A8Uint) }
        else if code == 49 { Some(Format::B8G8R8A8Sint) }
        else if code == 50 { Some(Format::B8G8R8A8Srgb) }
        else if code == 51 { Some(Format::A8B8G8R8UnormPack32) }
        else if code == 52 { Some(Format::A8B8G8R8SnormPack32) }
        else if code == 53 { Some(Format::A8B8G8R8UscaledPack32) }
        else if code == 54 { Some(Format::A8B8G8R8SscaledPack32) }
        else if code == 55 { Some(Format::A8B8G8R8UintPack32) }
        else if code == 56 { Some(Format::A8B8G8R8SintPack32) }
        else if code == 57 { Some(Format::A8B8G8R8SrgbPack32) }
        else if code == 58 { Some(Format::A2R10G10B10UnormPack32) }
        else if code == 59 { Some(Format::A2R10G10B10SnormPack32) }
        else if code == 60 { Some(Format::A2R10G10B10UscaledPack32) }
        else if code == 61 { Some(Format::A2R10G10B10SscaledPack32) }
        else if code == 62 { Some(Format::A2R10G10B10UintPack32) }
        else if code == 63 { Some(Format::A2R10G10B10SintPack32) }
        else if code == 64 { Some(Format::A2B10G10R10UnormPack32) }
        else if code == 65 { Some(Format::A2B10G10R10SnormPack32) }
        else if code == 66 { Some(Format::A2B10G10R10UscaledPack32) }
        else if code == 67 { Some(Format::A2B10G10R10SscaledPack32) }
        else if code == 68 { Some(Format::A2B10G10R10UintPack32) }
        else if code == 69 { Some(Format::A2B10G10R10SintPack32) }
        else if code == 70 { Some(Format::R16Unorm) }
        else if code == 71 { Some(Format::R16Snorm) }
        else if code == 72 { Some(Format::R16Uscaled) }
        else if code == 73 { Some(Format::R16Sscaled) }
        else if code == 74 { Some(Format::R16Uint) }
        else if code == 75 { Some(Format::R16Sint) }
        else if code == 76 { Some(Format::R16Sfloat) }
        else if code == 77 { Some(Format::R16G16Unorm) }
        else if code == 78 { Some(Format::R16G16Snorm) }
        else if code == 79 { Some(Format::R16G16Uscaled) }
        else if code == 80 { Some(Format::R16G16Sscaled) }
        else if code == 81 { Some(Format::R16G16Uint) }
        else if code == 82 { Some(Format::R16G16Sint) }
        else if code == 83 { Some(Format::R16G16Sfloat) }
        else if code == 84 { Some(Format::R16G16B16Unorm) }
        else if code == 85 { Some(Format::R16G16B16Snorm) }
        else if code == 86 { Some(Format::R16G16B16Uscaled) }
        else if code == 87 { Some(Format::R16G16B16Sscaled) }
        else if code == 88 { Some(Format::R16G16B16Uint) }
        else if code == 89 { Some(Format::R16G16B16Sint) }
        else if code == 90 { Some(Format::R16G16B16Sfloat) }
        else if code == 91 { Some(Format::R16G16B16A16Unorm) }
        else if code == 92 { Some(Format::R16G16B16A16Snorm) }
        else if code == 93 { Some(Format::R16G16B16A16Uscaled) }
        else if code == 94 { Some(Format::R16G16B16A16Sscaled) }
        else if code == 95 { Some(Format::R16G16B16A16Uint) }
        else if code == 96 { Some(Format::R16G16B16A16Sint) }
        else if code == 97 { Some(Format::R16G16B16A16Sfloat) }
        else if code == 98 { Some(Format::R32Uint) }
        else if code == 99 { Some(Format::R32Sint) }
        else if code == 100 { Some(Format::R32Sfloat) }
        else if code == 101 { Some(Format::R32G32Uint) }
        else if code == 102 { Some(Format::R32G32Sint) }
        else if code == 103 { Some(Format::R32G32Sfloat) }
        else if code == 104 { Some(Format::R32G32B32Uint) }
        else if code == 105 { Some(Format::R32G32B32Sint) }
        else if code == 106 { Some(Format::R32G32B32Sfloat) }
        else if code == 107 { Some(Format::R32G32B32A32Uint) }
        else if code == 108 { Some(Format::R32G32B32A32Sint) }
        else if code == 109 { Some(Format::R32G32B32A32Sfloat) }
        else if code == 110 { Some(Format::R64Uint) }
        else if code == 111 { Some(Format::R64Sint) }
        else if code == 112 { Some(Format::R64Sfloat) }
        else if code == 113 { Some(Format::R64G64Uint) }
        else if code == 114 { Some(Format::R64G64Sint) }
        else if code == 115 { Some(Format::R64G64Sfloat) }
        else if code == 116 { Some(Format::R64G64B64Uint) }
        else if code == 117 { Some(Format::R64G64B64Sint) }
        else if code == 118 { Some(Format::R64G64B64Sfloat) }
        else if code == 119 { Some(Format::R64G64B64A64Uint) }
        else if code == 120 { Some(Format::R64G64B64A64Sint) }
        else if code == 121 { Some(Format::R64G64B64A64Sfloat) }
        else if code == 122 { Some(Format::B10G11R11UfloatPack32) }
        else if code == 123 { Some(Format::E5B9G9R9UfloatPack32) }
        else if code == 124 { Some(Format::D16Unorm) }
        else if code == 125 { Some(Format::X8_D24UnormPack32) }
        else if code == 126 { Some(Format::D32Sfloat) }
        else if code == 127 { Some(Format::S8Uint) }
        else if code == 128 { Some(Format::D16Unorm_S8Uint) }
        else if code == 129 { Some(Format::D24Unorm_S8Uint) }
        else if code == 130 { Some(Format::D32Sfloat_S8Uint) }
        else if code == 131 { Some(Format::BC1_RGBUnormBlock) }
        else if code == 132 { Some(Format::BC1_RGBSrgbBlock) }
        else if code == 133 { Some(Format::BC1_RGBAUnormBlock) }
        else if code == 134 { Some(Format::BC1_RGBASrgbBlock) }
        else if code == 135 { Some(Format::BC2UnormBlock) }
        else if code == 136 { Some(Format::BC2SrgbBlock) }
        else if code == 137 { Some(Format::BC3UnormBlock) }
        else if code == 138 { Some(Format::BC3SrgbBlock) }
        else if code == 139 { Some(Format::BC4UnormBlock) }
        else if code == 140 { Some(Format::BC4SnormBlock) }
        else if code == 141 { Some(Format::BC5UnormBlock) }
        else if code == 142 { Some(Format::BC5SnormBlock) }
        else if code == 143 { Some(Format::BC6HUfloatBlock) }
        else if code == 144 { Some(Format::BC6HSfloatBlock) }
        else if code == 145 { Some(Format::BC7UnormBlock) }
        else if code == 146 { Some(Format::BC7SrgbBlock) }
        else if code == 147 { Some(Format::ETC2_R8G8B8UnormBlock) }
        else if code == 148 { Some(Format::ETC2_R8G8B8SrgbBlock) }
        else if code == 149 { Some(Format::ETC2_R8G8B8A1UnormBlock) }
        else if code == 150 { Some(Format::ETC2_R8G8B8A1SrgbBlock) }
        else if code == 151 { Some(Format::ETC2_R8G8B8A8UnormBlock) }
        else if code == 152 { Some(Format::ETC2_R8G8B8A8SrgbBlock) }
        else if code == 153 { Some(Format::EAC_R11UnormBlock) }
        else if code == 154 { Some(Format::EAC_R11SnormBlock) }
        else if code == 155 { Some(Format::EAC_R11G11UnormBlock) }
        else if code == 156 { Some(Format::EAC_R11G11SnormBlock) }
        else if code == 157 { Some(Format::ASTC_4x4UnormBlock) }
        else if code == 158 { Some(Format::ASTC_4x4SrgbBlock) }
        else if code == 159 { Some(Format::ASTC_5x4UnormBlock) }
        else if code == 160 { Some(Format::ASTC_5x4SrgbBlock) }
        else if code == 161 { Some(Format::ASTC_5x5UnormBlock) }
        else if code == 162 { Some(Format::ASTC_5x5SrgbBlock) }
        else if code == 163 { Some(Format::ASTC_6x5UnormBlock) }
        else if code == 164 { Some(Format::ASTC_6x5SrgbBlock) }
        else if code == 165 { Some(Format::ASTC_6x6UnormBlock) }
        else if code == 166 { Some(Format::ASTC_6x6SrgbBlock) }
        else if code == 167 { Some(Format::ASTC_8x5UnormBlock) }
        else if code == 168 { Some(Format::ASTC_8x5SrgbBlock) }
        else if code == 169 { Some(Format::ASTC_8x6UnormBlock) }
        else if code == 170 { Some(Format::ASTC_8x6SrgbBlock) }
        else if code == 171 { Some(Format::ASTC_8x8UnormBlock) }
        else if code == 172 { Some(Format::ASTC_8x8SrgbBlock) }
        else if code == 173 { Some(Format::ASTC_10x5UnormBlock) }
        else if code == 174 { Some(Format::ASTC_10x5SrgbBlock) }
        else if code == 175 { Some(Format::ASTC_10x6UnormBlock) }
        else if code == 176 { Some(Format::ASTC_10x6SrgbBlock) }
        else if code == 177 { Some(Format::ASTC_10x8UnormBlock) }
        else if code == 178 { Some(Format::ASTC_10x8SrgbBlock) }
        else if code == 179 { Some(Format::ASTC_10x10UnormBlock) }
        else if code == 180 { Some(Format::ASTC_10x10SrgbBlock) }
        else if code == 181 { Some(Format::ASTC_12x10UnormBlock) }
        else if code == 182 { Some(Format::ASTC_12x10SrgbBlock) }
        else if code == 183 { Some(Format::ASTC_12x12UnormBlock) }
        else if code == 184 { Some(Format::ASTC_12x12SrgbBlock) }
        else { None }
    }

    /// Returns the size in bytes of an element of this format.
    /// For block based formats this will be the size of a single block.
    /// Returns `None` if the size is irrelevant.
    pub fn size(&self) -> (s: Option<usize>)
        ensures
            s == self.spec_size(),
    {
        match *self {
            Format::R4G4UnormPack8 => Some(1),
            Format::R4G4B4A4UnormPack16 => Some(2),
            Format::B4G4R4A4UnormPack16 => Some(2),
            Format::R5G6B5UnormPack16 => Some(2),
            Format::B5G6R5UnormPack16 => Some(2),
            Format::R5G5B5A1UnormPack16 => Some(2),
            Format::B5G5R5A1UnormPack16 => Some(2),
            Format::A1R5G5B5UnormPack16 => Some(2),
            Format::R8Unorm => Some(1),
            Format::R8Snorm => Some(1),
            Format::R8Uscaled => Some(1),
            Format::R8Sscaled => Some(1),
            Format::R8Uint => Some(1),
            Format::R8Sint => Some(1),
            Format::R8Srgb => Some(1),
            Format::R8G8Unorm => Some(2),
            Format::R8G8Snorm => Some(2),
            Format::R8G8Uscaled => Some(2),
            Format::R8G8Sscaled => Some(2),
            Format::R8G8Uint => Some(2),
            Format::R8G8Sint => Some(2),
            Format::R8G8Srgb => Some(2),
            Format::R8G8B8Unorm => Some(3),
            Format::R8G8B8Snorm => Some(3),
            Format::R8G8B8Uscaled => Some(3),
            Format::R8G8B8Sscaled => Some(3),
            Format::R8G8B8Uint => Some(3),
            Format::R8G8B8Sint => Some(3),
            Format::R8G8B8Srgb => Some(3),
            Format::B8G8R8Unorm => Some(3),
            Format::B8G8R8Snorm => Some(3),
            Format::B8G8R8Uscaled => Some(3),
            Format::B8G8R8Sscaled => Some(3),
            Format::B8G8R8Uint => Some(3),
            Format::B8G8R8Sint => Some(3),
            Format::B8G8R8Srgb => Some(3),
            Format::R8G8B8A8Unorm => Some(4),
            Format::R8G8B8A8Snorm => Some(4),
            Format::R8G8B8A8Uscaled => Some(4),
            Format::R8G8B8A8Sscaled => Some(4),
            Format::R8G8B8A8Uint => Some(4),
            Format::R8G8B8A8Sint => Some(4),
            Format::R8G8B8A8Srgb => Some(4),
            Format::B8G8R8A8Unorm => Some(4),
            Format::B8G8R8A8Snorm => Some(4),
            Format::B8G8R8A8Uscaled => Some(4),
            Format::B8G8R8A8Sscaled => Some(4),
            Format::B8G8R8A8Uint => Some(4),
            Format::B8G8R8A8Sint => Some(4),
            Format::B8G8R8A8Srgb => Some(4),
            Format::A8B8G8R8UnormPack32 => Some(4),
            Format::A8B8G8R8SnormPack32 => Some(4),
            Format::A8B8G8R8UscaledPack32 => Some(4),
            Format::A8B8G8R8SscaledPack32 => Some(4),
            Format::A8B8G8R8UintPack32 => Some(4),
            Format::A8B8G8R8SintPack32 => Some(4),
            Format::A8B8G8R8SrgbPack32 => Some(4),
            Format::A2R10G10B10UnormPack32 => Some(4),
            Format::A2R10G10B10SnormPack32 => Some(4),
            Format::A2R10G10B10UscaledPack32 => Some(4),
            Format::A2R10G10B10SscaledPack32 => Some(4),
            Format::A2R10G10B10UintPack32 => Some(4),
            Format::A2R10G10B10SintPack32 => Some(4),
            Format::A2B10G10R10UnormPack32 => Some(4),
            Format::A2B10G10R10SnormPack32 => Some(4),
            Format::A2B10G10R10UscaledPack32 => Some(4),
            Format::A2B10G10R10SscaledPack32 => Some(4),
            Format::A2B10G10R10UintPack32 => Some(4),
            Format::A2B10G10R10SintPack32 => Some(4),
            Format::R16Unorm => Some(2),
            Format::R16Snorm => Some(2),
            Format::R16Uscaled => Some(2),
            Format::R16Sscaled => Some(2),
            Format::R16Uint => Some(2),
            Format::R16Sint => Some(2),
            Format::R16Sfloat => Some(2),
            Format::R16G16Unorm => Some(4),
            Format::R16G16Snorm => Some(4),
            Format::R16G16Uscaled => Some(4),
            Format::R16G16Sscaled => Some(4),
            Format::R16G16Uint => Some(4),
            Format::R16G16Sint => Some(4),
            Format::R16G16Sfloat => Some(4),
            Format::R16G16B16Unorm => Some(6),
            Format::R16G16B16Snorm => Some(6),
            Format::R16G16B16Uscaled => Some(6),
            Format::R16G16B16Sscaled => Some(6),
            Format::R16G16B16Uint => Some(6),
            Format::R16G16B16Sint => Some(6),
            Format::R16G16B16Sfloat => Some(6),
            Format::R16G16B16A16Unorm => Some(8),
            Format::R16G16B16A16Snorm => Some(8),
            Format::R16G16B16A16Uscaled => Some(8),
            Format::R16G16B16A16Sscaled => Some(8),
            Format::R16G16B16A16Uint => Some(8),
            Format::R16G16B16A16Sint => Some(8),
            Format::R16G16B16A16Sfloat => Some(8),
            Format::R32Uint => Some(4),
            Format::R32Sint => Some(4),
            Format::R32Sfloat => Some(4),
            Format::R32G32Uint => Some(8),
            Format::R32G32Sint => Some(8),
            Format::R32G32Sfloat => Some(8),
            Format::R32G32B32Uint => Some(12),
            Format::R32G32B32Sint => Some(12),
            Format::R32G32B32Sfloat => Some(12),
            Format::R32G32B32A32Uint => Some(16),
            Format::R32G32B32A32Sint => Some(16),
            Format::R32G32B32A32Sfloat => Some(16),
            Format::R64Uint => Some(8),
            Format::R64Sint => Some(8),
            Format::R64Sfloat => Some(8),
            Format::R64G64Uint => Some(16),
            Format::R64G64Sint => Some(16),
            Format::R64G64Sfloat => Some(16),
            Format::R64G64B64Uint => Some(24),
            Format::R64G64B64Sint => Some(24),
            Format::R64G64B64Sfloat => Some(24),
            Format::R64G64B64A64Uint => Some(32),
            Format::R64G64B64A64Sint => Some(32),
            Format::R64G64B64A64Sfloat => Some(32),
            Format::B10G11R11UfloatPack32 => Some(4),
            Format::E5B9G9R9UfloatPack32 => Some(4),
            Format::D16Unorm => Some(2),
            Format::X8_D24UnormPack32 => Some(4),
            Format::D32Sfloat => Some(4),
            Format::S8Uint => Some(1),
            Format::D16Unorm_S8Uint => None,
            Format::D24Unorm_S8Uint => None,
            Format::D32Sfloat_S8Uint => None,
            Format::BC1_RGBUnormBlock => Some(8),
            Format::BC1_RGBSrgbBlock => Some(8),
            Format::BC1_RGBAUnormBlock => Some(8),
            Format::BC1_RGBASrgbBlock => Some(8),
            Format::BC2UnormBlock => Some(16),
            Format::BC2SrgbBlock => Some(16),
            Format::BC3UnormBlock => Some(16),
            Format::BC3SrgbBlock => Some(16),
            Format::BC4UnormBlock => Some(8),
            Format::BC4SnormBlock => Some(8),
            Format::BC5UnormBlock => Some(16),
            Format::BC5SnormBlock => Some(16),
            Format::BC6HUfloatBlock => Some(16),
            Format::BC6HSfloatBlock => Some(16),
            Format::BC7UnormBlock => Some(16),
            Format::BC7SrgbBlock => Some(16),
            Format::ETC2_R8G8B8UnormBlock => Some(8),
            Format::ETC2_R8G8B8SrgbBlock => Some(8),
            Format::ETC2_R8G8B8A1UnormBlock => Some(8),
            Format::ETC2_R8G8B8A1SrgbBlock => Some(8),
            Format::ETC2_R8G8B8A8UnormBlock => Some(16),
            Format::ETC2_R8G8B8A8SrgbBlock => Some(16),
            Format::EAC_R11UnormBlock => Some(8),
            Format::EAC_R11SnormBlock => Some(8),
            Format::EAC_R11G11UnormBlock => Some(16),
            Format::EAC_R11G11SnormBlock => Some(16),
            Format::ASTC_4x4UnormBlock => Some(16),
            Format::ASTC_4x4SrgbBlock => Some(16),
            Format::ASTC_5x4UnormBlock => Some(16),
            Format::ASTC_5x4SrgbBlock => Some(16),
            Format::ASTC_5x5UnormBlock => Some(16),
            Format::ASTC_5x5SrgbBlock => Some(16),
            Format::ASTC_6x5UnormBlock => Some(16),
            Format::ASTC_6x5SrgbBlock => Some(16),
            Format::ASTC_6x6UnormBlock => Some(16),
            Format::ASTC_6x6SrgbBlock => Some(16),
            Format::ASTC_8x5UnormBlock => Some(16),
            Format::ASTC_8x5SrgbBlock => Some(16),
            Format::ASTC_8x6UnormBlock => Some(16),
            Format::ASTC_8x6SrgbBlock => Some(16),
            Format::ASTC_8x8UnormBlock => Some(16),
            Format::ASTC_8x8SrgbBlock => Some(16),
            Format::ASTC_10x5UnormBlock => Some(16),
            Format::ASTC_10x5SrgbBlock => Some(16),
            Format::ASTC_10x6UnormBlock => Some(16),
            Format::ASTC_10x6SrgbBlock => Some(16),
            Format::ASTC_10x8UnormBlock => Some(16),
            Format::ASTC_10x8SrgbBlock => Some(16),
            Format::ASTC_10x10UnormBlock => Some(16),
            Format::ASTC_10x10SrgbBlock => Some(16),
            Format::ASTC_12x10UnormBlock => Some(16),
            Format::ASTC_12x10SrgbBlock => Some(16),
            Format::ASTC_12x12UnormBlock => Some(16),
            Format::ASTC_12x12SrgbBlock => Some(16),
        }
    }

    /// Returns (width, height) of the dimensions for block based formats.
    /// For non block formats will return (1, 1).
    pub fn block_dimensions(&self) -> (d: (u32, u32))
        ensures
            d == self.spec_block_dimensions(),
    {
        match *self {
            Format::R4G4UnormPack8 => (1, 1),
            Format::R4G4B4A4UnormPack16 => (1, 1),
            Format::B4G4R4A4UnormPack16 => (1, 1),
            Format::R5G6B5UnormPack16 => (1, 1),
            Format::B5G6R5UnormPack16 => (1, 1),
            Format::R5G5B5A1UnormPack16 => (1, 1),
            Format::B5G5R5A1UnormPack16 => (1, 1),
            Format::A1R5G5B5UnormPack16 => (1, 1),
            Format::R8Unorm => (1, 1),
            Format::R8Snorm => (1, 1),
            Format::R8Uscaled => (1, 1),
            Format::R8Sscaled => (1, 1),
            Format::R8Uint => (1, 1),
            Format::R8Sint => (1, 1),
            Format::R8Srgb => (1, 1),
            Format::R8G8Unorm => (1, 1),
            Format::R8G8Snorm => (1, 1),
            Format::R8G8Uscaled => (1, 1),
            Format::R8G8Sscaled => (1, 1),
            Format::R8G8Uint => (1, 1),
            Format::R8G8Sint => (1, 1),
            Format::R8G8Srgb => (1, 1),
            Format::R8G8B8Unorm => (1, 1),
            Format::R8G8B8Snorm => (1, 1),
            Format::R8G8B8Uscaled => (1, 1),
            Format::R8G8B8Sscaled => (1, 1),
            Format::R8G8B8Uint => (1, 1),
            Format::R8G8B8Sint => (1, 1),
            Format::R8G8B8Srgb => (1, 1),
            Format::B8G8R8Unorm => (1, 1),
            Format::B8G8R8Snorm => (1, 1),
            Format::B8G8R8Uscaled => (1, 1),
            Format::B8G8R8Sscaled => (1, 1),
            Format::B8G8R8Uint => (1, 1),
            Format::B8G8R8Sint => (1, 1),
            Format::B8G8R8Srgb => (1, 1),
            Format::R8G8B8A8Unorm => (1, 1),
            Format::R8G8B8A8Snorm => (1, 1),
            Format::R8G8B8A8Uscaled => (1, 1),
            Format::R8G8B8A8Sscaled => (1, 1),
            Format::R8G8B8A8Uint => (1, 1),
            Format::R8G8B8A8Sint => (1, 1),
            Format::R8G8B8A8Srgb => (1, 1),
            Format::B8G8R8A8Unorm => (1, 1),
            Format::B8G8R8A8Snorm => (1, 1),
            Format::B8G8R8A8Uscaled => (1, 1),
            Format::B8G8R8A8Sscaled => (1, 1),
            Format::B8G8R8A8Uint => (1, 1),
            Format::B8G8R8A8Sint => (1, 1),
            Format::B8G8R8A8Srgb => (1, 1),
            Format::A8B8G8R8UnormPack32 => (1, 1),
            Format::A8B8G8R8SnormPack32 => (1, 1),
            Format::A8B8G8R8UscaledPack32 => (1, 1),
            Format::A8B8G8R8SscaledPack32 => (1, 1),
            Format::A8B8G8R8UintPack32 => (1, 1),
            Format::A8B8G8R8SintPack32 => (1, 1),
            Format::A8B8G8R8SrgbPack32 => (1, 1),
            Format::A2R10G10B10UnormPack32 => (1, 1),
            Format::A2R10G10B10SnormPack32 => (1, 1),
            Format::A2R10G10B10UscaledPack32 => (1, 1),
            Format::A2R10G10B10SscaledPack32 => (1, 1),
            Format::A2R10G10B10UintPack32 => (1, 1),
            Format::A2R10G10B10SintPack32 => (1, 1),
            Format::A2B10G10R10UnormPack32 => (1, 1),
            Format::A2B10G10R10SnormPack32 => (1, 1),
            Format::A2B10G10R10UscaledPack32 => (1, 1),
            Format::A2B10G10R10SscaledPack32 => (1, 1),
            Format::A2B10G10R10UintPack32 => (1, 1),
            Format::A2B10G10R10SintPack32 => (1, 1),
            Format::R16Unorm => (1, 1),
            Format::R16Snorm => (1, 1),
            Format::R16Uscaled => (1, 1),
            Format::R16Sscaled => (1, 1),
            Format::R16Uint => (1, 1),
            Format::R16Sint => (1, 1),
            Format::R16Sfloat => (1, 1),
            Format::R16G16Unorm => (1, 1),
            Format::R16G16Snorm => (1, 1),
            Format::R16G16Uscaled => (1, 1),
            Format::R16G16Sscaled => (1, 1),
            Format::R16G16Uint => (1, 1),
            Format::R16G16Sint => (1, 1),
            Format::R16G16Sfloat => (1, 1),
            Format::R16G16B16Unorm => (1, 1),
            Format::R16G16B16Snorm => (1, 1),
            Format::R16G16B16Uscaled => (1, 1),
            Format::R16G16B16Sscaled => (1, 1),
            Format::R16G16B16Uint => (1, 1),
            Format::R16G16B16Sint => (1, 1),
            Format::R16G16B16Sfloat => (1, 1),
            Format::R16G16B16A16Unorm => (1, 1),
            Format::R16G16B16A16Snorm => (1, 1),
            Format::R16G16B16A16Uscaled => (1, 1),
            Format::R16G16B16A16Sscaled => (1, 1),
            Format::R16G16B16A16Uint => (1, 1),
            Format::R16G16B16A16Sint => (1, 1),
            Format::R16G16B16A16Sfloat => (1, 1),
            Format::R32Uint => (1, 1),
            Format::R32Sint => (1, 1),
            Format::R32Sfloat => (1, 1),
            Format::R32G32Uint => (1, 1),
            Format::R32G32Sint => (1, 1),
            Format::R32G32Sfloat => (1, 1),
            Format::R32G32B32Uint => (1, 1),
            Format::R32G32B32Sint => (1, 1),
            Format::R32G32B32Sfloat => (1, 1),
            Format::R32G32B32A32Uint => (1, 1),
            Format::R32G32B32A32Sint => (1, 1),
            Format::R32G32B32A32Sfloat => (1, 1),
            Format::R64Uint => (1, 1),
            Format::R64Sint => (1, 1),
            Format::R64Sfloat => (1, 1),
            Format::R64G64Uint => (1, 1),
            Format::R64G64Sint => (1, 1),
            Format::R64G64Sfloat => (1, 1),
            Format::R64G64B64Uint => (1, 1),
            Format::R64G64B64Sint => (1, 1),
            Format::R64G64B64Sfloat => (1, 1),
            Format::R64G64B64A64Uint => (1, 1),
            Format::R64G64B64A64Sint => (1, 1),
            Format::R64G64B64A64Sfloat => (1, 1),
            Format::B10G11R11UfloatPack32 => (1, 1),
            Format::E5B9G9R9UfloatPack32 => (1, 1),
            Format::D16Unorm => (1, 1),
            Format::X8_D24UnormPack32 => (1, 1),
            Format::D32Sfloat => (1, 1),
            Format::S8Uint => (1, 1),
            Format::D16Unorm_S8Uint => (1, 1),
            Format::D24Unorm_S8Uint => (1, 1),
            Format::D32Sfloat_S8Uint => (1, 1),
            Format::BC1_RGBUnormBlock => (4, 4),
            Format::BC1_RGBSrgbBlock => (4, 4),
            Format::BC1_RGBAUnormBlock => (4, 4),
            Format::BC1_RGBASrgbBlock => (4, 4),
            Format::BC2UnormBlock => (4, 4),
            Format::BC2SrgbBlock => (4, 4),
            Format::BC3UnormBlock => (4, 4),
            Format::BC3SrgbBlock => (4, 4),
            Format::BC4UnormBlock => (4, 4),
            Format::BC4SnormBlock => (4, 4),
            Format::BC5UnormBlock => (4, 4),
            Format::BC5SnormBlock => (4, 4),
            Format::BC6HUfloatBlock => (4, 4),
            Format::BC6HSfloatBlock => (4, 4),
            Format::BC7UnormBlock => (4, 4),
            Format::BC7SrgbBlock => (4, 4),
            Format::ETC2_R8G8B8UnormBlock => (4, 4),
            Format::ETC2_R8G8B8SrgbBlock => (4, 4),
            Format::ETC2_R8G8B8A1UnormBlock => (4, 4),
            Format::ETC2_R8G8B8A1SrgbBlock => (4, 4),
            Format::ETC2_R8G8B8A8UnormBlock => (4, 4),
            Format::ETC2_R8G8B8A8SrgbBlock => (4, 4),
            Format::EAC_R11UnormBlock => (4, 4),
            Format::EAC_R11SnormBlock => (4, 4),
            Format::EAC_R11G11UnormBlock => (4, 4),
            Format::EAC_R11G11SnormBlock => (4, 4),
            Format::ASTC_4x4UnormBlock => (4, 4),
            Format::ASTC_4x4SrgbBlock => (4, 4),
            Format::ASTC_5x4UnormBlock => (5, 4),
            Format::ASTC_5x4SrgbBlock => (5, 4),
            Format::ASTC_5x5UnormBlock => (5, 5),
            Format::ASTC_5x5SrgbBlock => (5, 5),
            Format::ASTC_6x5UnormBlock => (6, 5),
            Format::ASTC_6x5SrgbBlock => (6, 5),
            Format::ASTC_6x6UnormBlock => (6, 6),
            Format::ASTC_6x6SrgbBlock => (6, 6),
            Format::ASTC_8x5UnormBlock => (8, 5),
            Format::ASTC_8x5SrgbBlock => (8, 5),
            Format::ASTC_8x6UnormBlock => (8, 6),
            Format::ASTC_8x6SrgbBlock => (8, 6),
            Format::ASTC_8x8UnormBlock => (8, 8),
            Format::ASTC_8x8SrgbBlock => (8, 8),
            Format::ASTC_10x5UnormBlock => (10, 5),
            Format::ASTC_10x5SrgbBlock => (10, 5),
            Format::ASTC_10x6UnormBlock => (10, 6),
            Format::ASTC_10x6SrgbBlock => (10, 6),
            Format::ASTC_10x8UnormBlock => (10, 8),
            Format::ASTC_10x8SrgbBlock => (10, 8),
            Format::ASTC_10x10UnormBlock => (10, 10),
            Format::ASTC_10x10SrgbBlock => (10, 10),
            Format::ASTC_12x10UnormBlock => (12, 10),
            Format::ASTC_12x10SrgbBlock => (12, 10),
            Format::ASTC_12x12UnormBlock => (12, 12),
            Format::ASTC_12x12SrgbBlock => (12, 12),
        }
    }
}

/// Decoding the code of a format gives that format back.
pub proof fn lemma_code_round_trip(f: Format)
    ensures
        Format::spec_from_code(f.spec_code()) == Some(f),
        1 <= f.spec_code() <= 184,
{
}

/// A code decodes to a format exactly when that format encodes to the code.
pub proof fn lemma_from_code_exact(code: i32)
    ensures
        forall|f: Format| Format::spec_from_code(code) == Some(f) <==> f.spec_code() == code,
        Format::spec_from_code(code) is Some <==> 1 <= code <= 184,
{
    assert forall|f: Format| Format::spec_from_code(code) == Some(f) <==> f.spec_code() == code by {
        lemma_code_round_trip(f);
    }
}

/// Two formats with the same code are the same format.
pub proof fn lemma_code_injective(f: Format, g: Format)
    requires
        f.spec_code() == g.spec_code(),
    ensures
        f == g,
{
    lemma_code_round_trip(f);
    lemma_code_round_trip(g);
}

/// The features supported by images with a particular format.
#[derive(Debug, Clone, Copy, PartialEq, Eq, Hash, Structural)]
pub struct FormatFeatures {
    pub sampled_image: bool,
    pub storage_image: bool,
    pub storage_image_atomic: bool,
    pub uniform_texel_buffer: bool,
    pub storage_texel_buffer: bool,
    pub storage_texel_buffer_atomic: bool,
    pub vertex_buffer: bool,
    pub color_attachment: bool,
    pub color_attachment_blend: bool,
    pub depth_stencil_attachment: bool,
    pub blit_src: bool,
    pub blit_dst: bool,
    pub sampled_image_filter_linear: bool,
    pub transfer_src: bool,
    pub transfer_dst: bool,
    pub midpoint_chroma_samples: bool,
    pub sampled_image_ycbcr_conversion_linear_filter: bool,
    pub sampled_image_ycbcr_conversion_separate_reconstruction_filter: bool,
    pub sampled_image_ycbcr_conversion_chroma_reconstruction_explicit: bool,
    pub sampled_image_ycbcr_conversion_chroma_reconstruction_explicit_forceable: bool,
    pub disjoint: bool,
    pub cosited_chroma_samples: bool,
    pub sampled_image_filter_minmax: bool,
    pub img_sampled_image_filter_cubic: bool,
    pub khr_acceleration_structure_vertex_buffer: bool,
    pub ext_fragment_density_map: bool,
}

/// Bit-set membership test on Vulkan flags: every bit of `bit` is in `flags`.
pub open spec fn has_flag(flags: u32, bit: u32) -> bool {
    flags & bit == bit
}

impl FormatFeatures {
    /// The feature set with no feature.
    fn none() -> (r: FormatFeatures)
        ensures
            r == FormatFeatures::spec_from_vulkan(0),
    {
        proof {
            FormatFeatures::lemma_from_zero();
        }
        FormatFeatures {
            sampled_image: false,
            storage_image: false,
            storage_image_atomic: false,
            uniform_texel_buffer: false,
            storage_texel_buffer: false,
            storage_texel_buffer_atomic: false,
            vertex_buffer: false,
            color_attachment: false,
            color_attachment_blend: false,
            depth_stencil_attachment: false,
            blit_src: false,
            blit_dst: false,
            sampled_image_filter_linear: false,
            transfer_src: false,
            transfer_dst: false,
            midpoint_chroma_samples: false,
            sampled_image_ycbcr_conversion_linear_filter: false,
            sampled_image_ycbcr_conversion_separate_reconstruction_filter: false,
            sampled_image_ycbcr_conversion_chroma_reconstruction_explicit: false,
            sampled_image_ycbcr_conversion_chroma_reconstruction_explicit_forceable: false,
            disjoint: false,
            cosited_chroma_samples: false,
            sampled_image_filter_minmax: false,
            img_sampled_image_filter_cubic: false,
            khr_acceleration_structure_vertex_buffer: false,
            ext_fragment_density_map: false,
        }
    }

    /// The features that the Vulkan feature flags `val` (`VkFormatFeatureFlags`) denote.
    pub open spec fn spec_from_vulkan(val: u32) -> FormatFeatures {
        FormatFeatures {
            sampled_image: has_flag(val, 0x1),
            storage_image: has_flag(val, 0x2),
            storage_image_atomic: has_flag(val, 0x4),
            uniform_texel_buffer: has_flag(val, 0x8),
            storage_texel_buffer: has_flag(val, 0x10),
            storage_texel_buffer_atomic: has_flag(val, 0x20),
            vertex_buffer: has_flag(val, 0x40),
            color_attachment: has_flag(val, 0x80),
            color_attachment_blend: has_flag(val, 0x100),
            depth_stencil_attachment: has_flag(val, 0x200),
            blit_src: has_flag(val, 0x400),
            blit_dst: has_flag(val, 0x800),
            sampled_image_filter_linear: has_flag(val, 0x1000),
            transfer_src: has_flag(val, 0x4000),
            transfer_dst: has_flag(val, 0x8000),
            midpoint_chroma_samples: has_flag(val, 0x20000),
            sampled_image_ycbcr_conversion_linear_filter: has_flag(val, 0x40000),
            sampled_image_ycbcr_conversion_separate_reconstruction_filter: has_flag(val, 0x80000),
            sampled_image_ycbcr_conversion_chroma_reconstruction_explicit: has_flag(val, 0x100000),
            sampled_image_ycbcr_conversion_chroma_reconstruction_explicit_forceable: has_flag(val, 0x200000),
            disjoint: has_flag(val, 0x400000),
            cosited_chroma_samples: has_flag(val, 0x800000),
            sampled_image_filter_minmax: has_flag(val, 0x10000),
            img_sampled_image_filter_cubic: has_flag(val, 0x2000),
            khr_acceleration_structure_vertex_buffer: has_flag(val, 0x20000000),
            ext_fragment_density_map: has_flag(val, 0x1000000),
        }
    }

    proof fn lemma_from_zero()
        ensures
            FormatFeatures::spec_from_vulkan(0) == (FormatFeatures {
                sampled_image: false,
                storage_image: false,
                storage_image_atomic: false,
                uniform_texel_buffer: false,
                storage_texel_buffer: false,
                storage_texel_buffer_atomic: false,
                vertex_buffer: false,
                color_attachment: false,
                color_attachment_blend: false,
                depth_stencil_attachment: false,
                blit_src: false,
                blit_dst: false,
                sampled_image_filter_linear: false,
                transfer_src: false,
                transfer_dst: false,
                midpoint_chroma_samples: false,
                sampled_image_ycbcr_conversion_linear_filter: false,
                sampled_image_ycbcr_conversion_separate_reconstruction_filter: false,
                sampled_image_ycbcr_conversion_chroma_reconstruction_explicit: false,
                sampled_image_ycbcr_conversion_chroma_reconstruction_explicit_forceable: false,
                disjoint: false,
                cosited_chroma_samples: false,
                sampled_image_filter_minmax: false,
                img_sampled_image_filter_cubic: false,
                khr_acceleration_structure_vertex_buffer: false,
                ext_fragment_density_map: false,
            }),
    {
        assert(forall|b: u32| b != 0 ==> (0u32 & b) != b) by (bit_vector);
    }

    /// Reads the Vulkan feature flags `val` (`VkFormatFeatureFlags`).
    pub fn from_vulkan(val: u32) -> (r: FormatFeatures)
        ensures
            r == FormatFeatures::spec_from_vulkan(val),
    {
        FormatFeatures {
            sampled_image: val & 0x1 == 0x1,
            storage_image: val & 0x2 == 0x2,
            storage_image_atomic: val & 0x4 == 0x4,
            uniform_texel_buffer: val & 0x8 == 0x8,
            storage_texel_buffer: val & 0x10 == 0x10,
            storage_texel_buffer_atomic: val & 0x20 == 0x20,
            vertex_buffer: val & 0x40 == 0x40,
            color_attachment: val & 0x80 == 0x80,
            color_attachment_blend: val & 0x100 == 0x100,
            depth_stencil_attachment: val & 0x200 == 0x200,
            blit_src: val & 0x400 == 0x400,
            blit_dst: val & 0x800 == 0x800,
            sampled_image_filter_linear: val & 0x1000 == 0x1000,
            transfer_src: val & 0x4000 == 0x4000,
            transfer_dst: val & 0x8000 == 0x8000,
            midpoint_chroma_samples: val & 0x20000 == 0x20000,
            sampled_image_ycbcr_conversion_linear_filter: val & 0x40000 == 0x40000,
            sampled_image_ycbcr_conversion_separate_reconstruction_filter: val & 0x80000 == 0x80000,
            sampled_image_ycbcr_conversion_chroma_reconstruction_explicit: val & 0x100000 == 0x100000,
            sampled_image_ycbcr_conversion_chroma_reconstruction_explicit_forceable: val & 0x200000 == 0x200000,
            disjoint: val & 0x400000 == 0x400000,
            cosited_chroma_samples: val & 0x800000 == 0x800000,
            sampled_image_filter_minmax: val & 0x10000 == 0x10000,
            img_sampled_image_filter_cubic: val & 0x2000 == 0x2000,
            khr_acceleration_structure_vertex_buffer: val & 0x20000000 == 0x20000000,
            ext_fragment_density_map: val & 0x1000000 == 0x1000000,
        }
    }
}

impl Default for FormatFeatures {
    fn default() -> (r: FormatFeatures)
        ensures
            r == FormatFeatures::spec_from_vulkan(0),
    {
        FormatFeatures::none()
    }
}

/// The properties of an image format that are supported by a physical device.
#[derive(Debug, Clone, Copy, PartialEq, Eq, Hash, Structural)]
pub struct FormatProperties {
    /// Features available for images with linear tiling.
    pub linear_tiling_features: FormatFeatures,
    /// Features available for images with optimal tiling.
    pub optimal_tiling_features: FormatFeatures,
    /// Features available for buffers.
    pub buffer_features: FormatFeatures,
}

impl FormatProperties {
    /// Builds the properties from the three Vulkan feature flag sets that a
    /// physical device reports for a format (`VkFormatProperties`).
    pub fn from_vulkan(linear: u32, optimal: u32, buffer: u32) -> (r: FormatProperties)
        ensures
            r.linear_tiling_features == FormatFeatures::spec_from_vulkan(linear),
            r.optimal_tiling_features == FormatFeatures::spec_from_vulkan(optimal),
            r.buffer_features == FormatFeatures::spec_from_vulkan(buffer),
    {
        FormatProperties {
            linear_tiling_features: FormatFeatures::from_vulkan(linear),
            optimal_tiling_features: FormatFeatures::from_vulkan(optimal),
            buffer_features: FormatFeatures::from_vulkan(buffer),
        }
    }
}

impl Default for FormatProperties {
    fn default() -> (r: FormatProperties)
        ensures
            r.linear_tiling_features == FormatFeatures::spec_from_vulkan(0),
            r.optimal_tiling_features == FormatFeatures::spec_from_vulkan(0),
            r.buffer_features == FormatFeatures::spec_from_vulkan(0),
    {
        FormatProperties {
            linear_tiling_features: FormatFeatures::none(),
            optimal_tiling_features: FormatFeatures::none(),
            buffer_features: FormatFeatures::none(),
        }
    }
}

impl Format {
    /// The total width in bits of the components that the Vulkan name of an
    /// uncompressed format lists (`R8G8B8A8_UNORM`: 8 + 8 + 8 + 8, `X8_D24_UNORM_PACK32`:
    /// 8 + 24); `None` for the block-compressed formats.
    pub open spec fn spec_component_bits(self) -> Option<nat> {
        match self {
            Format::R4G4UnormPack8 => Some(8nat),
            Format::R4G4B4A4UnormPack16 => Some(16nat),
            Format::B4G4R4A4UnormPack16 => Some(16nat),
            Format::R5G6B5UnormPack16 => Some(16nat),
            Format::B5G6R5UnormPack16 => Some(16nat),
            Format::R5G5B5A1UnormPack16 => Some(16nat),
            Format::B5G5R5A1UnormPack16 => Some(16nat),
            Format::A1R5G5B5UnormPack16 => Some(16nat),
            Format::R8Unorm => Some(8nat),
            Format::R8Snorm => Some(8nat),
            Format::R8Uscaled => Some(8nat),
            Format::R8Sscaled => Some(8nat),
            Format::R8Uint => Some(8nat),
            Format::R8Sint => Some(8nat),
            Format::R8Srgb => Some(8nat),
            Format::R8G8Unorm => Some(16nat),
            Format::R8G8Snorm => Some(16nat),
            Format::R8G8Uscaled => Some(16nat),
            Format::R8G8Sscaled => Some(16nat),
            Format::R8G8Uint => Some(16nat),
            Format::R8G8Sint => Some(16nat),
            Format::R8G8Srgb => Some(16nat),
            Format::R8G8B8Unorm => Some(24nat),
            Format::R8G8B8Snorm => Some(24nat),
            Format::R8G8B8Uscaled => Some(24nat),
            Format::R8G8B8Sscaled => Some(24nat),
            Format::R8G8B8Uint => Some(24nat),
            Format::R8G8B8Sint => Some(24nat),
            Format::R8G8B8Srgb => Some(24nat),
            Format::B8G8R8Unorm => Some(24nat),
            Format::B8G8R8Snorm => Some(24nat),
            Format::B8G8R8Uscaled => Some(24nat),
            Format::B8G8R8Sscaled => Some(24nat),
            Format::B8G8R8Uint => Some(24nat),
            Format::B8G8R8Sint => Some(24nat),
            Format::B8G8R8Srgb => Some(24nat),
            Format::R8G8B8A8Unorm => Some(32nat),
            Format::R8G8B8A8Snorm => Some(32nat),
            Format::R8G8B8A8Uscaled => Some(32nat),
            Format::R8G8B8A8Sscaled => Some(32nat),
            Format::R8G8B8A8Uint => Some(32nat),
            Format::R8G8B8A8Sint => Some(32nat),
            Format::R8G8B8A8Srgb => Some(32nat),
            Format::B8G8R8A8Unorm => Some(32nat),
            Format::B8G8R8A8Snorm => Some(32nat),
            Format::B8G8R8A8Uscaled => Some(32nat),
            Format::B8G8R8A8Sscaled => Some(32nat),
            Format::B8G8R8A8Uint => Some(32nat),
            Format::B8G8R8A8Sint => Some(32nat),
            Format::B8G8R8A8Srgb => Some(32nat),
            Format::A8B8G8R8UnormPack32 => Some(32nat),
            Format::A8B8G8R8SnormPack32 => Some(32nat),
            Format::A8B8G8R8UscaledPack32 => Some(32nat),
            Format::A8B8G8R8SscaledPack32 => Some(32nat),
            Format::A8B8G8R8UintPack32 => Some(32nat),
            Format::A8B8G8R8SintPack32 => Some(32nat),
            Format::A8B8G8R8SrgbPack32 => Some(32nat),
            Format::A2R10G10B10UnormPack32 => Some(32nat),
            Format::A2R10G10B10SnormPack32 => Some(32nat),
            Format::A2R10G10B10UscaledPack32 => Some(32nat),
            Format::A2R10G10B10SscaledPack32 => Some(32nat),
            Format::A2R10G10B10UintPack32 => Some(32nat),
            Format::A2R10G10B10SintPack32 => Some(32nat),
            Format::A2B10G10R10UnormPack32 => Some(32nat),
            Format::A2B10G10R10SnormPack32 => Some(32nat),
            Format::A2B10G10R10UscaledPack32 => Some(32nat),
            Format::A2B10G10R10SscaledPack32 => Some(32nat),
            Format::A2B10G10R10UintPack32 => Some(32nat),
            Format::A2B10G10R10SintPack32 => Some(32nat),
            Format::R16Unorm => Some(16nat),
            Format::R16Snorm => Some(16nat),
            Format::R16Uscaled => Some(16nat),
            Format::R16Sscaled => Some(16nat),
            Format::R16Uint => Some(16nat),
            Format::R16Sint => Some(16nat),
            Format::R16Sfloat => Some(16nat),
            Format::R16G16Unorm => Some(32nat),
            Format::R16G16Snorm => Some(32nat),
            Format::R16G16Uscaled => Some(32nat),
            Format::R16G16Sscaled => Some(32nat),
            Format::R16G16Uint => Some(32nat),
            Format::R16G16Sint => Some(32nat),
            Format::R16G16Sfloat => Some(32nat),
            Format::R16G16B16Unorm => Some(48nat),
            Format::R16G16B16Snorm => Some(48nat),
            Format::R16G16B16Uscaled => Some(48nat),
            Format::R16G16B16Sscaled => Some(48nat),
            Format::R16G16B16Uint => Some(48nat),
            Format::R16G16B16Sint => Some(48nat),
            Format::R16G16B16Sfloat => Some(48nat),
            Format::R16G16B16A16Unorm => Some(64nat),
            Format::R16G16B16A16Snorm => Some(64nat),
            Format::R16G16B16A16Uscaled => Some(64nat),
            Format::R16G16B16A16Sscaled => Some(64nat),
            Format::R16G16B16A16Uint => Some(64nat),
            Format::R16G16B16A16Sint => Some(64nat),
            Format::R16G16B16A16Sfloat => Some(64nat),
            Format::R32Uint => Some(32nat),
            Format::R32Sint => Some(32nat),
            Format::R32Sfloat => Some(32nat),
            Format::R32G32Uint => Some(64nat),
            Format::R32G32Sint => Some(64nat),
            Format::R32G32Sfloat => Some(64nat),
            Format::R32G32B32Uint => Some(96nat),
            Format::R32G32B32Sint => Some(96nat),
            Format::R32G32B32Sfloat => Some(96nat),
            Format::R32G32B32A32Uint => Some(128nat),
            Format::R32G32B32A32Sint => Some(128nat),
            Format::R32G32B32A32Sfloat => Some(128nat),
            Format::R64Uint => Some(64nat),
            Format::R64Sint => Some(64nat),
            Format::R64Sfloat => Some(64nat),
            Format::R64G64Uint => Some(128nat),
            Format::R64G64Sint => Some(128nat),
            Format::R64G64Sfloat => Some(128nat),
            Format::R64G64B64Uint => Some(192nat),
            Format::R64G64B64Sint => Some(192nat),
            Format::R64G64B64Sfloat => Some(192nat),
            Format::R64G64B64A64Uint => Some(256nat),
            Format::R64G64B64A64Sint => Some(256nat),
            Format::R64G64B64A64Sfloat => Some(256nat),
            Format::B10G11R11UfloatPack32 => Some(32nat),
            Format::E5B9G9R9UfloatPack32 => Some(32nat),
            Format::D16Unorm => Some(16nat),
            Format::X8_D24UnormPack32 => Some(32nat),
            Format::D32Sfloat => Some(32nat),
            Format::S8Uint => Some(8nat),
            Format::D16Unorm_S8Uint => Some(24nat),
            Format::D24Unorm_S8Uint => Some(32nat),
            Format::D32Sfloat_S8Uint => Some(40nat),
            Format::BC1_RGBUnormBlock => None,
            Format::BC1_RGBSrgbBlock => None,
            Format::BC1_RGBAUnormBlock => None,
            Format::BC1_RGBASrgbBlock => None,
            Format::BC2UnormBlock => None,
            Format::BC2SrgbBlock => None,
            Format::BC3UnormBlock => None,
            Format::BC3SrgbBlock => None,
            Format::BC4UnormBlock => None,
            Format::BC4SnormBlock => None,
            Format::BC5UnormBlock => None,
            Format::BC5SnormBlock => None,
            Format::BC6HUfloatBlock => None,
            Format::BC6HSfloatBlock => None,
            Format::BC7UnormBlock => None,
            Format::BC7SrgbBlock => None,
            Format::ETC2_R8G8B8UnormBlock => None,
            Format::ETC2_R8G8B8SrgbBlock => None,
            Format::ETC2_R8G8B8A1UnormBlock => None,
            Format::ETC2_R8G8B8A1SrgbBlock => None,
            Format::ETC2_R8G8B8A8UnormBlock => None,
            Format::ETC2_R8G8B8A8SrgbBlock => None,
            Format::EAC_R11UnormBlock => None,
            Format::EAC_R11SnormBlock => None,
            Format::EAC_R11G11UnormBlock => None,
            Format::EAC_R11G11SnormBlock => None,
            Format::ASTC_4x4UnormBlock => None,
            Format::ASTC_4x4SrgbBlock => None,
            Format::ASTC_5x4UnormBlock => None,
            Format::ASTC_5x4SrgbBlock => None,
            Format::ASTC_5x5UnormBlock => None,
            Format::ASTC_5x5SrgbBlock => None,
            Format::ASTC_6x5UnormBlock => None,
            Format::ASTC_6x5SrgbBlock => None,
            Format::ASTC_6x6UnormBlock => None,
            Format::ASTC_6x6SrgbBlock => None,
            Format::ASTC_8x5UnormBlock => None,
            Format::ASTC_8x5SrgbBlock => None,
            Format::ASTC_8x6UnormBlock => None,
            Format::ASTC_8x6SrgbBlock => None,
            Format::ASTC_8x8UnormBlock => None,
            Format::ASTC_8x8SrgbBlock => None,
            Format::ASTC_10x5UnormBlock => None,
            Format::ASTC_10x5SrgbBlock => None,
            Format::ASTC_10x6UnormBlock => None,
            Format::ASTC_10x6SrgbBlock => None,
            Format::ASTC_10x8UnormBlock => None,
            Format::ASTC_10x8SrgbBlock => None,
            Format::ASTC_10x10UnormBlock => None,
            Format::ASTC_10x10SrgbBlock => None,
            Format::ASTC_12x10UnormBlock => None,
            Format::ASTC_12x10SrgbBlock => None,
            Format::ASTC_12x12UnormBlock => None,
            Format::ASTC_12x12SrgbBlock => None,
        }
    }
}

/// The size of a texel of an uncompressed format is the total width of its
/// components, in bytes; only the formats that pair a depth and a stencil
/// component have no size.
#[verifier::rlimit(100)]
pub proof fn lemma_size_from_components(f: Format)
    ensures
        f.spec_component_bits() is Some <==> f.spec_block_dimensions() == (1u32, 1u32),
        f.spec_size() is None <==> (f == Format::D16Unorm_S8Uint || f == Format::D24Unorm_S8Uint || f == Format::D32Sfloat_S8Uint),
        f.spec_size() is Some ==> (f.spec_component_bits() matches Some(bits) ==> bits % 8 == 0
            && f.spec_size() == Some((bits / 8) as usize)),
{
}

/// A block of a compressed format takes 8 or 16 bytes: 8 (64 bits) for the
/// BC1, BC4, ETC2 RGB and RGB with 1-bit alpha, and single-channel EAC
/// formats, 16 (128 bits) for the others.
#[verifier::rlimit(100)]
pub proof fn lemma_block_size(f: Format)
    requires
        f.spec_block_dimensions() != (1u32, 1u32),
    ensures
        f.spec_size() == Some(8usize) || f.spec_size() == Some(16usize),
        f.spec_size() == Some(8usize) <==> (f == Format::BC1_RGBUnormBlock
            || f == Format::BC1_RGBSrgbBlock
            || f == Format::BC1_RGBAUnormBlock
            || f == Format::BC1_RGBASrgbBlock
            || f == Format::BC4UnormBlock
            || f == Format::BC4SnormBlock
            || f == Format::ETC2_R8G8B8UnormBlock
            || f == Format::ETC2_R8G8B8SrgbBlock
            || f == Format::ETC2_R8G8B8A1UnormBlock
            || f == Format::ETC2_R8G8B8A1SrgbBlock
            || f == Format::EAC_R11UnormBlock
            || f == Format::EAC_R11SnormBlock),
{
}

} // verus!
