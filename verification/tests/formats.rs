//! The Format Table: exact native values, and the round trips through
//! both native APIs.
use compat_layer::formats::ImageFormat;

const ALL_FORMATS: [ImageFormat; 8] = [
    ImageFormat::Rgba8Unorm,
    ImageFormat::Rgba8UnormSrgb,
    ImageFormat::Rgb10a2Unorm,
    ImageFormat::Rgba16Float,
    ImageFormat::Rgba32Float,
    ImageFormat::Depth32Float,
    ImageFormat::Depth24PlusStencil8,
    ImageFormat::Depth16Unorm,
];

#[test]
fn gl_values_are_the_registry_values() {
    assert_eq!(ImageFormat::Rgba8Unorm.to_gl(), Some(0x8058));
    assert_eq!(ImageFormat::Rgba8UnormSrgb.to_gl(), Some(0x8C43));
    assert_eq!(ImageFormat::Rgb10a2Unorm.to_gl(), Some(0x8059));
    assert_eq!(ImageFormat::Rgba16Float.to_gl(), Some(0x881A));
    assert_eq!(ImageFormat::Rgba32Float.to_gl(), Some(0x8814));
    assert_eq!(ImageFormat::Depth32Float.to_gl(), Some(0x8CAC));
    assert_eq!(ImageFormat::Depth24PlusStencil8.to_gl(), Some(0x88F0));
    assert_eq!(ImageFormat::Depth16Unorm.to_gl(), Some(0x81A5));
}

#[test]
fn vk_values_are_the_registry_values() {
    assert_eq!(ImageFormat::Rgba8Unorm.to_vk(), Some(37));
    assert_eq!(ImageFormat::Rgba8UnormSrgb.to_vk(), Some(29));
    assert_eq!(ImageFormat::Rgb10a2Unorm.to_vk(), Some(58));
    assert_eq!(ImageFormat::Rgba16Float.to_vk(), Some(97));
    assert_eq!(ImageFormat::Rgba32Float.to_vk(), Some(109));
    assert_eq!(ImageFormat::Depth32Float.to_vk(), Some(126));
    assert_eq!(ImageFormat::Depth24PlusStencil8.to_vk(), Some(129));
    assert_eq!(ImageFormat::Depth16Unorm.to_vk(), Some(124));
}

#[test]
fn gl_round_trip_is_identity_for_every_format() {
    for f in ALL_FORMATS {
        let gl = f.to_gl().expect("every abstract format has a GL value");
        assert_eq!(ImageFormat::from_gl(gl), Some(f));
    }
}

#[test]
fn vk_round_trip_is_identity_for_every_format() {
    for f in ALL_FORMATS {
        let vk = f.to_vk().expect("every abstract format has a VK value");
        assert_eq!(ImageFormat::from_vk(vk), Some(f));
    }
}

#[test]
fn unmapped_native_values_are_rejected() {
    assert_eq!(ImageFormat::from_gl(0), None);
    assert_eq!(ImageFormat::from_gl(0x8C42), None);
    assert_eq!(ImageFormat::from_vk(0), None);
    assert_eq!(ImageFormat::from_vk(36), None);
    assert_eq!(ImageFormat::from_vk(-1), None);
    assert_eq!(ImageFormat::from_vk(i32::MAX), None);
}

#[test]
fn native_values_are_pairwise_distinct() {
    for (i, a) in ALL_FORMATS.iter().enumerate() {
        for (j, b) in ALL_FORMATS.iter().enumerate() {
            if i != j {
                assert_ne!(a.to_gl(), b.to_gl());
                assert_ne!(a.to_vk(), b.to_vk());
            }
        }
    }
}
