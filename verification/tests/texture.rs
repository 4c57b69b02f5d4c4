use meliusgfx::gpu::{FilterSlot, GpuCall, WrapAxis, WrapMode};
use meliusgfx::scalar::Scalar;
use meliusgfx::texture::{FilteringType, Texture, TextureData, TextureError, WrappingType};

fn s(x: f32) -> Scalar {
    Scalar::from_bits(x.to_bits())
}

fn image() -> TextureData {
    TextureData { width: 2, height: 1, data: vec![255, 0, 0, 0, 255, 0] }
}

#[test]
fn scalar_keeps_its_bits() {
    assert_eq!(Scalar::from_bits(0x4048_F5C3).to_bits(), 0x4048_F5C3);
    assert_eq!(s(3.14).to_bits(), 3.14f32.to_bits());
    assert_eq!(f32::from_bits(s(-0.5).to_bits()), -0.5);
}

#[test]
fn scalar_constants_are_zero_and_one() {
    assert_eq!(Scalar::ZERO_BITS, 0.0f32.to_bits());
    assert_eq!(Scalar::ONE_BITS, 1.0f32.to_bits());
}

#[test]
fn texture_new_uploads_then_configures() {
    let (texture, calls) = Texture::new(
        WrappingType::Repeat,
        FilteringType::Linear,
        FilteringType::Nearest,
        0,
        image(),
        17,
    )
    .unwrap();
    assert_eq!(texture.name(), 17);
    assert_eq!(
        calls,
        vec![
            GpuCall::BindTexture(17),
            GpuCall::TexImage2D { level: 0, width: 2, height: 1, pixels: vec![255, 0, 0, 0, 255, 0] },
            GpuCall::GenerateMipmap,
            GpuCall::TexWrap(WrapAxis::S, WrapMode::Repeat),
            GpuCall::TexWrap(WrapAxis::T, WrapMode::Repeat),
            GpuCall::TexFilter(FilterSlot::Magnify, FilteringType::Linear),
            GpuCall::TexFilter(FilterSlot::Minify, FilteringType::Nearest),
        ]
    );
}

#[test]
fn texture_new_passes_the_mipmap_level_on() {
    let (_, calls) = Texture::new(
        WrappingType::ClampEdge,
        FilteringType::Nearest,
        FilteringType::Linear,
        3,
        image(),
        1,
    )
    .unwrap();
    assert_eq!(
        calls[1],
        GpuCall::TexImage2D { level: 3, width: 2, height: 1, pixels: vec![255, 0, 0, 0, 255, 0] }
    );
    assert_eq!(calls[3], GpuCall::TexWrap(WrapAxis::S, WrapMode::ClampToEdge));
    assert_eq!(calls[4], GpuCall::TexWrap(WrapAxis::T, WrapMode::ClampToEdge));
    assert_eq!(calls[5], GpuCall::TexFilter(FilterSlot::Magnify, FilteringType::Nearest));
    assert_eq!(calls[6], GpuCall::TexFilter(FilterSlot::Minify, FilteringType::Linear));
}

#[test]
fn texture_new_mirrored_repeat_wraps_both_axes() {
    let (_, calls) = Texture::new(
        WrappingType::MirroredRepeat,
        FilteringType::Linear,
        FilteringType::Linear,
        0,
        image(),
        1,
    )
    .unwrap();
    assert_eq!(calls.len(), 7);
    assert_eq!(calls[3], GpuCall::TexWrap(WrapAxis::S, WrapMode::MirroredRepeat));
    assert_eq!(calls[4], GpuCall::TexWrap(WrapAxis::T, WrapMode::MirroredRepeat));
}

#[test]
fn texture_new_clamp_border_sets_the_color_after_the_wrap() {
    let (_, calls) = Texture::new(
        WrappingType::ClampBorder(vec![s(0.25), s(0.5), s(0.75), s(1.0)]),
        FilteringType::Linear,
        FilteringType::Linear,
        0,
        image(),
        4,
    )
    .unwrap();
    assert_eq!(calls.len(), 8);
    assert_eq!(calls[3], GpuCall::TexWrap(WrapAxis::S, WrapMode::ClampToBorder));
    assert_eq!(calls[4], GpuCall::TexWrap(WrapAxis::T, WrapMode::ClampToBorder));
    assert_eq!(calls[5], GpuCall::TexBorderColor(s(0.25), s(0.5), s(0.75), s(1.0)));
    assert_eq!(calls[6], GpuCall::TexFilter(FilterSlot::Magnify, FilteringType::Linear));
}

#[test]
fn texture_new_reads_four_components_of_a_longer_border() {
    let (_, calls) = Texture::new(
        WrappingType::ClampBorder(vec![s(1.0), s(2.0), s(3.0), s(4.0), s(5.0)]),
        FilteringType::Linear,
        FilteringType::Linear,
        0,
        image(),
        4,
    )
    .unwrap();
    assert_eq!(calls[5], GpuCall::TexBorderColor(s(1.0), s(2.0), s(3.0), s(4.0)));
}

#[test]
fn texture_new_refuses_a_short_border() {
    for given in 0..4usize {
        let color = vec![s(1.0); given];
        let result = Texture::new(
            WrappingType::ClampBorder(color),
            FilteringType::Linear,
            FilteringType::Linear,
            0,
            image(),
            4,
        );
        assert_eq!(result, Err(TextureError::BorderColorTooShort));
    }
}

#[test]
fn use_texture_selects_the_unit_then_binds() {
    let (texture, _) = Texture::new(
        WrappingType::Repeat,
        FilteringType::Linear,
        FilteringType::Linear,
        0,
        image(),
        23,
    )
    .unwrap();
    assert_eq!(texture.use_texture(0), vec![GpuCall::ActiveTexture(0), GpuCall::BindTexture(23)]);
    assert_eq!(texture.use_texture(5), vec![GpuCall::ActiveTexture(5), GpuCall::BindTexture(23)]);
}
