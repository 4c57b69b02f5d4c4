//! Two-dimensional textures: the calls that create one and the calls that
//! bind it to a texture unit.

use vstd::prelude::*;
use crate::gpu::{call_views, FilterSlot, GpuCall, GpuCallView, WrapAxis, WrapMode};
use crate::scalar::Scalar;

verus! {

/// What sampling does outside the unit square.
#[derive(Clone, Debug, PartialEq, Eq)]
pub enum WrappingType {
    Repeat,
    MirroredRepeat,
    ClampEdge,
    /// Clamp to a border of the given color: red, green, blue, alpha.
    ClampBorder(Vec<Scalar>),
}

impl WrappingType {
    /// The wrap mode set on both axes.
    pub open spec fn mode(&self) -> WrapMode {
        match self {
            WrappingType::Repeat => WrapMode::Repeat,
            WrappingType::MirroredRepeat => WrapMode::MirroredRepeat,
            WrappingType::ClampEdge => WrapMode::ClampToEdge,
            WrappingType::ClampBorder(_) => WrapMode::ClampToBorder,
        }
    }

    /// The components given for the border color; none unless clamping to a
    /// border.
    pub open spec fn border(&self) -> Seq<Scalar> {
        match self {
            WrappingType::ClampBorder(color) => color@,
            _ => Seq::empty(),
        }
    }

    /// A border color needs its four components.
    pub open spec fn complete(&self) -> bool {
        self is ClampBorder ==> self.border().len() >= 4
    }
}

/// How a texture is sampled between texels.
#[derive(Clone, Copy, Debug, PartialEq, Eq, Structural)]
pub enum FilteringType {
    Nearest,
    Linear,
}

/// A decoded image: tightly packed RGB rows, top row first.
#[derive(Clone, Debug, PartialEq, Eq)]
pub struct TextureData {
    pub width: i32,
    pub height: i32,
    pub data: Vec<u8>,
}

/// Why a texture could not be made.
#[derive(Clone, Copy, Debug, PartialEq, Eq, Structural)]
pub enum TextureError {
    /// A border color was given with fewer than four components.
    BorderColorTooShort,
}

/// A texture that lives on the GPU.
#[derive(Debug, PartialEq, Eq)]
pub struct Texture {
    texture: u32,
}

impl View for Texture {
    type V = u32;

    /// The texture's GPU name.
    closed spec fn view(&self) -> u32 {
        self.texture
    }
}

/// The calls that fill and configure a new texture called `name`: bind it,
/// upload the image at `level`, derive the other levels, set the wrapping on
/// both axes (and the border color where the mode needs one), then the two
/// filters.
pub open spec fn texture_setup_calls(
    mode: WrapMode,
    border: Seq<Scalar>,
    magnify: FilteringType,
    minify: FilteringType,
    level: i32,
    width: i32,
    height: i32,
    pixels: Seq<u8>,
    name: u32,
) -> Seq<GpuCallView> {
    seq![
        GpuCallView::BindTexture(name),
        GpuCallView::TexImage2D { level, width, height, pixels },
        GpuCallView::GenerateMipmap,
        GpuCallView::TexWrap(WrapAxis::S, mode),
        GpuCallView::TexWrap(WrapAxis::T, mode),
    ] + (if mode == WrapMode::ClampToBorder {
        seq![GpuCallView::TexBorderColor(border[0], border[1], border[2], border[3])]
    } else {
        Seq::empty()
    }) + seq![
        GpuCallView::TexFilter(FilterSlot::Magnify, magnify),
        GpuCallView::TexFilter(FilterSlot::Minify, minify),
    ]
}

/// The calls that bind the texture called `name` to unit `index`.
pub open spec fn texture_bind_calls(name: u32, index: nat) -> Seq<GpuCallView> {
    seq![GpuCallView::ActiveTexture(index), GpuCallView::BindTexture(name)]
}

impl Texture {
    /// Makes the record of a texture whose fresh GPU name is `name`, and the
    /// calls that upload `texture_data` into it and configure it.
    ///
    /// Fails, with no call to make, exactly when a border color lacks a
    /// component. Of a longer border color the first four components count.
    pub fn new(
        wrapping_type: WrappingType,
        filtering_type: FilteringType,
        mipmap_filtering_type: FilteringType,
        mipmap_level: i32,
        texture_data: TextureData,
        name: u32,
    ) -> (r: Result<(Texture, Vec<GpuCall>), TextureError>)
        ensures
            r is Ok <==> wrapping_type.complete(),
            r matches Ok((texture, calls)) ==> {
                &&& texture@ == name
                &&& call_views(calls@) == texture_setup_calls(
                    wrapping_type.mode(),
                    wrapping_type.border(),
                    filtering_type,
                    mipmap_filtering_type,
                    mipmap_level,
                    texture_data.width,
                    texture_data.height,
                    texture_data.data@,
                    name,
                )
            },
            r matches Err(e) ==> e == TextureError::BorderColorTooShort,
    {
        let ghost pixels = texture_data.data@;
        let mut calls: Vec<GpuCall> = Vec::new();
        calls.push(GpuCall::BindTexture(name));
        calls.push(
            GpuCall::TexImage2D {
                level: mipmap_level,
                width: texture_data.width,
                height: texture_data.height,
                pixels: texture_data.data,
            },
        );
        calls.push(GpuCall::GenerateMipmap);
        match &wrapping_type {
            WrappingType::Repeat => {
                calls.push(GpuCall::TexWrap(WrapAxis::S, WrapMode::Repeat));
                calls.push(GpuCall::TexWrap(WrapAxis::T, WrapMode::Repeat));
            },
            WrappingType::MirroredRepeat => {
                calls.push(GpuCall::TexWrap(WrapAxis::S, WrapMode::MirroredRepeat));
                calls.push(GpuCall::TexWrap(WrapAxis::T, WrapMode::MirroredRepeat));
            },
            WrappingType::ClampEdge => {
                calls.push(GpuCall::TexWrap(WrapAxis::S, WrapMode::ClampToEdge));
                calls.push(GpuCall::TexWrap(WrapAxis::T, WrapMode::ClampToEdge));
            },
            WrappingType::ClampBorder(color) => {
                if color.len() < 4 {
                    return Err(TextureError::BorderColorTooShort);
                }
                calls.push(GpuCall::TexWrap(WrapAxis::S, WrapMode::ClampToBorder));
                calls.push(GpuCall::TexWrap(WrapAxis::T, WrapMode::ClampToBorder));
                calls.push(GpuCall::TexBorderColor(color[0], color[1], color[2], color[3]));
            },
        }
        calls.push(GpuCall::TexFilter(FilterSlot::Magnify, filtering_type));
        calls.push(GpuCall::TexFilter(FilterSlot::Minify, mipmap_filtering_type));
        assert(call_views(calls@) =~= texture_setup_calls(
            wrapping_type.mode(),
            wrapping_type.border(),
            filtering_type,
            mipmap_filtering_type,
            mipmap_level,
            texture_data.width,
            texture_data.height,
            pixels,
            name,
        ));
        Ok((Texture { texture: name }, calls))
    }

    /// The calls that bind this texture to texture unit `index`.
    pub fn use_texture(&self, index: usize) -> (calls: Vec<GpuCall>)
        ensures
            call_views(calls@) == texture_bind_calls(self@, index as nat),
    {
        let mut calls: Vec<GpuCall> = Vec::new();
        calls.push(GpuCall::ActiveTexture(index));
        calls.push(GpuCall::BindTexture(self.texture));
        assert(call_views(calls@) =~= texture_bind_calls(self@, index as nat));
        calls
    }

    /// The texture's GPU name.
    pub fn name(&self) -> (r: u32)
        ensures
            r == self@,
    {
        self.texture
    }
}

} // verus!
