//! The GPU backend's values that the session carries along, and what the
//! library takes on trust about them.

use vstd::prelude::*;

verus! {

/// `wgpu::TextureFormat`, the pixel format of a texture. The library never
/// looks inside a format: it hands formats on and asks the backend about them.
#[verifier::external_type_specification]
#[verifier::external_body]
pub struct ExTextureFormat(wgpu::TextureFormat);

/// `wgpu::PresentMode`, the policy by which a presented frame becomes visible.
/// Carried along unread.
#[verifier::external_type_specification]
#[verifier::external_body]
pub struct ExPresentMode(wgpu::PresentMode);

/// `wgpu::CompositeAlphaMode`, how a surface's alpha channel is composited.
/// Carried along unread.
#[verifier::external_type_specification]
#[verifier::external_body]
pub struct ExCompositeAlphaMode(wgpu::CompositeAlphaMode);

/// Whether a format is sRGB-encoded. This is the answer of
/// `wgpu::TextureFormat::is_srgb`, which depends on the format alone.
pub uninterp spec fn format_is_srgb(format: wgpu::TextureFormat) -> bool;

/// `wgpu::TextureFormat::is_srgb` compares a format with what is left of it
/// once an `Srgb` suffix is stripped. It reads nothing but the format and
/// returns for every format; the contract only gives its answer a name.
pub assume_specification[ wgpu::TextureFormat::is_srgb ](format: &wgpu::TextureFormat) -> (srgb: bool)
    ensures
        srgb == format_is_srgb(*format),
;

/// The bits of the usage in which a texture is the output of a render pass:
/// bit 4 of a `wgpu::TextureUsages`.
pub const RENDER_ATTACHMENT: u32 = 0x10;

/// Reads `wgpu::TextureUsages::RENDER_ATTACHMENT`, which the backend declares
/// as `1 << 4`, and hands back its bits.
#[verifier::external_body]
pub(crate) fn render_attachment_bits() -> (bits: u32)
    ensures
        bits == RENDER_ATTACHMENT,
{
    wgpu::TextureUsages::RENDER_ATTACHMENT.bits()
}

} // verus!
