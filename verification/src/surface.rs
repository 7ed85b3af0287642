//! The surface configuration record and the rules that choose it from what a
//! surface offers.

use vstd::prelude::*;

verus! {

/// `wgpu::TextureFormat`, carried through the library as an opaque value.
#[verifier::external_type_specification]
#[verifier::external_body]
pub struct ExTextureFormat(wgpu::TextureFormat);

/// `wgpu::PresentMode`, carried through the library as an opaque value.
#[verifier::external_type_specification]
#[verifier::external_body]
pub struct ExPresentMode(wgpu::PresentMode);

/// `wgpu::CompositeAlphaMode`, carried through the library as an opaque value.
#[verifier::external_type_specification]
#[verifier::external_body]
pub struct ExCompositeAlphaMode(wgpu::CompositeAlphaMode);

/// Calls `wgpu::TextureFormat::is_srgb`, which tells whether the format has an
/// sRGB suffix. Nothing is claimed of the answer: the format is opaque here, so
/// callers record the flag beside the format and reason about the record.
#[verifier::external_body]
fn texture_format_is_srgb(format: &wgpu::TextureFormat) -> (srgb: bool) {
    format.is_srgb()
}

/// Width and height of a drawable area, in physical pixels.
#[derive(Clone, Copy, Debug, PartialEq, Eq, Structural)]
pub struct PixelSize {
    pub width: u32,
    pub height: u32,
}

/// A pixel format offered by a surface, with the one property the selection
/// policy reads.
#[derive(Clone, Copy, Debug)]
pub struct SurfaceFormat {
    pub format: wgpu::TextureFormat,
    pub srgb: bool,
}

impl SurfaceFormat {
    /// Records a format together with its sRGB flag as the GPU layer reports it.
    pub fn probe(format: wgpu::TextureFormat) -> (offer: SurfaceFormat)
        ensures
            offer.format == format,
    {
        let srgb = texture_format_is_srgb(&format);
        SurfaceFormat { format, srgb }
    }
}

/// What a surface supports for a chosen adapter, each list in the order the
/// platform reports it.
#[derive(Debug)]
pub struct SurfaceCapabilities {
    pub formats: Vec<SurfaceFormat>,
    pub present_modes: Vec<wgpu::PresentMode>,
    pub alpha_modes: Vec<wgpu::CompositeAlphaMode>,
}

/// How a configured surface's images may be used.
#[derive(Clone, Copy, Debug, PartialEq, Eq, Structural)]
pub enum SurfaceUsage {
    RenderAttachment,
}

/// The contract between a surface and a logical device.
#[derive(Debug, PartialEq, Eq)]
pub struct SurfaceConfiguration {
    pub usage: SurfaceUsage,
    pub format: wgpu::TextureFormat,
    pub width: u32,
    pub height: u32,
    pub present_mode: wgpu::PresentMode,
    pub desired_maximum_frame_latency: u32,
    pub alpha_mode: wgpu::CompositeAlphaMode,
    pub view_formats: Vec<wgpu::TextureFormat>,
}

/// Why a graphics context could not be brought up.
#[derive(Clone, Copy, Debug, PartialEq, Eq, Structural)]
pub enum StartupError {
    /// The surface offers no sRGB format.
    NoSrgbFormat,
    /// The surface offers no present mode.
    NoPresentMode,
    /// The surface offers no alpha compositing mode.
    NoAlphaMode,
}

/// `i` is the position of the first sRGB offer in `formats`.
pub open spec fn is_first_srgb(formats: Seq<SurfaceFormat>, i: int) -> bool {
    &&& 0 <= i < formats.len()
    &&& formats[i].srgb
    &&& forall|j: int| 0 <= j < i ==> !formats[j].srgb
}

/// Finds the first sRGB format among the offers, in the order given.
pub fn first_srgb_format(formats: &Vec<SurfaceFormat>) -> (found: Option<usize>)
    ensures
        match found {
            Some(i) => is_first_srgb(formats@, i as int),
            None => forall|j: int| 0 <= j < formats.len() ==> !formats[j].srgb,
        },
{
    let mut i: usize = 0;
    while i < formats.len()
        invariant
            i <= formats.len(),
            forall|j: int| 0 <= j < i ==> !formats[j].srgb,
        decreases formats.len() - i,
    {
        if formats[i].srgb {
            return Some(i);
        }
        i = i + 1;
    }
    None
}

/// Some offer in `formats` is flagged sRGB.
pub open spec fn offers_srgb(formats: Seq<SurfaceFormat>) -> bool {
    exists|i: int| 0 <= i < formats.len() && formats[i].srgb
}

/// The reason no configuration can be chosen from `capabilities`, if there is
/// one. A missing sRGB format is reported before a missing present mode, and
/// that before a missing alpha mode.
pub open spec fn selection_failure(capabilities: SurfaceCapabilities) -> Option<StartupError> {
    if !offers_srgb(capabilities.formats@) {
        Some(StartupError::NoSrgbFormat)
    } else if capabilities.present_modes@.len() == 0 {
        Some(StartupError::NoPresentMode)
    } else if capabilities.alpha_modes@.len() == 0 {
        Some(StartupError::NoAlphaMode)
    } else {
        None
    }
}

/// `configuration` is the one the selection policy yields for a window of size
/// `window` on a surface with `capabilities`: render-target usage, the first
/// sRGB format, the window's size, the first present mode, one frame in
/// flight, the first alpha mode and no extra view formats.
pub open spec fn is_selected_configuration(
    capabilities: SurfaceCapabilities,
    window: PixelSize,
    configuration: SurfaceConfiguration,
) -> bool {
    &&& configuration.usage == SurfaceUsage::RenderAttachment
    &&& exists|i: int|
        is_first_srgb(capabilities.formats@, i) && configuration.format
            == capabilities.formats@[i].format
    &&& configuration.width == window.width
    &&& configuration.height == window.height
    &&& capabilities.present_modes@.len() > 0
    &&& configuration.present_mode == capabilities.present_modes@[0]
    &&& configuration.desired_maximum_frame_latency == 1
    &&& capabilities.alpha_modes@.len() > 0
    &&& configuration.alpha_mode == capabilities.alpha_modes@[0]
    &&& configuration.view_formats@.len() == 0
}

/// Chooses the surface configuration for a window of size `window`.
///
/// The choice is by position, never by preference: the first sRGB format, the
/// first present mode and the first alpha mode that the surface lists.
pub fn select_surface_configuration(
    capabilities: &SurfaceCapabilities,
    window: PixelSize,
) -> (result: Result<SurfaceConfiguration, StartupError>)
    ensures
        match selection_failure(*capabilities) {
            Some(error) => result == Err::<SurfaceConfiguration, StartupError>(error),
            None => result is Ok && is_selected_configuration(
                *capabilities,
                window,
                result->Ok_0,
            ),
        },
{
    let format = match first_srgb_format(&capabilities.formats) {
        Some(i) => capabilities.formats[i].format,
        None => {
            return Err(StartupError::NoSrgbFormat);
        },
    };
    if capabilities.present_modes.len() == 0 {
        return Err(StartupError::NoPresentMode);
    }
    if capabilities.alpha_modes.len() == 0 {
        return Err(StartupError::NoAlphaMode);
    }
    Ok(
        SurfaceConfiguration {
            usage: SurfaceUsage::RenderAttachment,
            format,
            width: window.width,
            height: window.height,
            present_mode: capabilities.present_modes[0],
            desired_maximum_frame_latency: 1,
            alpha_mode: capabilities.alpha_modes[0],
            view_formats: Vec::new(),
        },
    )
}

} // verus!
