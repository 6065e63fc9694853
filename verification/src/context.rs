//! Configuration computations for creating the runtime connection: the
//! instance description, the swapchain resolution choice and the
//! swapchain creation settings.
//!
//! The creation calls themselves talk to the device and are made by the
//! embedding application; these functions pin down exactly what it must
//! ask for.

use vstd::prelude::*;

verus! {

/// The default application name used when the embedder supplies none.
pub open spec fn default_application_name() -> Seq<char> {
    "Hotham Application"@
}

/// Settings for creating the runtime instance.
pub struct InstanceConfig {
    /// Name the application registers with the runtime.
    pub application_name: String,
    /// Version the application registers with the runtime.
    pub application_version: u32,
    /// Name of the engine itself.
    pub engine_name: String,
    /// Version of the engine itself.
    pub engine_version: u32,
    /// The graphics-binding extension is always requested: without it no
    /// session can present.
    pub enable_vulkan: bool,
}

/// The instance settings for the given overrides: the application name
/// defaults when absent, the version defaults to 1, the engine
/// identifies itself, and the graphics-binding extension is always
/// enabled.
pub fn instance_config(application_name: Option<&str>, application_version: Option<u32>) -> (c:
    InstanceConfig)
    ensures
        c.application_name@ == (match application_name {
            Some(n) => n@,
            None => default_application_name(),
        }),
        c.application_version == (match application_version {
            Some(v) => v,
            None => 1u32,
        }),
        c.engine_name@ == "Hotham"@,
        c.engine_version == 1,
        c.enable_vulkan,
{
    let name: &str = match application_name {
        Some(n) => n,
        None => "Hotham Application",
    };
    let version: u32 = match application_version {
        Some(v) => v,
        None => 1,
    };
    InstanceConfig {
        application_name: name.to_string(),
        application_version: version,
        engine_name: "Hotham".to_string(),
        engine_version: 1,
        enable_vulkan: true,
    }
}

/// A two-dimensional image extent in pixels.
#[derive(Clone, Copy, PartialEq, Eq, Structural, Debug)]
pub struct Extent2D {
    /// Width in pixels.
    pub width: u32,
    /// Height in pixels.
    pub height: u32,
}

/// One per-eye view configuration reported by the runtime.
#[derive(Clone, Copy, PartialEq, Eq, Structural, Debug)]
pub struct ViewConfig {
    /// Recommended image rectangle width for this view.
    pub recommended_width: u32,
    /// Recommended image rectangle height for this view.
    pub recommended_height: u32,
}

/// The swapchain resolution: the first reported view's recommended
/// rectangle, or nothing when the runtime reported no views at all.
pub fn swapchain_resolution(views: &Vec<ViewConfig>) -> (r: Option<Extent2D>)
    ensures
        r == (if views@.len() == 0 {
            None::<Extent2D>
        } else {
            Some(
                Extent2D {
                    width: views@[0].recommended_width,
                    height: views@[0].recommended_height,
                },
            )
        }),
{
    if views.len() == 0 {
        None
    } else {
        Some(
            Extent2D {
                width: views[0].recommended_width,
                height: views[0].recommended_height,
            },
        )
    }
}

/// Settings for creating the swapchain.
#[derive(Clone, Copy, PartialEq, Eq, Structural, Debug)]
pub struct SwapchainConfig {
    /// Image width in pixels.
    pub width: u32,
    /// Image height in pixels.
    pub height: u32,
    /// Number of array layers: one per eye.
    pub array_size: u32,
    /// Raw image format identifier, chosen by the renderer.
    pub format: u32,
    /// Samples per pixel.
    pub sample_count: u32,
    /// Mipmap levels.
    pub mip_count: u32,
    /// Faces per image: one; the swapchain is not a cube map.
    pub face_count: u32,
    /// The images are rendered to as color attachments.
    pub color_attachment: bool,
}

/// The swapchain settings for the given resolution, layer count and
/// format: single-sampled, no mipmaps, plain (non-cube) color-attachment
/// images.
pub fn swapchain_config(resolution: Extent2D, array_size: u32, format: u32) -> (c: SwapchainConfig)
    ensures
        c == (SwapchainConfig {
            width: resolution.width,
            height: resolution.height,
            array_size,
            format,
            sample_count: 1u32,
            mip_count: 1u32,
            face_count: 1u32,
            color_attachment: true,
        }),
{
    SwapchainConfig {
        width: resolution.width,
        height: resolution.height,
        array_size,
        format,
        sample_count: 1,
        mip_count: 1,
        face_count: 1,
        color_attachment: true,
    }
}

} // verus!
