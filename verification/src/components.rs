//! The pixel camera and what it owns.

use vstd::prelude::*;
use crate::layers::RenderLayers;
use crate::position::SubpixelPosition;
use crate::viewport::{ViewportExtent, ViewportSize};

verus! {

/// What is wrong with a camera's configuration.
#[derive(Clone, Copy, Debug, PartialEq, Eq, Structural)]
pub enum ConfigurationFault {
    /// The viewport's layers and the world's layers have a layer in common.
    LayersOverlap,
    /// The viewport has no layer, so it would be drawn with the world.
    NoLayers,
    /// The camera does not render before the viewport camera.
    RenderOrder,
    /// The window or the size that the strategy gives for it has an axis of
    /// zero pixels, or the size cannot be held.
    DegenerateViewport,
    /// The viewport camera renders to a target that is neither a window nor
    /// an image.
    UnsupportedTarget,
}

/// The host's handles to what was made for one camera.
///
/// The library never looks into a handle: it hands back what it was given.
#[derive(Clone, Copy, Debug, PartialEq, Eq, Structural)]
pub struct ViewportHandles {
    /// The low-resolution image that the camera renders into.
    pub render_target: u64,
    /// The surface that displays the render target.
    pub display_surface: u64,
    /// The camera that renders the display surface to the screen.
    pub viewport_camera: u64,
}

/// What a bound camera owns: the handles, and the size at which the render
/// target was last made or resized.
#[derive(Clone, Copy, Debug, PartialEq, Eq, Structural)]
pub struct ViewportBinding {
    /// The host's handles.
    pub handles: ViewportHandles,
    /// The size of the render target, border included.
    pub target_size: ViewportExtent,
}

/// The pixelated camera.
///
/// To move the camera, change `subpixel_pos`: where the scene's camera and
/// the displayed image sit is derived from it every frame.
pub struct PixelCamera<F> {
    /// The size of the viewport.
    ///
    /// See [`ViewportSize`] for details.
    pub viewport_size: ViewportSize<F>,
    /// The subpixel position of the [`PixelCamera`].
    pub subpixel_pos: SubpixelPosition,
    /// The order in which the viewport camera renders.
    /// Cameras with a higher order are rendered later, and thus on top of lower order cameras.
    ///
    /// Because the world camera has to render before the viewport camera,
    /// this value must be higher than the world camera's order.
    pub viewport_order: isize,
    /// The rendering layer the viewport is on.
    pub viewport_layer: RenderLayers,
    /// Whether camera position smoothing is enabled for this camera.
    pub smoothing: bool,
    /// The viewport of this camera, once it is bound.
    pub binding: Option<ViewportBinding>,
    /// The configuration fault that was last reported for this camera and
    /// has not been mended since.
    pub reported: Option<ConfigurationFault>,
}

impl<F> Default for ViewportSize<F> {
    fn default() -> (size: Self)
        ensures
            size matches ViewportSize::PixelFixed(n) && n == 4,
    {
        ViewportSize::PixelFixed(4)
    }
}

impl<F> PixelCamera<F> {
    /// The unbound camera at the origin that renders after order 0 on layer 1,
    /// with smoothing.
    pub open spec fn fresh(viewport_size: ViewportSize<F>) -> Self {
        PixelCamera {
            viewport_size,
            subpixel_pos: SubpixelPosition { x: 0, y: 0 },
            viewport_order: 1,
            viewport_layer: RenderLayers::only(1),
            smoothing: true,
            binding: None,
            reported: None,
        }
    }

    /// Whether the camera has its viewport.
    pub open spec fn is_bound(&self) -> bool {
        self.binding is Some
    }

    /// Creates a new pixel camera with the `size` of choice and default configuration.
    pub fn from_size(viewport_size: ViewportSize<F>) -> (camera: Self)
        ensures
            camera == Self::fresh(viewport_size),
    {
        let layer: RenderLayers = RenderLayers::layer(1);
        PixelCamera {
            viewport_size,
            subpixel_pos: SubpixelPosition::zero(),
            viewport_order: 1,
            viewport_layer: layer,
            smoothing: true,
            binding: None,
            reported: None,
        }
    }

    /// Creates a new pixel camera with the `scaling` of choice and default configuration.
    ///
    /// [`PixelCamera::from_size`] with `ViewportSize::PixelFixed` does the same.
    pub fn from_scaling(scaling: u8) -> (camera: Self)
        ensures
            camera == Self::fresh(ViewportSize::PixelFixed(scaling as u32)),
    {
        Self::from_size(ViewportSize::PixelFixed(scaling as u32))
    }
}

impl<F> Default for PixelCamera<F> {
    fn default() -> (camera: Self)
        ensures
            camera == Self::fresh(ViewportSize::PixelFixed(4)),
    {
        Self::from_size(ViewportSize::PixelFixed(4))
    }
}

} // verus!
