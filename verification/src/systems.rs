//! The life of a camera's viewport: binding it once, resizing it when the
//! window changes, and placing camera and displayed image every frame.
//!
//! Nothing here touches the host. Each step takes what the host found and
//! returns what the host is to do; the host reports back, and the camera's own
//! record is the only state.

use vstd::prelude::*;
use crate::components::{ConfigurationFault, PixelCamera, ViewportBinding, ViewportHandles};
use crate::layers::RenderLayers;
use crate::position::{
    axis_split, floor_remainder, shown_rect, surface_rect, PositionSplit, SurfaceRect,
};
use crate::scaling::{fitted, ViewportScaling};
use crate::viewport::{FillPolicy, FitMode, ViewportExtent, ViewportSize, WindowResolution};
use crate::CameraSystems;

verus! {

/// Why a camera was not updated this frame.
#[derive(Clone, Copy, Debug, PartialEq, Eq, Structural)]
pub enum CameraError {
    /// The camera's configuration breaks a rule. It stays as it is.
    Configuration(ConfigurationFault),
    /// The window was not found. The step can be tried again later.
    MissingWindow,
    /// The render target, or something else that was made for the camera, is
    /// gone.
    StaleResource,
}

/// Sizes for one viewport on one surface.
#[derive(Clone, Copy, Debug, PartialEq, Eq, Structural)]
pub struct ViewportLayout {
    /// The size of the viewport: what the strategy gives.
    pub viewport: ViewportExtent,
    /// The size of the render target: the viewport and, with smoothing, a
    /// border of one pixel on each side.
    pub target_size: ViewportExtent,
    /// The region of the viewport that is shown.
    pub scaling: ViewportScaling,
}

/// What the host is to make for a camera that is being bound.
#[derive(Clone, Copy, Debug, PartialEq, Eq, Structural)]
pub struct BindPlan {
    /// The sizes of render target and projection.
    pub layout: ViewportLayout,
    /// The render order of the viewport camera.
    pub order: isize,
    /// The layers of the display surface and of the viewport camera.
    pub layers: RenderLayers,
    /// What the viewport camera paints before it draws.
    pub fill: FillPolicy,
}

/// The outcome of asking to bind a camera.
#[derive(Clone, Copy, Debug, PartialEq, Eq, Structural)]
pub enum BindStep {
    /// The camera has its viewport: there is nothing to make.
    AlreadyBound,
    /// The host is to make this viewport and then call [`PixelCamera::bind`].
    Create(BindPlan),
}

/// What the host is to change for a camera whose surface has changed.
#[derive(Clone, Copy, Debug, PartialEq, Eq)]
pub struct ResizePlan {
    /// The new sizes of render target and projection.
    pub layout: ViewportLayout,
    /// What the viewport camera is to paint from now on, where the strategy
    /// says so.
    pub fill: Option<FillPolicy>,
}

/// The outcome of asking to resize a camera's viewport.
#[derive(Clone, Copy, Debug, PartialEq, Eq)]
pub enum ResizeStep {
    /// Nothing is to be done.
    Unchanged,
    /// The host is to resize and then call [`PixelCamera::finish_resize`].
    Resize(ResizePlan),
}

/// What the host found when it looked for the surface that a camera's
/// viewport is shown on.
#[derive(Clone, Copy, Debug, PartialEq, Eq, Structural)]
pub enum OutputSurface {
    /// The viewport camera is gone.
    CameraGone,
    /// The viewport camera renders to a window that was not found.
    WindowGone,
    /// The viewport camera renders to this window.
    Window {
        /// The window's size.
        resolution: WindowResolution,
        /// Whether the window has changed since it was last looked at.
        changed: bool,
    },
    /// The viewport camera renders to an image that is gone.
    ImageGone,
    /// The viewport camera renders to an image of this size.
    Image {
        /// The image's width in pixels.
        width: u32,
        /// The image's height in pixels.
        height: u32,
    },
    /// The viewport camera renders to a texture view.
    TextureView,
}

/// Where camera and displayed image go this frame.
#[derive(Clone, Copy, Debug, PartialEq, Eq)]
pub struct PositionUpdate {
    /// The horizontal position of the scene's camera, in whole pixels.
    pub translation_x: i64,
    /// The vertical position of the scene's camera, in whole pixels.
    pub translation_y: i64,
    /// The part of the render target that is displayed. `None` leaves it
    /// as it is.
    pub rect: Option<SurfaceRect>,
}

/// The layers of a world camera: its own where it has any, else layer 0.
pub open spec fn world_layers_of(layers: Option<RenderLayers>) -> RenderLayers {
    match layers {
        Some(own) => own,
        None => RenderLayers::only(0),
    }
}

impl<F> PixelCamera<F> {
    /// The phase in which this camera has work to do: initialization until
    /// it is bound, the update from then on.
    pub fn phase(&self) -> (phase: CameraSystems)
        ensures
            phase == if self.is_bound() {
                CameraSystems::Update
            } else {
                CameraSystems::Initialization
            },
    {
        if self.binding.is_some() {
            CameraSystems::Update
        } else {
            CameraSystems::Initialization
        }
    }

    /// The first rule that the configuration breaks next to a world camera
    /// with the layers `world_layers` and the render order `camera_order`:
    /// the viewport's layers overlap the world's; the viewport has no layer;
    /// the world camera does not render before the viewport camera.
    pub open spec fn configuration_fault(
        &self,
        world_layers: Option<RenderLayers>,
        camera_order: isize,
    ) -> Option<ConfigurationFault> {
        if self.viewport_layer.overlaps(&world_layers_of(world_layers)) {
            Some(ConfigurationFault::LayersOverlap)
        } else if self.viewport_layer.has_no_layer() {
            Some(ConfigurationFault::NoLayers)
        } else if camera_order >= self.viewport_order {
            Some(ConfigurationFault::RenderOrder)
        } else {
            None
        }
    }

    /// Checks the configuration next to a world camera with the layers
    /// `world_layers` and the render order `camera_order`.
    pub fn validate(&self, world_layers: Option<RenderLayers>, camera_order: isize) -> (verdict:
        Result<(), ConfigurationFault>)
        ensures
            match self.configuration_fault(world_layers, camera_order) {
                Some(fault) => verdict == Err::<(), ConfigurationFault>(fault),
                None => verdict is Ok,
            },
    {
        let world: RenderLayers = match world_layers {
            Some(own) => own,
            None => RenderLayers::layer(0),
        };
        if self.viewport_layer.intersects(&world) {
            Err(ConfigurationFault::LayersOverlap)
        } else if self.viewport_layer.is_empty() {
            Err(ConfigurationFault::NoLayers)
        } else if camera_order >= self.viewport_order {
            Err(ConfigurationFault::RenderOrder)
        } else {
            Ok(())
        }
    }

    /// The width of the border on each axis: one pixel on each side with
    /// smoothing, none without.
    pub open spec fn border(&self) -> int {
        if self.smoothing {
            2
        } else {
            0
        }
    }

    /// Whether a viewport of extent `extent` can be laid out on `surface`:
    /// neither has an axis of zero pixels, and the render target's size can
    /// be held.
    pub open spec fn can_lay_out(&self, extent: ViewportExtent, surface: WindowResolution) -> bool {
        &&& surface.has_area()
        &&& extent.has_area()
        &&& extent.width + self.border() <= u32::MAX
        &&& extent.height + self.border() <= u32::MAX
    }

    /// The layout of a viewport of extent `extent` on `surface`, where there
    /// is one: the render target is the viewport and the border, and the
    /// region shown is the one that the strategy's fit mode gives.
    pub open spec fn layout_for(&self, extent: ViewportExtent, surface: WindowResolution) -> Option<
        ViewportLayout,
    > {
        if self.can_lay_out(extent, surface) {
            Some(
                ViewportLayout {
                    viewport: extent,
                    target_size: ViewportExtent {
                        width: (extent.width + self.border()) as u32,
                        height: (extent.height + self.border()) as u32,
                    },
                    scaling: ViewportScaling::of(
                        fitted(self.viewport_size.fit_mode(), extent, surface),
                    ),
                },
            )
        } else {
            None
        }
    }

    /// Lays a viewport of extent `extent` out on `surface`.
    pub fn layout(&self, extent: &ViewportExtent, surface: &WindowResolution) -> (layout: Option<
        ViewportLayout,
    >)
        ensures
            layout == self.layout_for(*extent, *surface),
    {
        if surface.width == 0 || surface.height == 0 || extent.width == 0 || extent.height == 0 {
            return None;
        }
        let border: u32 = if self.smoothing {
            2
        } else {
            0
        };
        if extent.width > u32::MAX - border || extent.height > u32::MAX - border {
            return None;
        }
        Some(
            ViewportLayout {
                viewport: *extent,
                target_size: ViewportExtent {
                    width: extent.width + border,
                    height: extent.height + border,
                },
                scaling: self.viewport_size.scaling(extent, surface),
            },
        )
    }

    /// The outcome of binding a camera whose viewport has the extent `extent`
    /// on `window`: a plan with the layout, the camera's order and layers and
    /// the strategy's fill, or, where there is no layout, a degenerate
    /// viewport.
    pub open spec fn bind_outcome(&self, extent: ViewportExtent, window: WindowResolution) -> Result<
        BindStep,
        CameraError,
    > {
        match self.layout_for(extent, window) {
            Some(layout) => Ok(
                BindStep::Create(
                    BindPlan {
                        layout,
                        order: self.viewport_order,
                        layers: self.viewport_layer,
                        fill: self.viewport_size.fill_policy(),
                    },
                ),
            ),
            None => Err(CameraError::Configuration(ConfigurationFault::DegenerateViewport)),
        }
    }

    /// The plan for a viewport of extent `extent` on `window`.
    pub fn bind_step(&self, extent: &ViewportExtent, window: &WindowResolution) -> (step: Result<
        BindStep,
        CameraError,
    >)
        ensures
            step == self.bind_outcome(*extent, *window),
    {
        match self.layout(extent, window) {
            Some(layout) => Ok(
                BindStep::Create(
                    BindPlan {
                        layout,
                        order: self.viewport_order,
                        layers: self.viewport_layer,
                        fill: self.viewport_size.clear_color(),
                    },
                ),
            ),
            None => Err(CameraError::Configuration(ConfigurationFault::DegenerateViewport)),
        }
    }

    /// The outcome of asking to bind this camera where the strategy's size
    /// plays no part in it, and `None` where the strategy is asked.
    ///
    /// A bound camera is left alone. Else the configuration is checked, then
    /// the window: a broken rule, a missing window, and a window of no area
    /// or one that the strategy has no size for, each end the step.
    pub open spec fn binding_verdict(
        &self,
        world_layers: Option<RenderLayers>,
        camera_order: isize,
        window: Option<WindowResolution>,
    ) -> Option<Result<BindStep, CameraError>> {
        if self.is_bound() {
            Some(Ok(BindStep::AlreadyBound))
        } else if let Some(fault) = self.configuration_fault(world_layers, camera_order) {
            Some(Err(CameraError::Configuration(fault)))
        } else if let Some(resolution) = window {
            if !resolution.has_area() || !self.viewport_size.supports(resolution) {
                Some(Err(CameraError::Configuration(ConfigurationFault::DegenerateViewport)))
            } else {
                None
            }
        } else {
            Some(Err(CameraError::MissingWindow))
        }
    }

    /// The outcome of asking to bind a camera whose strategy is not `Custom`:
    /// the verdict where there is one, else the outcome for the size that the
    /// strategy gives for the window.
    pub open spec fn bind_result(
        &self,
        world_layers: Option<RenderLayers>,
        camera_order: isize,
        window: Option<WindowResolution>,
    ) -> Result<BindStep, CameraError> {
        match self.binding_verdict(world_layers, camera_order, window) {
            Some(verdict) => verdict,
            None => self.bind_outcome(
                self.viewport_size.policy_extent(window->Some_0),
                window->Some_0,
            ),
        }
    }

    /// The camera after the host has made what a plan asked for: bound to
    /// `handles` and with no fault outstanding, unless it was bound before.
    pub open spec fn bound_with(self, plan: BindPlan, handles: ViewportHandles) -> Self {
        if self.is_bound() {
            self
        } else {
            PixelCamera {
                binding: Some(ViewportBinding { handles, target_size: plan.layout.target_size }),
                reported: None,
                ..self
            }
        }
    }

    /// Binds the camera to what the host has made for `plan`.
    ///
    /// A camera that is bound keeps its viewport: `handles` are not taken, and
    /// the result is `false`.
    pub fn bind(&mut self, plan: &BindPlan, handles: ViewportHandles) -> (attached: bool)
        ensures
            attached == !old(self).is_bound(),
            *final(self) == old(self).bound_with(*plan, handles),
    {
        if self.binding.is_some() {
            false
        } else {
            self.binding = Some(ViewportBinding { handles, target_size: plan.layout.target_size });
            self.reported = None;
            true
        }
    }

    /// What the viewport camera is to paint after a resize: the fill of a
    /// `Fit` mode, and no change under any other.
    pub open spec fn refill(&self) -> Option<FillPolicy> {
        match self.viewport_size.fit_mode() {
            FitMode::Fit(policy) => Some(policy),
            _ => None,
        }
    }

    /// The outcome of resizing to a viewport of extent `extent` on `surface`:
    /// a plan with the layout and the fill, or, where there is no layout, a
    /// degenerate viewport.
    pub open spec fn resize_outcome(
        &self,
        extent: ViewportExtent,
        surface: WindowResolution,
    ) -> Result<ResizeStep, CameraError> {
        match self.layout_for(extent, surface) {
            Some(layout) => Ok(ResizeStep::Resize(ResizePlan { layout, fill: self.refill() })),
            None => Err(CameraError::Configuration(ConfigurationFault::DegenerateViewport)),
        }
    }

    /// The plan for resizing to a viewport of extent `extent` on `surface`.
    pub fn resize_step(&self, extent: &ViewportExtent, surface: &WindowResolution) -> (step:
        Result<ResizeStep, CameraError>)
        ensures
            step == self.resize_outcome(*extent, *surface),
    {
        match self.layout(extent, surface) {
            Some(layout) => {
                let fill: Option<FillPolicy> = match &self.viewport_size {
                    ViewportSize::Fixed { fit: FitMode::Fit(policy), .. } => Some(*policy),
                    ViewportSize::Custom { fit: FitMode::Fit(policy), .. } => Some(*policy),
                    _ => None,
                };
                Ok(ResizeStep::Resize(ResizePlan { layout, fill }))
            },
            None => Err(CameraError::Configuration(ConfigurationFault::DegenerateViewport)),
        }
    }

    /// The outcome of asking to resize this camera's viewport for `surface`
    /// where the strategy's size plays no part in it, and `None` where the
    /// strategy is asked.
    ///
    /// An unbound camera and a window that has not changed need nothing. What
    /// is gone is reported, and so is a target that is neither window nor
    /// image. An image is its own size. A window that has changed is sized by
    /// the strategy, unless it has no area or the strategy has no size for it.
    pub open spec fn resize_verdict(&self, surface: OutputSurface) -> Option<
        Result<ResizeStep, CameraError>,
    > {
        if !self.is_bound() {
            Some(Ok(ResizeStep::Unchanged))
        } else {
            match surface {
                OutputSurface::CameraGone => Some(Err(CameraError::StaleResource)),
                OutputSurface::WindowGone => Some(Err(CameraError::MissingWindow)),
                OutputSurface::ImageGone => Some(Err(CameraError::StaleResource)),
                OutputSurface::TextureView => Some(
                    Err(CameraError::Configuration(ConfigurationFault::UnsupportedTarget)),
                ),
                OutputSurface::Image { width, height } => Some(
                    self.resize_outcome(
                        ViewportExtent { width, height },
                        WindowResolution { width, height },
                    ),
                ),
                OutputSurface::Window { resolution, changed } => {
                    if !changed {
                        Some(Ok(ResizeStep::Unchanged))
                    } else if !resolution.has_area() || !self.viewport_size.supports(resolution) {
                        Some(
                            Err(CameraError::Configuration(ConfigurationFault::DegenerateViewport)),
                        )
                    } else {
                        None
                    }
                },
            }
        }
    }

    /// The outcome of asking to resize the viewport of a camera whose
    /// strategy is not `Custom`: the verdict where there is one, else the
    /// outcome for the size that the strategy gives for the window.
    pub open spec fn resize_result(&self, surface: OutputSurface) -> Result<
        ResizeStep,
        CameraError,
    > {
        match self.resize_verdict(surface) {
            Some(verdict) => verdict,
            None => self.resize_outcome(
                self.viewport_size.policy_extent(surface->Window_resolution),
                surface->Window_resolution,
            ),
        }
    }

    /// The camera after the host has resized the render target as `plan`
    /// asked: a bound camera records the new size and has no fault
    /// outstanding.
    pub open spec fn resized(self, plan: ResizePlan) -> Self {
        match self.binding {
            Some(binding) => PixelCamera {
                binding: Some(
                    ViewportBinding { handles: binding.handles, target_size: plan.layout.target_size },
                ),
                reported: None,
                ..self
            },
            None => self,
        }
    }

    /// The camera after a resize step whose render target was still there:
    /// resized where the step held a plan, else as it was.
    pub open spec fn after_resize(self, step: Result<ResizeStep, CameraError>) -> Self {
        match step {
            Ok(ResizeStep::Resize(plan)) => self.resized(plan),
            _ => self,
        }
    }

    /// Records what became of `plan`: where the render target was still
    /// there, `target_alive`, it has been resized; where it was not, the
    /// camera is left as it was and the loss is reported.
    pub fn finish_resize(&mut self, plan: &ResizePlan, target_alive: bool) -> (outcome: Result<
        (),
        CameraError,
    >)
        ensures
            target_alive ==> outcome is Ok && *final(self) == old(self).resized(*plan),
            !target_alive ==> outcome == Err::<(), CameraError>(CameraError::StaleResource)
                && *final(self) == *old(self),
    {
        if !target_alive {
            return Err(CameraError::StaleResource);
        }
        match self.binding {
            Some(binding) => {
                self.binding = Some(
                    ViewportBinding { handles: binding.handles, target_size: plan.layout.target_size },
                );
                self.reported = None;
            },
            None => {},
        }
        Ok(())
    }

    /// Whether `error` is to be reported for this camera: a configuration
    /// fault that was reported and has not been mended since is not; every
    /// other error is.
    pub open spec fn is_news(&self, error: CameraError) -> bool {
        !(error matches CameraError::Configuration(fault) && self.reported == Some(fault))
    }

    /// The camera after `error` has come up: a configuration fault is
    /// remembered, every other error leaves the camera as it was.
    pub open spec fn having_met(self, error: CameraError) -> Self {
        match error {
            CameraError::Configuration(fault) => PixelCamera { reported: Some(fault), ..self },
            _ => self,
        }
    }

    /// Takes note of an error of a step and says whether it is to be
    /// reported. A configuration fault is reported once, until it is mended
    /// or another takes its place; a missing window and a lost resource are
    /// reported each time.
    pub fn report(&mut self, error: CameraError) -> (news: bool)
        ensures
            news == old(self).is_news(error),
            *final(self) == old(self).having_met(error),
    {
        match error {
            CameraError::Configuration(fault) => {
                let known: bool = match self.reported {
                    Some(last) => last == fault,
                    None => false,
                };
                self.reported = Some(fault);
                !known
            },
            _ => true,
        }
    }

    /// Where camera and displayed image of a bound camera go this frame;
    /// `None` for a camera that is not bound.
    ///
    /// The scene's camera goes to the whole pixel of the continuous
    /// position. With smoothing that is the position rounded down, and the
    /// displayed part of the render target is moved by what is left, to the
    /// right and, the target's vertical axis pointing down, up. Without
    /// smoothing the position is rounded towards zero and the displayed part
    /// stays.
    pub fn position_update(&self) -> (update: Option<PositionUpdate>)
        ensures
            update is Some <==> self.is_bound(),
            update matches Some(u) ==> {
                let target = self.binding->Some_0.target_size;
                &&& u.translation_x == axis_split(self.subpixel_pos.x as int, self.smoothing).0
                &&& u.translation_y == axis_split(self.subpixel_pos.y as int, self.smoothing).0
                &&& u.rect is Some <==> self.smoothing && target.width >= 2 && target.height >= 2
                &&& u.rect matches Some(r) ==> r@ == shown_rect(
                    target,
                    floor_remainder(self.subpixel_pos.x as int),
                    floor_remainder(self.subpixel_pos.y as int),
                )
            },
    {
        match self.binding {
            None => None,
            Some(binding) => {
                let split: PositionSplit = self.subpixel_pos.split(self.smoothing);
                let rect: Option<SurfaceRect> = if self.smoothing {
                    surface_rect(&binding.target_size, &self.subpixel_pos)
                } else {
                    None
                };
                Some(
                    PositionUpdate {
                        translation_x: split.x.whole,
                        translation_y: split.y.whole,
                        rect,
                    },
                )
            },
        }
    }
}

impl<F: Fn(&WindowResolution) -> (u32, u32)> PixelCamera<F> {
    /// Decides what is to be made for this camera, next to a world camera
    /// with the layers `world_layers` and the render order `camera_order`,
    /// on `window`, or `None` where no window was found.
    ///
    /// Where the strategy is asked, the outcome is that of
    /// [`PixelCamera::bind_step`] for a size that the strategy gives.
    pub fn plan_binding(
        &self,
        world_layers: Option<RenderLayers>,
        camera_order: isize,
        window: Option<WindowResolution>,
    ) -> (step: Result<BindStep, CameraError>)
        requires
            window matches Some(resolution) ==> self.viewport_size.callable(&resolution),
        ensures
            match self.binding_verdict(world_layers, camera_order, window) {
                Some(verdict) => step == verdict,
                None => exists|extent: ViewportExtent| #[trigger]
                    self.viewport_size.sizes(&window->Some_0, extent) && step == self.bind_outcome(
                        extent,
                        window->Some_0,
                    ),
            },
            !self.viewport_size.is_custom() ==> step == self.bind_result(
                world_layers,
                camera_order,
                window,
            ),
    {
        if self.binding.is_some() {
            return Ok(BindStep::AlreadyBound);
        }
        match self.validate(world_layers, camera_order) {
            Err(fault) => {
                return Err(CameraError::Configuration(fault));
            },
            Ok(_) => {},
        }
        match window {
            None => Err(CameraError::MissingWindow),
            Some(resolution) => {
                if resolution.width == 0 || resolution.height == 0 || !self.viewport_size.can_size(
                    &resolution,
                ) {
                    return Err(CameraError::Configuration(ConfigurationFault::DegenerateViewport));
                }
                let extent: ViewportExtent = self.viewport_size.calculate(&resolution);
                let step = self.bind_step(&extent, &resolution);
                assert(self.viewport_size.sizes(&window->Some_0, extent));
                step
            },
        }
    }

    /// Decides what is to change for this camera's viewport, given what the
    /// host found of the surface that shows it.
    ///
    /// Where the strategy is asked, the outcome is that of
    /// [`PixelCamera::resize_step`] for a size that the strategy gives.
    pub fn plan_resize(&self, surface: &OutputSurface) -> (step: Result<ResizeStep, CameraError>)
        requires
            *surface matches OutputSurface::Window { resolution, .. }
                ==> self.viewport_size.callable(&resolution),
        ensures
            match self.resize_verdict(*surface) {
                Some(verdict) => step == verdict,
                None => exists|extent: ViewportExtent| #[trigger]
                    self.viewport_size.sizes(&surface->Window_resolution, extent) && step
                        == self.resize_outcome(extent, surface->Window_resolution),
            },
            !self.viewport_size.is_custom() ==> step == self.resize_result(*surface),
    {
        if self.binding.is_none() {
            return Ok(ResizeStep::Unchanged);
        }
        match surface {
            OutputSurface::CameraGone => Err(CameraError::StaleResource),
            OutputSurface::WindowGone => Err(CameraError::MissingWindow),
            OutputSurface::ImageGone => Err(CameraError::StaleResource),
            OutputSurface::TextureView => Err(
                CameraError::Configuration(ConfigurationFault::UnsupportedTarget),
            ),
            OutputSurface::Image { width, height } => self.resize_step(
                &ViewportExtent { width: *width, height: *height },
                &WindowResolution { width: *width, height: *height },
            ),
            OutputSurface::Window { resolution, changed } => {
                if !*changed {
                    return Ok(ResizeStep::Unchanged);
                }
                if resolution.width == 0 || resolution.height == 0 || !self.viewport_size.can_size(
                    resolution,
                ) {
                    return Err(CameraError::Configuration(ConfigurationFault::DegenerateViewport));
                }
                let extent: ViewportExtent = self.viewport_size.calculate(resolution);
                let step = self.resize_step(&extent, resolution);
                assert(self.viewport_size.sizes(&surface->Window_resolution, extent));
                step
            },
        }
    }
}

/// A camera with the default configuration breaks no rule next to a world
/// camera without layers of its own, as long as that camera renders before
/// order 1.
pub proof fn lemma_fresh_camera_is_well_configured<F>(
    viewport_size: ViewportSize<F>,
    camera_order: isize,
)
    ensures
        PixelCamera::fresh(viewport_size).configuration_fault(None, camera_order) == if camera_order
            >= 1 {
            Some(ConfigurationFault::RenderOrder)
        } else {
            None
        },
{
    let camera = PixelCamera::fresh(viewport_size);
    let world = world_layers_of(None);
    assert(1u32 << 1u32 == 2u32) by (bit_vector);
    assert(1u32 << 0u32 == 1u32) by (bit_vector);
    assert(2u32 & 1u32 == 0u32) by (bit_vector);
    camera.viewport_layer.lemma_overlap_is_common_bit(&world);
    camera.viewport_layer.lemma_empty_is_zero();
}

/// A configuration fault is reported once: when the same fault comes up
/// again it is no news, however often. Another fault is news, and so is a
/// missing window or a lost resource every time.
pub proof fn lemma_fault_is_reported_once<F>(
    camera: PixelCamera<F>,
    fault: ConfigurationFault,
    other: CameraError,
)
    ensures
        ({
            let error = CameraError::Configuration(fault);
            let told = camera.having_met(error);
            &&& !told.is_news(error)
            &&& told.having_met(error) == told
            &&& other != error ==> told.is_news(other)
            &&& !(other is Configuration) ==> told.having_met(other) == told
        }),
{
}

/// The render target of a layout is the viewport and its border: with
/// smoothing two pixels more than the viewport on each axis, without it the
/// viewport's own size.
pub proof fn lemma_target_is_viewport_and_border<F>(
    camera: PixelCamera<F>,
    extent: ViewportExtent,
    surface: WindowResolution,
)
    requires
        camera.can_lay_out(extent, surface),
    ensures
        ({
            let layout = camera.layout_for(extent, surface)->Some_0;
            &&& layout.viewport == extent
            &&& camera.smoothing ==> layout.target_size.width == extent.width + 2
                && layout.target_size.height == extent.height + 2
            &&& !camera.smoothing ==> layout.target_size == extent
        }),
{
}

/// Binding a camera that is bound changes nothing: it keeps the viewport it
/// has, whatever plan and handles are offered, and asking for a plan says so.
pub proof fn lemma_binding_twice_keeps_first<F>(
    camera: PixelCamera<F>,
    first_plan: BindPlan,
    first: ViewportHandles,
    second_plan: BindPlan,
    second: ViewportHandles,
    world_layers: Option<RenderLayers>,
    camera_order: isize,
    window: Option<WindowResolution>,
)
    ensures
        ({
            let bound = camera.bound_with(first_plan, first);
            &&& bound.is_bound()
            &&& bound.bound_with(second_plan, second) == bound
            &&& bound.binding_verdict(world_layers, camera_order, window) == Some(
                Ok::<BindStep, CameraError>(BindStep::AlreadyBound),
            )
        }),
{
}

/// Resizing to another window and back gives the render target the size it
/// had: for a camera whose strategy is not `Custom`, bound on the window
/// `original`, a resize for `other` followed by a resize for `original`
/// leaves the camera as it was after binding.
pub proof fn lemma_resize_round_trip<F>(
    camera: PixelCamera<F>,
    world_layers: Option<RenderLayers>,
    camera_order: isize,
    handles: ViewportHandles,
    original: WindowResolution,
    other: WindowResolution,
)
    requires
        !camera.viewport_size.is_custom(),
        !camera.is_bound(),
        camera.bind_result(world_layers, camera_order, Some(original)) is Ok,
    ensures
        ({
            let plan = camera.bind_result(world_layers, camera_order, Some(original))->Ok_0->Create_0;
            let bound = camera.bound_with(plan, handles);
            let away = bound.after_resize(
                bound.resize_result(OutputSurface::Window { resolution: other, changed: true }),
            );
            let back = away.after_resize(
                away.resize_result(OutputSurface::Window { resolution: original, changed: true }),
            );
            back == bound
        }),
{
}

} // verus!
