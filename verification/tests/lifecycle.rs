use bevy_smooth_pixel_camera::components::{
    ConfigurationFault, PixelCamera, ViewportBinding, ViewportHandles,
};
use bevy_smooth_pixel_camera::layers::RenderLayers;
use bevy_smooth_pixel_camera::position::{SubpixelPosition, SurfaceRect};
use bevy_smooth_pixel_camera::prelude::ViewportSize as PreludeViewportSize;
use bevy_smooth_pixel_camera::scaling::{Ratio, ViewportScaling};
use bevy_smooth_pixel_camera::systems::{
    BindPlan, BindStep, CameraError, OutputSurface, PositionUpdate, ResizePlan, ResizeStep,
    ViewportLayout,
};
use bevy_smooth_pixel_camera::viewport::{
    FillPolicy, FitMode, ViewportExtent, ViewportSize, WindowResolution,
};
use bevy_smooth_pixel_camera::CameraSystems;

type Sizer = fn(&WindowResolution) -> (u32, u32);

fn camera(size: ViewportSize<Sizer>) -> PixelCamera<Sizer> {
    PixelCamera::from_size(size)
}

fn window(width: u32, height: u32) -> Option<WindowResolution> {
    Some(WindowResolution::new(width, height))
}

fn changed(width: u32, height: u32) -> OutputSurface {
    OutputSurface::Window {
        resolution: WindowResolution::new(width, height),
        changed: true,
    }
}

fn handles(n: u64) -> ViewportHandles {
    ViewportHandles {
        render_target: n,
        display_surface: n + 1,
        viewport_camera: n + 2,
    }
}

fn extent(width: u32, height: u32) -> ViewportExtent {
    ViewportExtent { width, height }
}

fn whole(width: u32, height: u32) -> ViewportScaling {
    ViewportScaling {
        width: Ratio { numer: width as u64, denom: 1 },
        height: Ratio { numer: height as u64, denom: 1 },
    }
}

fn degenerate<T>() -> Result<T, CameraError> {
    Err(CameraError::Configuration(ConfigurationFault::DegenerateViewport))
}

fn plan_of(step: Result<BindStep, CameraError>) -> BindPlan {
    match step {
        Ok(BindStep::Create(plan)) => plan,
        other => panic!("no plan: {:?}", other),
    }
}

fn resize_of(step: Result<ResizeStep, CameraError>) -> ResizePlan {
    match step {
        Ok(ResizeStep::Resize(plan)) => plan,
        other => panic!("no plan: {:?}", other),
    }
}

fn bound(size: ViewportSize<Sizer>, width: u32, height: u32) -> PixelCamera<Sizer> {
    let mut camera = camera(size);
    let plan = plan_of(camera.plan_binding(None, 0, window(width, height)));
    assert!(camera.bind(&plan, handles(10)));
    camera
}

#[test]
fn a_new_camera_has_the_default_configuration() {
    let camera = camera(ViewportSize::FixedWidth(320));
    assert!(matches!(camera.viewport_size, ViewportSize::FixedWidth(320)));
    assert_eq!(camera.subpixel_pos, SubpixelPosition { x: 0, y: 0 });
    assert_eq!(camera.viewport_order, 1);
    assert_eq!(camera.viewport_layer, RenderLayers { bits: 2 });
    assert!(camera.smoothing);
    assert_eq!(camera.binding, None);
    assert_eq!(camera.reported, None);
}

#[test]
fn the_default_camera_scales_by_four() {
    let camera: PixelCamera<Sizer> = PixelCamera::default();
    assert!(matches!(camera.viewport_size, PreludeViewportSize::PixelFixed(4)));
    assert_eq!(camera.viewport_order, 1);
    assert_eq!(camera.viewport_layer, RenderLayers::layer(1));
    assert!(camera.smoothing);
    assert_eq!(camera.binding, None);
}

#[test]
fn from_scaling_is_pixel_fixed() {
    let camera: PixelCamera<Sizer> = PixelCamera::from_scaling(32);
    assert!(matches!(camera.viewport_size, ViewportSize::PixelFixed(32)));
    let largest: PixelCamera<Sizer> = PixelCamera::from_scaling(255);
    assert!(matches!(largest.viewport_size, ViewportSize::PixelFixed(255)));
    assert_eq!(largest.binding, None);
}

#[test]
fn binding_with_smoothing_adds_the_border() {
    let camera = camera(ViewportSize::PixelFixed(4));
    let step = camera.plan_binding(None, 0, window(800, 600));
    assert_eq!(
        step,
        Ok(BindStep::Create(BindPlan {
            layout: ViewportLayout {
                viewport: extent(200, 150),
                target_size: extent(202, 152),
                scaling: whole(200, 150),
            },
            order: 1,
            layers: RenderLayers { bits: 2 },
            fill: FillPolicy::NoFill,
        }))
    );
}

#[test]
fn binding_without_smoothing_has_no_border() {
    let mut camera = camera(ViewportSize::PixelFixed(4));
    camera.smoothing = false;
    let plan = plan_of(camera.plan_binding(None, 0, window(800, 600)));
    assert_eq!(plan.layout.viewport, extent(200, 150));
    assert_eq!(plan.layout.target_size, extent(200, 150));
}

#[test]
fn the_plan_carries_order_layers_and_fill() {
    let mut camera = camera(ViewportSize::Fixed {
        width: 320,
        height: 180,
        fit: FitMode::Fit(FillPolicy::RendererDefault),
    });
    camera.viewport_order = 7;
    camera.viewport_layer = RenderLayers { bits: 0b1010_0000 };
    let plan = plan_of(camera.plan_binding(Some(RenderLayers { bits: 0b0101 }), 6, window(800, 600)));
    assert_eq!(plan.order, 7);
    assert_eq!(plan.layers, RenderLayers { bits: 0b1010_0000 });
    assert_eq!(plan.fill, FillPolicy::RendererDefault);
    assert_eq!(plan.layout.viewport, extent(320, 180));
    assert_eq!(plan.layout.target_size, extent(322, 182));
    assert_eq!(
        plan.layout.scaling,
        ViewportScaling {
            width: Ratio { numer: 320, denom: 1 },
            height: Ratio { numer: 320 * 600, denom: 800 },
        }
    );
}

#[test]
fn layers_that_overlap_the_world_are_a_configuration_error() {
    let mut camera = camera(ViewportSize::PixelFixed(4));
    let world = Some(RenderLayers { bits: 0b0110 });
    assert_eq!(
        camera.plan_binding(world, 0, window(800, 600)),
        Err(CameraError::Configuration(ConfigurationFault::LayersOverlap))
    );
    assert_eq!(camera.validate(world, 0), Err(ConfigurationFault::LayersOverlap));
    assert_eq!(camera.binding, None);
    assert_eq!(camera.position_update(), None);
    assert_eq!(camera.plan_resize(&changed(800, 600)), Ok(ResizeStep::Unchanged));
    camera.viewport_layer = RenderLayers::layer(3);
    assert!(camera.plan_binding(world, 0, window(800, 600)).is_ok());
}

#[test]
fn the_world_without_layers_of_its_own_is_on_layer_zero() {
    let mut camera = camera(ViewportSize::PixelFixed(4));
    camera.viewport_layer = RenderLayers::layer(0);
    assert_eq!(
        camera.plan_binding(None, 0, window(800, 600)),
        Err(CameraError::Configuration(ConfigurationFault::LayersOverlap))
    );
    assert!(camera
        .plan_binding(Some(RenderLayers::layer(1)), 0, window(800, 600))
        .is_ok());
}

#[test]
fn a_viewport_without_layers_is_a_configuration_error() {
    let mut camera = camera(ViewportSize::PixelFixed(4));
    camera.viewport_layer = RenderLayers::none();
    assert_eq!(
        camera.plan_binding(None, 0, window(800, 600)),
        Err(CameraError::Configuration(ConfigurationFault::NoLayers))
    );
    assert_eq!(
        camera.plan_binding(Some(RenderLayers { bits: u32::MAX }), 0, window(800, 600)),
        Err(CameraError::Configuration(ConfigurationFault::NoLayers))
    );
    assert_eq!(camera.validate(None, 0), Err(ConfigurationFault::NoLayers));
}

#[test]
fn a_camera_that_renders_too_late_is_a_configuration_error() {
    let camera = camera(ViewportSize::PixelFixed(4));
    assert_eq!(
        camera.plan_binding(None, 1, window(800, 600)),
        Err(CameraError::Configuration(ConfigurationFault::RenderOrder))
    );
    assert_eq!(
        camera.plan_binding(None, 2, window(800, 600)),
        Err(CameraError::Configuration(ConfigurationFault::RenderOrder))
    );
    assert_eq!(camera.validate(None, isize::MAX), Err(ConfigurationFault::RenderOrder));
    assert_eq!(camera.validate(None, 0), Ok(()));
    assert_eq!(camera.validate(None, isize::MIN), Ok(()));
}

#[test]
fn overlapping_layers_are_reported_before_the_order() {
    let mut camera = camera(ViewportSize::PixelFixed(4));
    camera.viewport_layer = RenderLayers::layer(0);
    assert_eq!(camera.validate(None, 5), Err(ConfigurationFault::LayersOverlap));
    camera.viewport_layer = RenderLayers::none();
    assert_eq!(camera.validate(None, 5), Err(ConfigurationFault::NoLayers));
}

#[test]
fn a_missing_window_can_be_tried_again() {
    let mut camera = camera(ViewportSize::PixelFixed(4));
    assert_eq!(camera.plan_binding(None, 0, None), Err(CameraError::MissingWindow));
    assert_eq!(camera.binding, None);
    let plan = plan_of(camera.plan_binding(None, 0, window(800, 600)));
    assert!(camera.bind(&plan, handles(1)));
    assert!(camera.binding.is_some());
}

#[test]
fn the_configuration_is_checked_before_the_window() {
    let mut camera = camera(ViewportSize::PixelFixed(4));
    camera.viewport_layer = RenderLayers::none();
    assert_eq!(
        camera.plan_binding(None, 0, None),
        Err(CameraError::Configuration(ConfigurationFault::NoLayers))
    );
}

#[test]
fn a_window_without_area_is_degenerate() {
    let camera = camera(ViewportSize::Fixed {
        width: 320,
        height: 180,
        fit: FitMode::Stretch,
    });
    assert_eq!(camera.plan_binding(None, 0, window(0, 600)), degenerate());
    assert_eq!(camera.plan_binding(None, 0, window(800, 0)), degenerate());
    assert_eq!(camera.plan_binding(None, 0, window(0, 0)), degenerate());
}

#[test]
fn a_size_without_area_is_degenerate() {
    assert_eq!(
        camera(ViewportSize::FixedWidth(10)).plan_binding(None, 0, window(1000, 1)),
        degenerate()
    );
    assert_eq!(
        camera(ViewportSize::Fixed {
            width: 0,
            height: 180,
            fit: FitMode::Crop,
        })
        .plan_binding(None, 0, window(800, 600)),
        degenerate()
    );
    assert_eq!(
        camera(ViewportSize::Custom {
            func: |_| (7, 0),
            fit: FitMode::Crop,
        })
        .plan_binding(None, 0, window(800, 600)),
        degenerate()
    );
}

#[test]
fn a_strategy_without_size_is_degenerate() {
    assert_eq!(
        camera(ViewportSize::PixelFixed(0)).plan_binding(None, 0, window(800, 600)),
        degenerate()
    );
    assert_eq!(
        camera(ViewportSize::FixedHeight(u32::MAX)).plan_binding(None, 0, window(800, 600)),
        degenerate()
    );
}

#[test]
fn a_border_that_does_not_fit_is_degenerate() {
    let mut camera = camera(ViewportSize::Fixed {
        width: u32::MAX - 1,
        height: 180,
        fit: FitMode::Stretch,
    });
    assert_eq!(camera.plan_binding(None, 0, window(800, 600)), degenerate());
    camera.smoothing = false;
    let plan = plan_of(camera.plan_binding(None, 0, window(800, 600)));
    assert_eq!(plan.layout.target_size, extent(u32::MAX - 1, 180));
    camera.smoothing = true;
    camera.viewport_size = ViewportSize::Fixed {
        width: u32::MAX - 2,
        height: 180,
        fit: FitMode::Stretch,
    };
    let plan = plan_of(camera.plan_binding(None, 0, window(800, 600)));
    assert_eq!(plan.layout.target_size, extent(u32::MAX, 182));
}

#[test]
fn bind_step_lays_out_the_given_size() {
    let camera = camera(ViewportSize::PixelFixed(4));
    let plan = plan_of(camera.bind_step(&extent(7, 9), &WindowResolution::new(3, 5)));
    assert_eq!(plan.layout.viewport, extent(7, 9));
    assert_eq!(plan.layout.target_size, extent(9, 11));
    assert_eq!(plan.layout.scaling, whole(7, 9));
    assert_eq!(
        camera.bind_step(&extent(0, 9), &WindowResolution::new(3, 5)),
        degenerate()
    );
    assert_eq!(
        camera.bind_step(&extent(7, 9), &WindowResolution::new(3, 0)),
        degenerate()
    );
    assert_eq!(camera.layout(&extent(7, 0), &WindowResolution::new(3, 5)), None);
}

#[test]
fn binding_records_handles_and_size() {
    let mut camera = camera(ViewportSize::PixelFixed(4));
    assert_eq!(camera.phase(), CameraSystems::Initialization);
    let plan = plan_of(camera.plan_binding(None, 0, window(800, 600)));
    assert!(camera.bind(&plan, handles(40)));
    assert_eq!(
        camera.binding,
        Some(ViewportBinding {
            handles: ViewportHandles {
                render_target: 40,
                display_surface: 41,
                viewport_camera: 42,
            },
            target_size: extent(202, 152),
        })
    );
    assert_eq!(camera.phase(), CameraSystems::Update);
}

#[test]
fn binding_twice_keeps_the_first_binding() {
    let mut camera = camera(ViewportSize::PixelFixed(4));
    let plan = plan_of(camera.plan_binding(None, 0, window(800, 600)));
    assert!(camera.bind(&plan, handles(1)));
    let first = camera.binding;
    assert_eq!(
        camera.plan_binding(None, 0, window(1024, 768)),
        Ok(BindStep::AlreadyBound)
    );
    let mut other = plan;
    other.layout.target_size = extent(5, 5);
    assert!(!camera.bind(&other, handles(100)));
    assert_eq!(camera.binding, first);
    assert!(!camera.bind(&plan, handles(1)));
    assert_eq!(camera.binding, first);
}

#[test]
fn a_bound_camera_is_left_alone_whatever_is_wrong() {
    let mut camera = bound(ViewportSize::PixelFixed(4), 800, 600);
    camera.viewport_layer = RenderLayers::none();
    assert_eq!(camera.plan_binding(None, 9, None), Ok(BindStep::AlreadyBound));
}

#[test]
fn the_phases_run_in_order() {
    let first = CameraSystems::Initialization;
    let second = CameraSystems::Update;
    assert!(first.precedes(&second));
    assert!(!second.precedes(&first));
    assert!(!first.precedes(&first));
    assert!(!second.precedes(&second));
}

#[test]
fn an_unbound_camera_is_not_resized() {
    let camera = camera(ViewportSize::PixelFixed(4));
    for surface in [
        OutputSurface::CameraGone,
        OutputSurface::WindowGone,
        OutputSurface::ImageGone,
        OutputSurface::TextureView,
        OutputSurface::Image { width: 64, height: 64 },
        changed(800, 600),
    ] {
        assert_eq!(camera.plan_resize(&surface), Ok(ResizeStep::Unchanged));
    }
}

#[test]
fn a_window_that_has_not_changed_needs_nothing() {
    let camera = bound(ViewportSize::PixelFixed(4), 800, 600);
    let same = OutputSurface::Window {
        resolution: WindowResolution::new(1024, 768),
        changed: false,
    };
    assert_eq!(camera.plan_resize(&same), Ok(ResizeStep::Unchanged));
    let broken = OutputSurface::Window {
        resolution: WindowResolution::new(0, 0),
        changed: false,
    };
    assert_eq!(camera.plan_resize(&broken), Ok(ResizeStep::Unchanged));
}

#[test]
fn a_changed_window_resizes_the_target() {
    let mut camera = bound(ViewportSize::PixelFixed(4), 800, 600);
    let step = camera.plan_resize(&changed(1024, 768));
    assert_eq!(
        step,
        Ok(ResizeStep::Resize(ResizePlan {
            layout: ViewportLayout {
                viewport: extent(256, 192),
                target_size: extent(258, 194),
                scaling: whole(256, 192),
            },
            fill: None,
        }))
    );
    assert_eq!(camera.finish_resize(&resize_of(step), true), Ok(()));
    let binding = camera.binding.unwrap();
    assert_eq!(binding.target_size, extent(258, 194));
    assert_eq!(binding.handles, handles(10));
}

#[test]
fn a_resize_under_fit_sets_the_fill() {
    let camera = bound(
        ViewportSize::Fixed {
            width: 320,
            height: 180,
            fit: FitMode::Fit(FillPolicy::RendererDefault),
        },
        800,
        600,
    );
    let plan = resize_of(camera.plan_resize(&changed(1000, 500)));
    assert_eq!(plan.fill, Some(FillPolicy::RendererDefault));
    assert_eq!(plan.layout.viewport, extent(320, 180));
    assert_eq!(
        plan.layout.scaling,
        ViewportScaling {
            width: Ratio { numer: 180 * 1000, denom: 500 },
            height: Ratio { numer: 180, denom: 1 },
        }
    );
}

#[test]
fn a_resize_under_crop_leaves_the_fill() {
    let camera = bound(
        ViewportSize::Custom {
            func: |_| (320, 180),
            fit: FitMode::Crop,
        },
        800,
        600,
    );
    let plan = resize_of(camera.plan_resize(&changed(800, 600)));
    assert_eq!(plan.fill, None);
    assert_eq!(
        plan.layout.scaling,
        ViewportScaling {
            width: Ratio { numer: 180, denom: 1 },
            height: Ratio { numer: 180 * 600, denom: 800 },
        }
    );
}

#[test]
fn an_image_is_its_own_size() {
    let camera = bound(
        ViewportSize::Fixed {
            width: 320,
            height: 180,
            fit: FitMode::Fit(FillPolicy::NoFill),
        },
        800,
        600,
    );
    let plan = resize_of(camera.plan_resize(&OutputSurface::Image { width: 64, height: 48 }));
    assert_eq!(plan.layout.viewport, extent(64, 48));
    assert_eq!(plan.layout.target_size, extent(66, 50));
    assert_eq!(
        plan.layout.scaling,
        ViewportScaling {
            width: Ratio { numer: 64, denom: 1 },
            height: Ratio { numer: 64 * 48, denom: 64 },
        }
    );
    assert_eq!(plan.fill, Some(FillPolicy::NoFill));
    assert_eq!(
        camera.plan_resize(&OutputSurface::Image { width: 0, height: 48 }),
        degenerate()
    );
}

#[test]
fn what_is_gone_is_reported() {
    let camera = bound(ViewportSize::PixelFixed(4), 800, 600);
    assert_eq!(
        camera.plan_resize(&OutputSurface::CameraGone),
        Err(CameraError::StaleResource)
    );
    assert_eq!(
        camera.plan_resize(&OutputSurface::ImageGone),
        Err(CameraError::StaleResource)
    );
    assert_eq!(
        camera.plan_resize(&OutputSurface::WindowGone),
        Err(CameraError::MissingWindow)
    );
    assert_eq!(
        camera.plan_resize(&OutputSurface::TextureView),
        Err(CameraError::Configuration(ConfigurationFault::UnsupportedTarget))
    );
}

#[test]
fn a_degenerate_window_resizes_nothing() {
    let mut camera = bound(ViewportSize::FixedWidth(10), 800, 600);
    let before = camera.binding;
    assert_eq!(camera.plan_resize(&changed(0, 600)), degenerate());
    assert_eq!(camera.plan_resize(&changed(800, 0)), degenerate());
    assert_eq!(camera.plan_resize(&changed(1000, 1)), degenerate());
    camera.viewport_size = ViewportSize::PixelFixed(0);
    assert_eq!(camera.plan_resize(&changed(800, 600)), degenerate());
    assert_eq!(camera.binding, before);
}

#[test]
fn a_lost_render_target_is_reported_and_nothing_recorded() {
    let mut camera = bound(ViewportSize::PixelFixed(4), 800, 600);
    let before = camera.binding;
    let plan = resize_of(camera.plan_resize(&changed(1024, 768)));
    assert_eq!(camera.finish_resize(&plan, false), Err(CameraError::StaleResource));
    assert_eq!(camera.binding, before);
    assert_eq!(camera.finish_resize(&plan, true), Ok(()));
    assert_eq!(camera.binding.unwrap().target_size, extent(258, 194));
}

#[test]
fn finishing_a_resize_of_an_unbound_camera_records_nothing() {
    let mut camera = camera(ViewportSize::PixelFixed(4));
    let plan = resize_of(camera.resize_step(&extent(10, 10), &WindowResolution::new(40, 40)));
    assert_eq!(plan.layout.target_size, extent(12, 12));
    assert_eq!(camera.finish_resize(&plan, true), Ok(()));
    assert_eq!(camera.binding, None);
}

#[test]
fn resizing_there_and_back_gives_the_first_size() {
    let sizes: Vec<ViewportSize<Sizer>> = vec![
        ViewportSize::PixelFixed(4),
        ViewportSize::PixelFixed(3),
        ViewportSize::Fixed {
            width: 320,
            height: 180,
            fit: FitMode::Crop,
        },
        ViewportSize::FixedWidth(320),
        ViewportSize::FixedHeight(180),
        ViewportSize::AutoMin {
            min_width: 320,
            min_height: 180,
        },
        ViewportSize::AutoMax {
            max_width: 320,
            max_height: 180,
        },
    ];
    for size in sizes {
        let mut camera = bound(size, 800, 600);
        let first = camera.binding;
        for (width, height) in [(1024u32, 768u32), (333, 777), (1, 1), (0, 5), (4096, 16)] {
            if let Ok(ResizeStep::Resize(plan)) = camera.plan_resize(&changed(width, height)) {
                assert_eq!(camera.finish_resize(&plan, true), Ok(()));
            }
            let back = resize_of(camera.plan_resize(&changed(800, 600)));
            assert_eq!(camera.finish_resize(&back, true), Ok(()));
            assert_eq!(camera.binding, first);
        }
    }
}

#[test]
fn an_unbound_camera_is_not_placed() {
    let mut camera = camera(ViewportSize::PixelFixed(4));
    camera.subpixel_pos = SubpixelPosition::new(3700, -2300);
    assert_eq!(camera.position_update(), None);
}

#[test]
fn a_smooth_camera_is_placed_on_the_pixel_below() {
    let mut camera = bound(ViewportSize::PixelFixed(4), 800, 600);
    camera.subpixel_pos = SubpixelPosition::new(3700, -2300);
    assert_eq!(
        camera.position_update(),
        Some(PositionUpdate {
            translation_x: 3,
            translation_y: -3,
            rect: Some(SurfaceRect {
                min_x: 1700,
                min_y: 300,
                max_x: 201_700,
                max_y: 151_300 - 1000,
            }),
        })
    );
}

#[test]
fn a_camera_without_smoothing_is_cut_off() {
    let mut camera = bound(ViewportSize::PixelFixed(4), 800, 600);
    camera.smoothing = false;
    camera.subpixel_pos = SubpixelPosition::new(3700, -2300);
    assert_eq!(
        camera.position_update(),
        Some(PositionUpdate {
            translation_x: 3,
            translation_y: -2,
            rect: None,
        })
    );
}

#[test]
fn a_target_without_border_is_not_shifted() {
    let mut camera = camera(ViewportSize::Fixed {
        width: 1,
        height: 1,
        fit: FitMode::Stretch,
    });
    camera.smoothing = false;
    let plan = plan_of(camera.plan_binding(None, 0, window(800, 600)));
    assert_eq!(plan.layout.target_size, extent(1, 1));
    assert!(camera.bind(&plan, handles(0)));
    camera.smoothing = true;
    camera.subpixel_pos = SubpixelPosition::new(1500, 1500);
    assert_eq!(
        camera.position_update(),
        Some(PositionUpdate {
            translation_x: 1,
            translation_y: 1,
            rect: None,
        })
    );
}

#[test]
fn a_configuration_fault_is_reported_once() {
    let mut camera = camera(ViewportSize::PixelFixed(4));
    camera.viewport_layer = RenderLayers::layer(0);
    let error = camera.plan_binding(None, 0, window(800, 600)).unwrap_err();
    assert_eq!(error, CameraError::Configuration(ConfigurationFault::LayersOverlap));
    assert!(camera.report(error));
    assert_eq!(camera.reported, Some(ConfigurationFault::LayersOverlap));
    for _ in 0..3 {
        let again = camera.plan_binding(None, 0, window(800, 600)).unwrap_err();
        assert_eq!(again, error);
        assert!(!camera.report(again));
        assert_eq!(camera.reported, Some(ConfigurationFault::LayersOverlap));
        assert_eq!(camera.binding, None);
    }
}

#[test]
fn another_fault_is_reported_again() {
    let mut camera = camera(ViewportSize::PixelFixed(4));
    assert!(camera.report(CameraError::Configuration(ConfigurationFault::NoLayers)));
    assert!(camera.report(CameraError::Configuration(ConfigurationFault::RenderOrder)));
    assert_eq!(camera.reported, Some(ConfigurationFault::RenderOrder));
    assert!(!camera.report(CameraError::Configuration(ConfigurationFault::RenderOrder)));
    assert!(camera.report(CameraError::Configuration(ConfigurationFault::NoLayers)));
    assert!(camera.report(CameraError::Configuration(ConfigurationFault::DegenerateViewport)));
    assert!(camera.report(CameraError::Configuration(ConfigurationFault::UnsupportedTarget)));
    assert!(!camera.report(CameraError::Configuration(ConfigurationFault::UnsupportedTarget)));
}

#[test]
fn what_is_missing_is_reported_every_time() {
    let mut camera = camera(ViewportSize::PixelFixed(4));
    for _ in 0..3 {
        assert!(camera.report(CameraError::MissingWindow));
        assert!(camera.report(CameraError::StaleResource));
        assert_eq!(camera.reported, None);
    }
    assert!(camera.report(CameraError::Configuration(ConfigurationFault::NoLayers)));
    assert!(camera.report(CameraError::MissingWindow));
    assert_eq!(camera.reported, Some(ConfigurationFault::NoLayers));
    assert!(!camera.report(CameraError::Configuration(ConfigurationFault::NoLayers)));
}

#[test]
fn a_mended_camera_binds_and_forgets_the_fault() {
    let mut camera = camera(ViewportSize::PixelFixed(4));
    camera.viewport_layer = RenderLayers::none();
    let error = camera.plan_binding(None, 0, window(800, 600)).unwrap_err();
    assert!(camera.report(error));
    camera.viewport_layer = RenderLayers::layer(1);
    let plan = plan_of(camera.plan_binding(None, 0, window(800, 600)));
    assert!(camera.bind(&plan, handles(3)));
    assert_eq!(camera.reported, None);
    assert!(camera.report(error));
}

#[test]
fn a_resize_that_works_forgets_the_fault() {
    let mut camera = bound(ViewportSize::PixelFixed(4), 800, 600);
    let error = camera.plan_resize(&changed(0, 0)).unwrap_err();
    assert_eq!(error, CameraError::Configuration(ConfigurationFault::DegenerateViewport));
    assert!(camera.report(error));
    assert!(!camera.report(camera.plan_resize(&changed(0, 0)).unwrap_err()));
    let plan = resize_of(camera.plan_resize(&changed(640, 480)));
    assert_eq!(camera.finish_resize(&plan, false), Err(CameraError::StaleResource));
    assert_eq!(camera.reported, Some(ConfigurationFault::DegenerateViewport));
    assert_eq!(camera.finish_resize(&plan, true), Ok(()));
    assert_eq!(camera.reported, None);
    assert!(camera.report(camera.plan_resize(&changed(0, 0)).unwrap_err()));
}
