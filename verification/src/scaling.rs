//! How a viewport is laid onto the surface that shows it: the size of the
//! region, in viewport pixels, that the displaying camera maps onto the whole
//! surface.

use vstd::prelude::*;
use crate::viewport::{
    lemma_product_fits, FillPolicy, FitMode, ViewportExtent, ViewportSize, WindowResolution,
};

verus! {

/// The exact fraction `numer / denom`.
#[derive(Clone, Copy, Debug, PartialEq, Eq, Structural)]
pub struct Ratio {
    /// The numerator.
    pub numer: u64,
    /// The denominator.
    pub denom: u32,
}

impl Ratio {
    /// Numerator and denominator as integers.
    pub open spec fn view(&self) -> (int, int) {
        (self.numer as int, self.denom as int)
    }

    /// The ratio with this numerator and denominator.
    pub open spec fn of(pair: (int, int)) -> Ratio {
        Ratio { numer: pair.0 as u64, denom: pair.1 as u32 }
    }

    /// The whole number `n`.
    pub fn whole(n: u32) -> (ratio: Self)
        ensures
            ratio@ == (n as int, 1int),
    {
        Ratio { numer: n as u64, denom: 1 }
    }

    /// The fraction `a * b / denom`.
    pub fn product_over(a: u32, b: u32, denom: u32) -> (ratio: Self)
        ensures
            ratio@ == (a * b, denom as int),
    {
        proof {
            lemma_product_fits(a, b);
        }
        Ratio { numer: a as u64 * b as u64, denom }
    }
}

/// The region that the displaying camera maps onto the whole surface, in
/// viewport pixels. The viewport itself occupies `width` by `height` of its
/// own extent, centred on the same point.
#[derive(Clone, Copy, Debug, PartialEq, Eq, Structural)]
pub struct ViewportScaling {
    /// Width of the region.
    pub width: Ratio,
    /// Height of the region.
    pub height: Ratio,
}

impl ViewportScaling {
    /// Width and height, each as numerator and denominator.
    pub open spec fn view(&self) -> ((int, int), (int, int)) {
        (self.width@, self.height@)
    }

    /// The region with this width and height.
    pub open spec fn of(pairs: ((int, int), (int, int))) -> ViewportScaling {
        ViewportScaling { width: Ratio::of(pairs.0), height: Ratio::of(pairs.1) }
    }
}

/// The smaller of two lengths.
pub open spec fn shorter(a: int, b: int) -> int {
    if a <= b {
        a
    } else {
        b
    }
}

/// The region shown of a viewport of extent `size` on a surface of extent
/// `surface` under `fit`, as width and height, each a numerator and a
/// denominator.
///
/// `Stretch` shows exactly the viewport. `Crop` takes the viewport's shorter
/// axis as the region's longer one and derives the other from the surface's
/// aspect ratio. `Fit` keeps the viewport axis that is the tighter one on this
/// surface and widens the other to the surface's aspect ratio.
pub open spec fn fitted(fit: FitMode, size: ViewportExtent, surface: WindowResolution) -> (
    (int, int),
    (int, int),
) {
    let vw = size.width as int;
    let vh = size.height as int;
    let sw = surface.width as int;
    let sh = surface.height as int;
    match fit {
        FitMode::Stretch => ((vw, 1), (vh, 1)),
        FitMode::Crop => {
            let axis = shorter(vh, vw);
            if sw > sh {
                ((axis, 1), (axis * sh, sw))
            } else {
                ((axis * sw, sh), (axis, 1))
            }
        },
        FitMode::Fit(_) => {
            if sw * vh > vw * sh {
                ((vh * sw, sh), (vh, 1))
            } else {
                ((vw, 1), (vw * sh, sw))
            }
        },
    }
}

impl FitMode {
    /// Whether the mode reads the surface's aspect ratio.
    pub open spec fn keeps_aspect(&self) -> bool {
        !(*self matches FitMode::Stretch)
    }

    /// The region of a viewport of extent `size` that is shown on `surface`.
    pub fn scaling(&self, size: &ViewportExtent, surface: &WindowResolution) -> (region:
        ViewportScaling)
        requires
            self.keeps_aspect() ==> surface.has_area(),
        ensures
            region@ == fitted(*self, *size, *surface),
            region == ViewportScaling::of(fitted(*self, *size, *surface)),
            region.width.denom >= 1,
            region.height.denom >= 1,
    {
        let vw: u32 = size.width;
        let vh: u32 = size.height;
        let sw: u32 = surface.width;
        let sh: u32 = surface.height;
        match self {
            FitMode::Stretch => ViewportScaling { width: Ratio::whole(vw), height: Ratio::whole(vh) },
            FitMode::Crop => {
                let axis: u32 = if vh <= vw {
                    vh
                } else {
                    vw
                };
                if sw > sh {
                    ViewportScaling {
                        width: Ratio::whole(axis),
                        height: Ratio::product_over(axis, sh, sw),
                    }
                } else {
                    ViewportScaling {
                        width: Ratio::product_over(axis, sw, sh),
                        height: Ratio::whole(axis),
                    }
                }
            },
            FitMode::Fit(_) => {
                proof {
                    lemma_product_fits(sw, vh);
                    lemma_product_fits(vw, sh);
                }
                if sw as u64 * vh as u64 > vw as u64 * sh as u64 {
                    ViewportScaling {
                        width: Ratio::product_over(vh, sw, sh),
                        height: Ratio::whole(vh),
                    }
                } else {
                    ViewportScaling {
                        width: Ratio::whole(vw),
                        height: Ratio::product_over(vw, sh, sw),
                    }
                }
            },
        }
    }
}

impl<F> ViewportSize<F> {
    /// The fit mode of a `Fixed` or `Custom` strategy. Every other strategy
    /// follows the window, so its viewport is shown as it is.
    pub open spec fn fit_mode(&self) -> FitMode {
        match *self {
            ViewportSize::Fixed { fit, .. } => fit,
            ViewportSize::Custom { fit, .. } => fit,
            _ => FitMode::Stretch,
        }
    }

    /// The region of the viewport of extent `size` that is shown on `surface`
    /// under this strategy's fit mode.
    pub fn scaling(&self, size: &ViewportExtent, surface: &WindowResolution) -> (region:
        ViewportScaling)
        requires
            self.fit_mode().keeps_aspect() ==> surface.has_area(),
        ensures
            region@ == fitted(self.fit_mode(), *size, *surface),
            region == ViewportScaling::of(fitted(self.fit_mode(), *size, *surface)),
            region.width.denom >= 1,
            region.height.denom >= 1,
    {
        match self {
            ViewportSize::Fixed { fit, .. } => fit.scaling(size, surface),
            ViewportSize::Custom { fit, .. } => fit.scaling(size, surface),
            _ => FitMode::Stretch.scaling(size, surface),
        }
    }
}

/// Under `Crop` the region shown lies inside the viewport on both axes, so
/// the surface shows no gap, and it has the surface's aspect ratio.
pub proof fn lemma_crop_leaves_no_gap(size: ViewportExtent, surface: WindowResolution)
    requires
        surface.has_area(),
    ensures
        ({
            let ((wn, wd), (hn, hd)) = fitted(FitMode::Crop, size, surface);
            &&& wd >= 1 && hd >= 1
            &&& 0 <= wn <= size.width * wd
            &&& 0 <= hn <= size.height * hd
            &&& wn * hd * surface.height == hn * wd * surface.width
        }),
{
    let vw = size.width as int;
    let vh = size.height as int;
    let sw = surface.width as int;
    let sh = surface.height as int;
    let axis = shorter(vh, vw);
    if sw > sh {
        assert(0 <= axis * sh <= vh * sw) by (nonlinear_arith)
            requires
                0 <= axis <= vh,
                0 <= sh <= sw,
        ;
        assert((axis * sw) * sh == (axis * sh) * 1 * sw) by (nonlinear_arith);
    } else {
        assert(0 <= axis * sw <= vw * sh) by (nonlinear_arith)
            requires
                0 <= axis <= vw,
                0 <= sw <= sh,
        ;
        assert((axis * sw) * 1 * sh == (axis * sh) * sw) by (nonlinear_arith);
    }
}

/// Under `Fit` the region shown contains the whole viewport, exactly on one
/// axis, and it has the surface's aspect ratio.
pub proof fn lemma_fit_shows_whole_viewport(
    fill: FillPolicy,
    size: ViewportExtent,
    surface: WindowResolution,
)
    requires
        surface.has_area(),
    ensures
        ({
            let ((wn, wd), (hn, hd)) = fitted(FitMode::Fit(fill), size, surface);
            &&& wd >= 1 && hd >= 1
            &&& wn >= size.width * wd
            &&& hn >= size.height * hd
            &&& wn == size.width * wd || hn == size.height * hd
            &&& wn * hd * surface.height == hn * wd * surface.width
        }),
{
    let vw = size.width as int;
    let vh = size.height as int;
    let sw = surface.width as int;
    let sh = surface.height as int;
    if sw * vh > vw * sh {
        assert(vh * sw == sw * vh) by (nonlinear_arith);
        assert((vh * sw) * 1 * sh == vh * sh * sw) by (nonlinear_arith);
    } else {
        assert(vw * sh >= vh * sw) by (nonlinear_arith)
            requires
                sw * vh <= vw * sh,
        ;
        assert(vw * sw * sh == (vw * sh) * 1 * sw) by (nonlinear_arith);
    }
}

} // verus!
