//! Viewport sizing: how large the low-resolution render target is for a given
//! window, and how it is scaled onto that window.

use vstd::prelude::*;

verus! {

/// The size of a window's client area, in whole logical pixels.
#[derive(Clone, Copy, Debug, PartialEq, Eq, Structural)]
pub struct WindowResolution {
    /// Width in logical pixels.
    pub width: u32,
    /// Height in logical pixels.
    pub height: u32,
}

impl WindowResolution {
    /// A resolution of `width` by `height` logical pixels.
    pub fn new(width: u32, height: u32) -> (resolution: Self)
        ensures
            resolution.width == width,
            resolution.height == height,
    {
        WindowResolution { width, height }
    }

    /// Whether both axes are at least one pixel long.
    pub open spec fn has_area(&self) -> bool {
        self.width >= 1 && self.height >= 1
    }
}

/// The size of a viewport or of its render target, in pixels.
#[derive(Clone, Copy, Debug, PartialEq, Eq, Structural)]
pub struct ViewportExtent {
    /// Width in pixels.
    pub width: u32,
    /// Height in pixels.
    pub height: u32,
}

impl ViewportExtent {
    /// Whether both axes are at least one pixel long.
    pub open spec fn has_area(&self) -> bool {
        self.width >= 1 && self.height >= 1
    }
}

/// The color space in which the components of a [`FillColor`] are read.
#[derive(Clone, Copy, Debug, PartialEq, Eq, Structural)]
pub enum ColorSpace {
    /// Standard RGB with alpha.
    Srgba,
    /// Linear RGB with alpha.
    LinearRgba,
    /// Hue, saturation, lightness, alpha.
    Hsla,
    /// Lightness, chroma, hue, alpha.
    Lcha,
}

/// A color that is carried through to the renderer untouched.
///
/// The four components are kept as the bit patterns the renderer uses for
/// them, so that handing the color on loses nothing.
#[derive(Clone, Copy, Debug, PartialEq, Eq, Structural)]
pub struct FillColor {
    /// How the components are to be read.
    pub space: ColorSpace,
    /// The bit pattern of the first component of `space`.
    pub first: u32,
    /// The bit pattern of the second component of `space`.
    pub second: u32,
    /// The bit pattern of the third component of `space`.
    pub third: u32,
    /// The bit pattern of the alpha component.
    pub alpha: u32,
}

/// What a camera paints before it draws.
#[derive(Clone, Copy, Debug, PartialEq, Eq, Structural)]
pub enum FillPolicy {
    /// The renderer's default clear color.
    RendererDefault,
    /// This color.
    Color(FillColor),
    /// Nothing: what was there shows through.
    NoFill,
}

/// The way the viewport scales to fit the window.
pub enum FitMode {
    /// The viewport will be stretched to the size of the window.
    Stretch,
    /// The viewport will be cropped into to fill the window.
    Crop,
    /// The viewport will scale as large as possible without cropping and keeping aspect ratio.
    ///
    /// The unused space will be filled according to the policy.
    Fit(FillPolicy),
}

/// Different methods of calculating the viewport's size.
///
/// `F` is the type of the function of [`ViewportSize::Custom`].
pub enum ViewportSize<F> {
    /// Each pixel's size is fixed.
    /// The viewport scales with the window.
    PixelFixed(u32),
    /// The viewport's size is fixed.
    /// If the window and viewport sizes do not match, `fit` decides.
    Fixed {
        /// The width of the viewport in logical pixels.
        width: u32,
        /// The height of the viewport in logical pixels.
        height: u32,
        /// The way the viewport scales to fit the window.
        fit: FitMode,
    },
    /// Keep the viewport's width fixed. The height
    /// will be adjusted to maintain aspect ratio.
    FixedWidth(u32),
    /// Keep the viewport's height fixed. The width
    /// will be adjusted to maintain aspect ratio.
    FixedHeight(u32),
    /// Keeping the aspect ratio while the axes can't be smaller than given minimum.
    AutoMin {
        /// The minimum width of the viewport in logical pixels.
        min_width: u32,
        /// The minimum height of the viewport in logical pixels.
        min_height: u32,
    },
    /// Keeping the aspect ratio while the axes can't be bigger than given maximum.
    AutoMax {
        /// The maximum width of the viewport in logical pixels.
        max_width: u32,
        /// The maximum height of the viewport in logical pixels.
        max_height: u32,
    },
    /// Use your own function for converting a window resolution to viewport size.
    Custom {
        /// The function used for converting a window resolution to viewport size.
        func: F,
        /// The way the viewport scales to fit the window.
        fit: FitMode,
    },
}

/// The least number of cells of side `cell` that cover `length`.
pub open spec fn ceil_div(length: int, cell: int) -> int {
    (length + cell - 1) / cell
}

/// `length` scaled by `numer / denom`, rounded down.
pub open spec fn scale_down(length: int, numer: int, denom: int) -> int {
    (length * numer) / denom
}

/// The product of two 32-bit numbers fits in 64 bits.
pub proof fn lemma_product_fits(a: u32, b: u32)
    ensures
        0 <= a * b <= 0xFFFF_FFFE_0000_0001,
        a * b <= u64::MAX,
{
    assert(0 <= a * b <= 0xFFFF_FFFF * 0xFFFF_FFFF) by (nonlinear_arith)
        requires
            0 <= a <= 0xFFFF_FFFF,
            0 <= b <= 0xFFFF_FFFF,
    ;
}

/// Cells of at least one pixel are never more than the pixels they cover.
pub proof fn lemma_cells_fit(length: int, cell: int)
    requires
        0 <= length,
        1 <= cell,
    ensures
        0 <= ceil_div(length, cell) <= length,
{
    assert(0 <= (length + cell - 1) / cell <= length) by (nonlinear_arith)
        requires
            0 <= length,
            1 <= cell,
    ;
}

/// `ceil_div(length, cell)` for 32-bit numbers.
fn cells(length: u32, cell: u32) -> (count: u32)
    requires
        cell >= 1,
    ensures
        count == ceil_div(length as int, cell as int),
{
    proof {
        lemma_cells_fit(length as int, cell as int);
    }
    let total: u64 = length as u64 + cell as u64 - 1;
    (total / cell as u64) as u32
}

/// `scale_down(length, numer, denom)` for 32-bit numbers, in 64 bits.
fn scaled(length: u32, numer: u32, denom: u32) -> (r: u64)
    requires
        denom >= 1,
    ensures
        r == scale_down(length as int, numer as int, denom as int),
{
    proof {
        lemma_product_fits(length, numer);
    }
    (length as u64 * numer as u64) / denom as u64
}

impl<F> ViewportSize<F> {
    /// Whether the size comes from a function of the caller's own.
    pub open spec fn is_custom(&self) -> bool {
        *self matches ViewportSize::Custom { .. }
    }

    /// The width and height that a strategy other than `Custom` gives for
    /// `window`.
    ///
    /// `PixelFixed` covers the window with blocks of `n` by `n` pixels. `Fixed` is
    /// constant. `FixedWidth` and `FixedHeight` derive the other axis from the
    /// window's aspect ratio, rounding down. `AutoMin` and `AutoMax` pin one
    /// axis to its bound and derive the other in the same way.
    pub open spec fn policy_size(&self, window: WindowResolution) -> (int, int) {
        let ww = window.width as int;
        let wh = window.height as int;
        match *self {
            ViewportSize::PixelFixed(n) => (ceil_div(ww, n as int), ceil_div(wh, n as int)),
            ViewportSize::Fixed { width, height, .. } => (width as int, height as int),
            ViewportSize::FixedWidth(width) => (width as int, scale_down(wh, width as int, ww)),
            ViewportSize::FixedHeight(height) => (scale_down(ww, height as int, wh), height as int),
            ViewportSize::AutoMin { min_width, min_height } => {
                if ww * min_height > min_width * wh {
                    (scale_down(ww, min_height as int, wh), min_height as int)
                } else {
                    (min_width as int, scale_down(wh, min_width as int, ww))
                }
            },
            ViewportSize::AutoMax { max_width, max_height } => {
                if ww * max_height < max_width * wh {
                    (scale_down(ww, max_height as int, wh), max_height as int)
                } else {
                    (max_width as int, scale_down(wh, max_width as int, ww))
                }
            },
            ViewportSize::Custom { .. } => (0, 0),
        }
    }

    /// [`ViewportSize::policy_size`] as an extent.
    pub open spec fn policy_extent(&self, window: WindowResolution) -> ViewportExtent {
        ViewportExtent {
            width: self.policy_size(window).0 as u32,
            height: self.policy_size(window).1 as u32,
        }
    }

    /// The window axis by which the strategy divides, if it divides by one:
    /// that axis must not be zero.
    pub open spec fn divisor(&self, window: WindowResolution) -> Option<int> {
        let ww = window.width as int;
        let wh = window.height as int;
        match *self {
            ViewportSize::PixelFixed(n) => Some(n as int),
            ViewportSize::FixedWidth(_) => Some(ww),
            ViewportSize::FixedHeight(_) => Some(wh),
            ViewportSize::AutoMin { min_width, min_height } => {
                if ww * min_height > min_width * wh {
                    Some(wh)
                } else {
                    Some(ww)
                }
            },
            ViewportSize::AutoMax { max_width, max_height } => {
                if ww * max_height < max_width * wh {
                    Some(wh)
                } else {
                    Some(ww)
                }
            },
            _ => None,
        }
    }

    /// Whether the strategy has a size for `window`: it divides by no zero, and
    /// both axes of the result fit in 32 bits. Every `Fixed` and `Custom`
    /// strategy supports every window.
    pub open spec fn supports(&self, window: WindowResolution) -> bool {
        &&& self.divisor(window) matches Some(d) ==> d >= 1
        &&& !self.is_custom() ==> {
            &&& self.policy_size(window).0 <= u32::MAX
            &&& self.policy_size(window).1 <= u32::MAX
        }
    }

    /// Decides [`ViewportSize::supports`].
    pub fn can_size(&self, window: &WindowResolution) -> (yes: bool)
        ensures
            yes == self.supports(*window),
    {
        let ww: u32 = window.width;
        let wh: u32 = window.height;
        let limit: u64 = u32::MAX as u64;
        match self {
            ViewportSize::PixelFixed(n) => {
                proof {
                    if *n >= 1 {
                        lemma_cells_fit(ww as int, *n as int);
                        lemma_cells_fit(wh as int, *n as int);
                    }
                }
                *n >= 1
            },
            ViewportSize::Fixed { .. } => true,
            ViewportSize::FixedWidth(width) => ww >= 1 && scaled(wh, *width, ww) <= limit,
            ViewportSize::FixedHeight(height) => wh >= 1 && scaled(ww, *height, wh) <= limit,
            ViewportSize::AutoMin { min_width, min_height } => {
                proof {
                    lemma_product_fits(ww, *min_height);
                    lemma_product_fits(*min_width, wh);
                }
                if ww as u64 * *min_height as u64 > *min_width as u64 * wh as u64 {
                    wh >= 1 && scaled(ww, *min_height, wh) <= limit
                } else {
                    ww >= 1 && scaled(wh, *min_width, ww) <= limit
                }
            },
            ViewportSize::AutoMax { max_width, max_height } => {
                proof {
                    lemma_product_fits(ww, *max_height);
                    lemma_product_fits(*max_width, wh);
                }
                if (ww as u64 * *max_height as u64) < *max_width as u64 * wh as u64 {
                    proof {
                        lemma_auto_max_fits(ww as int, wh as int, *max_width as int, *max_height as int);
                    }
                    wh >= 1
                } else {
                    proof {
                        if ww >= 1 {
                            assert(wh * *max_width == *max_width * wh && *max_height * ww == ww
                                * *max_height) by (nonlinear_arith);
                            lemma_auto_max_fits(wh as int, ww as int, *max_height as int, *max_width as int);
                        }
                    }
                    ww >= 1
                }
            },
            ViewportSize::Custom { .. } => true,
        }
    }
}

/// Where `a * y <= x * b` and `b >= 1`, `a * y / b` is at most `x`.
pub proof fn lemma_auto_max_fits(a: int, b: int, x: int, y: int)
    requires
        0 <= a,
        0 <= y,
        0 <= x,
        a * y <= x * b,
    ensures
        b >= 1 ==> 0 <= scale_down(a, y, b) <= x,
{
    if b >= 1 {
        assert(0 <= (a * y) / b <= x) by (nonlinear_arith)
            requires
                0 <= a * y <= x * b,
                b >= 1,
        ;
    }
}

impl<F: Fn(&WindowResolution) -> (u32, u32)> ViewportSize<F> {
    /// Whether the function of a `Custom` strategy may be called on `window`.
    /// It holds of every other strategy.
    pub open spec fn callable(&self, window: &WindowResolution) -> bool {
        self matches ViewportSize::Custom { func, .. } ==> call_requires(func, (window,))
    }

    /// Whether `extent` is a size of the viewport for `window`: what the
    /// function of a `Custom` strategy may return for it, and for every other
    /// strategy the one size that [`ViewportSize::policy_size`] gives.
    pub open spec fn sizes(&self, window: &WindowResolution, extent: ViewportExtent) -> bool {
        &&& self matches ViewportSize::Custom { func, .. } ==> call_ensures(
            func,
            (window,),
            (extent.width, extent.height),
        )
        &&& !self.is_custom() ==> {
            &&& extent.width == self.policy_size(*window).0
            &&& extent.height == self.policy_size(*window).1
        }
    }

    /// Calculates the size of the viewport based on the [`ViewportSize`] and the
    /// [`WindowResolution`].
    pub fn calculate(&self, window_resolution: &WindowResolution) -> (extent: ViewportExtent)
        requires
            self.supports(*window_resolution),
            self.callable(window_resolution),
        ensures
            self.sizes(window_resolution, extent),
            !self.is_custom() ==> extent == self.policy_extent(*window_resolution),
    {
        let ww: u32 = window_resolution.width;
        let wh: u32 = window_resolution.height;
        match self {
            ViewportSize::PixelFixed(scaling) => ViewportExtent {
                width: cells(ww, *scaling),
                height: cells(wh, *scaling),
            },
            ViewportSize::Fixed { width, height, .. } => ViewportExtent {
                width: *width,
                height: *height,
            },
            ViewportSize::FixedWidth(width) => ViewportExtent {
                width: *width,
                height: scaled(wh, *width, ww) as u32,
            },
            ViewportSize::FixedHeight(height) => ViewportExtent {
                width: scaled(ww, *height, wh) as u32,
                height: *height,
            },
            ViewportSize::AutoMin { min_width, min_height } => {
                proof {
                    lemma_product_fits(ww, *min_height);
                    lemma_product_fits(*min_width, wh);
                }
                if ww as u64 * *min_height as u64 > *min_width as u64 * wh as u64 {
                    ViewportExtent { width: scaled(ww, *min_height, wh) as u32, height: *min_height }
                } else {
                    ViewportExtent { width: *min_width, height: scaled(wh, *min_width, ww) as u32 }
                }
            },
            ViewportSize::AutoMax { max_width, max_height } => {
                proof {
                    lemma_product_fits(ww, *max_height);
                    lemma_product_fits(*max_width, wh);
                }
                if (ww as u64 * *max_height as u64) < *max_width as u64 * wh as u64 {
                    ViewportExtent { width: scaled(ww, *max_height, wh) as u32, height: *max_height }
                } else {
                    ViewportExtent { width: *max_width, height: scaled(wh, *max_width, ww) as u32 }
                }
            },
            ViewportSize::Custom { func, .. } => {
                let (width, height) = func(window_resolution);
                ViewportExtent { width, height }
            },
        }
    }
}

impl<F> ViewportSize<F> {
    /// The fill of a `Fit` mode, and `NoFill` for every strategy without one.
    pub open spec fn fill_policy(&self) -> FillPolicy {
        match *self {
            ViewportSize::Fixed { fit: FitMode::Fit(policy), .. } => policy,
            ViewportSize::Custom { fit: FitMode::Fit(policy), .. } => policy,
            _ => FillPolicy::NoFill,
        }
    }

    /// Returns the clear color for this [`ViewportSize`] if the current variant
    /// has a [`FitMode::Fit`], otherwise returns [`FillPolicy::NoFill`].
    pub fn clear_color(&self) -> (policy: FillPolicy)
        ensures
            policy == self.fill_policy(),
    {
        match self {
            ViewportSize::Fixed { fit: FitMode::Fit(config), .. } => *config,
            ViewportSize::Custom { fit: FitMode::Fit(config), .. } => *config,
            _ => FillPolicy::NoFill,
        }
    }
}

/// Rounding a quotient down: `q = a / b` is the one integer with
/// `q * b <= a < (q + 1) * b`.
pub proof fn lemma_quotient_bounds(a: int, b: int)
    requires
        0 <= a,
        1 <= b,
    ensures
        0 <= a / b,
        (a / b) * b <= a < (a / b + 1) * b,
{
    assert(0 <= a / b && (a / b) * b <= a < (a / b + 1) * b) by (nonlinear_arith)
        requires
            0 <= a,
            1 <= b,
    ;
}

impl<F> ViewportSize<F> {
    /// Whether no axis of the size for `window` is zero: the parameter that
    /// is taken over as it stands is at least one, and the axis that is
    /// derived from the window's aspect ratio is not rounded down to zero.
    pub open spec fn keeps_both_axes(&self, window: WindowResolution) -> bool {
        let ww = window.width as int;
        let wh = window.height as int;
        match *self {
            ViewportSize::PixelFixed(_) => true,
            ViewportSize::Fixed { width, height, .. } => width >= 1 && height >= 1,
            ViewportSize::FixedWidth(width) => width >= 1 && wh * width >= ww,
            ViewportSize::FixedHeight(height) => height >= 1 && ww * height >= wh,
            ViewportSize::AutoMin { min_width, min_height } => {
                if ww * min_height > min_width * wh {
                    min_height >= 1 && ww * min_height >= wh
                } else {
                    min_width >= 1 && wh * min_width >= ww
                }
            },
            ViewportSize::AutoMax { max_width, max_height } => {
                if ww * max_height < max_width * wh {
                    max_height >= 1 && ww * max_height >= wh
                } else {
                    max_width >= 1 && wh * max_width >= ww
                }
            },
            ViewportSize::Custom { .. } => false,
        }
    }

    /// On a window of at least one pixel by one pixel, the size that a
    /// strategy other than `Custom` gives is at least one pixel by one pixel
    /// exactly where the strategy keeps both axes. A `PixelFixed` strategy
    /// always does.
    pub proof fn lemma_size_has_area(&self, window: WindowResolution)
        requires
            window.has_area(),
            !self.is_custom(),
            *self matches ViewportSize::PixelFixed(n) ==> n >= 1,
        ensures
            self.keeps_both_axes(window) <==> (self.policy_size(window).0 >= 1
                && self.policy_size(window).1 >= 1),
    {
        let ww = window.width as int;
        let wh = window.height as int;
        match *self {
            ViewportSize::PixelFixed(n) => {
                lemma_quotient_bounds(ww + n - 1, n as int);
                lemma_quotient_bounds(wh + n - 1, n as int);
                assert(ceil_div(ww, n as int) >= 1) by (nonlinear_arith)
                    requires
                        ww >= 1,
                        n >= 1,
                        ((ww + n - 1) / (n as int) + 1) * n > ww + n - 1,
                ;
                assert(ceil_div(wh, n as int) >= 1) by (nonlinear_arith)
                    requires
                        wh >= 1,
                        n >= 1,
                        ((wh + n - 1) / (n as int) + 1) * n > wh + n - 1,
                ;
            },
            ViewportSize::Fixed { .. } => {},
            ViewportSize::FixedWidth(width) => {
                lemma_scaled_is_positive(wh, width as int, ww);
            },
            ViewportSize::FixedHeight(height) => {
                lemma_scaled_is_positive(ww, height as int, wh);
            },
            ViewportSize::AutoMin { min_width, min_height } => {
                lemma_scaled_is_positive(ww, min_height as int, wh);
                lemma_scaled_is_positive(wh, min_width as int, ww);
            },
            ViewportSize::AutoMax { max_width, max_height } => {
                lemma_scaled_is_positive(ww, max_height as int, wh);
                lemma_scaled_is_positive(wh, max_width as int, ww);
            },
            ViewportSize::Custom { .. } => {},
        }
    }

    /// For a fixed block size, a `PixelFixed` viewport never shrinks when the
    /// window grows.
    pub proof fn lemma_pixel_fixed_is_monotone(
        &self,
        smaller: WindowResolution,
        larger: WindowResolution,
    )
        requires
            *self matches ViewportSize::PixelFixed(n) && n >= 1,
            smaller.width <= larger.width,
            smaller.height <= larger.height,
        ensures
            self.policy_size(smaller).0 <= self.policy_size(larger).0,
            self.policy_size(smaller).1 <= self.policy_size(larger).1,
    {
        let n = self->PixelFixed_0 as int;
        lemma_division_is_monotone(smaller.width + n - 1, larger.width + n - 1, n);
        lemma_division_is_monotone(smaller.height + n - 1, larger.height + n - 1, n);
    }

    /// On a window of at least one pixel by one pixel, an `AutoMin` viewport
    /// is at least its minimum on both axes and exactly its minimum on one;
    /// the other axis is the window's aspect ratio applied to that minimum,
    /// rounded down.
    pub proof fn lemma_auto_min_bounds(&self, window: WindowResolution)
        requires
            *self matches ViewportSize::AutoMin { .. },
            window.has_area(),
        ensures
            ({
                let (w, h) = self.policy_size(window);
                let min_w = self->min_width as int;
                let min_h = self->min_height as int;
                let ww = window.width as int;
                let wh = window.height as int;
                &&& w >= min_w
                &&& h >= min_h
                &&& (h == min_h && w * wh <= ww * h < (w + 1) * wh) || (w == min_w && h * ww <= wh
                    * w < (h + 1) * ww)
            }),
    {
        let min_w = self->min_width as int;
        let min_h = self->min_height as int;
        let ww = window.width as int;
        let wh = window.height as int;
        lemma_quotient_bounds(ww * min_h, wh);
        lemma_quotient_bounds(wh * min_w, ww);
        if ww * min_h > min_w * wh {
            let w = (ww * min_h) / wh;
            assert(w >= min_w) by (nonlinear_arith)
                requires
                    ww * min_h > min_w * wh,
                    (w + 1) * wh > ww * min_h,
                    wh >= 1,
            ;
        } else {
            let h = (wh * min_w) / ww;
            assert(h >= min_h) by (nonlinear_arith)
                requires
                    ww * min_h <= min_w * wh,
                    (h + 1) * ww > wh * min_w,
                    ww >= 1,
            ;
        }
    }

    /// On a window of at least one pixel by one pixel, an `AutoMax` viewport
    /// is at most its maximum on both axes and exactly its maximum on one;
    /// the other axis is the window's aspect ratio applied to that maximum,
    /// rounded down.
    pub proof fn lemma_auto_max_bounds(&self, window: WindowResolution)
        requires
            *self matches ViewportSize::AutoMax { .. },
            window.has_area(),
        ensures
            ({
                let (w, h) = self.policy_size(window);
                let max_w = self->max_width as int;
                let max_h = self->max_height as int;
                let ww = window.width as int;
                let wh = window.height as int;
                &&& 0 <= w <= max_w
                &&& 0 <= h <= max_h
                &&& (h == max_h && w * wh <= ww * h < (w + 1) * wh) || (w == max_w && h * ww <= wh
                    * w < (h + 1) * ww)
            }),
    {
        let max_w = self->max_width as int;
        let max_h = self->max_height as int;
        let ww = window.width as int;
        let wh = window.height as int;
        assert(0 <= ww * max_h && 0 <= wh * max_w) by (nonlinear_arith)
            requires
                0 <= ww,
                0 <= wh,
                0 <= max_w,
                0 <= max_h,
        ;
        lemma_quotient_bounds(ww * max_h, wh);
        lemma_quotient_bounds(wh * max_w, ww);
        if ww * max_h < max_w * wh {
            lemma_auto_max_fits(ww, wh, max_w, max_h);
        } else {
            assert(wh * max_w == max_w * wh && max_h * ww == ww * max_h) by (nonlinear_arith);
            lemma_auto_max_fits(wh, ww, max_h, max_w);
        }
    }
}

/// Where `denom >= 1`, `length * numer / denom` is at least one exactly
/// where `length * numer` is at least `denom`.
pub proof fn lemma_scaled_is_positive(length: int, numer: int, denom: int)
    requires
        0 <= length,
        0 <= numer,
        1 <= denom,
    ensures
        scale_down(length, numer, denom) >= 1 <==> length * numer >= denom,
{
    assert(0 <= length * numer) by (nonlinear_arith)
        requires
            0 <= length,
            0 <= numer,
    ;
    lemma_quotient_bounds(length * numer, denom);
    let q = (length * numer) / denom;
    assert(q >= 1 <==> length * numer >= denom) by (nonlinear_arith)
        requires
            0 <= q,
            1 <= denom,
            q * denom <= length * numer < (q + 1) * denom,
    ;
}

/// Division by a positive number keeps the order.
pub proof fn lemma_division_is_monotone(a: int, b: int, d: int)
    requires
        a <= b,
        1 <= d,
    ensures
        a / d <= b / d,
{
    assert(a / d <= b / d) by (nonlinear_arith)
        requires
            a <= b,
            1 <= d,
    ;
}

} // verus!
