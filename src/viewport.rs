//! The viewport fitter: where an image is drawn inside a window so that its
//! aspect ratio is kept and the image is centred.
use vstd::prelude::*;

verus! {

/// A destination rectangle in window pixels.
#[derive(Clone, Copy, Debug, PartialEq, Eq, Structural)]
pub struct Rect {
    pub x: u32,
    pub y: u32,
    pub w: u32,
    pub h: u32,
}

impl Rect {
    pub fn new(x: u32, y: u32, w: u32, h: u32) -> (r: Rect)
        ensures
            r == (Rect { x, y, w, h }),
    {
        Rect { x, y, w, h }
    }
}

/// The image (aspect `image_w : image_h`) is relatively narrower than the
/// window, so the window's height bounds it.
pub open spec fn bounded_by_height(image_w: u32, image_h: u32, window_w: u32, window_h: u32) -> bool {
    (image_w as int) * (window_h as int) < (window_w as int) * (image_h as int)
}

/// The rectangle that `fit` computes: the constrained side fills the window,
/// the other side is scaled by the aspect ratio (rounded down), and the image
/// is centred along that other side.
pub open spec fn fit_spec(image_w: u32, image_h: u32, window_w: u32, window_h: u32) -> Rect {
    if bounded_by_height(image_w, image_h, window_w, window_h) {
        let w = (window_h as int) * (image_w as int) / (image_h as int);
        Rect { x: ((window_w - w) / 2) as u32, y: 0, w: w as u32, h: window_h }
    } else {
        let h = (window_w as int) * (image_h as int) / (image_w as int);
        Rect { x: 0, y: ((window_h - h) / 2) as u32, w: window_w, h: h as u32 }
    }
}

proof fn lemma_scaled_side(a: int, b: int, c: int, d: int)
    requires
        0 <= a,
        0 <= b,
        0 < c,
        0 <= d,
        a * b <= d * c,
    ensures
        0 <= a * b / c <= d,
        (a * b / c) * c <= a * b < (a * b / c) * c + c,
{
    vstd::arithmetic::div_mod::lemma_fundamental_div_mod(a * b, c);
    vstd::arithmetic::div_mod::lemma_div_pos_is_pos(a * b, c);
    assert(d * c == c * d) by (nonlinear_arith);
    vstd::arithmetic::div_mod::lemma_div_is_ordered(a * b, c * d, c);
    vstd::arithmetic::div_mod::lemma_div_multiples_vanish(d, c);
    vstd::arithmetic::div_mod::lemma_mod_pos_bound(a * b, c);
    assert(a * b / c * c == c * (a * b / c)) by (nonlinear_arith);
}

/// Computes where an image of `image_w` by `image_h` pixels is drawn inside a
/// window of `window_w` by `window_h` pixels.
pub fn fit(image_w: u32, image_h: u32, window_w: u32, window_h: u32) -> (r: Rect)
    requires
        image_w > 0,
        image_h > 0,
        window_h > 0,
    ensures
        r == fit_spec(image_w, image_h, window_w, window_h),
{
    let iw = image_w as u64;
    let ih = image_h as u64;
    let ww = window_w as u64;
    let wh = window_h as u64;
    assert(iw * wh <= u32::MAX as u64 * u32::MAX as u64) by (nonlinear_arith)
        requires iw <= u32::MAX, wh <= u32::MAX;
    assert(ww * ih <= u32::MAX as u64 * u32::MAX as u64) by (nonlinear_arith)
        requires ww <= u32::MAX, ih <= u32::MAX;
    if iw * wh < ww * ih {
        proof {
            lemma_scaled_side(wh as int, iw as int, ih as int, ww as int);
        }
        let w = wh * iw / ih;
        Rect { x: ((ww - w) / 2) as u32, y: 0, w: w as u32, h: window_h }
    } else {
        proof {
            lemma_scaled_side(ww as int, ih as int, iw as int, wh as int);
        }
        let h = ww * ih / iw;
        Rect { x: 0, y: ((wh - h) / 2) as u32, w: window_w, h: h as u32 }
    }
}

/// A fitted rectangle lies inside the window, fills it along one side, is
/// centred along the other, and keeps the image's aspect ratio: the scaled
/// side is the exact scaled length rounded down, so off by less than one
/// pixel.
pub proof fn lemma_fit_contained_centred(image_w: u32, image_h: u32, window_w: u32, window_h: u32)
    requires
        image_w > 0,
        image_h > 0,
        window_h > 0,
    ensures
        ({
            let r = fit_spec(image_w, image_h, window_w, window_h);
            let (iw, ih) = (image_w as int, image_h as int);
            &&& r.x + r.w <= window_w
            &&& r.y + r.h <= window_h
            &&& r.x == (window_w - r.w) / 2
            &&& r.y == (window_h - r.h) / 2
            &&& (r.h == window_h && r.w * ih <= r.h * iw < r.w * ih + ih) || (r.w == window_w
                && r.h * iw <= r.w * ih < r.h * iw + iw)
        }),
{
    if bounded_by_height(image_w, image_h, window_w, window_h) {
        assert((window_h as int) * (image_w as int) <= (window_w as int) * (image_h as int))
            by (nonlinear_arith)
            requires
                (image_w as int) * (window_h as int) < (window_w as int) * (image_h as int),
        ;
        lemma_scaled_side(window_h as int, image_w as int, image_h as int, window_w as int);
    } else {
        lemma_scaled_side(window_w as int, image_h as int, image_w as int, window_h as int);
    }
}

} // verus!
