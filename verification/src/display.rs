//! Letterbox fit: the largest video rectangle that fits the window while
//! keeping the video's aspect ratio.
//!
//! The render sink draws the video onto a quad; the size of that quad is
//! this pure computation on pixel counts. The host turns the fitted pixel
//! rectangle into its clip-space coordinates; the choice of which dimension
//! fills the window, and the rounded size of the other, is decided here.
use vstd::prelude::*;

verus! {

use vstd::arithmetic::div_mod::lemma_div_is_ordered;
use vstd::arithmetic::div_mod::lemma_div_multiples_vanish;
use vstd::arithmetic::mul::lemma_mul_upper_bound;

/// The video is at least as wide, relative to its height, as the window: it
/// fills the window's width and is letterboxed vertically; otherwise it
/// fills the height and is pillarboxed horizontally.
pub open spec fn fills_width(
    window_w: u32,
    window_h: u32,
    video_w: u32,
    video_h: u32,
) -> bool {
    video_w * window_h >= video_h * window_w
}

/// The displayed size of a video inside a window: one dimension fills the
/// window, the other is scaled by the video's aspect ratio and rounded
/// down, and both stay within the window.
pub fn fit_dimensions(window_w: u32, window_h: u32, video_w: u32, video_h: u32) -> (r: (u32, u32))
    requires
        window_w >= 1,
        window_h >= 1,
        video_w >= 1,
        video_h >= 1,
    ensures
        r.0 <= window_w,
        r.1 <= window_h,
        fills_width(window_w, window_h, video_w, video_h) ==> r.0 == window_w && r.1
            == (window_w * video_h) as int / video_w as int,
        !fills_width(window_w, window_h, video_w, video_h) ==> r.1 == window_h && r.0
            == (window_h * video_w) as int / video_h as int,
    {
    let ww = window_w as u64;
    let wh = window_h as u64;
    let vw = video_w as u64;
    let vh = video_h as u64;
    proof {
        lemma_mul_upper_bound(vw as int, u32::MAX as int, wh as int, u32::MAX as int);
        lemma_mul_upper_bound(vh as int, u32::MAX as int, ww as int, u32::MAX as int);
        lemma_mul_upper_bound(ww as int, u32::MAX as int, vh as int, u32::MAX as int);
        lemma_mul_upper_bound(wh as int, u32::MAX as int, vw as int, u32::MAX as int);
    }
    if vw * wh >= vh * ww {
        let h = (ww * vh) / vw;
        proof {
            lemma_div_is_ordered((ww * vh) as int, (vw * wh) as int, vw as int);
            lemma_div_multiples_vanish(wh as int, vw as int);
        }
        (window_w, h as u32)
    } else {
        let w = (wh * vw) / vh;
        proof {
            lemma_div_is_ordered((wh * vw) as int, (vh * ww) as int, vh as int);
            lemma_div_multiples_vanish(ww as int, vh as int);
        }
        (w as u32, window_h)
    }
}

} // verus!
