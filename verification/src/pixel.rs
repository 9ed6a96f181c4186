//! RGBA pixels and source-over alpha blending.
use vstd::prelude::*;

verus! {

/// One pixel: red, green, blue and alpha channels, 8 bits each.
#[derive(Clone, Copy, PartialEq, Eq, Structural, Debug)]
pub struct Px {
    pub r: u8,
    pub g: u8,
    pub b: u8,
    pub a: u8,
}

/// What source-over blending returns for a top pixel that is neither fully
/// transparent nor fully opaque. The exact channel values come from the
/// outside compositing routine and are a function of the two pixels alone.
pub uninterp spec fn blend_of(bottom: Px, top: Px) -> Px;

/// Source-over blending of `top` onto `bottom`: a fully transparent top pixel
/// leaves the bottom pixel unchanged, a fully opaque one replaces it, and any
/// other is blended by the compositing routine.
pub open spec fn blend_spec(bottom: Px, top: Px) -> Px {
    if top.a == 0 {
        bottom
    } else if top.a == 255 {
        top
    } else {
        blend_of(bottom, top)
    }
}

/// Relies on `image::Pixel::blend` for `Rgba<u8>`: source-over alpha
/// compositing whose result depends on the two pixels alone. Its source
/// returns the bottom pixel unchanged when the top alpha is 0 and the top
/// pixel when the top alpha is 255. The remaining case is floating-point
/// arithmetic whose rounding and truncation can lower even a fully opaque
/// bottom pixel's alpha (an opaque bottom under a top alpha of 128 comes
/// out at alpha 254), so nothing more is promised of it.
#[verifier::external_body]
pub(crate) fn blend_px(bottom: Px, top: Px) -> (r: Px)
    ensures
        r == blend_spec(bottom, top),
        (top.a != 0 && top.a != 255) ==> r == blend_of(bottom, top),
{
    let mut p = image::Rgba([bottom.r, bottom.g, bottom.b, bottom.a]);
    image::Pixel::blend(&mut p, &image::Rgba([top.r, top.g, top.b, top.a]));
    Px { r: p.0[0], g: p.0[1], b: p.0[2], a: p.0[3] }
}

} // verus!
