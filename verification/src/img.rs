//! In-memory RGBA images and the compositing operations the renderer uses:
//! filling, source-over overlay at an offset, and 180-degree rotation.
use vstd::prelude::*;

use crate::pixel::{blend_px, blend_spec, Px};

verus! {

/// The mathematical model of an image: a height-long sequence of width-long
/// rows of pixels, top row first.
#[verifier::ext_equal]
pub ghost struct ImgView {
    pub width: int,
    pub height: int,
    pub data: Seq<Seq<Px>>,
}

impl ImgView {
    /// The rows match the stated dimensions.
    pub open spec fn wf(self) -> bool {
        &&& 0 <= self.width
        &&& 0 <= self.height
        &&& self.data.len() == self.height
        &&& forall|y: int|
            0 <= y < self.data.len() ==> #[trigger] self.data[y].len() == self.width
    }

    /// The pixel in column `x` of row `y`.
    pub open spec fn px_at(self, x: int, y: int) -> Px {
        self.data[y][x]
    }
}

/// An image of `width * height` pixels, stored row by row.
pub struct Img {
    pub width: u32,
    pub height: u32,
    pub data: Vec<Vec<Px>>,
}

impl View for Img {
    type V = ImgView;

    open spec fn view(&self) -> ImgView {
        ImgView {
            width: self.width as int,
            height: self.height as int,
            data: self.data@.map_values(|row: Vec<Px>| row@),
        }
    }
}

/// An image of the given dimensions with every pixel equal to `px`.
pub open spec fn filled_view(width: int, height: int, px: Px) -> ImgView {
    ImgView {
        width,
        height,
        data: Seq::new(height as nat, |y: int| Seq::new(width as nat, |x: int| px)),
    }
}

/// `rows` has exactly `height` rows of exactly `width` pixels each.
pub open spec fn rows_fit(width: int, height: int, rows: Seq<Seq<Px>>) -> bool {
    &&& rows.len() == height
    &&& forall|y: int| 0 <= y < rows.len() ==> #[trigger] rows[y].len() == width
}

/// The pixel at `(x, y)` of `bot` after `top` is overlaid with its upper-left
/// corner at `(ox, oy)`: source-over blended where `top` covers `(x, y)`,
/// unchanged elsewhere.
pub open spec fn overlay_px(bot: ImgView, top: ImgView, ox: int, oy: int, x: int, y: int) -> Px {
    if ox <= x < ox + top.width && oy <= y < oy + top.height {
        blend_spec(bot.data[y][x], top.data[y - oy][x - ox])
    } else {
        bot.data[y][x]
    }
}

/// `top` overlaid onto `bot` at offset `(ox, oy)`: the dimensions of `bot` are
/// kept and the part of `top` that falls outside them is clipped away.
pub open spec fn overlay_view(bot: ImgView, top: ImgView, ox: int, oy: int) -> ImgView {
    ImgView {
        width: bot.width,
        height: bot.height,
        data: Seq::new(
            bot.data.len(),
            |y: int| Seq::new(bot.data[y].len(), |x: int| overlay_px(bot, top, ox, oy, x, y)),
        ),
    }
}

/// The image turned by 180 degrees: rows in reverse order, each reversed.
pub open spec fn rotate180_view(v: ImgView) -> ImgView {
    ImgView {
        width: v.width,
        height: v.height,
        data: Seq::new(
            v.data.len(),
            |y: int|
                Seq::new(
                    v.data[v.data.len() - 1 - y].len(),
                    |x: int| v.data[v.data.len() - 1 - y][v.data[v.data.len() - 1 - y].len() - 1 - x],
                ),
        ),
    }
}

/// Overlaying keeps the base image's dimensions and well-formedness.
pub proof fn lemma_overlay_view_wf(bot: ImgView, top: ImgView, ox: int, oy: int)
    requires
        bot.wf(),
    ensures
        overlay_view(bot, top, ox, oy).wf(),
        overlay_view(bot, top, ox, oy).width == bot.width,
        overlay_view(bot, top, ox, oy).height == bot.height,
{
}

/// A filled image is well-formed and holds its fill color everywhere.
pub proof fn lemma_filled_view_px(width: int, height: int, px: Px)
    requires
        0 <= width,
        0 <= height,
    ensures
        filled_view(width, height, px).wf(),
        forall|x: int, y: int|
            0 <= x < width && 0 <= y < height ==> #[trigger] filled_view(
                width,
                height,
                px,
            ).px_at(x, y) == px,
{
}

/// Overlaying leaves a pixel of the base unchanged wherever the top image
/// does not cover it, and where it covers it with a fully transparent pixel.
pub proof fn lemma_overlay_untouched_px(bot: ImgView, top: ImgView, ox: int, oy: int, x: int, y: int)
    requires
        bot.wf(),
        0 <= x < bot.width,
        0 <= y < bot.height,
        !(ox <= x < ox + top.width && oy <= y < oy + top.height) || top.px_at(x - ox, y - oy).a
            == 0,
    ensures
        overlay_view(bot, top, ox, oy).px_at(x, y) == bot.px_at(x, y),
{
}

/// Where the overlaid image is fully opaque, the composited pixel equals the
/// top image's pixel exactly.
pub proof fn lemma_overlay_opaque_px(bot: ImgView, top: ImgView, ox: int, oy: int, tx: int, ty: int)
    requires
        bot.wf(),
        0 <= tx < top.width,
        0 <= ty < top.height,
        0 <= ox + tx < bot.width,
        0 <= oy + ty < bot.height,
        top.px_at(tx, ty).a == 255,
    ensures
        overlay_view(bot, top, ox, oy).px_at(ox + tx, oy + ty) == top.px_at(tx, ty),
{
}

/// Turning an image by 180 degrees moves the pixel at `(x, y)` to
/// `(width - 1 - x, height - 1 - y)`.
pub proof fn lemma_rotate180_px(v: ImgView, x: int, y: int)
    requires
        v.wf(),
        0 <= x < v.width,
        0 <= y < v.height,
    ensures
        rotate180_view(v).px_at(x, y) == v.px_at(v.width - 1 - x, v.height - 1 - y),
{
}

/// The view's rows are the views of the stored rows.
pub proof fn lemma_view_index(img: &Img)
    ensures
        img@.data.len() == img.data@.len(),
        forall|y: int| 0 <= y < img.data@.len() ==> img@.data[y] == #[trigger] (img.data@[y]@),
{
}

impl Img {
    /// The image width in pixels.
    pub fn width(&self) -> (r: u32)
        ensures
            r as int == self@.width,
    {
        self.width
    }

    /// The image height in pixels.
    pub fn height(&self) -> (r: u32)
        ensures
            r as int == self@.height,
    {
        self.height
    }

    /// The pixel in column `x` of row `y`.
    pub fn pixel(&self, x: u32, y: u32) -> (r: Px)
        requires
            self@.wf(),
            x < self@.width,
            y < self@.height,
        ensures
            r == self@.px_at(x as int, y as int),
    {
        proof {
            lemma_view_index(self);
        }
        self.data[y as usize][x as usize]
    }

    /// A new image of the given dimensions with every pixel equal to `px`.
    pub fn filled(width: u32, height: u32, px: Px) -> (r: Img)
        ensures
            r@ == filled_view(width as int, height as int, px),
            r@.wf(),
    {
        let ghost res = filled_view(width as int, height as int, px);
        let mut data: Vec<Vec<Px>> = Vec::new();
        let mut y: u32 = 0;
        while y < height
            invariant
                res == filled_view(width as int, height as int, px),
                y <= height,
                data@.len() == y as int,
                forall|yy: int| 0 <= yy < y as int ==> #[trigger] data@[yy]@ == res.data[yy],
            decreases height - y,
        {
            let mut row: Vec<Px> = Vec::new();
            let mut x: u32 = 0;
            while x < width
                invariant
                    x <= width,
                    row@.len() == x as int,
                    forall|xx: int| 0 <= xx < x as int ==> #[trigger] row@[xx] == px,
                decreases width - x,
            {
                row.push(px);
                x = x + 1;
            }
            proof {
                assert(row@ =~= res.data[y as int]);
            }
            data.push(row);
            y = y + 1;
        }
        let r = Img { width, height, data };
        proof {
            lemma_view_index(&r);
            assert(r@.data =~= res.data);
            assert(r@ =~= res);
        }
        r
    }

    /// Builds an image from raw rows, mirroring the defined behavior of raw
    /// pixel-buffer reconstruction: `None` exactly when the rows do not match
    /// the stated dimensions, so a caller can skip what failed to fit.
    pub fn from_raw(width: u32, height: u32, rows: Vec<Vec<Px>>) -> (r: Option<Img>)
        ensures
            r is Some <==> rows_fit(width as int, height as int, rows@.map_values(|row: Vec<Px>| row@)),
            r matches Some(img) ==> {
                &&& img@ == (ImgView {
                    width: width as int,
                    height: height as int,
                    data: rows@.map_values(|row: Vec<Px>| row@),
                })
                &&& img@.wf()
            },
    {
        let ghost rowsv = rows@.map_values(|row: Vec<Px>| row@);
        proof {
            assert(rowsv.len() == rows@.len());
            assert(forall|yy: int|
                0 <= yy < rows@.len() ==> rowsv[yy] == #[trigger] (rows@[yy]@));
        }
        if rows.len() != height as usize {
            return None;
        }
        let mut y: usize = 0;
        while y < rows.len()
            invariant
                rowsv == rows@.map_values(|row: Vec<Px>| row@),
                rowsv.len() == rows@.len(),
                forall|yy: int| 0 <= yy < rows@.len() ==> rowsv[yy] == #[trigger] (rows@[yy]@),
                rows@.len() == height as int,
                y <= rows@.len(),
                forall|yy: int| 0 <= yy < y as int ==> #[trigger] rowsv[yy].len() == width as int,
            decreases rows@.len() - y,
        {
            if rows[y].len() != width as usize {
                return None;
            }
            y = y + 1;
        }
        let r = Img { width, height, data: rows };
        proof {
            lemma_view_index(&r);
        }
        Some(r)
    }

    /// An exact copy of this image.
    pub fn duplicate(&self) -> (r: Img)
        requires
            self@.wf(),
        ensures
            r@ == self@,
            r@.wf(),
    {
        let mut data: Vec<Vec<Px>> = Vec::new();
        let mut y: u32 = 0;
        while y < self.height
            invariant
                self@.wf(),
                y <= self.height,
                self.height as int == self@.height,
                self.width as int == self@.width,
                data@.len() == y as int,
                forall|yy: int| 0 <= yy < y as int ==> #[trigger] data@[yy]@ == self@.data[yy],
            decreases self.height - y,
        {
            let mut row: Vec<Px> = Vec::new();
            let mut x: u32 = 0;
            while x < self.width
                invariant
                    self@.wf(),
                    y < self.height,
                    x <= self.width,
                    self.height as int == self@.height,
                    self.width as int == self@.width,
                    row@.len() == x as int,
                    forall|xx: int| 0 <= xx < x as int ==> #[trigger] row@[xx] == self@.data[y as int][xx],
                decreases self.width - x,
            {
                proof {
                    lemma_view_index(self);
                }
                row.push(self.data[y as usize][x as usize]);
                x = x + 1;
            }
            proof {
                assert(row@ =~= self@.data[y as int]);
            }
            data.push(row);
            y = y + 1;
        }
        let r = Img { width: self.width, height: self.height, data };
        proof {
            lemma_view_index(&r);
            assert(r@.data =~= self@.data);
            assert(r@ =~= self@);
        }
        r
    }

    /// Overlays `top` onto this image with its upper-left corner at
    /// `(ox, oy)`, source-over blending each covered pixel; parts of `top`
    /// outside this image are clipped away.
    pub fn overlay(&mut self, top: &Img, ox: u32, oy: u32)
        requires
            old(self)@.wf(),
            top@.wf(),
        ensures
            final(self)@ == overlay_view(old(self)@, top@, ox as int, oy as int),
            final(self)@.wf(),
    {
        let ghost res = overlay_view(self@, top@, ox as int, oy as int);
        let mut out: Vec<Vec<Px>> = Vec::new();
        let mut y: u32 = 0;
        while y < self.height
            invariant
                *self == *old(self),
                old(self)@.wf(),
                top@.wf(),
                res == overlay_view(old(self)@, top@, ox as int, oy as int),
                y <= self.height,
                out@.len() == y as int,
                forall|yy: int| 0 <= yy < y as int ==> #[trigger] out@[yy]@ == res.data[yy],
            decreases self.height - y,
        {
            let mut row: Vec<Px> = Vec::new();
            let mut x: u32 = 0;
            while x < self.width
                invariant
                    *self == *old(self),
                    old(self)@.wf(),
                    top@.wf(),
                    res == overlay_view(old(self)@, top@, ox as int, oy as int),
                    y < self.height,
                    x <= self.width,
                    row@.len() == x as int,
                    forall|xx: int| 0 <= xx < x as int ==> #[trigger] row@[xx] == res.data[y as int][xx],
                decreases self.width - x,
            {
                proof {
                    lemma_view_index(&*self);
                    lemma_view_index(top);
                }
                let bpx = self.data[y as usize][x as usize];
                let p: Px = if x >= ox && y >= oy && x - ox < top.width && y - oy < top.height {
                    let tpx = top.data[(y - oy) as usize][(x - ox) as usize];
                    blend_px(bpx, tpx)
                } else {
                    bpx
                };
                proof {
                    assert(p == overlay_px(old(self)@, top@, ox as int, oy as int, x as int, y as int));
                }
                row.push(p);
                x = x + 1;
            }
            proof {
                assert(row@ =~= res.data[y as int]);
            }
            out.push(row);
            y = y + 1;
        }
        self.data = out;
        proof {
            lemma_view_index(&*self);
            assert(self@.data =~= res.data);
            assert(self@ =~= res);
        }
    }

    /// This image turned by 180 degrees.
    pub fn rotate180(&self) -> (r: Img)
        requires
            self@.wf(),
        ensures
            r@ == rotate180_view(self@),
            r@.wf(),
    {
        let ghost res = rotate180_view(self@);
        let mut data: Vec<Vec<Px>> = Vec::new();
        let mut y: u32 = 0;
        while y < self.height
            invariant
                self@.wf(),
                res == rotate180_view(self@),
                y <= self.height,
                self.height as int == self@.height,
                self.width as int == self@.width,
                data@.len() == y as int,
                forall|yy: int| 0 <= yy < y as int ==> #[trigger] data@[yy]@ == res.data[yy],
            decreases self.height - y,
        {
            let src_y = self.height - 1 - y;
            let mut row: Vec<Px> = Vec::new();
            let mut x: u32 = 0;
            while x < self.width
                invariant
                    self@.wf(),
                    y < self.height,
                    src_y as int == self@.height - 1 - y as int,
                    x <= self.width,
                    self.height as int == self@.height,
                    self.width as int == self@.width,
                    row@.len() == x as int,
                    forall|xx: int|
                        0 <= xx < x as int ==> #[trigger] row@[xx] == self@.data[src_y as int][self@.width - 1 - xx],
                decreases self.width - x,
            {
                proof {
                    lemma_view_index(self);
                }
                row.push(self.data[src_y as usize][(self.width - 1 - x) as usize]);
                x = x + 1;
            }
            proof {
                assert(row@ =~= res.data[y as int]);
            }
            data.push(row);
            y = y + 1;
        }
        let r = Img { width: self.width, height: self.height, data };
        proof {
            lemma_view_index(&r);
            assert(r@.data =~= res.data);
            assert(r@ =~= res);
        }
        r
    }
}

} // verus!
