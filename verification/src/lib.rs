//! Renders a raster image of a Shogi position: a board background, piece
//! sprites placed by a fixed coordinate layout, hand panels with dense-packed
//! captured pieces and count glyphs, and an optional last-move highlight.
//!
//! A [`generator::Generator`] is built once from PNG asset bytes and a style
//! selection, and is then reused to render any number of positions through
//! [`generator::Generator::generate`].
use vstd::prelude::*;

pub mod pixel;
pub mod img;
pub mod position;
pub mod layout;
pub mod assets;
pub mod generator;

pub use crate::generator::Generator;
pub use crate::position::AsPosition;

verus! {

/// Values to specify the style of the board.
#[derive(Clone, Copy, PartialEq, Eq, Structural, Debug)]
pub enum BoardStyle {
    /// Light-colored wood
    Light,
    /// Warm-colored wood
    Warm,
    /// Synthetic resin
    Resin,
}

impl Default for BoardStyle {
    /// The default board style: light-colored wood.
    fn default() -> (r: Self)
        ensures
            r == BoardStyle::Light,
    {
        BoardStyle::Light
    }
}

/// Values to specify the style of the pieces.
#[derive(Clone, Copy, PartialEq, Eq, Structural, Debug)]
pub enum PiecesStyle {
    Hitomoji,
    HitomojiGothic,
}

impl Default for PiecesStyle {
    /// The default pieces style.
    fn default() -> (r: Self)
        ensures
            r == PiecesStyle::Hitomoji,
    {
        PiecesStyle::Hitomoji
    }
}

/// Highlight mode for last moved pieces.
#[derive(Clone, Copy, PartialEq, Eq, Structural, Debug)]
pub enum HighlightSquare {
    /// No highlight overlay.
    NoHighlight,
    /// Highlight the destination square of the last move.
    LastMoveTo,
}

impl Default for HighlightSquare {
    /// The default highlight mode: no highlight.
    fn default() -> (r: Self)
        ensures
            r == HighlightSquare::NoHighlight,
    {
        HighlightSquare::NoHighlight
    }
}

/// A simple function to generate an image from a position using the default
/// styles: `None` exactly when the assets are rejected, as in
/// [`generator::Generator::new`].
pub fn pos2img<T: position::AsPosition>(position: &T, assets: &assets::Assets) -> (r: Option<
    img::Img,
>)
    ensures
        r is Some <==> generator::gen_of_assets(
            BoardStyle::Light,
            PiecesStyle::Hitomoji,
            HighlightSquare::NoHighlight,
            assets@,
        ) is Some,
        r matches Some(out) ==> generator::gen_of_assets(
            BoardStyle::Light,
            PiecesStyle::Hitomoji,
            HighlightSquare::NoHighlight,
            assets@,
        ) matches Some(gv) && out@ == generator::render_view(gv, position.pos_view()) && out@.wf(),
{
    match generator::Generator::new(
        BoardStyle::default(),
        PiecesStyle::default(),
        HighlightSquare::default(),
        assets,
    ) {
        Some(g) => Some(g.generate(position)),
        None => None,
    }
}

} // verus!
