//! Rendered output as a sequence of pieces: styled text, and durations in
//! seconds that the printer writes with a given width and precision.

use crate::text::{decimal, owned, push_decimal};
use std::time::Duration;
use vstd::prelude::*;

verus! {

/// How a piece of terminal text is colored.
#[derive(Debug, Clone, Copy, PartialEq, Eq, Structural)]
pub enum Style {
    Plain,
    BrightBlue,
    BrightBlack,
    Bold,
    Green,
    Red,
    RedBold,
    Dimmed,
}

/// A piece of rendered output.
#[derive(Debug)]
pub enum Piece {
    /// Text in a style.
    Text { style: Style, text: String },
    /// A duration in seconds, right-aligned to `width` characters, with
    /// `precision` digits after the decimal point.
    Seconds { duration: Duration, width: usize, precision: usize },
}

/// A piece as plain values.
pub enum PieceView {
    Text(Style, Seq<char>),
    Seconds(Duration, usize, usize),
}

impl View for Piece {
    type V = PieceView;

    open spec fn view(&self) -> PieceView {
        match self {
            Piece::Text { style, text } => PieceView::Text(*style, text@),
            Piece::Seconds { duration, width, precision } => PieceView::Seconds(
                *duration,
                *width,
                *precision,
            ),
        }
    }
}

/// The views of a sequence of pieces.
pub open spec fn pieces_view(v: Seq<Piece>) -> Seq<PieceView> {
    v.map_values(|p: Piece| p@)
}

/// Unstyled text.
pub open spec fn plain(s: Seq<char>) -> PieceView {
    PieceView::Text(Style::Plain, s)
}

/// Text in a style.
pub open spec fn styled(st: Style, s: Seq<char>) -> PieceView {
    PieceView::Text(st, s)
}

/// Appends one piece.
pub fn push_piece(out: &mut Vec<Piece>, p: Piece)
    ensures
        pieces_view(final(out)@) == pieces_view(old(out)@).push(p@),
{
    let ghost before = out@;
    out.push(p);
    assert(pieces_view(out@) =~= pieces_view(before).push(p@));
}

/// Appends the text `t` in the style `st`.
pub fn push_text(out: &mut Vec<Piece>, st: Style, t: &str)
    ensures
        pieces_view(final(out)@) == pieces_view(old(out)@).push(styled(st, t@)),
{
    push_piece(out, Piece::Text { style: st, text: owned(t) });
}

/// Appends the decimal notation of `n` in the style `st`.
pub fn push_number(out: &mut Vec<Piece>, st: Style, n: usize)
    ensures
        pieces_view(final(out)@) == pieces_view(old(out)@).push(styled(st, decimal(n as nat))),
{
    let mut s = String::new();
    push_decimal(&mut s, n as u64);
    assert(s@ =~= decimal(n as nat));
    push_piece(out, Piece::Text { style: st, text: s });
}

/// Appends a duration in seconds.
pub fn push_seconds(out: &mut Vec<Piece>, d: Duration, width: usize, precision: usize)
    ensures
        pieces_view(final(out)@) == pieces_view(old(out)@).push(
            PieceView::Seconds(d, width, precision),
        ),
{
    push_piece(out, Piece::Seconds { duration: d, width, precision });
}

} // verus!
