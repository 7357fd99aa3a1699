use vstd::prelude::*;

use embedded_graphics::prelude::Point;
use embedded_graphics::primitives::{Circle, Line, PrimitiveStyleBuilder, StyledDrawable};
use epd_waveshare::color::OctColor;
use epd_waveshare::graphics::VarDisplay;
use u8g2_fonts::types::{FontColor, HorizontalAlignment, VerticalPosition};
use u8g2_fonts::{fonts, FontRenderer};

use crate::controls::RenderError;
use crate::display::DisplayBuffer;

verus! {

/// Drawing into the packed buffer leaves its size and the active
/// rotation alone, whether or not the call succeeded.
pub open spec fn spec_draw_keeps_frame(pre: DisplayBuffer, post: DisplayBuffer) -> bool {
    &&& post.buffer_view().len() == pre.buffer_view().len()
    &&& post.spec_rotation() == pre.spec_rotation()
}

/// What each drawing call turns the packed bytes into. The fonts and the
/// rasterizers are fixed data and deterministic code, so the outcome is a
/// function of the buffer and the call's arguments alone: `Some` of the
/// new bytes when the call succeeds, `None` when it fails (a missing
/// glyph, or a buffer that does not fit the panel). A failed call may
/// have drawn part of its output, so only the preserved frame is stated
/// then.
pub uninterp spec fn body_text_drawn(pre: Seq<u8>, text: Seq<char>, x: int, y: int, color: u8) -> Option<Seq<u8>>;

pub uninterp spec fn info_text_top_left_drawn(pre: Seq<u8>, text: Seq<char>, x: int, y: int, color: u8) -> Option<Seq<u8>>;

pub uninterp spec fn info_text_top_right_drawn(pre: Seq<u8>, text: Seq<char>, x: int, y: int, color: u8) -> Option<Seq<u8>>;

pub uninterp spec fn info_text_bottom_center_drawn(pre: Seq<u8>, text: Seq<char>, x: int, y: int, color: u8) -> Option<Seq<u8>>;

pub uninterp spec fn info_text_center_right_drawn(pre: Seq<u8>, text: Seq<char>, x: int, y: int, color: u8) -> Option<Seq<u8>>;

pub uninterp spec fn head_text_center_left_drawn(pre: Seq<u8>, text: Seq<char>, x: int, y: int, color: u8) -> Option<Seq<u8>>;

pub uninterp spec fn head_text_center_center_drawn(pre: Seq<u8>, text: Seq<char>, x: int, y: int, color: u8) -> Option<Seq<u8>>;

pub uninterp spec fn large_text_baseline_center_drawn(pre: Seq<u8>, text: Seq<char>, x: int, y: int, color: u8) -> Option<Seq<u8>>;

pub uninterp spec fn medium_text_top_center_drawn(pre: Seq<u8>, text: Seq<char>, x: int, y: int, color: u8) -> Option<Seq<u8>>;

pub uninterp spec fn line_drawn(pre: Seq<u8>, x0: int, y0: int, x1: int, y1: int, color: u8) -> Option<Seq<u8>>;

pub uninterp spec fn circle_drawn(pre: Seq<u8>, x: int, y: int, diameter: int, fill: u8, stroke: u8) -> Option<Seq<u8>>;

/// Relies on `epd_waveshare::graphics::VarDisplay` over the packed bytes
/// and `u8g2_fonts::FontRenderer::render_aligned` with the regular
/// twelve-point font, drawing left-aligned downward from the position:
/// glyph pixels land in the buffer in the given palette color, its length
/// and the rotation setting stay; a missing glyph or an undersized buffer
/// yields an error.
#[verifier::external_body]
pub(crate) fn text_body_top_left(d: &mut DisplayBuffer, text: &str, x: i32, y: i32, color: u8) -> (r:
    Result<(), RenderError>)
    ensures
        spec_draw_keeps_frame(*old(d), *final(d)),
        r is Ok <==> body_text_drawn(old(d).buffer_view(), text@, x as int, y as int, color) is Some,
        r is Ok ==> final(d).buffer_view() == body_text_drawn(
            old(d).buffer_view(),
            text@,
            x as int,
            y as int,
            color,
        )->Some_0,
{
    let mut vd = VarDisplay::<OctColor>::new(600, 448, d.buffer.as_mut_slice(), false).map_err(
        |_| RenderError::Buffer,
    )?;
    FontRenderer::new::<fonts::u8g2_font_helvR12_tf>().render_aligned(
        text,
        Point::new(x, y),
        VerticalPosition::Top,
        HorizontalAlignment::Left,
        FontColor::Transparent(OctColor::from_nibble(color & 0x07).unwrap_or(OctColor::Black)),
        &mut vd,
    ).map(|_| ()).map_err(|_| RenderError::Text)
}

/// Relies on `VarDisplay` and `FontRenderer::render_aligned` with the
/// small monospace font, drawing left-aligned downward from the position.
#[verifier::external_body]
pub(crate) fn text_info_top_left(d: &mut DisplayBuffer, text: &str, x: i32, y: i32, color: u8) -> (r:
    Result<(), RenderError>)
    ensures
        spec_draw_keeps_frame(*old(d), *final(d)),
        r is Ok <==> info_text_top_left_drawn(old(d).buffer_view(), text@, x as int, y as int, color) is Some,
        r is Ok ==> final(d).buffer_view() == info_text_top_left_drawn(
            old(d).buffer_view(),
            text@,
            x as int,
            y as int,
            color,
        )->Some_0,
{
    let mut vd = VarDisplay::<OctColor>::new(600, 448, d.buffer.as_mut_slice(), false).map_err(
        |_| RenderError::Buffer,
    )?;
    FontRenderer::new::<fonts::u8g2_font_unifont_tf>().render_aligned(
        text,
        Point::new(x, y),
        VerticalPosition::Top,
        HorizontalAlignment::Left,
        FontColor::Transparent(OctColor::from_nibble(color & 0x07).unwrap_or(OctColor::Black)),
        &mut vd,
    ).map(|_| ()).map_err(|_| RenderError::Text)
}

/// Relies on `VarDisplay` and `FontRenderer::render_aligned` with the
/// small monospace font, drawing right-aligned downward from the
/// position.
#[verifier::external_body]
pub(crate) fn text_info_top_right(d: &mut DisplayBuffer, text: &str, x: i32, y: i32, color: u8) -> (
    r: Result<(), RenderError>)
    ensures
        spec_draw_keeps_frame(*old(d), *final(d)),
        r is Ok <==> info_text_top_right_drawn(old(d).buffer_view(), text@, x as int, y as int, color) is Some,
        r is Ok ==> final(d).buffer_view() == info_text_top_right_drawn(
            old(d).buffer_view(),
            text@,
            x as int,
            y as int,
            color,
        )->Some_0,
{
    let mut vd = VarDisplay::<OctColor>::new(600, 448, d.buffer.as_mut_slice(), false).map_err(
        |_| RenderError::Buffer,
    )?;
    FontRenderer::new::<fonts::u8g2_font_unifont_tf>().render_aligned(
        text,
        Point::new(x, y),
        VerticalPosition::Top,
        HorizontalAlignment::Right,
        FontColor::Transparent(OctColor::from_nibble(color & 0x07).unwrap_or(OctColor::Black)),
        &mut vd,
    ).map(|_| ()).map_err(|_| RenderError::Text)
}

/// Relies on `VarDisplay` and `FontRenderer::render_aligned` with the
/// small monospace font, drawing centered upward from the position.
#[verifier::external_body]
pub(crate) fn text_info_bottom_center(
    d: &mut DisplayBuffer,
    text: &str,
    x: i32,
    y: i32,
    color: u8,
) -> (r: Result<(), RenderError>)
    ensures
        spec_draw_keeps_frame(*old(d), *final(d)),
        r is Ok <==> info_text_bottom_center_drawn(old(d).buffer_view(), text@, x as int, y as int, color) is Some,
        r is Ok ==> final(d).buffer_view() == info_text_bottom_center_drawn(
            old(d).buffer_view(),
            text@,
            x as int,
            y as int,
            color,
        )->Some_0,
{
    let mut vd = VarDisplay::<OctColor>::new(600, 448, d.buffer.as_mut_slice(), false).map_err(
        |_| RenderError::Buffer,
    )?;
    FontRenderer::new::<fonts::u8g2_font_unifont_tf>().render_aligned(
        text,
        Point::new(x, y),
        VerticalPosition::Bottom,
        HorizontalAlignment::Center,
        FontColor::Transparent(OctColor::from_nibble(color & 0x07).unwrap_or(OctColor::Black)),
        &mut vd,
    ).map(|_| ()).map_err(|_| RenderError::Text)
}

/// Relies on `VarDisplay` and `FontRenderer::render_aligned` with the
/// small monospace font, drawing right-aligned around the vertical
/// center of the position.
#[verifier::external_body]
pub(crate) fn text_info_center_right(
    d: &mut DisplayBuffer,
    text: &str,
    x: i32,
    y: i32,
    color: u8,
) -> (r: Result<(), RenderError>)
    ensures
        spec_draw_keeps_frame(*old(d), *final(d)),
        r is Ok <==> info_text_center_right_drawn(old(d).buffer_view(), text@, x as int, y as int, color) is Some,
        r is Ok ==> final(d).buffer_view() == info_text_center_right_drawn(
            old(d).buffer_view(),
            text@,
            x as int,
            y as int,
            color,
        )->Some_0,
{
    let mut vd = VarDisplay::<OctColor>::new(600, 448, d.buffer.as_mut_slice(), false).map_err(
        |_| RenderError::Buffer,
    )?;
    FontRenderer::new::<fonts::u8g2_font_unifont_tf>().render_aligned(
        text,
        Point::new(x, y),
        VerticalPosition::Center,
        HorizontalAlignment::Right,
        FontColor::Transparent(OctColor::from_nibble(color & 0x07).unwrap_or(OctColor::Black)),
        &mut vd,
    ).map(|_| ()).map_err(|_| RenderError::Text)
}

/// Relies on `VarDisplay` and `FontRenderer::render_aligned` with the
/// bold fourteen-point font, drawing left-aligned around the vertical
/// center of the position.
#[verifier::external_body]
pub(crate) fn text_head_center_left(
    d: &mut DisplayBuffer,
    text: &str,
    x: i32,
    y: i32,
    color: u8,
) -> (r: Result<(), RenderError>)
    ensures
        spec_draw_keeps_frame(*old(d), *final(d)),
        r is Ok <==> head_text_center_left_drawn(old(d).buffer_view(), text@, x as int, y as int, color) is Some,
        r is Ok ==> final(d).buffer_view() == head_text_center_left_drawn(
            old(d).buffer_view(),
            text@,
            x as int,
            y as int,
            color,
        )->Some_0,
{
    let mut vd = VarDisplay::<OctColor>::new(600, 448, d.buffer.as_mut_slice(), false).map_err(
        |_| RenderError::Buffer,
    )?;
    FontRenderer::new::<fonts::u8g2_font_helvB14_te>().render_aligned(
        text,
        Point::new(x, y),
        VerticalPosition::Center,
        HorizontalAlignment::Left,
        FontColor::Transparent(OctColor::from_nibble(color & 0x07).unwrap_or(OctColor::Black)),
        &mut vd,
    ).map(|_| ()).map_err(|_| RenderError::Text)
}

/// Relies on `VarDisplay` and `FontRenderer::render_aligned` with the
/// bold fourteen-point font, drawing centered around the position.
#[verifier::external_body]
pub(crate) fn text_head_center_center(
    d: &mut DisplayBuffer,
    text: &str,
    x: i32,
    y: i32,
    color: u8,
) -> (r: Result<(), RenderError>)
    ensures
        spec_draw_keeps_frame(*old(d), *final(d)),
        r is Ok <==> head_text_center_center_drawn(old(d).buffer_view(), text@, x as int, y as int, color) is Some,
        r is Ok ==> final(d).buffer_view() == head_text_center_center_drawn(
            old(d).buffer_view(),
            text@,
            x as int,
            y as int,
            color,
        )->Some_0,
{
    let mut vd = VarDisplay::<OctColor>::new(600, 448, d.buffer.as_mut_slice(), false).map_err(
        |_| RenderError::Buffer,
    )?;
    FontRenderer::new::<fonts::u8g2_font_helvB14_te>().render_aligned(
        text,
        Point::new(x, y),
        VerticalPosition::Center,
        HorizontalAlignment::Center,
        FontColor::Transparent(OctColor::from_nibble(color & 0x07).unwrap_or(OctColor::Black)),
        &mut vd,
    ).map(|_| ()).map_err(|_| RenderError::Text)
}

/// Relies on `VarDisplay` and `FontRenderer::render_aligned` with the
/// large incised font, drawing centered on the baseline of the position.
#[verifier::external_body]
pub(crate) fn text_large_baseline_center(
    d: &mut DisplayBuffer,
    text: &str,
    x: i32,
    y: i32,
    color: u8,
) -> (r: Result<(), RenderError>)
    ensures
        spec_draw_keeps_frame(*old(d), *final(d)),
        r is Ok <==> large_text_baseline_center_drawn(old(d).buffer_view(), text@, x as int, y as int, color) is Some,
        r is Ok ==> final(d).buffer_view() == large_text_baseline_center_drawn(
            old(d).buffer_view(),
            text@,
            x as int,
            y as int,
            color,
        )->Some_0,
{
    let mut vd = VarDisplay::<OctColor>::new(600, 448, d.buffer.as_mut_slice(), false).map_err(
        |_| RenderError::Buffer,
    )?;
    FontRenderer::new::<fonts::u8g2_font_inb27_mf>().render_aligned(
        text,
        Point::new(x, y),
        VerticalPosition::Baseline,
        HorizontalAlignment::Center,
        FontColor::Transparent(OctColor::from_nibble(color & 0x07).unwrap_or(OctColor::Black)),
        &mut vd,
    ).map(|_| ()).map_err(|_| RenderError::Text)
}

/// Relies on `VarDisplay` and `FontRenderer::render_aligned` with the
/// medium incised font, drawing centered downward from the position.
#[verifier::external_body]
pub(crate) fn text_medium_top_center(
    d: &mut DisplayBuffer,
    text: &str,
    x: i32,
    y: i32,
    color: u8,
) -> (r: Result<(), RenderError>)
    ensures
        spec_draw_keeps_frame(*old(d), *final(d)),
        r is Ok <==> medium_text_top_center_drawn(old(d).buffer_view(), text@, x as int, y as int, color) is Some,
        r is Ok ==> final(d).buffer_view() == medium_text_top_center_drawn(
            old(d).buffer_view(),
            text@,
            x as int,
            y as int,
            color,
        )->Some_0,
{
    let mut vd = VarDisplay::<OctColor>::new(600, 448, d.buffer.as_mut_slice(), false).map_err(
        |_| RenderError::Buffer,
    )?;
    FontRenderer::new::<fonts::u8g2_font_inb16_mf>().render_aligned(
        text,
        Point::new(x, y),
        VerticalPosition::Top,
        HorizontalAlignment::Center,
        FontColor::Transparent(OctColor::from_nibble(color & 0x07).unwrap_or(OctColor::Black)),
        &mut vd,
    ).map(|_| ()).map_err(|_| RenderError::Text)
}

/// Relies on `VarDisplay` and `embedded_graphics::primitives::Line` with
/// a one-pixel stroke: the line's pixels land in the buffer in the given
/// palette color; out-of-range pixels are dropped by the target.
#[verifier::external_body]
pub(crate) fn draw_line(d: &mut DisplayBuffer, x0: i32, y0: i32, x1: i32, y1: i32, color: u8) -> (r:
    Result<(), RenderError>)
    ensures
        spec_draw_keeps_frame(*old(d), *final(d)),
        r is Ok <==> line_drawn(
            old(d).buffer_view(),
            x0 as int,
            y0 as int,
            x1 as int,
            y1 as int,
            color,
        ) is Some,
        r is Ok ==> final(d).buffer_view() == line_drawn(
            old(d).buffer_view(),
            x0 as int,
            y0 as int,
            x1 as int,
            y1 as int,
            color,
        )->Some_0,
{
    let mut vd = VarDisplay::<OctColor>::new(600, 448, d.buffer.as_mut_slice(), false).map_err(
        |_| RenderError::Buffer,
    )?;
    let style = PrimitiveStyleBuilder::new().stroke_width(1).stroke_color(
        OctColor::from_nibble(color & 0x07).unwrap_or(OctColor::Black),
    ).build();
    Line::new(Point::new(x0, y0), Point::new(x1, y1)).draw_styled(&style, &mut vd).map_err(
        |_| RenderError::Text,
    )
}

/// Relies on `VarDisplay` and `embedded_graphics::primitives::Circle`
/// with a filled interior and a one-pixel stroke: the disc's pixels land
/// in the buffer; out-of-range pixels are dropped by the target.
#[verifier::external_body]
pub(crate) fn draw_circle(
    d: &mut DisplayBuffer,
    x: i32,
    y: i32,
    diameter: u32,
    fill: u8,
    stroke: u8,
) -> (r: Result<(), RenderError>)
    ensures
        spec_draw_keeps_frame(*old(d), *final(d)),
        r is Ok <==> circle_drawn(
            old(d).buffer_view(),
            x as int,
            y as int,
            diameter as int,
            fill,
            stroke,
        ) is Some,
        r is Ok ==> final(d).buffer_view() == circle_drawn(
            old(d).buffer_view(),
            x as int,
            y as int,
            diameter as int,
            fill,
            stroke,
        )->Some_0,
{
    let mut vd = VarDisplay::<OctColor>::new(600, 448, d.buffer.as_mut_slice(), false).map_err(
        |_| RenderError::Buffer,
    )?;
    let style = PrimitiveStyleBuilder::new().fill_color(
        OctColor::from_nibble(fill & 0x07).unwrap_or(OctColor::Black),
    ).stroke_width(1).stroke_color(
        OctColor::from_nibble(stroke & 0x07).unwrap_or(OctColor::Black),
    ).build();
    Circle::new(Point::new(x, y), diameter).draw_styled(&style, &mut vd).map_err(
        |_| RenderError::Text,
    )
}

} // verus!
