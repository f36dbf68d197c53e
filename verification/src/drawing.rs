//! The rasterizer: the solid bar behind the text, and single text pixels.
//!
//! A canvas is a row-major byte buffer with four bytes per pixel, stored
//! blue, green, red, alpha.

use vstd::prelude::*;
use crate::application::{modules_after, modules_shown, BarWindow};
use crate::color::Color;
use crate::text::join_reversed;
use crate::volume::VolumeError;

verus! {

/// The last residue of the pixel index, taken modulo `height + 1`, that
/// still belongs to the bar.
pub const BAND_LIMIT: usize = 30;

/// Alpha of a painted pixel.
pub const OPAQUE: u8 = 0xFF;

/// The font of the text.
pub const FONT_FILE: &'static str = "/usr/share/fonts/urw-fonts/C059-Roman.otf";

/// The size of the text, in pixels per em.
pub const FONT_SIZE: u32 = 20;

/// The row of the base line of the text.
pub const BASE_LINE: u32 = 18;

/// The gap between the right end of the text and the right end of the bar,
/// in pixels.
pub const TEXT_GAP: u32 = 8;

/// Whether the pixel with row-major index `index` belongs to the opaque bar.
pub open spec fn in_bar(index: int, width: int, height: int, bar_width: int) -> bool {
    index % (height + 1) <= BAND_LIMIT as int && index % width <= bar_width
}

/// Byte `channel` (0 blue, 1 green, 2 red, 3 alpha) of a pixel that shows
/// `color` when `opaque`, and is fully transparent otherwise.
pub open spec fn pixel_byte(opaque: bool, color: Color, channel: int) -> u8 {
    if !opaque {
        0
    } else if channel == 0 {
        color.b
    } else if channel == 1 {
        color.g
    } else if channel == 2 {
        color.r
    } else {
        OPAQUE
    }
}

/// The canvas after the background pass. Every whole pixel is repainted;
/// up to three bytes behind the last whole pixel keep what they held.
pub open spec fn background(
    before: Seq<u8>,
    width: int,
    height: int,
    bar_width: int,
    color: Color,
) -> Seq<u8> {
    Seq::new(
        before.len(),
        |k: int|
            if k / 4 < before.len() / 4 {
                pixel_byte(in_bar(k / 4, width, height, bar_width), color, k % 4)
            } else {
                before[k]
            },
    )
}

/// Whether the text pass may write the pixel in column `x` of row `y`.
pub open spec fn on_surface(x: int, y: int, width: int, height: int) -> bool {
    0 <= x < width && 0 <= y < height
}

/// The canvas after one text pixel: an opaque pixel of colour `shade` at
/// `(x, y)` when that lies on the surface, and no change when it does not.
pub open spec fn with_text_pixel(
    before: Seq<u8>,
    width: int,
    height: int,
    x: int,
    y: int,
    shade: Color,
) -> Seq<u8> {
    if on_surface(x, y, width, height) {
        Seq::new(
            before.len(),
            |k: int|
                if k / 4 == y * width + x {
                    pixel_byte(true, shade, k % 4)
                } else {
                    before[k]
                },
        )
    } else {
        before
    }
}

/// Decides whether the pixel with row-major index `index` is part of the bar.
pub fn is_bar_pixel(index: usize, width: u32, height: u32, bar_width: u32) -> (opaque: bool)
    requires
        width > 0,
        height < u32::MAX,
    ensures
        opaque == in_bar(index as int, width as int, height as int, bar_width as int),
{
    index % ((height + 1) as usize) <= BAND_LIMIT && index % (width as usize) <= bar_width as usize
}

/// Paints the background pass over `canvas`: bar pixels get `color` at full
/// alpha, every other pixel becomes transparent black.
pub fn paint_background(
    canvas: &mut [u8],
    width: u32,
    height: u32,
    bar_width: u32,
    color: &Color,
)
    requires
        width > 0 || old(canvas)@.len() < 4,
        height < u32::MAX,
    ensures
        final(canvas)@ == background(
            old(canvas)@,
            width as int,
            height as int,
            bar_width as int,
            *color,
        ),
{
    let pixels: usize = canvas.len() / 4;
    let ghost before = canvas@;
    let ghost after = background(
        before,
        width as int,
        height as int,
        bar_width as int,
        *color,
    );
    let mut i: usize = 0;
    while i < pixels
        invariant
            i <= pixels,
            pixels == before.len() / 4,
            before.len() <= usize::MAX,
            pixels > 0 ==> width > 0,
            height < u32::MAX,
            canvas@.len() == before.len(),
            after == background(before, width as int, height as int, bar_width as int, *color),
            forall|k: int| 0 <= k < 4 * i ==> canvas@[k] == after[k],
            forall|k: int| 4 * i <= k < before.len() ==> canvas@[k] == before[k],
        decreases pixels - i,
    {
        let base: usize = 4 * i;
        if is_bar_pixel(i, width, height, bar_width) {
            canvas[base] = color.b;
            canvas[base + 1] = color.g;
            canvas[base + 2] = color.r;
            canvas[base + 3] = OPAQUE;
        } else {
            canvas[base] = 0;
            canvas[base + 1] = 0;
            canvas[base + 2] = 0;
            canvas[base + 3] = 0;
        }
        i += 1;
    }
    assert(canvas@ =~= after);
}

/// Writes one pixel of the text pass. A position left of, above, right of
/// or below the surface is skipped.
pub fn put_text_pixel(canvas: &mut [u8], width: u32, height: u32, x: i64, y: i64, shade: &Color)
    requires
        old(canvas)@.len() >= 4 * (width as int) * (height as int),
    ensures
        final(canvas)@ == with_text_pixel(
            old(canvas)@,
            width as int,
            height as int,
            x as int,
            y as int,
            *shade,
        ),
{
    if x < 0 || y < 0 {
        return ;
    }
    if x >= width as i64 || y >= height as i64 {
        return ;
    }
    let ghost before = canvas@;
    let len: usize = canvas.len();
    proof {
        assert(0 <= y * width && (y * width + x + 1) * 4 <= 4 * (width as int) * (height as int))
            by (nonlinear_arith)
            requires
                0 <= x < width,
                0 <= y < height,
        ;
    }
    let row: usize = y as usize;
    let column: usize = x as usize;
    let base: usize = (row * (width as usize) + column) * 4;
    canvas[base] = shade.b;
    canvas[base + 1] = shade.g;
    canvas[base + 2] = shade.r;
    canvas[base + 3] = OPAQUE;
    assert(canvas@ =~= with_text_pixel(
        before,
        width as int,
        height as int,
        x as int,
        y as int,
        *shade,
    ));
}

/// The background pass does not read what the canvas held: painting twice
/// with the same geometry, bar width and colour gives what painting once
/// gives.
pub proof fn lemma_background_idempotent(
    before: Seq<u8>,
    width: int,
    height: int,
    bar_width: int,
    color: Color,
)
    ensures
        background(background(before, width, height, bar_width, color), width, height, bar_width, color)
            == background(before, width, height, bar_width, color),
{
    let once = background(before, width, height, bar_width, color);
    assert(background(once, width, height, bar_width, color) =~= once);
}

/// On a surface of at most thirty rows the band test never fails, and a
/// pixel belongs to the bar exactly when its column residue is within the
/// bar width.
pub proof fn lemma_short_surface_mask(index: int, width: int, height: int, bar_width: int)
    requires
        0 <= index,
        0 <= height <= BAND_LIMIT,
    ensures
        in_bar(index, width, height, bar_width) == (index % width <= bar_width),
{
}

impl BarWindow {
    /// The first part of a frame: paints the bar over `canvas` in the
    /// colour and width of the moment, brings the modules up to date with
    /// what the audio service reported, and returns the text to set on the
    /// bar.
    pub fn draw(&mut self, canvas: &mut [u8], volume: Result<u8, VolumeError>) -> (text: String)
        requires
            old(self).graphics.width > 0 || old(canvas)@.len() < 4,
            old(self).graphics.height < u32::MAX,
        ensures
            final(canvas)@ == background(
                old(canvas)@,
                old(self).graphics.width as int,
                old(self).graphics.height as int,
                old(self).state.bar_width as int,
                old(self).config.bar_color,
            ),
            final(self).state.modules@ == modules_after(old(self).state.modules@, volume),
            exists|seconds: i64|
                text@ == join_reversed(modules_shown(final(self).state.modules@, seconds)),
            final(self).state.same_apart_from_modules(&old(self).state),
            final(self).graphics == old(self).graphics,
            final(self).config == old(self).config,
    {
        paint_background(
            canvas,
            self.graphics.width,
            self.graphics.height,
            self.state.bar_width,
            &self.config.bar_color,
        );
        self.state.get_modules_display(volume)
    }

    /// One pixel of the text: an opaque pixel of colour `shade` in column
    /// `x` of row `y`, if the surface has such a pixel.
    pub fn draw_text_pixel(&self, canvas: &mut [u8], x: i64, y: i64, shade: &Color)
        requires
            old(canvas)@.len() >= self.graphics.canvas_bytes(),
        ensures
            final(canvas)@ == with_text_pixel(
                old(canvas)@,
                self.graphics.width as int,
                self.graphics.height as int,
                x as int,
                y as int,
                *shade,
            ),
    {
        put_text_pixel(canvas, self.graphics.width, self.graphics.height, x, y, shade);
    }
}

} // verus!
