use vstd::prelude::*;
use vstd::arithmetic::div_mod::{lemma_mod_pos_bound, lemma_multiply_divide_lt};
use crate::layout::{
    laid_out,
    row_fits,
    ClickTarget,
    HORIZONTAL_PADDING,
    VERTICAL_PADDING,
};

verus! {

/// Opaque colour of the whole surface, alpha first.
pub const BACKGROUND_COLOR: [u8; 4] = [255, 200, 0, 0];

/// Opaque colour of each button block, alpha first.
pub const BUTTON_COLOR: [u8; 4] = [255, 100, 0, 0];

/// `buf`, a row-major image `width` pixels wide with four bytes per pixel,
/// with every pixel of the rectangle set to `color` (alpha first) in
/// little-endian byte order.
pub open spec fn painted(
    buf: Seq<u8>,
    width: int,
    pos: (usize, usize),
    size: (usize, usize),
    color: [u8; 4],
) -> Seq<u8> {
    Seq::new(
        buf.len(),
        |i: int|
            {
                let x = (i / 4) % width;
                let y = (i / 4) / width;
                if pos.0 <= x < pos.0 + size.0 && pos.1 <= y < pos.1 + size.1 {
                    color@[3 - i % 4]
                } else {
                    buf[i]
                }
            },
    )
}

/// Relies on andrew's `Canvas::new` and `Canvas::draw` of a `Rectangle` with a
/// fill and no border: with an opaque colour (alpha byte 255) every pixel of
/// the rectangle that lies on the canvas is overwritten with the colour, bytes
/// in little-endian order, and no other byte changes.
#[verifier::external_body]
fn fill_rect(
    buf: &mut Vec<u8>,
    width: usize,
    height: usize,
    stride: usize,
    pos: (usize, usize),
    size: (usize, usize),
    color: [u8; 4],
)
    requires
        width > 0,
        height > 0,
        stride == 4 * width,
        old(buf)@.len() == stride * height,
        size.0 > 0,
        size.1 > 0,
        pos.0 + size.0 <= usize::MAX,
        pos.1 + size.1 <= usize::MAX,
        color@[0] == 255,
    ensures
        final(buf)@ == painted(old(buf)@, width as int, pos, size, color),
{
    let mut canvas = andrew::Canvas::new(
        buf.as_mut_slice(),
        width,
        height,
        stride,
        andrew::Endian::Little,
    );
    canvas.draw(&andrew::shapes::rectangle::Rectangle::new(pos, size, None, Some(color)));
}

/// Whether byte `i` of an image `width` pixels wide belongs to a pixel of `t`.
pub open spec fn pixel_in(t: ClickTarget, width: int, i: int) -> bool {
    let x = (i / 4) % width;
    let y = (i / 4) / width;
    t.position.0 <= x < t.position.0 + t.size.0 && t.position.1 <= y < t.position.1 + t.size.1
}

/// `n` bytes of 255.
pub open spec fn blank(n: nat) -> Seq<u8> {
    Seq::new(n, |i: int| 255u8)
}

/// `buf` with the first `k` targets painted over it in order.
pub open spec fn paint_targets(buf: Seq<u8>, width: int, targets: Seq<ClickTarget>, k: int) -> Seq<
    u8,
>
    decreases k,
{
    if k <= 0 {
        buf
    } else {
        let t = targets[k - 1];
        painted(paint_targets(buf, width, targets, k - 1), width, t.position, t.size, BUTTON_COLOR)
    }
}

/// The flat-coloured frame: the background over the whole surface, then each
/// target's block in registry order.
pub open spec fn frame_pixels(width: u32, height: u32, targets: Seq<ClickTarget>) -> Seq<u8> {
    let w = width as int;
    let background = painted(
        blank((4 * width * height) as nat),
        w,
        (0usize, 0usize),
        (width as usize, height as usize),
        BACKGROUND_COLOR,
    );
    paint_targets(background, w, targets, targets.len() as int)
}

pub open spec fn targets_addressable(targets: Seq<ClickTarget>) -> bool {
    forall|k: int|
        0 <= k < targets.len() ==> {
            &&& (#[trigger] targets[k]).position.0 + targets[k].size.0 <= usize::MAX
            &&& targets[k].position.1 + targets[k].size.1 <= usize::MAX
        }
}

proof fn lemma_paint_targets_len(buf: Seq<u8>, width: int, targets: Seq<ClickTarget>, k: int)
    ensures
        paint_targets(buf, width, targets, k).len() == buf.len(),
    decreases k,
{
    if k > 0 {
        lemma_paint_targets_len(buf, width, targets, k - 1);
    }
}

proof fn lemma_paint_targets_colors(
    buf: Seq<u8>,
    width: int,
    targets: Seq<ClickTarget>,
    k: int,
    i: int,
)
    requires
        0 <= i < buf.len(),
        k <= targets.len(),
    ensures
        paint_targets(buf, width, targets, k)[i] == if exists|j: int|
            0 <= j < k && pixel_in(#[trigger] targets[j], width, i) {
            BUTTON_COLOR@[3 - i % 4]
        } else {
            buf[i]
        },
    decreases k,
{
    if k > 0 {
        lemma_paint_targets_colors(buf, width, targets, k - 1, i);
        lemma_paint_targets_len(buf, width, targets, k - 1);
        if pixel_in(targets[k - 1], width, i) {
            assert(exists|j: int| 0 <= j < k && pixel_in(#[trigger] targets[j], width, i));
        } else if exists|j: int| 0 <= j < k && pixel_in(#[trigger] targets[j], width, i) {
            let j = choose|j: int| 0 <= j < k && pixel_in(#[trigger] targets[j], width, i);
            assert(j < k - 1);
        }
    }
}

/// Each byte of a frame shows the button colour where its pixel lies in some
/// target, and the background colour everywhere else.
pub proof fn lemma_frame_colors(width: u32, height: u32, targets: Seq<ClickTarget>, i: int)
    requires
        0 <= i < 4 * width * height,
    ensures
        frame_pixels(width, height, targets)[i] == if exists|j: int|
            0 <= j < targets.len() && pixel_in(#[trigger] targets[j], width as int, i) {
            BUTTON_COLOR@[3 - i % 4]
        } else {
            BACKGROUND_COLOR@[3 - i % 4]
        },
{
    let w = width as int;
    let h = height as int;
    assert(w > 0 && h > 0) by (nonlinear_arith)
        requires
            0 <= i < 4 * w * h,
            w >= 0,
            h >= 0,
    ;
    assert(4 * w * h == 4 * (w * h)) by (nonlinear_arith);
    lemma_multiply_divide_lt(i, 4, w * h);
    lemma_multiply_divide_lt(i / 4, w, h);
    lemma_mod_pos_bound(i / 4, w);
    let background = painted(
        blank((4 * width * height) as nat),
        w,
        (0usize, 0usize),
        (width as usize, height as usize),
        BACKGROUND_COLOR,
    );
    assert(background[i] == BACKGROUND_COLOR@[3 - i % 4]);
    lemma_paint_targets_colors(background, w, targets, targets.len() as int, i);
}

/// Measuring the dismiss control in a drawn frame gives back its layout: it is
/// at least two paddings wide, spans the surface height less the two vertical
/// paddings, and every byte of its pixels shows the button colour.
pub proof fn lemma_dismiss_round_trip(
    targets: Seq<ClickTarget>,
    width: u32,
    height: u32,
    label_widths: Seq<usize>,
    buttons: Seq<crate::args::ArgButton>,
    i: int,
)
    requires
        row_fits(width as int, height as int, label_widths),
        targets.len() >= 1,
        laid_out(targets[0], width as int, height as int, label_widths, buttons, 0),
        0 <= i < 4 * width * height,
        pixel_in(targets[0], width as int, i),
    ensures
        targets[0].size.0 >= 2 * HORIZONTAL_PADDING,
        targets[0].size.1 == height - 2 * VERTICAL_PADDING,
        frame_pixels(width, height, targets)[i] == BUTTON_COLOR@[3 - i % 4],
{
    lemma_frame_colors(width, height, targets, i);
    assert(0 <= 0 < targets.len() && pixel_in(targets[0], width as int, i));
}

/// Draws the background and the button blocks of a frame into a fresh buffer
/// of `4 * width * height` bytes, four bytes per pixel.
pub fn rasterize(width: u32, height: u32, targets: &Vec<ClickTarget>) -> (r: Vec<u8>)
    requires
        4 * width * height <= usize::MAX,
        targets_addressable(targets@),
    ensures
        r@ == frame_pixels(width, height, targets@),
        r@.len() == 4 * width * height,
{
    let ghost ts = targets@;
    if width == 0 || height == 0 {
        proof {
            lemma_paint_targets_len(
                painted(
                    blank((4 * width * height) as nat),
                    width as int,
                    (0usize, 0usize),
                    (width as usize, height as usize),
                    BACKGROUND_COLOR,
                ),
                width as int,
                ts,
                ts.len() as int,
            );
            assert(4 * width * height == 0) by (nonlinear_arith)
                requires
                    width == 0 || height == 0,
            ;
        }
        let empty: Vec<u8> = Vec::new();
        assert(empty@ =~= frame_pixels(width, height, ts));
        return empty;
    }
    let w = width as usize;
    let h = height as usize;
    assert(4 * w <= 4 * w * h) by (nonlinear_arith)
        requires
            h >= 1,
    ;
    let stride = 4 * w;
    let n = stride * h;
    let mut buf: Vec<u8> = Vec::new();
    let mut i: usize = 0;
    while i < n
        invariant
            i <= n,
            buf@ =~= blank(i as nat),
        decreases n - i,
    {
        buf.push(255u8);
        i = i + 1;
    }
    fill_rect(&mut buf, w, h, stride, (0, 0), (w, h), BACKGROUND_COLOR);
    let ghost background = buf@;
    let mut k: usize = 0;
    while k < targets.len()
        invariant
            k <= targets@.len(),
            ts == targets@,
            targets_addressable(ts),
            w > 0,
            h > 0,
            stride == 4 * w,
            buf@.len() == stride * h,
            buf@ == paint_targets(background, w as int, ts, k as int),
        decreases targets@.len() - k,
    {
        let t = &targets[k];
        if t.size.0 > 0 && t.size.1 > 0 {
            fill_rect(&mut buf, w, h, stride, t.position, t.size, BUTTON_COLOR);
        } else {
            assert(buf@ =~= painted(buf@, w as int, t.position, t.size, BUTTON_COLOR));
        }
        k = k + 1;
    }
    buf
}

} // verus!
