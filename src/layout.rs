use vstd::prelude::*;
use crate::args::ArgButton;

verus! {

/// Space above and below each button block.
pub const VERTICAL_PADDING: usize = 2;

/// Space between a label and its block's sides, and between blocks.
pub const HORIZONTAL_PADDING: usize = 10;

/// Cap on the text height in bar mode, in half pixels (16 px).
pub const MAX_TEXT_HALF_PX: u32 = 32;

/// What a click on a target does.
pub enum ClickHandler {
    /// Request to exit.
    Exit,
    /// Run a command through the shell.
    RunCommand(String),
}

/// The command a handler runs, if any.
pub open spec fn command_of(h: ClickHandler) -> Option<Seq<char>> {
    match h {
        ClickHandler::Exit => None,
        ClickHandler::RunCommand(c) => Some(c@),
    }
}

/// A clickable rectangle bound to an action.
pub struct ClickTarget {
    pub position: (usize, usize),
    pub size: (usize, usize),
    pub handler: ClickHandler,
}

impl ClickTarget {
    /// Half-open containment: the far edges are outside.
    pub open spec fn contains(&self, x: int, y: int) -> bool {
        &&& self.position.0 <= x < self.position.0 + self.size.0
        &&& self.position.1 <= y < self.position.1 + self.size.1
    }

    /// The handler of this target if the point lies inside it.
    pub fn process_click(&self, click_position: (i64, i64)) -> (r: Option<ClickHandler>)
        ensures
            r is Some <==> self.contains(click_position.0 as int, click_position.1 as int),
            r matches Some(h) ==> command_of(h) == command_of(self.handler),
    {
        let (click_x, click_y) = click_position;
        let (position_x, position_y) = (self.position.0 as i128, self.position.1 as i128);
        let (size_x, size_y) = (self.size.0 as i128, self.size.1 as i128);
        if click_x as i128 >= position_x && (click_x as i128) < position_x + size_x && click_y as i128
            >= position_y && (click_y as i128) < position_y + size_y {
            Some(
                match &self.handler {
                    ClickHandler::Exit => ClickHandler::Exit,
                    ClickHandler::RunCommand(c) => ClickHandler::RunCommand(c.clone()),
                },
            )
        } else {
            None
        }
    }
}

/// Index of the last of the first `k` targets that contains the point.
pub open spec fn last_hit(targets: Seq<ClickTarget>, x: int, y: int, k: int) -> Option<int>
    decreases k,
{
    if k <= 0 {
        None
    } else if targets[k - 1].contains(x, y) {
        Some(k - 1)
    } else {
        last_hit(targets, x, y, k - 1)
    }
}

/// Resolves a click against the registry: the last target that contains the
/// point wins.
pub fn find_handler(targets: &Vec<ClickTarget>, click_position: (i64, i64)) -> (r: Option<
    ClickHandler,
>)
    ensures
        match last_hit(targets@, click_position.0 as int, click_position.1 as int, targets@.len() as int) {
            None => r is None,
            Some(k) => r matches Some(h) && command_of(h) == command_of(targets@[k].handler),
        },
{
    let mut found: Option<ClickHandler> = None;
    let mut i: usize = 0;
    while i < targets.len()
        invariant
            i <= targets@.len(),
            match last_hit(targets@, click_position.0 as int, click_position.1 as int, i as int) {
                None => found is None,
                Some(k) => found matches Some(h) && command_of(h) == command_of(targets@[k].handler),
            },
        decreases targets@.len() - i,
    {
        if let Some(handler) = targets[i].process_click(click_position) {
            found = Some(handler);
        }
        i = i + 1;
    }
    found
}

/// Text height in half pixels: half the surface height, capped in bar mode.
pub open spec fn text_half_px_spec(capped: bool, height: u32) -> u32 {
    if capped && height > MAX_TEXT_HALF_PX {
        MAX_TEXT_HALF_PX
    } else {
        height
    }
}

pub fn text_half_px(capped: bool, height: u32) -> (r: u32)
    ensures
        r == text_half_px_spec(capped, height),
{
    if capped && height > MAX_TEXT_HALF_PX {
        MAX_TEXT_HALF_PX
    } else {
        height
    }
}

/// Width of the block around a label of width `tw`.
pub open spec fn block_width(tw: int) -> int {
    tw + 2 * HORIZONTAL_PADDING
}

/// The packing cursor before block `k` is placed: each block takes its width
/// and one padding from the cursor, starting at the right edge.
pub open spec fn cursor_before(width: int, label_widths: Seq<usize>, k: int) -> int
    decreases k,
{
    if k <= 0 {
        width
    } else {
        cursor_before(width, label_widths, k - 1) - block_width(label_widths[k - 1] as int)
            - HORIZONTAL_PADDING
    }
}

/// Left edge of block `k`.
pub open spec fn block_x(width: int, label_widths: Seq<usize>, k: int) -> int {
    cursor_before(width, label_widths, k + 1)
}

/// Whether the dismiss block and every button block fit on a surface of the
/// given size.
pub open spec fn row_fits(width: int, height: int, label_widths: Seq<usize>) -> bool {
    &&& height >= 2 * VERTICAL_PADDING
    &&& cursor_before(width, label_widths, label_widths.len() as int) >= 0
}

/// Target `k` as laid out: block `k` at its place, the full padded height, the
/// dismiss action first and then each button's command in order.
pub open spec fn laid_out(
    t: ClickTarget,
    width: int,
    height: int,
    label_widths: Seq<usize>,
    buttons: Seq<ArgButton>,
    k: int,
) -> bool {
    &&& t.position.0 == block_x(width, label_widths, k)
    &&& t.position.1 == VERTICAL_PADDING
    &&& t.size.0 == block_width(label_widths[k] as int)
    &&& t.size.1 == height - 2 * VERTICAL_PADDING
    &&& command_of(t.handler) == if k == 0 {
        None
    } else {
        Some(buttons[k - 1].action@)
    }
}

proof fn lemma_cursor_non_increasing(width: int, label_widths: Seq<usize>, j: int, k: int)
    requires
        0 <= j <= k <= label_widths.len(),
    ensures
        cursor_before(width, label_widths, k) <= cursor_before(width, label_widths, j),
    decreases k - j,
{
    if j < k {
        lemma_cursor_non_increasing(width, label_widths, j, k - 1);
    }
}

/// Lays out the dismiss control (label width `label_widths[0]`) and then each
/// button (label width `label_widths[k + 1]`) from right to left; `None` where
/// they do not fit.
pub fn layout(width: u32, height: u32, label_widths: &Vec<usize>, buttons: &Vec<ArgButton>) -> (r:
    Option<Vec<ClickTarget>>)
    requires
        label_widths@.len() == buttons@.len() + 1,
    ensures
        r is Some <==> row_fits(width as int, height as int, label_widths@),
        r matches Some(ts) ==> {
            &&& ts@.len() == label_widths@.len()
            &&& forall|k: int|
                0 <= k < ts@.len() ==> #[trigger] laid_out(
                    ts@[k],
                    width as int,
                    height as int,
                    label_widths@,
                    buttons@,
                    k,
                )
        },
{
    if (height as usize) < 2 * VERTICAL_PADDING {
        return None;
    }
    let block_height = height as usize - 2 * VERTICAL_PADDING;
    let mut targets: Vec<ClickTarget> = Vec::new();
    let mut cursor = width as usize;
    let n = label_widths.len();
    let mut k: usize = 0;
    while k < n
        invariant
            n == label_widths@.len(),
            n == buttons@.len() + 1,
            k <= n,
            height >= 2 * VERTICAL_PADDING,
            block_height == height - 2 * VERTICAL_PADDING,
            cursor as int == cursor_before(width as int, label_widths@, k as int),
            targets@.len() == k,
            forall|j: int|
                0 <= j < k ==> #[trigger] laid_out(
                    targets@[j],
                    width as int,
                    height as int,
                    label_widths@,
                    buttons@,
                    j,
                ),
        decreases n - k,
    {
        let tw = label_widths[k];
        if cursor < tw || cursor - tw < 3 * HORIZONTAL_PADDING {
            proof {
                lemma_cursor_non_increasing(width as int, label_widths@, k as int + 1, n as int);
            }
            return None;
        }
        let button_width = tw + 2 * HORIZONTAL_PADDING;
        let x = cursor - button_width - HORIZONTAL_PADDING;
        let handler = if k == 0 {
            ClickHandler::Exit
        } else {
            ClickHandler::RunCommand(buttons[k - 1].action.clone())
        };
        targets.push(
            ClickTarget { position: (x, VERTICAL_PADDING), size: (button_width, block_height), handler },
        );
        cursor = x;
        k = k + 1;
    }
    Some(targets)
}

/// Where a label's glyphs start inside its target: one padding in from the
/// block's left edge, and half of what the block height leaves above a text
/// `text_half_px / 2` pixels high (none where the text is taller).
pub open spec fn label_origin_spec(t: ClickTarget, text_half_px: u32) -> (int, int) {
    let room = 2 * t.size.1 - text_half_px;
    (t.position.0 + HORIZONTAL_PADDING, if room >= 0 {
        room / 4
    } else {
        0
    })
}

pub fn label_origin(t: &ClickTarget, text_half_px: u32) -> (r: (usize, usize))
    requires
        t.position.0 + HORIZONTAL_PADDING <= usize::MAX,
    ensures
        (r.0 as int, r.1 as int) == label_origin_spec(*t, text_half_px),
{
    let doubled = 2 * (t.size.1 as u128);
    let y: usize = if doubled >= text_half_px as u128 {
        ((doubled - text_half_px as u128) / 4) as usize
    } else {
        0
    };
    (t.position.0 + HORIZONTAL_PADDING, y)
}

/// Where the message's glyphs start: one padding from the left edge, and half
/// the text height above the middle of the surface.
pub open spec fn message_origin_spec(height: u32, text_half_px: u32) -> (int, int) {
    let top = height / 2 - text_half_px / 4;
    (HORIZONTAL_PADDING as int, if top >= 0 {
        top
    } else {
        0
    })
}

pub fn message_origin(height: u32, text_half_px: u32) -> (r: (usize, usize))
    ensures
        (r.0 as int, r.1 as int) == message_origin_spec(height, text_half_px),
{
    let middle = height / 2;
    let half_text = text_half_px / 4;
    let top: usize = if middle >= half_text {
        (middle - half_text) as usize
    } else {
        0
    };
    (HORIZONTAL_PADDING, top)
}

/// A laid-out row has one target per label (the dismiss control and each
/// button), packed strictly from right to left without overlap, each inside
/// the surface, with the dismiss target rightmost and bound to exit.
pub proof fn lemma_row_geometry(
    targets: Seq<ClickTarget>,
    width: u32,
    height: u32,
    label_widths: Seq<usize>,
    buttons: Seq<ArgButton>,
)
    requires
        row_fits(width as int, height as int, label_widths),
        label_widths.len() == buttons.len() + 1,
        targets.len() == label_widths.len(),
        forall|k: int|
            0 <= k < targets.len() ==> #[trigger] laid_out(
                targets[k],
                width as int,
                height as int,
                label_widths,
                buttons,
                k,
            ),
    ensures
        targets.len() == buttons.len() + 1,
        forall|k: int|
            0 <= k < targets.len() ==> {
                &&& 0 <= (#[trigger] targets[k]).position.0
                &&& targets[k].position.0 + targets[k].size.0 <= width
                &&& targets[k].position.1 + targets[k].size.1 <= height
            },
        forall|j: int, k: int|
            0 <= j < k < targets.len() ==> #[trigger] targets[k].position.0 + targets[k].size.0
                < #[trigger] targets[j].position.0,
        targets[0].position.0 + targets[0].size.0 == width - HORIZONTAL_PADDING,
        command_of(targets[0].handler) is None,
{
    let n = targets.len() as int;
    assert forall|k: int| 0 <= k < n implies {
        &&& 0 <= (#[trigger] targets[k]).position.0
        &&& targets[k].position.0 + targets[k].size.0 <= width
        &&& targets[k].position.1 + targets[k].size.1 <= height
    } by {
        assert(laid_out(targets[k], width as int, height as int, label_widths, buttons, k));
        lemma_cursor_non_increasing(width as int, label_widths, k + 1, n);
        lemma_cursor_non_increasing(width as int, label_widths, 0, k);
    }
    assert forall|j: int, k: int| 0 <= j < k < n implies #[trigger] targets[k].position.0
        + targets[k].size.0 < #[trigger] targets[j].position.0 by {
        assert(laid_out(targets[k], width as int, height as int, label_widths, buttons, k));
        assert(laid_out(targets[j], width as int, height as int, label_widths, buttons, j));
        lemma_cursor_non_increasing(width as int, label_widths, j + 1, k);
    }
    assert(laid_out(targets[0], width as int, height as int, label_widths, buttons, 0));
    assert(cursor_before(width as int, label_widths, 0) == width);
    assert(cursor_before(width as int, label_widths, 1) == width - block_width(
        label_widths[0] as int,
    ) - HORIZONTAL_PADDING);
}

/// A non-empty target contains its top-left corner, and neither the point one
/// width to the right nor the point one height below.
pub proof fn lemma_hit_edges(t: ClickTarget)
    requires
        t.size.0 > 0,
        t.size.1 > 0,
    ensures
        t.contains(t.position.0 as int, t.position.1 as int),
        !t.contains(t.position.0 + t.size.0, t.position.1 as int),
        !t.contains(t.position.0 as int, t.position.1 + t.size.1),
{
}

/// A target appended after the others wins every point it contains, whatever
/// earlier targets contain it too.
pub proof fn lemma_last_appended_wins(targets: Seq<ClickTarget>, t: ClickTarget, x: int, y: int)
    requires
        t.contains(x, y),
    ensures
        last_hit(targets.push(t), x, y, targets.len() + 1 as int) == Some(targets.len() as int),
{
    assert(targets.push(t)[targets.len() as int] == t);
}

} // verus!
