use vstd::prelude::*;
use crate::args::Args;
use crate::event::RenderEvent;
use crate::layout::{
    command_of,
    find_handler,
    last_hit,
    laid_out,
    layout,
    lemma_row_geometry,
    row_fits,
    text_half_px,
    text_half_px_spec,
    ClickHandler,
    ClickTarget,
};
use crate::raster::{frame_pixels, rasterize};

verus! {

/// How a surface is presented.
#[derive(PartialEq, Eq, Structural, Clone, Copy, Debug)]
pub enum Mode {
    /// A strip anchored to the top of an output; text height is capped.
    Bar,
    /// A normal floating window; text height is half the surface height.
    Window,
}

/// What the outer loop does with a surface after its events are handled.
#[derive(PartialEq, Eq, Structural, Clone, Copy, Debug)]
pub enum Step {
    /// Tear the surface down.
    Drop,
    /// The geometry changed: measure the labels and redraw.
    Draw,
    /// Nothing to do.
    Idle,
}

/// A pointer notification, coordinates rounded down to whole pixels.
#[derive(PartialEq, Eq, Structural, Clone, Copy, Debug)]
pub enum PointerEvent {
    /// The pointer entered the surface or moved over it.
    Moved { x: i64, y: i64 },
    /// A button was pressed.
    Pressed,
    /// Anything else.
    Other,
}

/// The state of one on-screen surface.
pub struct SurfaceState {
    pub args: Args,
    pub mode: Mode,
    pub dimensions: (u32, u32),
    /// Last known pointer position.
    pub pointer_location: Option<(i64, i64)>,
    /// The user asked to exit.
    pub should_exit: bool,
    /// The targets of the most recent layout.
    pub click_targets: Vec<ClickTarget>,
}

/// What a press at the pointer does: `None` where it hits nothing, else the
/// hit target's command (`None` inside it for the dismiss control).
pub open spec fn press_action(
    targets: Seq<ClickTarget>,
    pointer: Option<(i64, i64)>,
) -> Option<Option<Seq<char>>> {
    match pointer {
        None => None,
        Some(p) => match last_hit(targets, p.0 as int, p.1 as int, targets.len() as int) {
            None => None,
            Some(k) => Some(command_of(targets[k].handler)),
        },
    }
}

impl SurfaceState {
    pub fn new(args: Args, mode: Mode) -> (r: SurfaceState)
        ensures
            r.args == args,
            r.mode == mode,
            r.dimensions == (0u32, 0u32),
            r.pointer_location is None,
            !r.should_exit,
            r.click_targets@.len() == 0,
    {
        SurfaceState {
            args,
            mode,
            dimensions: (0, 0),
            pointer_location: None,
            should_exit: false,
            click_targets: Vec::new(),
        }
    }

    /// Applies the event taken from the surface's slot: `Closed` drops the
    /// surface, `Configure` stores the new size and asks for a redraw, and
    /// with nothing pending the surface is dropped once the user asked to exit.
    pub fn handle_events(&mut self, event: Option<RenderEvent>) -> (r: Step)
        ensures
            match event {
                Some(RenderEvent::Closed) => r == Step::Drop && *final(self) == *old(self),
                Some(RenderEvent::Configure { width, height }) => {
                    &&& r == Step::Draw
                    &&& *final(self) == (SurfaceState { dimensions: (width, height), ..*old(self) })
                },
                None => {
                    &&& r == if old(self).should_exit {
                        Step::Drop
                    } else {
                        Step::Idle
                    }
                    &&& *final(self) == *old(self)
                },
            },
    {
        match event {
            Some(RenderEvent::Closed) => Step::Drop,
            Some(RenderEvent::Configure { width, height }) => {
                self.dimensions = (width, height);
                Step::Draw
            },
            None => if self.should_exit {
                Step::Drop
            } else {
                Step::Idle
            },
        }
    }

    /// The text height for the current size, in half pixels.
    pub fn text_half_px(&self) -> (r: u32)
        ensures
            r == text_half_px_spec(self.mode == Mode::Bar, self.dimensions.1),
    {
        text_half_px(self.mode == Mode::Bar, self.dimensions.1)
    }

    /// Lays the row out again at the current size, replacing the registry,
    /// and draws the flat-coloured frame. `label_widths` holds the measured
    /// width of the dismiss label and then of each button's label. Where the
    /// row does not fit the registry is left empty.
    pub fn redraw(&mut self, label_widths: &Vec<usize>) -> (r: Vec<u8>)
        requires
            label_widths@.len() == old(self).args.buttons@.len() + 1,
            4 * old(self).dimensions.0 * old(self).dimensions.1 <= usize::MAX,
        ensures
            ({
                let (w, h) = old(self).dimensions;
                &&& row_fits(w as int, h as int, label_widths@) ==> {
                    &&& final(self).click_targets@.len() == label_widths@.len()
                    &&& forall|k: int|
                        0 <= k < label_widths@.len() ==> #[trigger] laid_out(
                            final(self).click_targets@[k],
                            w as int,
                            h as int,
                            label_widths@,
                            old(self).args.buttons@,
                            k,
                        )
                }
                &&& !row_fits(w as int, h as int, label_widths@)
                    ==> final(self).click_targets@.len() == 0
                &&& r@ == frame_pixels(w, h, final(self).click_targets@)
            }),
            final(self).args == old(self).args,
            final(self).mode == old(self).mode,
            final(self).dimensions == old(self).dimensions,
            final(self).pointer_location == old(self).pointer_location,
            final(self).should_exit == old(self).should_exit,
    {
        let (w, h) = self.dimensions;
        match layout(w, h, label_widths, &self.args.buttons) {
            Some(targets) => {
                proof {
                    lemma_row_geometry(targets@, w, h, label_widths@, self.args.buttons@);
                }
                self.click_targets = targets;
            },
            None => {
                self.click_targets = Vec::new();
            },
        }
        rasterize(w, h, &self.click_targets)
    }

    /// Follows the pointer and resolves presses against the registry, the
    /// last target that contains the pointer winning. A hit on the dismiss
    /// control sets the exit flag; a hit on a button returns its command,
    /// which the caller launches through the shell.
    pub fn handle_pointer_event(&mut self, event: PointerEvent) -> (r: Option<String>)
        ensures
            match event {
                PointerEvent::Moved { x, y } => {
                    &&& r is None
                    &&& *final(self) == (SurfaceState {
                        pointer_location: Some((x, y)),
                        ..*old(self)
                    })
                },
                PointerEvent::Other => r is None && *final(self) == *old(self),
                PointerEvent::Pressed => match press_action(
                    old(self).click_targets@,
                    old(self).pointer_location,
                ) {
                    None => r is None && *final(self) == *old(self),
                    Some(None) => {
                        &&& r is None
                        &&& *final(self) == (SurfaceState { should_exit: true, ..*old(self) })
                    },
                    Some(Some(c)) => {
                        &&& r matches Some(s) && s@ == c
                        &&& *final(self) == *old(self)
                    },
                },
            },
    {
        match event {
            PointerEvent::Moved { x, y } => {
                self.pointer_location = Some((x, y));
                None
            },
            PointerEvent::Other => None,
            PointerEvent::Pressed => {
                let found = match self.pointer_location {
                    Some(p) => find_handler(&self.click_targets, p),
                    None => None,
                };
                match found {
                    Some(ClickHandler::Exit) => {
                        self.should_exit = true;
                        None
                    },
                    Some(ClickHandler::RunCommand(cmd)) => Some(cmd),
                    None => None,
                }
            },
        }
    }
}

} // verus!
