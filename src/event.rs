use vstd::prelude::*;

verus! {

/// A lifecycle or geometry notification for one surface.
#[derive(PartialEq, Eq, Structural, Clone, Copy, Debug)]
pub enum RenderEvent {
    Configure { width: u32, height: u32 },
    Closed,
}

/// The pending event after `incoming` arrives while `pending` is unread:
/// `Closed` always wins, a newer `Configure` replaces an older one, and a
/// `Configure` that arrives after `Closed` is dropped.
pub open spec fn coalesce(pending: Option<RenderEvent>, incoming: RenderEvent) -> Option<RenderEvent> {
    match incoming {
        RenderEvent::Closed => Some(RenderEvent::Closed),
        RenderEvent::Configure { .. } => if pending == Some(RenderEvent::Closed) {
            pending
        } else {
            Some(incoming)
        },
    }
}

/// Holds at most one pending render event for a surface.
pub struct RenderEventSlot {
    pub pending: Option<RenderEvent>,
}

impl RenderEventSlot {
    pub fn new() -> (r: RenderEventSlot)
        ensures
            r.pending is None,
    {
        RenderEventSlot { pending: None }
    }

    /// Records a notification; returns whether it was kept (a `Configure` that
    /// arrives once `Closed` is pending is not).
    pub fn offer(&mut self, incoming: RenderEvent) -> (accepted: bool)
        ensures
            final(self).pending == coalesce(old(self).pending, incoming),
            accepted == (final(self).pending == Some(incoming)),
    {
        match incoming {
            RenderEvent::Closed => {
                self.pending = Some(RenderEvent::Closed);
                true
            },
            RenderEvent::Configure { .. } => {
                if self.pending == Some(RenderEvent::Closed) {
                    false
                } else {
                    self.pending = Some(incoming);
                    true
                }
            },
        }
    }

    /// Hands out the pending event and leaves the slot empty.
    pub fn take(&mut self) -> (r: Option<RenderEvent>)
        ensures
            r == old(self).pending,
            final(self).pending is None,
    {
        let r = self.pending;
        self.pending = None;
        r
    }
}

/// A newer `Configure` replaces an older pending one, so unless `Closed` is
/// already pending, reading after two of them yields the second.
pub proof fn lemma_configure_replaces_configure(
    pending: Option<RenderEvent>,
    w1: u32,
    h1: u32,
    w2: u32,
    h2: u32,
)
    requires
        pending != Some(RenderEvent::Closed),
    ensures
        coalesce(
            coalesce(pending, RenderEvent::Configure { width: w1, height: h1 }),
            RenderEvent::Configure { width: w2, height: h2 },
        ) == Some(RenderEvent::Configure { width: w2, height: h2 }),
{
}

/// Once `Closed` has arrived, whatever was pending before it and however many
/// `Configure` notifications follow, reading yields `Closed`.
pub proof fn lemma_closed_is_kept(
    pending: Option<RenderEvent>,
    before: RenderEvent,
    after: Seq<RenderEvent>,
)
    requires
        forall|i: int| 0 <= i < after.len() ==> after[i] is Configure,
    ensures
        coalesce_all(coalesce(coalesce(pending, before), RenderEvent::Closed), after) == Some(
            RenderEvent::Closed,
        ),
    decreases after.len(),
{
    lemma_closed_absorbs_configures(after);
}

/// The pending event after a sequence of notifications, in order.
pub open spec fn coalesce_all(pending: Option<RenderEvent>, events: Seq<RenderEvent>) -> Option<
    RenderEvent,
>
    decreases events.len(),
{
    if events.len() == 0 {
        pending
    } else {
        coalesce_all(coalesce(pending, events[0]), events.drop_first())
    }
}

proof fn lemma_closed_absorbs_configures(events: Seq<RenderEvent>)
    requires
        forall|i: int| 0 <= i < events.len() ==> events[i] is Configure,
    ensures
        coalesce_all(Some(RenderEvent::Closed), events) == Some(RenderEvent::Closed),
    decreases events.len(),
{
    if events.len() > 0 {
        assert(events[0] is Configure);
        let rest = events.drop_first();
        assert forall|i: int| 0 <= i < rest.len() implies rest[i] is Configure by {
            assert(rest[i] == events[i + 1]);
        }
        lemma_closed_absorbs_configures(rest);
    }
}

/// A notification for a floating window.
#[derive(Clone, Copy, Debug)]
pub enum WindowEvent {
    /// A new size, or none where the window keeps its own.
    Configure { size: Option<(u32, u32)> },
    Refresh,
    Close,
}

/// The pending window event after `incoming` arrives, kept in priority order
/// `Close` over `Configure` over `Refresh`, and a newer `Configure` over an older one.
pub open spec fn coalesce_window(pending: Option<WindowEvent>, incoming: WindowEvent) -> Option<
    WindowEvent,
> {
    let replace = match (incoming, pending) {
        (_, None) => true,
        (_, Some(WindowEvent::Refresh)) => true,
        (WindowEvent::Configure { .. }, Some(WindowEvent::Configure { .. })) => true,
        (WindowEvent::Close, _) => true,
        _ => false,
    };
    if replace {
        Some(incoming)
    } else {
        pending
    }
}

/// Holds at most one pending event for a floating window.
pub struct WindowEventSlot {
    pub pending: Option<WindowEvent>,
}

impl WindowEventSlot {
    pub fn new() -> (r: WindowEventSlot)
        ensures
            r.pending is None,
    {
        WindowEventSlot { pending: None }
    }

    pub fn offer(&mut self, incoming: WindowEvent)
        ensures
            final(self).pending == coalesce_window(old(self).pending, incoming),
    {
        let replace = match (incoming, self.pending) {
            (_, None) => true,
            (_, Some(WindowEvent::Refresh)) => true,
            (WindowEvent::Configure { .. }, Some(WindowEvent::Configure { .. })) => true,
            (WindowEvent::Close, _) => true,
            _ => false,
        };
        if replace {
            self.pending = Some(incoming);
        }
    }

    pub fn take(&mut self) -> (r: Option<WindowEvent>)
        ensures
            r == old(self).pending,
            final(self).pending is None,
    {
        let r = self.pending;
        self.pending = None;
        r
    }
}

} // verus!
