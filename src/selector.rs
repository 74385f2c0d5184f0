use vstd::prelude::*;

use crate::error::CaptureError;
use crate::geometry::{corner_rect, get_capture_rect, Point, Rect};

verus! {

/// An input event as the selector sees it.
#[derive(Clone, Copy, Debug, PartialEq, Eq, Structural)]
pub enum PointerEvent {
    Down(Point),
    Move(Point),
    Up(Point),
    /// Escape key or quit signal.
    Cancel,
    /// Any event the selector ignores.
    Other,
}

/// The state of the region selection.
#[derive(Clone, Copy, Debug, PartialEq, Eq, Structural)]
pub enum Selection {
    Idle,
    Dragging { anchor: Point },
    Done { rect: Rect },
    Cancelled,
}

/// What the overlay should draw after an event.
#[derive(Clone, Copy, Debug, PartialEq, Eq, Structural)]
pub enum DrawRequest {
    Nothing,
    /// Present the cleared overlay.
    Present,
    /// Clear the overlay, fill this rectangle, and present.
    Preview(Rect),
}

impl Selection {
    pub open spec fn is_terminal(self) -> bool {
        self is Done || self is Cancelled
    }
}

/// The state after one event.
pub open spec fn next_selection(s: Selection, e: PointerEvent) -> Selection {
    if s.is_terminal() {
        s
    } else {
        match e {
            PointerEvent::Cancel => Selection::Cancelled,
            PointerEvent::Down(p) => Selection::Dragging { anchor: p },
            PointerEvent::Up(p) => match s {
                Selection::Dragging { anchor } => Selection::Done { rect: corner_rect(anchor, p) },
                _ => s,
            },
            _ => s,
        }
    }
}

/// The drawing requested after one event.
pub open spec fn draw_for(s: Selection, e: PointerEvent) -> DrawRequest {
    if s.is_terminal() {
        DrawRequest::Nothing
    } else {
        match e {
            PointerEvent::Down(_) => DrawRequest::Present,
            PointerEvent::Move(p) => match s {
                Selection::Dragging { anchor } => DrawRequest::Preview(corner_rect(p, anchor)),
                _ => DrawRequest::Nothing,
            },
            _ => DrawRequest::Nothing,
        }
    }
}

/// The state after a whole sequence of events.
pub open spec fn run_selection(s: Selection, events: Seq<PointerEvent>) -> Selection
    decreases events.len(),
{
    if events.len() == 0 {
        s
    } else {
        run_selection(next_selection(s, events[0]), events.drop_first())
    }
}

/// The outcome of a selection in a given state.
pub open spec fn selection_outcome(s: Selection) -> Result<Rect, CaptureError> {
    match s {
        Selection::Done { rect } => Ok(rect),
        _ => Err(CaptureError::SelectionAborted),
    }
}

/// Whether the selection has ended, with or without a rectangle.
pub fn is_finished(state: Selection) -> (r: bool)
    ensures
        r == state.is_terminal(),
{
    matches!(state, Selection::Done { .. } | Selection::Cancelled)
}

/// Advances the selection by one event and says what to draw.
pub fn step(state: Selection, event: PointerEvent) -> (r: (Selection, DrawRequest))
    ensures
        r.0 == next_selection(state, event),
        r.1 == draw_for(state, event),
{
    if is_finished(state) {
        return (state, DrawRequest::Nothing);
    }
    match event {
        PointerEvent::Cancel => (Selection::Cancelled, DrawRequest::Nothing),
        PointerEvent::Down(p) => (Selection::Dragging { anchor: p }, DrawRequest::Present),
        PointerEvent::Move(p) => match state {
            Selection::Dragging { anchor } => (state, DrawRequest::Preview(get_capture_rect(&p, &anchor))),
            _ => (state, DrawRequest::Nothing),
        },
        PointerEvent::Up(p) => match state {
            Selection::Dragging { anchor } => (
                Selection::Done { rect: get_capture_rect(&anchor, &p) },
                DrawRequest::Nothing,
            ),
            _ => (state, DrawRequest::Nothing),
        },
        PointerEvent::Other => (state, DrawRequest::Nothing),
    }
}

/// The selected rectangle, or `SelectionAborted` when the selection did not
/// complete.
pub fn finish_selection(state: Selection) -> (r: Result<Rect, CaptureError>)
    ensures
        r == selection_outcome(state),
{
    match state {
        Selection::Done { rect } => Ok(rect),
        _ => Err(CaptureError::SelectionAborted),
    }
}

proof fn lemma_run_terminal(s: Selection, events: Seq<PointerEvent>)
    requires
        s.is_terminal(),
    ensures
        run_selection(s, events) == s,
    decreases events.len(),
{
    if events.len() > 0 {
        lemma_run_terminal(next_selection(s, events[0]), events.drop_first());
    }
}

/// Feeds the events, in order, to a selection that starts idle, and returns
/// the selected rectangle.
pub fn select_region(events: &Vec<PointerEvent>) -> (r: Result<Rect, CaptureError>)
    ensures
        r == selection_outcome(run_selection(Selection::Idle, events@)),
{
    let mut state = Selection::Idle;
    let mut i: usize = 0;
    assert(events@.subrange(0, events@.len() as int) =~= events@);
    while i < events.len() && !is_finished(state)
        invariant
            i <= events@.len(),
            run_selection(state, events@.subrange(i as int, events@.len() as int))
                == run_selection(Selection::Idle, events@),
        decreases events@.len() - i,
    {
        let ghost rest = events@.subrange(i as int, events@.len() as int);
        assert(rest.drop_first() =~= events@.subrange(i + 1, events@.len() as int));
        let (next, _) = step(state, events[i]);
        state = next;
        i = i + 1;
    }
    proof {
        let rest = events@.subrange(i as int, events@.len() as int);
        if state.is_terminal() {
            lemma_run_terminal(state, rest);
        } else {
            assert(rest =~= Seq::<PointerEvent>::empty());
        }
    }
    finish_selection(state)
}

/// The direction of a drag does not matter: pressing at one corner and
/// releasing at the other selects the same rectangle either way round.
pub proof fn lemma_drag_direction_irrelevant(p1: Point, p2: Point)
    ensures
        run_selection(Selection::Idle, seq![PointerEvent::Down(p1), PointerEvent::Up(p2)])
            == run_selection(Selection::Idle, seq![PointerEvent::Down(p2), PointerEvent::Up(p1)]),
        selection_outcome(run_selection(Selection::Idle, seq![PointerEvent::Down(p1), PointerEvent::Up(p2)]))
            == Ok::<Rect, CaptureError>(corner_rect(p1, p2)),
{
    let a = seq![PointerEvent::Down(p1), PointerEvent::Up(p2)];
    let b = seq![PointerEvent::Down(p2), PointerEvent::Up(p1)];
    assert(a.drop_first().drop_first() =~= Seq::<PointerEvent>::empty());
    assert(b.drop_first().drop_first() =~= Seq::<PointerEvent>::empty());
    reveal_with_fuel(run_selection, 3);
    crate::geometry::lemma_corner_rect_symmetric(p1, p2);
}

} // verus!
