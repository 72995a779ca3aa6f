use vstd::prelude::*;

use crate::chord::{chord_step, MultiKey, MultiKeyResult, MultiKeyView};
use crate::event::{
    EventResult, KeyCode, KeyEvent, Modifiers, MouseButton, MouseEvent, MouseEventKind,
};
use crate::geometry::Rect;

verus! {

/// The direction of the most recent actual index change. It decides which
/// edge of the window the selection is pinned to when the window has to
/// move, and it never changes on a no-op.
#[derive(Clone, Copy, Debug, PartialEq, Eq, Structural)]
pub enum ScrollDirection {
    Up,
    Down,
}

/// The window start remembered from the previous query, together with the
/// geometry it was computed for; a geometry change invalidates it.
struct WindowIndex {
    index: usize,
    cached_area: Rect,
}

/// A scrollable selection over a counted list of rows: the logical selected
/// index, the cached viewport window, the double-tap shortcut matcher, and
/// the panel bounds that mouse input is tested against.
///
/// The index can only be moved through the navigation operations, which keep
/// it inside the list whenever the list is non-empty.
pub struct Scrollable {
    current_index: usize,
    window_index: WindowIndex,
    scroll_direction: ScrollDirection,
    num_items: usize,
    gg_manager: MultiKey,
    bounds: Rect,
}

/// The abstract state of a [`Scrollable`], the vocabulary of every contract
/// below.
pub ghost struct ScrollableView {
    pub index: int,
    pub num_items: int,
    pub window_start: int,
    pub cached_area: Rect,
    pub direction: ScrollDirection,
    pub chord: MultiKeyView,
    pub bounds: Rect,
}

impl ScrollableView {
    /// The structural invariant of every reachable state: the index lies
    /// inside the list when the list is non-empty, is pinned to zero when it
    /// is empty, and the chord matcher is well formed.
    pub open spec fn wf(self) -> bool {
        &&& 0 <= self.index
        &&& 0 <= self.num_items
        &&& 0 <= self.window_start
        &&& (self.num_items > 0 ==> self.index < self.num_items)
        &&& (self.num_items == 0 ==> self.index == 0)
        &&& self.chord.wf()
    }
}

impl View for Scrollable {
    type V = ScrollableView;

    closed spec fn view(&self) -> ScrollableView {
        ScrollableView {
            index: self.current_index as int,
            num_items: self.num_items as int,
            window_start: self.window_index.index as int,
            cached_area: self.window_index.cached_area,
            direction: self.scroll_direction,
            chord: self.gg_manager@,
            bounds: self.bounds,
        }
    }
}

/// The parts of the state that no navigation operation touches.
pub open spec fn geom_frame(pre: ScrollableView, post: ScrollableView) -> bool {
    &&& post.num_items == pre.num_items
    &&& post.window_start == pre.window_start
    &&& post.cached_area == pre.cached_area
    &&& post.bounds == pre.bounds
}

/// The chord matcher was not touched.
pub open spec fn chord_frame(pre: ScrollableView, post: ScrollableView) -> bool {
    post.chord == pre.chord
}

/// The selection did not move: neither the index nor the direction changed.
pub open spec fn sel_frame(pre: ScrollableView, post: ScrollableView) -> bool {
    &&& post.index == pre.index
    &&& post.direction == pre.direction
}

/// An input the router ignores: nothing changes and no redraw is asked for.
pub open spec fn ignored(pre: ScrollableView, post: ScrollableView, r: EventResult) -> bool {
    &&& sel_frame(pre, post)
    &&& chord_frame(pre, post)
    &&& r == EventResult::NoRedraw
}

/// Moving down by `n`: the move happens exactly when it actually changes the
/// index and lands strictly inside the list — an overshoot is rejected
/// outright, not clamped — and only then is a redraw asked for.
pub open spec fn down_step(
    pre: ScrollableView,
    post: ScrollableView,
    n: int,
    r: EventResult,
) -> bool {
    if pre.num_items > 0 && n > 0 && pre.index + n < pre.num_items {
        &&& post.index == pre.index + n
        &&& post.direction == ScrollDirection::Down
        &&& r == EventResult::Redraw
    } else {
        &&& sel_frame(pre, post)
        &&& r == EventResult::NoRedraw
    }
}

/// Moving up by `n`, flooring at zero: a no-op exactly when the index is
/// already at the top or `n` is zero.
pub open spec fn up_step(
    pre: ScrollableView,
    post: ScrollableView,
    n: int,
    r: EventResult,
) -> bool {
    if pre.index > 0 && n > 0 {
        &&& post.index == (if n <= pre.index {
            pre.index - n
        } else {
            0
        })
        &&& post.direction == ScrollDirection::Up
        &&& r == EventResult::Redraw
    } else {
        &&& sel_frame(pre, post)
        &&& r == EventResult::NoRedraw
    }
}

/// Jumping to the first row: a move (upward) exactly when the index was not
/// already zero.
pub open spec fn top_step(pre: ScrollableView, post: ScrollableView, r: EventResult) -> bool {
    if pre.index != 0 {
        &&& post.index == 0
        &&& post.direction == ScrollDirection::Up
        &&& r == EventResult::Redraw
    } else {
        &&& sel_frame(pre, post)
        &&& r == EventResult::NoRedraw
    }
}

/// Jumping to the last row: a move (downward) exactly when the list is
/// non-empty and the index was not already on its last row.
pub open spec fn bottom_step(pre: ScrollableView, post: ScrollableView, r: EventResult) -> bool {
    if pre.num_items > 0 && pre.index != pre.num_items - 1 {
        &&& post.index == pre.num_items - 1
        &&& post.direction == ScrollDirection::Down
        &&& r == EventResult::Redraw
    } else {
        &&& sel_frame(pre, post)
        &&& r == EventResult::NoRedraw
    }
}

/// The window start a query computes from the scroll direction, the selected
/// index, the start carried over (`start`), and the visible row count.
///
/// The window moves minimally: it is kept wherever the selection is already
/// visible, and otherwise moved just far enough to pin the selection to the
/// edge the scroll came from — the last visible row when scrolling down, the
/// first when scrolling up.
///
/// With no visible row there is nothing to contain, so the degenerate query
/// is a no-op: the carried-over start is kept rather than chased after the
/// index.
pub open spec fn next_window_start(
    direction: ScrollDirection,
    index: int,
    start: int,
    visible: int,
) -> int {
    if visible <= 0 {
        start
    } else {
        match direction {
            ScrollDirection::Down => {
                if index < start + visible {
                    start
                } else if index >= visible {
                    index - visible + 1
                } else {
                    0
                }
            },
            ScrollDirection::Up => {
                if index <= start {
                    index
                } else if index >= start + visible {
                    index - visible + 1
                } else {
                    start
                }
            },
        }
    }
}

/// The start a window query begins from: the cached one while the geometry
/// token still matches, and zero once it does not.
pub open spec fn effective_start(v: ScrollableView) -> int {
    if v.cached_area == v.bounds {
        v.window_start
    } else {
        0
    }
}

/// The selected row's offset inside the window, derived on demand and never
/// stored, so that the visual selection cannot drift from the logical one.
pub open spec fn visual_offset_of(v: ScrollableView) -> int {
    if v.index >= v.window_start {
        v.index - v.window_start
    } else {
        0
    }
}

/// Feeding 'g' into the chord matcher: the matcher advances exactly as
/// `chord_step` says, a completed chord jumps to the first row, and anything
/// short of completion changes nothing visible.
pub open spec fn g_step(pre: ScrollableView, post: ScrollableView, r: EventResult) -> bool {
    let step = chord_step(pre.chord.keys, pre.chord.progress, 'g');
    &&& post.chord.keys == pre.chord.keys
    &&& post.chord.progress == step.0
    &&& (if step.1 == MultiKeyResult::Completed {
        top_step(pre, post, r)
    } else {
        sel_frame(pre, post) && r == EventResult::NoRedraw
    })
}

/// The keyboard mapping: Down/Up (unmodified) and 'j'/'k' move by one, 'g'
/// feeds the double-tap matcher, 'G' jumps to the last row; only unmodified
/// and shift-only events are honored, and everything else is ignored.
pub open spec fn key_step(
    pre: ScrollableView,
    post: ScrollableView,
    ev: KeyEvent,
    r: EventResult,
) -> bool {
    if ev.modifiers == Modifiers::Unmodified || ev.modifiers == Modifiers::Shift {
        match ev.code {
            KeyCode::Down => if ev.modifiers == Modifiers::Unmodified {
                chord_frame(pre, post) && down_step(pre, post, 1, r)
            } else {
                ignored(pre, post, r)
            },
            KeyCode::Up => if ev.modifiers == Modifiers::Unmodified {
                chord_frame(pre, post) && up_step(pre, post, 1, r)
            } else {
                ignored(pre, post, r)
            },
            KeyCode::Char(c) => if c == 'j' {
                chord_frame(pre, post) && down_step(pre, post, 1, r)
            } else if c == 'k' {
                chord_frame(pre, post) && up_step(pre, post, 1, r)
            } else if c == 'g' {
                g_step(pre, post, r)
            } else if c == 'G' {
                chord_frame(pre, post) && bottom_step(pre, post, r)
            } else {
                ignored(pre, post, r)
            },
            KeyCode::Other => ignored(pre, post, r),
        }
    } else {
        ignored(pre, post, r)
    }
}

/// The mouse mapping, honored only while the pointer falls inside the
/// bounds: a left press moves the selection to the pressed row (measured
/// against the derived visual offset) and the wheel moves by one.
/// Everything else — any event outside the bounds included — is ignored.
pub open spec fn mouse_step(
    pre: ScrollableView,
    post: ScrollableView,
    ev: MouseEvent,
    r: EventResult,
) -> bool {
    match ev.kind {
        MouseEventKind::Press(button) => {
            if button == MouseButton::Left
                && pre.bounds.contains_spec(ev.column as int, ev.row as int) {
                let target = ev.row - pre.bounds.y;
                let selected = visual_offset_of(pre);
                if target > selected {
                    down_step(pre, post, target - selected, r)
                } else if target < selected {
                    up_step(pre, post, selected - target, r)
                } else {
                    sel_frame(pre, post) && r == EventResult::NoRedraw
                }
            } else {
                sel_frame(pre, post) && r == EventResult::NoRedraw
            }
        },
        MouseEventKind::ScrollDown => if pre.bounds.contains_spec(
            ev.column as int,
            ev.row as int,
        ) {
            down_step(pre, post, 1, r)
        } else {
            sel_frame(pre, post) && r == EventResult::NoRedraw
        },
        MouseEventKind::ScrollUp => if pre.bounds.contains_spec(ev.column as int, ev.row as int) {
            up_step(pre, post, 1, r)
        } else {
            sel_frame(pre, post) && r == EventResult::NoRedraw
        },
        MouseEventKind::Other => sel_frame(pre, post) && r == EventResult::NoRedraw,
    }
}

impl Scrollable {
    /// Creates a selection over `num_items` rows: index zero, an untouched
    /// window, scroll direction down, and a 'g''g' double-tap matcher.
    pub fn new(num_items: usize) -> (r: Self)
        ensures
            r@.wf(),
            r@.index == 0,
            r@.num_items == num_items as int,
            r@.window_start == 0,
            r@.cached_area == (Rect { x: 0, y: 0, width: 0, height: 0 }),
            r@.direction == ScrollDirection::Down,
            r@.bounds == (Rect { x: 0, y: 0, width: 0, height: 0 }),
            r@.chord.keys.len() == 2,
            r@.chord.keys[0] == 'g',
            r@.chord.keys[1] == 'g',
            r@.chord.progress == 0,
    {
        let mut keys: Vec<char> = Vec::new();
        keys.push('g');
        keys.push('g');
        Scrollable {
            current_index: 0,
            window_index: WindowIndex { index: 0, cached_area: Rect::default() },
            scroll_direction: ScrollDirection::Down,
            num_items,
            gg_manager: MultiKey::register(keys),
            bounds: Rect::default(),
        }
    }

    /// The currently selected index.
    pub fn index(&self) -> (r: usize)
        ensures
            r as int == self@.index,
    {
        self.current_index
    }

    /// How many rows the selection ranges over.
    pub fn num_items(&self) -> (r: usize)
        ensures
            r as int == self@.num_items,
    {
        self.num_items
    }

    /// The panel rectangle mouse input is tested against.
    pub fn bounds(&self) -> (r: Rect)
        ensures
            r == self@.bounds,
    {
        self.bounds
    }

    /// Moves the panel: the new rectangle also acts as the geometry token,
    /// so a change makes the next window query start over from zero.
    pub fn set_bounds(&mut self, new_bounds: Rect)
        requires
            old(self)@.wf(),
        ensures
            final(self)@.wf(),
            final(self)@.bounds == new_bounds,
            final(self)@.index == old(self)@.index,
            final(self)@.num_items == old(self)@.num_items,
            final(self)@.window_start == old(self)@.window_start,
            final(self)@.cached_area == old(self)@.cached_area,
            final(self)@.direction == old(self)@.direction,
            chord_frame(old(self)@, final(self)@),
    {
        self.bounds = new_bounds;
    }

    /// Sets a new index, recording the direction of an actual change; an
    /// equal index leaves everything, the direction included, untouched.
    fn update_index(&mut self, new_index: usize)
        ensures
            final(self)@.index == new_index as int,
            final(self)@.direction == (if (new_index as int) > old(self)@.index {
                ScrollDirection::Down
            } else if (new_index as int) < old(self)@.index {
                ScrollDirection::Up
            } else {
                old(self)@.direction
            }),
            geom_frame(old(self)@, final(self)@),
            chord_frame(old(self)@, final(self)@),
    {
        if new_index > self.current_index {
            self.current_index = new_index;
            self.scroll_direction = ScrollDirection::Down;
        } else if new_index < self.current_index {
            self.current_index = new_index;
            self.scroll_direction = ScrollDirection::Up;
        }
    }

    /// Jumps to the first row.
    pub fn skip_to_first(&mut self) -> (r: EventResult)
        requires
            old(self)@.wf(),
        ensures
            final(self)@.wf(),
            geom_frame(old(self)@, final(self)@),
            chord_frame(old(self)@, final(self)@),
            top_step(old(self)@, final(self)@, r),
    {
        if self.current_index != 0 {
            self.update_index(0);
            EventResult::Redraw
        } else {
            EventResult::NoRedraw
        }
    }

    /// Jumps to the last row; a no-op on an empty list.
    pub fn skip_to_last(&mut self) -> (r: EventResult)
        requires
            old(self)@.wf(),
        ensures
            final(self)@.wf(),
            geom_frame(old(self)@, final(self)@),
            chord_frame(old(self)@, final(self)@),
            bottom_step(old(self)@, final(self)@, r),
    {
        if self.num_items == 0 {
            return EventResult::NoRedraw;
        }
        let last_index: usize = self.num_items - 1;
        if self.current_index != last_index {
            self.update_index(last_index);
            EventResult::Redraw
        } else {
            EventResult::NoRedraw
        }
    }

    /// Moves downward by incrementing the index, refusing any move that
    /// would leave the list.
    pub fn move_down(&mut self, change_by: usize) -> (r: EventResult)
        requires
            old(self)@.wf(),
        ensures
            final(self)@.wf(),
            geom_frame(old(self)@, final(self)@),
            chord_frame(old(self)@, final(self)@),
            down_step(old(self)@, final(self)@, change_by as int, r),
    {
        if self.num_items == 0 {
            return EventResult::NoRedraw;
        }
        if change_by >= self.num_items - self.current_index {
            // landing on or past the end: rejected outright, not clamped
            EventResult::NoRedraw
        } else if change_by == 0 {
            EventResult::NoRedraw
        } else {
            let new_index: usize = self.current_index + change_by;
            self.update_index(new_index);
            EventResult::Redraw
        }
    }

    /// Moves upward by decrementing the index, flooring at zero.
    pub fn move_up(&mut self, change_by: usize) -> (r: EventResult)
        requires
            old(self)@.wf(),
        ensures
            final(self)@.wf(),
            geom_frame(old(self)@, final(self)@),
            chord_frame(old(self)@, final(self)@),
            up_step(old(self)@, final(self)@, change_by as int, r),
    {
        if self.num_items == 0 {
            return EventResult::NoRedraw;
        }
        let new_index: usize = if change_by <= self.current_index {
            self.current_index - change_by
        } else {
            0
        };
        if new_index == self.current_index {
            EventResult::NoRedraw
        } else {
            self.update_index(new_index);
            EventResult::Redraw
        }
    }

    /// Replaces the item count, clamping the index onto the new last row
    /// (or to zero for an empty list) when it would otherwise fall outside.
    /// The scroll direction is never altered. Must be called whenever the
    /// underlying list changes size.
    pub fn update_num_items(&mut self, num_items: usize)
        requires
            old(self)@.wf(),
        ensures
            final(self)@.wf(),
            final(self)@.num_items == num_items as int,
            final(self)@.index == (if (num_items as int) <= old(self)@.index {
                if num_items == 0 {
                    0int
                } else {
                    num_items as int - 1
                }
            } else {
                old(self)@.index
            }),
            final(self)@.direction == old(self)@.direction,
            final(self)@.window_start == old(self)@.window_start,
            final(self)@.cached_area == old(self)@.cached_area,
            final(self)@.bounds == old(self)@.bounds,
            chord_frame(old(self)@, final(self)@),
    {
        self.num_items = num_items;
        if num_items <= self.current_index {
            self.current_index = if num_items == 0 {
                0
            } else {
                num_items - 1
            };
        }
    }

    /// The start of the window of rows to display, recomputed with minimal
    /// motion from the cached start — after resetting it to zero if the
    /// panel geometry changed since the previous query.
    ///
    /// Whenever at least one row is visible, the returned window contains
    /// the selection, except after a downward scroll whose carried-over
    /// start already lies past the index (which only an external clamp of
    /// the item count can set up). With no visible row the query changes
    /// nothing beyond the identity check and callers must not index into
    /// the empty window.
    pub fn get_list_start(&mut self, num_visible_rows: usize) -> (r: usize)
        requires
            old(self)@.wf(),
        ensures
            final(self)@.wf(),
            final(self)@.index == old(self)@.index,
            final(self)@.num_items == old(self)@.num_items,
            final(self)@.direction == old(self)@.direction,
            final(self)@.bounds == old(self)@.bounds,
            chord_frame(old(self)@, final(self)@),
            final(self)@.cached_area == old(self)@.bounds,
            r as int == next_window_start(
                old(self)@.direction,
                old(self)@.index,
                effective_start(old(self)@),
                num_visible_rows as int,
            ),
            final(self)@.window_start == r as int,
            (num_visible_rows > 0 && (old(self)@.direction == ScrollDirection::Down
                ==> effective_start(old(self)@) <= old(self)@.index))
                ==> (r as int) <= old(self)@.index <= r as int + num_visible_rows as int - 1,
    {
        if self.window_index.cached_area != self.bounds {
            self.window_index.index = 0;
            self.window_index.cached_area = self.bounds;
        }

        if num_visible_rows == 0 {
            // no row can be shown: keep the start instead of chasing the index
            return self.window_index.index;
        }

        let list_start: usize = match self.scroll_direction {
            ScrollDirection::Down => {
                if self.current_index < self.window_index.index
                    || self.current_index - self.window_index.index < num_visible_rows {
                    // the selection is already visible: keep the window as it is
                    self.window_index.index
                } else if self.current_index >= num_visible_rows {
                    // scrolled past the window: put the selection on the last visible row
                    self.window_index.index = self.current_index - num_visible_rows + 1;
                    self.window_index.index
                } else {
                    self.window_index.index = 0;
                    0
                }
            },
            ScrollDirection::Up => {
                if self.current_index <= self.window_index.index {
                    // pin the selection as the new top row
                    self.window_index.index = self.current_index;
                } else if self.current_index - self.window_index.index >= num_visible_rows {
                    self.window_index.index = self.current_index - num_visible_rows + 1;
                }
                // otherwise the selection is still visible: keep the window
                self.window_index.index
            },
        };
        list_start
    }

    /// The selected row's offset inside the current window, for highlight
    /// rendering: derived from the index and the cached start, never stored.
    pub fn visual_offset(&self) -> (r: usize)
        ensures
            r as int == visual_offset_of(self@),
    {
        if self.current_index >= self.window_index.index {
            self.current_index - self.window_index.index
        } else {
            0
        }
    }

    /// Routes one keyboard event, exactly as `key_step` says.
    pub fn handle_key_event(&mut self, event: KeyEvent) -> (r: EventResult)
        requires
            old(self)@.wf(),
        ensures
            final(self)@.wf(),
            geom_frame(old(self)@, final(self)@),
            key_step(old(self)@, final(self)@, event, r),
    {
        if event.modifiers == Modifiers::Unmodified || event.modifiers == Modifiers::Shift {
            match event.code {
                KeyCode::Down => if event.modifiers == Modifiers::Unmodified {
                    self.move_down(1)
                } else {
                    EventResult::NoRedraw
                },
                KeyCode::Up => if event.modifiers == Modifiers::Unmodified {
                    self.move_up(1)
                } else {
                    EventResult::NoRedraw
                },
                KeyCode::Char(c) => if c == 'j' {
                    self.move_down(1)
                } else if c == 'k' {
                    self.move_up(1)
                } else if c == 'g' {
                    match self.gg_manager.input('g') {
                        MultiKeyResult::Completed => self.skip_to_first(),
                        MultiKeyResult::Accepted => EventResult::NoRedraw,
                        MultiKeyResult::Rejected => EventResult::NoRedraw,
                    }
                } else if c == 'G' {
                    self.skip_to_last()
                } else {
                    EventResult::NoRedraw
                },
                KeyCode::Other => EventResult::NoRedraw,
            }
        } else {
            EventResult::NoRedraw
        }
    }

    /// Routes one mouse event, exactly as `mouse_step` says.
    pub fn handle_mouse_event(&mut self, event: MouseEvent) -> (r: EventResult)
        requires
            old(self)@.wf(),
        ensures
            final(self)@.wf(),
            geom_frame(old(self)@, final(self)@),
            chord_frame(old(self)@, final(self)@),
            mouse_step(old(self)@, final(self)@, event, r),
    {
        match event.kind {
            MouseEventKind::Press(button) => {
                if button == MouseButton::Left && self.bounds.contains(event.column, event.row) {
                    // the pressed row is visual: measure it against the
                    // derived offset of the selection inside the window
                    let target: usize = (event.row - self.bounds.y) as usize;
                    let selected: usize = self.visual_offset();
                    if target > selected {
                        self.move_down(target - selected)
                    } else if target < selected {
                        self.move_up(selected - target)
                    } else {
                        EventResult::NoRedraw
                    }
                } else {
                    EventResult::NoRedraw
                }
            },
            MouseEventKind::ScrollDown => if self.bounds.contains(event.column, event.row) {
                self.move_down(1)
            } else {
                EventResult::NoRedraw
            },
            MouseEventKind::ScrollUp => if self.bounds.contains(event.column, event.row) {
                self.move_up(1)
            } else {
                EventResult::NoRedraw
            },
            MouseEventKind::Other => EventResult::NoRedraw,
        }
    }
}

/// For a positive number of visible rows the recomputed window contains the
/// selection, provided a downward scroll starts from a window at or below
/// the index (an upward one needs nothing): the windowing invariant.
pub proof fn lemma_window_contains_selection(
    direction: ScrollDirection,
    index: int,
    start: int,
    visible: int,
)
    requires
        0 <= index,
        0 <= start,
        1 <= visible,
        direction == ScrollDirection::Down ==> start <= index,
    ensures
        next_window_start(direction, index, start, visible) <= index,
        index <= next_window_start(direction, index, start, visible) + visible - 1,
{
}

/// Querying the window a second time with an unchanged index, geometry and
/// visible row count returns the same start: the query is idempotent, for
/// any visible row count, the degenerate zero included.
pub proof fn lemma_window_idempotent(
    direction: ScrollDirection,
    index: int,
    start: int,
    visible: int,
)
    requires
        0 <= index,
        0 <= start,
    ensures
        next_window_start(
            direction,
            index,
            next_window_start(direction, index, start, visible),
            visible,
        ) == next_window_start(direction, index, start, visible),
{
}

/// Two consecutive `get_list_start` queries with an unchanged index,
/// geometry and visible-row count return the same start. The hypotheses are
/// exactly what the contract of `get_list_start` gives for a first query
/// from `pre` to `mid` returning `r1` and a second one from `mid` returning
/// `r2`.
pub proof fn lemma_query_twice_same_start(
    pre: ScrollableView,
    mid: ScrollableView,
    r1: int,
    r2: int,
    visible: int,
)
    requires
        pre.wf(),
        mid.index == pre.index,
        mid.direction == pre.direction,
        mid.bounds == pre.bounds,
        mid.cached_area == pre.bounds,
        r1 == next_window_start(pre.direction, pre.index, effective_start(pre), visible),
        mid.window_start == r1,
        r2 == next_window_start(mid.direction, mid.index, effective_start(mid), visible),
    ensures
        r2 == r1,
{
    lemma_window_idempotent(pre.direction, pre.index, effective_start(pre), visible);
}

/// A single step down that keeps the index inside the current window leaves
/// the window start untouched: scrolling produces no jitter.
pub proof fn lemma_window_stable_under_small_move(index: int, start: int, visible: int)
    requires
        0 <= index,
        0 <= start,
        index + 1 < start + visible,
    ensures
        next_window_start(ScrollDirection::Down, index + 1, start, visible) == start,
{
}

} // verus!
