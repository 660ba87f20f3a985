//! The drag that selects by rectangle, as a machine that is stepped once
//! per frame with what the work area reports of the pointer.

use vstd::prelude::*;
use crate::components::Entity;
use crate::components::UiElement;
use crate::distribution::count_message;
use crate::geometry::Pos2;
use crate::geometry::Rect;
use crate::logging::add_designer_log;
use crate::logging::logged;
use crate::selection::MIN_DRAG_EXTENT;
use crate::selection::clear_all_selections;
use crate::selection::count_selected_elements;
use crate::selection::is_clicking_on_widget;
use crate::selection::over_widget;
use crate::selection::select_elements_in_rect;
use crate::selection::selected_count;
use crate::selection::with_none_selected;
use crate::selection::with_rect_selected;
use crate::text::push_decimal;
use crate::world::DesignerWorld;

verus! {

/// A drag rectangle in the making: where the pointer went down, where it is
/// now, and whether the drag is still on.
#[derive(Clone, Copy, Debug, PartialEq, Eq, Structural)]
pub struct DragSelection {
    pub start_pos: Pos2,
    pub current_pos: Pos2,
    pub is_active: bool,
}

impl Default for DragSelection {
    fn default() -> (d: DragSelection)
        ensures
            d == (DragSelection {
                start_pos: Pos2 { x: 0, y: 0 },
                current_pos: Pos2 { x: 0, y: 0 },
                is_active: false,
            }),
    {
        DragSelection {
            start_pos: Pos2 { x: 0, y: 0 },
            current_pos: Pos2 { x: 0, y: 0 },
            is_active: false,
        }
    }
}

impl DragSelection {
    /// The rectangle between the two corners of the drag.
    pub open spec fn spec_rect(self) -> Rect {
        Rect::spec_from_two_pos(self.start_pos, self.current_pos)
    }

    pub fn rect(&self) -> (r: Rect)
        ensures
            r == self.spec_rect(),
            r.is_ordered(),
    {
        Rect::from_two_pos(self.start_pos, self.current_pos)
    }
}

/// What the work area reports of the pointer and the keyboard in one frame.
#[derive(Clone, Copy, Debug, PartialEq, Eq, Structural)]
pub struct WorkAreaResponse {
    /// The primary button went down and the pointer began to move.
    pub drag_started: bool,
    /// The primary button went down and up in place.
    pub clicked: bool,
    /// The pointer moved with the primary button down.
    pub dragged: bool,
    /// The primary button came up after a drag.
    pub drag_stopped: bool,
    /// Where the pointer is, if it is over the canvas.
    pub interact_pointer_pos: Option<Pos2>,
    /// Whether the key that adds to a selection is held.
    pub ctrl_held: bool,
    /// Whether Escape was pressed.
    pub escape_pressed: bool,
}

/// Whether the frame starts a drag: the pointer went down over the empty
/// canvas, not over a widget.
pub open spec fn starts_drag(response: WorkAreaResponse, elements: Seq<UiElement>) -> bool {
    &&& response.drag_started
    &&& response.interact_pointer_pos is Some
    &&& !over_widget(elements, response.interact_pointer_pos->0)
}

/// Whether the frame drops the selection made so far: a drag starts or the
/// canvas is clicked, and the key that adds to a selection is not held.
pub open spec fn drops_selection(response: WorkAreaResponse, elements: Seq<UiElement>) -> bool {
    (starts_drag(response, elements) || response.clicked) && !response.ctrl_held
}

/// The drag once the pointer went down: a new one where the frame starts a
/// drag, else the one there was.
pub open spec fn drag_after_press(
    response: WorkAreaResponse,
    elements: Seq<UiElement>,
    drag: Option<DragSelection>,
) -> Option<DragSelection> {
    if starts_drag(response, elements) {
        Some(
            DragSelection {
                start_pos: response.interact_pointer_pos->0,
                current_pos: response.interact_pointer_pos->0,
                is_active: true,
            },
        )
    } else {
        drag
    }
}

/// Whether the frame moves the far corner of a drag that is on.
pub open spec fn extends_drag(response: WorkAreaResponse, drag: Option<DragSelection>) -> bool {
    &&& drag is Some
    &&& drag->0.is_active
    &&& response.dragged
    &&& response.interact_pointer_pos is Some
}

/// The drag once the pointer moved.
pub open spec fn drag_after_move(response: WorkAreaResponse, drag: Option<DragSelection>) -> Option<
    DragSelection,
> {
    if extends_drag(response, drag) {
        Some(DragSelection { current_pos: response.interact_pointer_pos->0, ..drag->0 })
    } else {
        drag
    }
}

/// Whether the frame ends a drag that is on.
pub open spec fn ends_drag(response: WorkAreaResponse, drag: Option<DragSelection>) -> bool {
    drag is Some && drag->0.is_active && response.drag_stopped
}

/// Whether a drag rectangle is large enough to count as a selection: wider
/// and higher than 5.
pub open spec fn is_meaningful(rect: Rect) -> bool {
    rect.max.x - rect.min.x > MIN_DRAG_EXTENT && rect.max.y - rect.min.y > MIN_DRAG_EXTENT
}

/// The widgets after the frame, before Escape is looked at.
pub open spec fn elements_after_pointer(
    response: WorkAreaResponse,
    elements: Seq<UiElement>,
    drag: Option<DragSelection>,
) -> Seq<UiElement> {
    let kept = if drops_selection(response, elements) {
        with_none_selected(elements)
    } else {
        elements
    };
    let pressed = drag_after_press(response, elements, drag);
    if extends_drag(response, pressed) {
        with_rect_selected(kept, drag_after_move(response, pressed)->0.spec_rect())
    } else {
        kept
    }
}

/// The widgets after the frame.
pub open spec fn elements_after_frame(
    response: WorkAreaResponse,
    elements: Seq<UiElement>,
    drag: Option<DragSelection>,
) -> Seq<UiElement> {
    if response.escape_pressed {
        with_none_selected(elements_after_pointer(response, elements, drag))
    } else {
        elements_after_pointer(response, elements, drag)
    }
}

/// The drag after the frame: none where the drag ended or Escape was
/// pressed.
pub open spec fn drag_after_frame(
    response: WorkAreaResponse,
    elements: Seq<UiElement>,
    drag: Option<DragSelection>,
) -> Option<DragSelection> {
    let moved = drag_after_move(response, drag_after_press(response, elements, drag));
    if ends_drag(response, moved) || response.escape_pressed {
        None
    } else {
        moved
    }
}

/// How many widgets a drag that ended in this frame has left selected, if
/// it ended with a rectangle large enough to count; none for a drag that is
/// still on and for one so small that it was a click.
pub open spec fn finalized_selection(
    response: WorkAreaResponse,
    elements: Seq<UiElement>,
    drag: Option<DragSelection>,
) -> Option<nat> {
    let moved = drag_after_move(response, drag_after_press(response, elements, drag));
    if ends_drag(response, moved) && is_meaningful(moved->0.spec_rect()) {
        Some(selected_count(elements_after_pointer(response, elements, drag)))
    } else {
        None
    }
}

/// What the event log is told when a drag has selected widgets.
pub open spec fn selection_message(count: nat) -> Seq<char> {
    count_message("Selected "@, count, " elements"@)
}

/// Steps the drag selection by one frame.
///
/// A press over the empty canvas starts a drag, and drops the selection
/// unless the adding key is held; so does a click on the canvas. While the
/// drag is on, every move marks the widgets that the rectangle between its
/// corners reaches and leaves the others as they are. A release ends the
/// drag; where its rectangle is wider and higher than 5 and widgets are
/// selected, the event log is told how many. Escape drops the selection and
/// any drag. Answers the number of selected widgets where a drag ended with
/// such a rectangle.
pub fn handle_drag_selection_in_work_area(
    response: &WorkAreaResponse,
    world: &mut DesignerWorld,
    drag_selection: &mut Option<DragSelection>,
) -> (finalized: Option<usize>)
    requires
        old(world).wf(),
    ensures
        final(world).wf(),
        final(world)@ == elements_after_frame(*response, old(world)@, *old(drag_selection)),
        *final(drag_selection) == drag_after_frame(*response, old(world)@, *old(drag_selection)),
        finalized is Some <==> finalized_selection(*response, old(world)@, *old(drag_selection))
            is Some,
        finalized is Some ==> finalized->0 as nat == finalized_selection(
            *response,
            old(world)@,
            *old(drag_selection),
        )->0,
        final(world).spec_next_id() == old(world).spec_next_id(),
        finalized is Some && finalized->0 > 0 ==> logged(
            old(world).spec_panels(),
            final(world).spec_panels(),
            selection_message(finalized->0 as nat),
        ),
        !(finalized is Some && finalized->0 > 0) ==> final(world).spec_panels() == old(
            world,
        ).spec_panels(),
{
    let mut finalized: Option<usize> = None;
    let starts = response.drag_started && match response.interact_pointer_pos {
        Some(pos) => !is_clicking_on_widget(world, pos),
        None => false,
    };
    if (starts || response.clicked) && !response.ctrl_held {
        clear_all_selections(world);
    }
    if starts {
        match response.interact_pointer_pos {
            Some(pos) => {
                *drag_selection = Some(
                    DragSelection { start_pos: pos, current_pos: pos, is_active: true },
                );
            },
            None => {},
        }
    }
    let mut ended = false;
    match *drag_selection {
        Some(selection) => {
            if selection.is_active {
                let mut current = selection;
                if response.dragged {
                    match response.interact_pointer_pos {
                        Some(pos) => {
                            current = DragSelection { current_pos: pos, ..selection };
                            select_elements_in_rect(world, current.rect());
                        },
                        None => {},
                    }
                }
                *drag_selection = Some(current);
                if response.drag_stopped {
                    ended = true;
                    let rect = current.rect();
                    if rect.width() > MIN_DRAG_EXTENT as i64 && rect.height() > MIN_DRAG_EXTENT as i64 {
                        finalized = Some(count_selected_elements(world));
                    }
                }
            }
        },
        None => {},
    }
    if ended {
        *drag_selection = None;
    }
    if response.escape_pressed {
        clear_all_selections(world);
        *drag_selection = None;
    }
    match finalized {
        Some(count) => {
            if count > 0 {
                let mut message = String::from_str("Selected ");
                push_decimal(&mut message, count as u64);
                message.append(" elements");
                add_designer_log(world, message.as_str());
            }
        },
        None => {},
    }
    finalized
}

/// The state of the selection box: whether a box is being drawn, its two
/// corners, and the handles gathered for it.
#[derive(Debug, PartialEq, Eq)]
pub struct SelectionState {
    pub selecting: bool,
    pub start_pos: Pos2,
    pub current_pos: Pos2,
    pub selected_entities: Vec<Entity>,
}

impl Default for SelectionState {
    fn default() -> (s: SelectionState)
        ensures
            !s.selecting,
            s.start_pos == (Pos2 { x: 0, y: 0 }),
            s.current_pos == (Pos2 { x: 0, y: 0 }),
            s.selected_entities@ == Seq::<Entity>::empty(),
    {
        SelectionState {
            selecting: false,
            start_pos: Pos2 { x: 0, y: 0 },
            current_pos: Pos2 { x: 0, y: 0 },
            selected_entities: Vec::new(),
        }
    }
}

/// What the canvas reports of the pointer in one frame.
#[derive(Clone, Copy, Debug, PartialEq, Eq, Structural)]
pub struct PointerState {
    pub primary_pressed: bool,
    pub primary_released: bool,
    pub interact_pos: Option<Pos2>,
}

/// Whether the frame begins a selection box.
pub open spec fn begins_box(pointer: PointerState) -> bool {
    pointer.primary_pressed && pointer.interact_pos is Some
}

/// Whether a box is being drawn in the frame, begun in it or before it.
pub open spec fn box_is_on(pointer: PointerState, selecting: bool) -> bool {
    begins_box(pointer) || selecting
}

/// The corner at which the box began.
pub open spec fn box_start(pointer: PointerState, start_pos: Pos2) -> Pos2 {
    if begins_box(pointer) {
        pointer.interact_pos->0
    } else {
        start_pos
    }
}

/// The corner at which the box now ends.
pub open spec fn box_current(pointer: PointerState, selecting: bool, current_pos: Pos2) -> Pos2 {
    if box_is_on(pointer, selecting) && pointer.interact_pos is Some {
        pointer.interact_pos->0
    } else {
        current_pos
    }
}

/// Whether the frame closes the box.
pub open spec fn closes_box(pointer: PointerState, selecting: bool) -> bool {
    box_is_on(pointer, selecting) && pointer.primary_released
}

/// The widgets after a frame of the selection box.
pub open spec fn elements_after_box(
    pointer: PointerState,
    elements: Seq<UiElement>,
    selecting: bool,
    start_pos: Pos2,
    current_pos: Pos2,
) -> Seq<UiElement> {
    let kept = if begins_box(pointer) {
        with_none_selected(elements)
    } else {
        elements
    };
    if closes_box(pointer, selecting) {
        with_rect_selected(
            kept,
            Rect::spec_from_two_pos(
                box_start(pointer, start_pos),
                box_current(pointer, selecting, current_pos),
            ),
        )
    } else {
        kept
    }
}

/// Steps the selection box by one frame.
///
/// A press begins a box at the pointer and drops the selection. While the
/// box is on, its far corner follows the pointer. A release closes the box:
/// every widget that the box reaches is selected, and the handles gathered
/// in the state are let go.
pub fn handle_selection_box(
    pointer: &PointerState,
    world: &mut DesignerWorld,
    selection_state: &mut SelectionState,
)
    requires
        old(world).wf(),
    ensures
        final(world).wf(),
        final(world)@ == elements_after_box(
            *pointer,
            old(world)@,
            old(selection_state).selecting,
            old(selection_state).start_pos,
            old(selection_state).current_pos,
        ),
        final(selection_state).selecting == (box_is_on(*pointer, old(selection_state).selecting)
            && !pointer.primary_released),
        final(selection_state).start_pos == box_start(*pointer, old(selection_state).start_pos),
        final(selection_state).current_pos == box_current(
            *pointer,
            old(selection_state).selecting,
            old(selection_state).current_pos,
        ),
        final(selection_state).selected_entities@ == (if closes_box(
            *pointer,
            old(selection_state).selecting,
        ) {
            Seq::<Entity>::empty()
        } else {
            old(selection_state).selected_entities@
        }),
        final(world).spec_next_id() == old(world).spec_next_id(),
        final(world).spec_panels() == old(world).spec_panels(),
{
    if pointer.primary_pressed {
        match pointer.interact_pos {
            Some(pos) => {
                selection_state.selecting = true;
                selection_state.start_pos = pos;
                selection_state.current_pos = pos;
                clear_all_selections(world);
            },
            None => {},
        }
    }
    if selection_state.selecting {
        match pointer.interact_pos {
            Some(pos) => {
                selection_state.current_pos = pos;
            },
            None => {},
        }
        if pointer.primary_released {
            let selection_rect = Rect::from_two_pos(
                selection_state.start_pos,
                selection_state.current_pos,
            );
            select_elements_in_rect(world, selection_rect);
            selection_state.selecting = false;
            selection_state.selected_entities.clear();
        }
    }
}

} // verus!
