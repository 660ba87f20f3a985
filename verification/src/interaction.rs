//! What the pointer and the keyboard do to single widgets and to the
//! selection: radio groups, button presses, dragging, resizing, and the
//! edits that apply to every selected widget at once.

use vstd::prelude::*;
use crate::components::Entity;
use crate::components::UiElement;
use crate::components::UiElementPosition;
use crate::components::UiElementSelected;
use crate::components::UiElementSize;
use crate::components::UiRadioButton;
use crate::components::UiButton;
use crate::components::WidgetKind;
use crate::geometry::Pos2;
use crate::geometry::Vec2;
use crate::grid::snap_to_grid;
use crate::grid::snapped;
use crate::world::DesignerWorld;
use crate::world::holds_entity;
use crate::world::in_entity_order;
use crate::world::place_of;

verus! {

/// `after` holds the widgets of `before` under the same handles and in the
/// same order; what is attached to them may differ.
pub open spec fn same_entities(before: Seq<UiElement>, after: Seq<UiElement>) -> bool {
    &&& after.len() == before.len()
    &&& forall|i: int| 0 <= i < before.len() ==> (#[trigger] after[i]).entity == before[i].entity
}

/// Widgets under the same handles are in the same entity order.
pub proof fn lemma_same_entities_keep_order(before: Seq<UiElement>, after: Seq<UiElement>)
    requires
        same_entities(before, after),
        in_entity_order(before),
    ensures
        in_entity_order(after),
{
    assert forall|i: int, j: int| 0 <= i < j < after.len() implies (#[trigger] after[i]).entity.id
        < (#[trigger] after[j]).entity.id by {
        assert(before[i].entity.id < before[j].entity.id);
    }
}

/// The radio group of a widget, where the widget is a radio button.
pub open spec fn radio_group(element: UiElement) -> Option<Seq<char>> {
    match element.widget {
        WidgetKind::RadioButton(radio) => Some(radio.group_id@),
        _ => None,
    }
}

/// `element` after the radio button of `chosen` was picked in `group`: a
/// radio button of that group is selected exactly if it is the chosen one;
/// any other widget is as it was.
pub open spec fn after_radio_choice(element: UiElement, group: Seq<char>, chosen: Entity) -> UiElement {
    match element.widget {
        WidgetKind::RadioButton(radio) => if radio.group_id@ == group {
            UiElement {
                widget: WidgetKind::RadioButton(
                    UiRadioButton { selected: element.entity == chosen, ..radio },
                ),
                ..element
            }
        } else {
            element
        },
        _ => element,
    }
}

/// The widgets after the radio button of `entity` was picked. Where
/// `entity` is gone or is no radio button, nothing changes.
pub open spec fn with_radio_choice(elements: Seq<UiElement>, entity: Entity) -> Seq<UiElement> {
    if holds_entity(elements, entity) && radio_group(elements[place_of(elements, entity)]) is Some {
        let group = radio_group(elements[place_of(elements, entity)])->0;
        Seq::new(elements.len(), |i: int| after_radio_choice(elements[i], group, entity))
    } else {
        elements
    }
}

/// Picks the radio button of `entity`: it becomes the selected one of its
/// group, every other button of the group is deselected, and the buttons
/// of other groups stay as they are. Answers whether `entity` is a radio
/// button of this world.
pub fn select_radio_button(world: &mut DesignerWorld, entity: Entity) -> (picked: bool)
    requires
        old(world).wf(),
    ensures
        final(world).wf(),
        final(world)@ == with_radio_choice(old(world)@, entity),
        picked == (holds_entity(old(world)@, entity) && radio_group(
            old(world)@[place_of(old(world)@, entity)],
        ) is Some),
        final(world).spec_next_id() == old(world).spec_next_id(),
        final(world).spec_panels() == old(world).spec_panels(),
{
    let group: String = match world.get(entity) {
        Some(element) => match &element.widget {
            WidgetKind::RadioButton(radio) => radio.group_id.clone(),
            _ => {
                return false;
            },
        },
        None => {
            return false;
        },
    };
    let n = world.elements.len();
    let mut i: usize = 0;
    while i < n
        invariant
            i <= n,
            n == world@.len(),
            n == old(world)@.len(),
            forall|k: int|
                0 <= k < i ==> #[trigger] world@[k] == after_radio_choice(
                    old(world)@[k],
                    group@,
                    entity,
                ),
            forall|k: int| i <= k < n ==> #[trigger] world@[k] == old(world)@[k],
            world.spec_next_id() == old(world).spec_next_id(),
            world.spec_panels() == old(world).spec_panels(),
        decreases n - i,
    {
        let chosen = world.elements[i].entity.id == entity.id;
        match &mut world.elements[i].widget {
            WidgetKind::RadioButton(radio) => {
                if radio.group_id == group {
                    radio.selected = chosen;
                }
            },
            _ => {},
        }
        i += 1;
    }
    proof {
        assert(world@ =~= with_radio_choice(old(world)@, entity));
        assert(same_entities(old(world)@, world@));
        lemma_same_entities_keep_order(old(world)@, world@);
    }
    true
}

/// After a radio button is picked it is selected, every other button of
/// its group is not, and all widgets outside the group are untouched.
pub proof fn lemma_radio_group_is_exclusive(elements: Seq<UiElement>, entity: Entity, i: int)
    requires
        in_entity_order(elements),
        holds_entity(elements, entity),
        radio_group(elements[place_of(elements, entity)]) is Some,
        0 <= i < elements.len(),
    ensures
        with_radio_choice(elements, entity).len() == elements.len(),
        radio_group(with_radio_choice(elements, entity)[i]) == radio_group(elements[i]),
        radio_group(elements[i]) == radio_group(elements[place_of(elements, entity)]) ==> (
        with_radio_choice(elements, entity)[i].widget->RadioButton_0.selected <==> i == place_of(
            elements,
            entity,
        )),
        radio_group(elements[i]) != radio_group(elements[place_of(elements, entity)])
            ==> with_radio_choice(elements, entity)[i] == elements[i],
{
    let p = place_of(elements, entity);
    if elements[i].entity == entity {
        crate::world::lemma_place_of_is_unique(elements, entity, i);
    }
}

/// Where a widget at `position` ends up when it is dragged by `delta`: moved
/// by it, and then snapped to the grid where snapping is on.
pub open spec fn dragged_position(
    position: UiElementPosition,
    delta: Vec2,
    snap_enabled: bool,
    spacing: i32,
) -> UiElementPosition {
    let moved = (Pos2 { x: position.x, y: position.y }).spec_offset(delta);
    let end = if snap_enabled {
        snapped(moved, spacing)
    } else {
        moved
    };
    UiElementPosition { x: end.x, y: end.y }
}

/// Moves a position by `delta` and snaps it where snapping is on.
pub fn drag_position(position: UiElementPosition, delta: Vec2, snap_enabled: bool, spacing: i32) -> (end:
    UiElementPosition)
    ensures
        end == dragged_position(position, delta, snap_enabled, spacing),
{
    let moved = Pos2::new(position.x, position.y).offset(delta);
    let end = if snap_enabled {
        snap_to_grid(moved, spacing)
    } else {
        moved
    };
    UiElementPosition { x: end.x, y: end.y }
}

/// The widgets after every selected one was dragged by `delta`.
pub open spec fn with_selection_dragged(
    elements: Seq<UiElement>,
    delta: Vec2,
    snap_enabled: bool,
    spacing: i32,
) -> Seq<UiElement> {
    Seq::new(
        elements.len(),
        |i: int|
            if elements[i].selected.selected {
                UiElement {
                    position: dragged_position(elements[i].position, delta, snap_enabled, spacing),
                    ..elements[i]
                }
            } else {
                elements[i]
            },
    )
}

/// Moves all selected widgets by `delta`, each snapped to the grid where
/// snapping is on.
pub fn move_selected_elements(world: &mut DesignerWorld, delta: Vec2, snap_enabled: bool, spacing: i32)
    requires
        old(world).wf(),
    ensures
        final(world).wf(),
        final(world)@ == with_selection_dragged(old(world)@, delta, snap_enabled, spacing),
        final(world).spec_next_id() == old(world).spec_next_id(),
        final(world).spec_panels() == old(world).spec_panels(),
{
    let n = world.elements.len();
    let mut i: usize = 0;
    while i < n
        invariant
            i <= n,
            n == world@.len(),
            n == old(world)@.len(),
            forall|k: int|
                0 <= k < i ==> #[trigger] world@[k] == with_selection_dragged(
                    old(world)@,
                    delta,
                    snap_enabled,
                    spacing,
                )[k],
            forall|k: int| i <= k < n ==> #[trigger] world@[k] == old(world)@[k],
            world.spec_next_id() == old(world).spec_next_id(),
            world.spec_panels() == old(world).spec_panels(),
        decreases n - i,
    {
        if world.elements[i].selected.selected {
            world.elements[i].position = drag_position(
                world.elements[i].position,
                delta,
                snap_enabled,
                spacing,
            );
        }
        i += 1;
    }
    proof {
        assert(world@ =~= with_selection_dragged(old(world)@, delta, snap_enabled, spacing));
        assert(same_entities(old(world)@, world@));
        lemma_same_entities_keep_order(old(world)@, world@);
    }
}

/// Moves the widget of `entity` by `delta`, snapped to the grid where
/// snapping is on. Answers whether the entity was there; a stale handle
/// moves nothing.
pub fn handle_drag(
    world: &mut DesignerWorld,
    entity: Entity,
    delta: Vec2,
    snap_enabled: bool,
    spacing: i32,
) -> (found: bool)
    requires
        old(world).wf(),
    ensures
        final(world).wf(),
        found == holds_entity(old(world)@, entity),
        !found ==> final(world)@ == old(world)@,
        found ==> final(world)@ == old(world)@.update(
            place_of(old(world)@, entity),
            UiElement {
                position: dragged_position(
                    old(world)@[place_of(old(world)@, entity)].position,
                    delta,
                    snap_enabled,
                    spacing,
                ),
                ..old(world)@[place_of(old(world)@, entity)]
            },
        ),
        final(world).spec_next_id() == old(world).spec_next_id(),
        final(world).spec_panels() == old(world).spec_panels(),
{
    match world.get_position_mut(entity) {
        Some(position) => {
            *position = drag_position(*position, delta, snap_enabled, spacing);
            true
        },
        None => false,
    }
}

/// The least size to which a widget can be dragged.
pub const MIN_RESIZE_WIDTH: i32 = 60;

pub const MIN_RESIZE_HEIGHT: i32 = 25;

/// The greatest size to which a widget can be dragged.
pub const MAX_RESIZE_WIDTH: i32 = 300;

pub const MAX_RESIZE_HEIGHT: i32 = 100;

/// `v` held between `low` and `high`.
pub open spec fn clamp_between(v: int, low: int, high: int) -> int {
    if v < low {
        low
    } else if v > high {
        high
    } else {
        v
    }
}

/// The size a widget of extent `current` takes when its resize handle is
/// dragged by `delta`: the sum, held between 60 by 25 and 300 by 100.
pub open spec fn resized(current: Vec2, delta: Vec2) -> UiElementSize {
    UiElementSize {
        width: clamp_between(
            current.x + delta.x,
            MIN_RESIZE_WIDTH as int,
            MAX_RESIZE_WIDTH as int,
        ) as i32,
        height: clamp_between(
            current.y + delta.y,
            MIN_RESIZE_HEIGHT as int,
            MAX_RESIZE_HEIGHT as int,
        ) as i32,
    }
}

fn clamp_extent(v: i64, low: i32, high: i32) -> (r: i32)
    requires
        low <= high,
    ensures
        r as int == clamp_between(v as int, low as int, high as int),
{
    if v < low as i64 {
        low
    } else if v > high as i64 {
        high
    } else {
        v as i32
    }
}

/// Resizes the widget of `entity` from the extent `current` by `delta`.
/// Answers whether the entity was there.
pub fn resize_element(world: &mut DesignerWorld, entity: Entity, current: Vec2, delta: Vec2) -> (found:
    bool)
    requires
        old(world).wf(),
    ensures
        final(world).wf(),
        found == holds_entity(old(world)@, entity),
        !found ==> final(world)@ == old(world)@,
        found ==> final(world)@ == old(world)@.update(
            place_of(old(world)@, entity),
            UiElement { size: resized(current, delta), ..old(world)@[place_of(old(world)@, entity)] },
        ),
        final(world).spec_next_id() == old(world).spec_next_id(),
        final(world).spec_panels() == old(world).spec_panels(),
{
    match world.get_size_mut(entity) {
        Some(size) => {
            size.width = clamp_extent(
                current.x as i64 + delta.x as i64,
                MIN_RESIZE_WIDTH,
                MAX_RESIZE_WIDTH,
            );
            size.height = clamp_extent(
                current.y as i64 + delta.y as i64,
                MIN_RESIZE_HEIGHT,
                MAX_RESIZE_HEIGHT,
            );
            true
        },
        None => false,
    }
}

/// Takes the widget of `entity` into the selection if it is outside, and
/// out of it if it is inside. Answers whether the entity was there.
pub fn toggle_element_selection(world: &mut DesignerWorld, entity: Entity) -> (found: bool)
    requires
        old(world).wf(),
    ensures
        final(world).wf(),
        found == holds_entity(old(world)@, entity),
        !found ==> final(world)@ == old(world)@,
        found ==> final(world)@ == old(world)@.update(
            place_of(old(world)@, entity),
            UiElement {
                selected: UiElementSelected {
                    selected: !old(world)@[place_of(old(world)@, entity)].selected.selected,
                },
                ..old(world)@[place_of(old(world)@, entity)]
            },
        ),
        final(world).spec_next_id() == old(world).spec_next_id(),
        final(world).spec_panels() == old(world).spec_panels(),
{
    match world.get_selected_mut(entity) {
        Some(flag) => {
            flag.selected = !flag.selected;
            true
        },
        None => false,
    }
}

/// A pressed button shows as pressed for this many milliseconds.
pub const CLICK_FEEDBACK_MS: u64 = 100;

/// `widget` after a press at the clock reading `now`: a button that is not
/// shown as pressed becomes pressed at `now`; anything else stays.
pub open spec fn pressed(widget: WidgetKind, now: u64) -> WidgetKind {
    match widget {
        WidgetKind::Button(button) => if button.clicked {
            widget
        } else {
            WidgetKind::Button(UiButton { clicked: true, click_time: Some(now), ..button })
        },
        _ => widget,
    }
}

/// Presses the button of `entity` at the clock reading `now`, in
/// milliseconds. Answers whether the entity was there.
pub fn press_button(world: &mut DesignerWorld, entity: Entity, now: u64) -> (found: bool)
    requires
        old(world).wf(),
    ensures
        final(world).wf(),
        found == holds_entity(old(world)@, entity),
        !found ==> final(world)@ == old(world)@,
        found ==> final(world)@ == old(world)@.update(
            place_of(old(world)@, entity),
            UiElement {
                widget: pressed(old(world)@[place_of(old(world)@, entity)].widget, now),
                ..old(world)@[place_of(old(world)@, entity)]
            },
        ),
        final(world).spec_next_id() == old(world).spec_next_id(),
        final(world).spec_panels() == old(world).spec_panels(),
{
    match world.get_widget_mut(entity) {
        Some(widget) => {
            match widget {
                WidgetKind::Button(button) => {
                    if !button.clicked {
                        button.clicked = true;
                        button.click_time = Some(now);
                    }
                },
                _ => {},
            }
            true
        },
        None => false,
    }
}

/// `widget` once the clock reads `now`: a button shown as pressed for more
/// than 100 milliseconds is released; anything else stays.
pub open spec fn released(widget: WidgetKind, now: u64) -> WidgetKind {
    match widget {
        WidgetKind::Button(button) => if button.clicked && button.click_time is Some && now
            - button.click_time->0 > CLICK_FEEDBACK_MS {
            WidgetKind::Button(UiButton { clicked: false, click_time: None, ..button })
        } else {
            widget
        },
        _ => widget,
    }
}

/// The widgets once the clock reads `now`.
pub open spec fn with_clicks_reset(elements: Seq<UiElement>, now: u64) -> Seq<UiElement> {
    Seq::new(
        elements.len(),
        |i: int| UiElement { widget: released(elements[i].widget, now), ..elements[i] },
    )
}

/// Releases every button that has shown as pressed for more than 100
/// milliseconds at the clock reading `now`.
pub fn reset_button_clicks(world: &mut DesignerWorld, now: u64)
    requires
        old(world).wf(),
    ensures
        final(world).wf(),
        final(world)@ == with_clicks_reset(old(world)@, now),
        final(world).spec_next_id() == old(world).spec_next_id(),
        final(world).spec_panels() == old(world).spec_panels(),
{
    let n = world.elements.len();
    let mut i: usize = 0;
    while i < n
        invariant
            i <= n,
            n == world@.len(),
            n == old(world)@.len(),
            forall|k: int| 0 <= k < i ==> #[trigger] world@[k] == with_clicks_reset(old(world)@, now)[k],
            forall|k: int| i <= k < n ==> #[trigger] world@[k] == old(world)@[k],
            world.spec_next_id() == old(world).spec_next_id(),
            world.spec_panels() == old(world).spec_panels(),
        decreases n - i,
    {
        match &mut world.elements[i].widget {
            WidgetKind::Button(button) => {
                if button.clicked {
                    match button.click_time {
                        Some(click_time) => {
                            if now > click_time && now - click_time > CLICK_FEEDBACK_MS {
                                button.clicked = false;
                                button.click_time = None;
                            }
                        },
                        None => {},
                    }
                }
            },
            _ => {},
        }
        i += 1;
    }
    proof {
        assert(world@ =~= with_clicks_reset(old(world)@, now));
        assert(same_entities(old(world)@, world@));
        lemma_same_entities_keep_order(old(world)@, world@);
    }
}

} // verus!
