//! Edits that apply to every selected widget at once, and the removal of
//! widgets.

use vstd::prelude::*;
use crate::components::UiElement;
use crate::components::UiElementPosition;
use crate::components::UiElementSize;
use crate::components::WidgetKind;
use crate::distribution::count_message;
use crate::geometry::clamp_coord;
use crate::geometry::saturate;
use crate::grid::round_div;
use crate::grid::rounded_quotient;
use crate::interaction::lemma_same_entities_keep_order;
use crate::interaction::same_entities;
use crate::logging::add_designer_log;
use crate::logging::logged;
use crate::selection::selected_count;
use crate::text::push_decimal;
use crate::world::DesignerWorld;
use crate::world::in_entity_order;

verus! {

/// The widgets after every selected one was moved by the given offsets.
pub open spec fn with_offset(elements: Seq<UiElement>, x_offset: i32, y_offset: i32) -> Seq<UiElement> {
    Seq::new(
        elements.len(),
        |i: int|
            if elements[i].selected.selected {
                UiElement {
                    position: UiElementPosition {
                        x: clamp_coord(elements[i].position.x + x_offset) as i32,
                        y: clamp_coord(elements[i].position.y + y_offset) as i32,
                    },
                    ..elements[i]
                }
            } else {
                elements[i]
            },
    )
}

/// Moves every selected widget by the given offsets and answers how many
/// were moved.
pub fn apply_offset_to_selected(world: &mut DesignerWorld, x_offset: i32, y_offset: i32) -> (count:
    usize)
    requires
        old(world).wf(),
    ensures
        final(world).wf(),
        final(world)@ == with_offset(old(world)@, x_offset, y_offset),
        count == selected_count(old(world)@),
        final(world).spec_next_id() == old(world).spec_next_id(),
        final(world).spec_panels() == old(world).spec_panels(),
{
    let n = world.elements.len();
    let mut count: usize = 0;
    let mut i: usize = 0;
    assert(old(world)@.take(0) =~= Seq::<UiElement>::empty());
    while i < n
        invariant
            i <= n,
            n == world@.len(),
            n == old(world)@.len(),
            count <= i,
            count == selected_count(old(world)@.take(i as int)),
            forall|k: int| 0 <= k < i ==> #[trigger] world@[k] == with_offset(old(world)@, x_offset, y_offset)[k],
            forall|k: int| i <= k < n ==> #[trigger] world@[k] == old(world)@[k],
            world.spec_next_id() == old(world).spec_next_id(),
            world.spec_panels() == old(world).spec_panels(),
        decreases n - i,
    {
        proof {
            assert(old(world)@.take(i + 1).drop_last() =~= old(world)@.take(i as int));
        }
        if world.elements[i].selected.selected {
            let x = saturate(world.elements[i].position.x as i128 + x_offset as i128);
            let y = saturate(world.elements[i].position.y as i128 + y_offset as i128);
            world.elements[i].position = UiElementPosition { x, y };
            count += 1;
        }
        i += 1;
    }
    proof {
        assert(old(world)@.take(n as int) =~= old(world)@);
        assert(world@ =~= with_offset(old(world)@, x_offset, y_offset));
        assert(same_entities(old(world)@, world@));
        lemma_same_entities_keep_order(old(world)@, world@);
    }
    count
}

/// The widgets after every selected one was given the size `size`.
pub open spec fn with_size(elements: Seq<UiElement>, size: UiElementSize) -> Seq<UiElement> {
    Seq::new(
        elements.len(),
        |i: int|
            if elements[i].selected.selected {
                UiElement { size, ..elements[i] }
            } else {
                elements[i]
            },
    )
}

/// Gives every selected widget the size `size` and answers how many there
/// are.
pub fn set_size_of_selected(world: &mut DesignerWorld, size: UiElementSize) -> (count: usize)
    requires
        old(world).wf(),
    ensures
        final(world).wf(),
        final(world)@ == with_size(old(world)@, size),
        count == selected_count(old(world)@),
        final(world).spec_next_id() == old(world).spec_next_id(),
        final(world).spec_panels() == old(world).spec_panels(),
{
    let n = world.elements.len();
    let mut count: usize = 0;
    let mut i: usize = 0;
    assert(old(world)@.take(0) =~= Seq::<UiElement>::empty());
    while i < n
        invariant
            i <= n,
            n == world@.len(),
            n == old(world)@.len(),
            count <= i,
            count == selected_count(old(world)@.take(i as int)),
            forall|k: int| 0 <= k < i ==> #[trigger] world@[k] == with_size(old(world)@, size)[k],
            forall|k: int| i <= k < n ==> #[trigger] world@[k] == old(world)@[k],
            world.spec_next_id() == old(world).spec_next_id(),
            world.spec_panels() == old(world).spec_panels(),
        decreases n - i,
    {
        proof {
            assert(old(world)@.take(i + 1).drop_last() =~= old(world)@.take(i as int));
        }
        if world.elements[i].selected.selected {
            world.elements[i].size = size;
            count += 1;
        }
        i += 1;
    }
    proof {
        assert(old(world)@.take(n as int) =~= old(world)@);
        assert(world@ =~= with_size(old(world)@, size));
        assert(same_entities(old(world)@, world@));
        lemma_same_entities_keep_order(old(world)@, world@);
    }
    count
}

/// An extent scaled to `percent` of itself, rounded to the nearest unit and
/// brought into the coordinate range.
pub open spec fn scaled_extent(v: int, percent: int) -> int {
    clamp_coord(round_div(v * percent, 100))
}

/// The widgets after every selected one was scaled to `percent` of its
/// size.
pub open spec fn with_scale(elements: Seq<UiElement>, percent: u32) -> Seq<UiElement> {
    Seq::new(
        elements.len(),
        |i: int|
            if elements[i].selected.selected {
                UiElement {
                    size: UiElementSize {
                        width: scaled_extent(elements[i].size.width as int, percent as int) as i32,
                        height: scaled_extent(elements[i].size.height as int, percent as int) as i32,
                    },
                    ..elements[i]
                }
            } else {
                elements[i]
            },
    )
}

fn scale_extent(v: i32, percent: u32) -> (r: i32)
    ensures
        r as int == scaled_extent(v as int, percent as int),
{
    proof {
        assert(-0x8000_0000 * 0x1_0000_0000 <= v * percent <= 0x8000_0000 * 0x1_0000_0000)
            by (nonlinear_arith)
            requires
                -0x8000_0000 <= v <= 0x8000_0000,
                0 <= percent <= 0x1_0000_0000,
        ;
    }
    saturate(rounded_quotient((v as i128) * (percent as i128), 100))
}

/// Scales every selected widget to `percent` of its size and answers how
/// many there are.
pub fn scale_selected(world: &mut DesignerWorld, percent: u32) -> (count: usize)
    requires
        old(world).wf(),
    ensures
        final(world).wf(),
        final(world)@ == with_scale(old(world)@, percent),
        count == selected_count(old(world)@),
        final(world).spec_next_id() == old(world).spec_next_id(),
        final(world).spec_panels() == old(world).spec_panels(),
{
    let n = world.elements.len();
    let mut count: usize = 0;
    let mut i: usize = 0;
    assert(old(world)@.take(0) =~= Seq::<UiElement>::empty());
    while i < n
        invariant
            i <= n,
            n == world@.len(),
            n == old(world)@.len(),
            count <= i,
            count == selected_count(old(world)@.take(i as int)),
            forall|k: int| 0 <= k < i ==> #[trigger] world@[k] == with_scale(old(world)@, percent)[k],
            forall|k: int| i <= k < n ==> #[trigger] world@[k] == old(world)@[k],
            world.spec_next_id() == old(world).spec_next_id(),
            world.spec_panels() == old(world).spec_panels(),
        decreases n - i,
    {
        proof {
            assert(old(world)@.take(i + 1).drop_last() =~= old(world)@.take(i as int));
        }
        if world.elements[i].selected.selected {
            let width = scale_extent(world.elements[i].size.width, percent);
            let height = scale_extent(world.elements[i].size.height, percent);
            world.elements[i].size = UiElementSize { width, height };
            count += 1;
        }
        i += 1;
    }
    proof {
        assert(old(world)@.take(n as int) =~= old(world)@);
        assert(world@ =~= with_scale(old(world)@, percent));
        assert(same_entities(old(world)@, world@));
        lemma_same_entities_keep_order(old(world)@, world@);
    }
    count
}

/// What is done to the `enabled` flag of every selected widget.
#[derive(Clone, Copy, Debug, PartialEq, Eq, Structural)]
pub enum EnableEdit {
    EnableAll,
    DisableAll,
    ToggleAll,
}

/// The flag that `edit` makes of `enabled`.
pub open spec fn edited_flag(edit: EnableEdit, enabled: bool) -> bool {
    match edit {
        EnableEdit::EnableAll => true,
        EnableEdit::DisableAll => false,
        EnableEdit::ToggleAll => !enabled,
    }
}

/// The widgets after `edit` was applied to every selected one.
pub open spec fn with_enable_edit(elements: Seq<UiElement>, edit: EnableEdit) -> Seq<UiElement> {
    Seq::new(
        elements.len(),
        |i: int|
            if elements[i].selected.selected {
                UiElement {
                    widget: elements[i].widget.spec_with_enabled(
                        edited_flag(edit, elements[i].widget.spec_enabled()),
                    ),
                    ..elements[i]
                }
            } else {
                elements[i]
            },
    )
}

fn set_enabled(widget: &mut WidgetKind, enabled: bool)
    ensures
        *final(widget) == old(widget).spec_with_enabled(enabled),
{
    match widget {
        WidgetKind::Button(b) => {
            b.enabled = enabled;
        },
        WidgetKind::TextInput(t) => {
            t.enabled = enabled;
        },
        WidgetKind::Checkbox(c) => {
            c.enabled = enabled;
        },
        WidgetKind::RadioButton(r) => {
            r.enabled = enabled;
        },
        WidgetKind::GroupBox(g) => {
            g.enabled = enabled;
        },
    }
}

/// Enables, disables or toggles every selected widget and answers how many
/// there are.
pub fn edit_enabled_of_selected(world: &mut DesignerWorld, edit: EnableEdit) -> (count: usize)
    requires
        old(world).wf(),
    ensures
        final(world).wf(),
        final(world)@ == with_enable_edit(old(world)@, edit),
        count == selected_count(old(world)@),
        final(world).spec_next_id() == old(world).spec_next_id(),
        final(world).spec_panels() == old(world).spec_panels(),
{
    let n = world.elements.len();
    let mut count: usize = 0;
    let mut i: usize = 0;
    assert(old(world)@.take(0) =~= Seq::<UiElement>::empty());
    while i < n
        invariant
            i <= n,
            n == world@.len(),
            n == old(world)@.len(),
            count <= i,
            count == selected_count(old(world)@.take(i as int)),
            forall|k: int| 0 <= k < i ==> #[trigger] world@[k] == with_enable_edit(old(world)@, edit)[k],
            forall|k: int| i <= k < n ==> #[trigger] world@[k] == old(world)@[k],
            world.spec_next_id() == old(world).spec_next_id(),
            world.spec_panels() == old(world).spec_panels(),
        decreases n - i,
    {
        proof {
            assert(old(world)@.take(i + 1).drop_last() =~= old(world)@.take(i as int));
        }
        if world.elements[i].selected.selected {
            let now = world.elements[i].widget.enabled();
            let then = match edit {
                EnableEdit::EnableAll => true,
                EnableEdit::DisableAll => false,
                EnableEdit::ToggleAll => !now,
            };
            set_enabled(&mut world.elements[i].widget, then);
            count += 1;
        }
        i += 1;
    }
    proof {
        assert(old(world)@.take(n as int) =~= old(world)@);
        assert(world@ =~= with_enable_edit(old(world)@, edit));
        assert(same_entities(old(world)@, world@));
        lemma_same_entities_keep_order(old(world)@, world@);
    }
    count
}

/// The widgets of `elements` that are not selected, in their order.
pub open spec fn without_selected(elements: Seq<UiElement>) -> Seq<UiElement>
    decreases elements.len(),
{
    if elements.len() == 0 {
        Seq::<UiElement>::empty()
    } else if elements.last().selected.selected {
        without_selected(elements.drop_last())
    } else {
        without_selected(elements.drop_last()).push(elements.last())
    }
}

/// Taking one widget out leaves the others in entity order.
pub proof fn lemma_remove_keeps_order(elements: Seq<UiElement>, i: int, bound: u64)
    requires
        in_entity_order(elements),
        0 <= i < elements.len(),
        forall|k: int| 0 <= k < elements.len() ==> (#[trigger] elements[k]).entity.id < bound,
    ensures
        in_entity_order(elements.remove(i)),
        forall|k: int| 0 <= k < elements.remove(i).len() ==> (#[trigger] elements.remove(i)[k]).entity.id < bound,
{
    let after = elements.remove(i);
    assert forall|a: int, b: int| 0 <= a < b < after.len() implies (#[trigger] after[a]).entity.id < (
    #[trigger] after[b]).entity.id by {
        let oa = if a < i { a } else { a + 1 };
        let ob = if b < i { b } else { b + 1 };
        assert(after[a] == elements[oa]);
        assert(after[b] == elements[ob]);
    }
    assert forall|k: int| 0 <= k < after.len() implies (#[trigger] after[k]).entity.id < bound by {
        let ok = if k < i { k } else { k + 1 };
        assert(after[k] == elements[ok]);
    }
}

/// Removes every selected widget. Answers how many were removed; the
/// widgets that stay keep their order and all that is attached to them.
pub fn despawn_selected(world: &mut DesignerWorld) -> (removed: usize)
    requires
        old(world).wf(),
    ensures
        final(world).wf(),
        final(world)@ == without_selected(old(world)@),
        removed == selected_count(old(world)@),
        final(world).spec_next_id() == old(world).spec_next_id(),
        final(world).spec_panels() == old(world).spec_panels(),
{
    let n = world.elements.len();
    let mut removed: usize = 0;
    let mut i: usize = 0;
    let mut seen: usize = 0;
    assert(old(world)@.take(0) =~= Seq::<UiElement>::empty());
    assert(old(world)@.skip(0) =~= old(world)@);
    while seen < n
        invariant
            seen <= n,
            n == old(world)@.len(),
            i + removed == seen,
            removed == selected_count(old(world)@.take(seen as int)),
            i == without_selected(old(world)@.take(seen as int)).len(),
            world@ == without_selected(old(world)@.take(seen as int)) + old(world)@.skip(seen as int),
            world.wf(),
            world.spec_next_id() == old(world).spec_next_id(),
            world.spec_panels() == old(world).spec_panels(),
        decreases n - seen,
    {
        proof {
            assert(old(world)@.take(seen + 1).drop_last() =~= old(world)@.take(seen as int));
            assert(world@[i as int] == old(world)@.skip(seen as int)[0]);
        }
        if world.elements[i].selected.selected {
            proof {
                lemma_remove_keeps_order(world@, i as int, world.spec_next_id());
            }
            world.elements.remove(i);
            removed += 1;
            assert(world@ =~= without_selected(old(world)@.take(seen + 1)) + old(world)@.skip(
                seen + 1,
            ));
        } else {
            i += 1;
            assert(world@ =~= without_selected(old(world)@.take(seen + 1)) + old(world)@.skip(
                seen + 1,
            ));
        }
        seen += 1;
    }
    proof {
        assert(old(world)@.take(n as int) =~= old(world)@);
        assert(world@ =~= without_selected(old(world)@));
    }
    removed
}

/// What the event log is told after selected widgets were deleted.
pub open spec fn deletion_message(count: nat) -> Seq<char> {
    count_message("Deleted "@, count, " elements"@)
}

/// Deletes every selected widget. Where any was deleted, the event log is
/// told how many.
pub fn delete_selected_elements(world: &mut DesignerWorld)
    requires
        old(world).wf(),
    ensures
        final(world).wf(),
        final(world)@ == without_selected(old(world)@),
        final(world).spec_next_id() == old(world).spec_next_id(),
        selected_count(old(world)@) == 0 ==> final(world).spec_panels() == old(world).spec_panels(),
        selected_count(old(world)@) > 0 ==> logged(
            old(world).spec_panels(),
            final(world).spec_panels(),
            deletion_message(selected_count(old(world)@)),
        ),
{
    let deleted_count = despawn_selected(world);
    if deleted_count > 0 {
        let mut message = String::from_str("Deleted ");
        push_decimal(&mut message, deleted_count as u64);
        message.append(" elements");
        add_designer_log(world, message.as_str());
    }
}

/// Removes every widget and tells the event log. The panels stay.
pub fn clear_all_ui_elements(world: &mut DesignerWorld)
    requires
        old(world).wf(),
    ensures
        final(world).wf(),
        final(world)@ == Seq::<UiElement>::empty(),
        final(world).spec_next_id() == old(world).spec_next_id(),
        logged(old(world).spec_panels(), final(world).spec_panels(), "Cleared all UI elements"@),
{
    world.elements.clear();
    add_designer_log(world, "Cleared all UI elements");
}

} // verus!
