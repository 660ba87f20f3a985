//! The selection: which widgets are marked, marking by rectangle, and the
//! drag that draws the rectangle.

use vstd::prelude::*;
use crate::components::Entity;
use crate::components::UiElement;
use crate::components::UiElementSelected;
use crate::geometry::Pos2;
use crate::geometry::Rect;
use crate::geometry::Vec2;
use crate::geometry::max_int;
use crate::world::DesignerWorld;
use crate::world::in_entity_order;

verus! {

/// A widget is at least this wide when it is hit-tested.
pub const MIN_VISUAL_WIDTH: i32 = 100;

/// A widget is at least this high when it is hit-tested.
pub const MIN_VISUAL_HEIGHT: i32 = 25;

/// A drag rectangle counts as a selection only if it is wider and higher
/// than this.
pub const MIN_DRAG_EXTENT: i32 = 5;

/// `after` holds the widgets of `before`, unchanged but for their selection
/// flags.
pub open spec fn same_but_selection(before: Seq<UiElement>, after: Seq<UiElement>) -> bool {
    &&& after.len() == before.len()
    &&& forall|i: int|
        0 <= i < before.len() ==> #[trigger] after[i] == (UiElement {
            selected: after[i].selected,
            ..before[i]
        })
}

/// How many widgets of `elements` are selected.
pub open spec fn selected_count(elements: Seq<UiElement>) -> nat
    decreases elements.len(),
{
    if elements.len() == 0 {
        0
    } else {
        selected_count(elements.drop_last()) + if elements.last().selected.selected {
            1nat
        } else {
            0nat
        }
    }
}

/// The handles of the selected widgets of `elements`, in entity order.
pub open spec fn selected_entities(elements: Seq<UiElement>) -> Seq<Entity>
    decreases elements.len(),
{
    if elements.len() == 0 {
        Seq::<Entity>::empty()
    } else if elements.last().selected.selected {
        selected_entities(elements.drop_last()).push(elements.last().entity)
    } else {
        selected_entities(elements.drop_last())
    }
}

/// The rectangle in which a widget is hit: from its corner over its size,
/// but no smaller than the least size at which a widget shows.
pub open spec fn hit_rect(element: UiElement) -> Rect {
    Rect::spec_from_min_size(
        Pos2 { x: element.position.x, y: element.position.y },
        Vec2 {
            x: max_int(element.size.width as int, MIN_VISUAL_WIDTH as int) as i32,
            y: max_int(element.size.height as int, MIN_VISUAL_HEIGHT as int) as i32,
        },
    )
}

/// Widgets that differ only in selection flags are in the same order.
pub proof fn lemma_selection_keeps_order(before: Seq<UiElement>, after: Seq<UiElement>)
    requires
        same_but_selection(before, after),
    ensures
        in_entity_order(before) ==> in_entity_order(after),
        forall|i: int| 0 <= i < before.len() ==> (#[trigger] after[i]).entity == before[i].entity,
{
    assert forall|i: int| 0 <= i < before.len() implies (#[trigger] after[i]).entity
        == before[i].entity by {
        assert(after[i] == (UiElement { selected: after[i].selected, ..before[i] }));
    }
}

/// The hit rectangle of a widget.
pub fn element_hit_rect(element: &UiElement) -> (r: Rect)
    ensures
        r == hit_rect(*element),
{
    let width = if element.size.width >= MIN_VISUAL_WIDTH {
        element.size.width
    } else {
        MIN_VISUAL_WIDTH
    };
    let height = if element.size.height >= MIN_VISUAL_HEIGHT {
        element.size.height
    } else {
        MIN_VISUAL_HEIGHT
    };
    Rect::from_min_size(
        Pos2 { x: element.position.x, y: element.position.y },
        Vec2 { x: width, y: height },
    )
}

/// Counts the selected widgets.
pub fn count_selected_elements(world: &DesignerWorld) -> (count: usize)
    ensures
        count == selected_count(world@),
{
    let mut count: usize = 0;
    let mut i: usize = 0;
    assert(world@.take(0) =~= Seq::<UiElement>::empty());
    while i < world.elements.len()
        invariant
            i <= world@.len(),
            count <= i,
            count == selected_count(world@.take(i as int)),
        decreases world@.len() - i,
    {
        proof {
            assert(world@.take(i + 1).drop_last() =~= world@.take(i as int));
        }
        if world.elements[i].selected.selected {
            count += 1;
        }
        i += 1;
    }
    assert(world@.take(world@.len() as int) =~= world@);
    count
}

/// The handles of the selected widgets, in entity order.
pub fn selected_ids(world: &DesignerWorld) -> (ids: Vec<Entity>)
    ensures
        ids@ == selected_entities(world@),
{
    let mut ids: Vec<Entity> = Vec::new();
    let mut i: usize = 0;
    assert(world@.take(0) =~= Seq::<UiElement>::empty());
    while i < world.elements.len()
        invariant
            i <= world@.len(),
            ids@ == selected_entities(world@.take(i as int)),
        decreases world@.len() - i,
    {
        proof {
            assert(world@.take(i + 1).drop_last() =~= world@.take(i as int));
        }
        if world.elements[i].selected.selected {
            ids.push(world.elements[i].entity);
        }
        i += 1;
    }
    assert(world@.take(world@.len() as int) =~= world@);
    ids
}

/// The widgets with the selection flag of each set by `flag`, which is
/// given the widget and its place.
pub open spec fn with_flags(elements: Seq<UiElement>, flag: spec_fn(UiElement) -> bool) -> Seq<UiElement> {
    Seq::new(
        elements.len(),
        |i: int| UiElement { selected: UiElementSelected { selected: flag(elements[i]) }, ..elements[i] },
    )
}

/// The widgets with none of them selected.
pub open spec fn with_none_selected(elements: Seq<UiElement>) -> Seq<UiElement> {
    with_flags(elements, |element: UiElement| false)
}

/// The widgets with all of them selected.
pub open spec fn with_all_selected(elements: Seq<UiElement>) -> Seq<UiElement> {
    with_flags(elements, |element: UiElement| true)
}

/// The widgets after a drag rectangle `rect` passed over them: a widget
/// whose hit rectangle overlaps or touches `rect` is selected, and any
/// other keeps the flag it had.
pub open spec fn with_rect_selected(elements: Seq<UiElement>, rect: Rect) -> Seq<UiElement> {
    with_flags(
        elements,
        |element: UiElement| element.selected.selected || rect.spec_intersects(hit_rect(element)),
    )
}

/// Takes every widget out of the selection.
pub fn clear_all_selections(world: &mut DesignerWorld)
    requires
        old(world).wf(),
    ensures
        final(world).wf(),
        final(world)@ == with_none_selected(old(world)@),
        final(world).spec_next_id() == old(world).spec_next_id(),
        final(world).spec_panels() == old(world).spec_panels(),
{
    let mut i: usize = 0;
    while i < world.elements.len()
        invariant
            i <= world@.len(),
            same_but_selection(old(world)@, world@),
            forall|k: int| 0 <= k < i ==> !(#[trigger] world@[k]).selected.selected,
            forall|k: int| i <= k < world@.len() ==> #[trigger] world@[k] == old(world)@[k],
            world.spec_next_id() == old(world).spec_next_id(),
            world.spec_panels() == old(world).spec_panels(),
        decreases world@.len() - i,
    {
        world.elements[i].selected = UiElementSelected { selected: false };
        i += 1;
    }
    proof {
        lemma_selection_keeps_order(old(world)@, world@);
        assert(world@ =~= with_none_selected(old(world)@));
    }
}

/// Puts every widget into the selection and answers how many there are.
pub fn select_all_elements(world: &mut DesignerWorld) -> (count: usize)
    requires
        old(world).wf(),
    ensures
        final(world).wf(),
        final(world)@ == with_all_selected(old(world)@),
        count == old(world)@.len(),
        final(world).spec_next_id() == old(world).spec_next_id(),
        final(world).spec_panels() == old(world).spec_panels(),
{
    let mut i: usize = 0;
    while i < world.elements.len()
        invariant
            i <= world@.len(),
            same_but_selection(old(world)@, world@),
            forall|k: int| 0 <= k < i ==> (#[trigger] world@[k]).selected.selected,
            forall|k: int| i <= k < world@.len() ==> #[trigger] world@[k] == old(world)@[k],
            world.spec_next_id() == old(world).spec_next_id(),
            world.spec_panels() == old(world).spec_panels(),
        decreases world@.len() - i,
    {
        world.elements[i].selected = UiElementSelected { selected: true };
        i += 1;
    }
    proof {
        lemma_selection_keeps_order(old(world)@, world@);
        assert(world@ =~= with_all_selected(old(world)@));
    }
    i
}

/// Marks every widget whose hit rectangle overlaps or touches `rect`. A
/// widget that `rect` misses keeps the flag it had.
pub fn select_elements_in_rect(world: &mut DesignerWorld, rect: Rect)
    requires
        old(world).wf(),
    ensures
        final(world).wf(),
        final(world)@ == with_rect_selected(old(world)@, rect),
        final(world).spec_next_id() == old(world).spec_next_id(),
        final(world).spec_panels() == old(world).spec_panels(),
{
    let mut i: usize = 0;
    while i < world.elements.len()
        invariant
            i <= world@.len(),
            same_but_selection(old(world)@, world@),
            forall|k: int|
                0 <= k < i ==> (#[trigger] world@[k]).selected.selected == (old(
                    world,
                )@[k].selected.selected || rect.spec_intersects(hit_rect(old(world)@[k]))),
            forall|k: int| i <= k < world@.len() ==> #[trigger] world@[k] == old(world)@[k],
            world.spec_next_id() == old(world).spec_next_id(),
            world.spec_panels() == old(world).spec_panels(),
        decreases world@.len() - i,
    {
        let element_rect = element_hit_rect(&world.elements[i]);
        if rect.intersects(element_rect) {
            world.elements[i].selected = UiElementSelected { selected: true };
        }
        i += 1;
    }
    proof {
        lemma_selection_keeps_order(old(world)@, world@);
        assert(world@ =~= with_rect_selected(old(world)@, rect));
    }
}

/// Whether `pos` lies in the hit rectangle of some widget.
pub open spec fn over_widget(elements: Seq<UiElement>, pos: Pos2) -> bool {
    exists|i: int| 0 <= i < elements.len() && hit_rect(#[trigger] elements[i]).spec_contains(pos)
}

/// Whether a press at `pos` would land on a widget rather than on the empty
/// canvas.
pub fn is_clicking_on_widget(world: &DesignerWorld, pos: Pos2) -> (hit: bool)
    ensures
        hit == over_widget(world@, pos),
{
    let mut i: usize = 0;
    while i < world.elements.len()
        invariant
            i <= world@.len(),
            forall|k: int| 0 <= k < i ==> !hit_rect(#[trigger] world@[k]).spec_contains(pos),
        decreases world@.len() - i,
    {
        let element_rect = element_hit_rect(&world.elements[i]);
        if element_rect.contains(pos) {
            return true;
        }
        i += 1;
    }
    false
}

/// A drag across widgets marks exactly those it reaches: a widget whose hit
/// rectangle shares no point with the drag rectangle keeps the flag it had,
/// and one that shares a point with it is selected. Nothing else about a
/// widget changes.
pub proof fn lemma_rect_selection_marks_what_it_reaches(elements: Seq<UiElement>, rect: Rect, i: int)
    requires
        rect.is_ordered(),
        0 <= i < elements.len(),
    ensures
        same_but_selection(elements, with_rect_selected(elements, rect)),
        (exists|p: Pos2| rect.spec_contains(p) && hit_rect(elements[i]).spec_contains(p))
            ==> with_rect_selected(elements, rect)[i].selected.selected,
        !(exists|p: Pos2| rect.spec_contains(p) && hit_rect(elements[i]).spec_contains(p))
            ==> with_rect_selected(elements, rect)[i].selected == elements[i].selected,
{
    assert(hit_rect(elements[i]).is_ordered());
    crate::geometry::lemma_intersects_iff_common_point(rect, hit_rect(elements[i]));
}

} // verus!
