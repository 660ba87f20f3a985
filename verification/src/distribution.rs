//! Laying out the selected widgets: aligning them to an edge, distributing
//! them at a fixed step, and arranging them in a column or a row.
//!
//! The widgets of a selection are taken in the order of their coordinate
//! along an axis; widgets with the same coordinate keep their entity order.
//! The place of a widget in that order is the number of selected widgets
//! that go before it.

use vstd::prelude::*;
use crate::components::UiElement;
use crate::components::UiElementPosition;
use crate::components::UiElementSize;
use crate::geometry::clamp_coord;
use crate::geometry::saturate;
use crate::logging::add_designer_log;
use crate::logging::logged;
use crate::panels::DistributionSettings;
use crate::selection::selected_count;
use crate::sorting::is_sorted;
use crate::sorting::lemma_sorted_place_is_rank;
use crate::sorting::room_of_first;
use crate::sorting::sort_picked;
use crate::text::decimal;
use crate::text::push_decimal;
use crate::world::DesignerWorld;
use crate::world::in_entity_order;

verus! {

/// The two axes of the canvas.
#[derive(Clone, Copy, Debug, PartialEq, Eq, Structural)]
pub enum Axis {
    Horizontal,
    Vertical,
}

impl Axis {
    /// The other axis.
    pub open spec fn spec_cross(self) -> Axis {
        match self {
            Axis::Horizontal => Axis::Vertical,
            Axis::Vertical => Axis::Horizontal,
        }
    }

    pub fn cross(self) -> (other: Axis)
        ensures
            other == self.spec_cross(),
    {
        match self {
            Axis::Horizontal => Axis::Vertical,
            Axis::Vertical => Axis::Horizontal,
        }
    }
}

/// The coordinate of `position` along `axis`.
pub open spec fn along(position: UiElementPosition, axis: Axis) -> int {
    match axis {
        Axis::Horizontal => position.x as int,
        Axis::Vertical => position.y as int,
    }
}

/// The extent of `size` along `axis`.
pub open spec fn extent(size: UiElementSize, axis: Axis) -> int {
    match axis {
        Axis::Horizontal => size.width as int,
        Axis::Vertical => size.height as int,
    }
}

/// `position` with its coordinate along `axis` set to `v`, brought into the
/// coordinate range.
pub open spec fn moved_along(position: UiElementPosition, axis: Axis, v: int) -> UiElementPosition {
    match axis {
        Axis::Horizontal => UiElementPosition { x: clamp_coord(v) as i32, ..position },
        Axis::Vertical => UiElementPosition { y: clamp_coord(v) as i32, ..position },
    }
}

/// Whether a widget at place `a` with coordinate `key_a` comes before the
/// widget at place `b` with coordinate `key_b`: by coordinate, and by place
/// where the coordinates are equal.
pub open spec fn goes_before(key_a: int, a: int, key_b: int, b: int) -> bool {
    key_a < key_b || (key_a == key_b && a < b)
}

/// How many selected widgets of `elements` go before a widget at place
/// `index` with coordinate `key` along `axis`.
pub open spec fn count_before(elements: Seq<UiElement>, axis: Axis, key: int, index: int) -> nat
    decreases elements.len(),
{
    if elements.len() == 0 {
        0
    } else {
        let last = elements.last();
        count_before(elements.drop_last(), axis, key, index) + if last.selected.selected
            && goes_before(along(last.position, axis), elements.len() - 1, key, index) {
            1nat
        } else {
            0nat
        }
    }
}

/// The place of widget `i` among the selected widgets ordered along `axis`,
/// counted from zero.
pub open spec fn rank(elements: Seq<UiElement>, axis: Axis, i: int) -> nat
    recommends
        0 <= i < elements.len(),
{
    count_before(elements, axis, along(elements[i].position, axis), i)
}

/// The least coordinate along `axis` of the selected widgets; the top of the
/// coordinate range where none is selected.
pub open spec fn least_selected(elements: Seq<UiElement>, axis: Axis) -> int
    decreases elements.len(),
{
    if elements.len() == 0 {
        i32::MAX as int
    } else {
        let rest = least_selected(elements.drop_last(), axis);
        let last = elements.last();
        if last.selected.selected && along(last.position, axis) < rest {
            along(last.position, axis)
        } else {
            rest
        }
    }
}

/// The least value that a far edge can take.
pub open spec fn least_far_edge() -> int {
    2 * (i32::MIN as int)
}

/// The greatest far edge (coordinate plus extent) along `axis` of the
/// selected widgets; the least value that a far edge can take where none is
/// selected.
pub open spec fn greatest_far_edge(elements: Seq<UiElement>, axis: Axis) -> int
    decreases elements.len(),
{
    if elements.len() == 0 {
        least_far_edge()
    } else {
        let rest = greatest_far_edge(elements.drop_last(), axis);
        let last = elements.last();
        let edge = along(last.position, axis) + extent(last.size, axis);
        if last.selected.selected && edge > rest {
            edge
        } else {
            rest
        }
    }
}

/// The room taken along `axis` by the selected widgets that go before a
/// widget at place `index` with coordinate `key`: for each of them its
/// extent and one `spacing`.
pub open spec fn run_before(
    elements: Seq<UiElement>,
    axis: Axis,
    spacing: int,
    key: int,
    index: int,
) -> int
    decreases elements.len(),
{
    if elements.len() == 0 {
        0
    } else {
        let last = elements.last();
        run_before(elements.drop_last(), axis, spacing, key, index) + if last.selected.selected
            && goes_before(along(last.position, axis), elements.len() - 1, key, index) {
            extent(last.size, axis) + spacing
        } else {
            0
        }
    }
}

/// `after` holds the widgets of `before`, unchanged but for their positions.
pub open spec fn same_but_position(before: Seq<UiElement>, after: Seq<UiElement>) -> bool {
    &&& after.len() == before.len()
    &&& forall|i: int|
        0 <= i < before.len() ==> #[trigger] after[i] == (UiElement {
            position: after[i].position,
            ..before[i]
        })
}

/// Widgets that differ only in position are in the same entity order.
pub proof fn lemma_position_keeps_order(before: Seq<UiElement>, after: Seq<UiElement>)
    requires
        same_but_position(before, after),
    ensures
        in_entity_order(before) ==> in_entity_order(after),
        forall|i: int| 0 <= i < before.len() ==> (#[trigger] after[i]).entity == before[i].entity,
{
    assert forall|i: int| 0 <= i < before.len() implies (#[trigger] after[i]).entity
        == before[i].entity by {
        assert(after[i] == (UiElement { position: after[i].position, ..before[i] }));
    }
}

/// What stands for a selected widget while a layout is computed: its place
/// in the world, its coordinate along the axis, and its extent along it.
#[derive(Clone, Copy, Debug)]
pub struct Picked {
    pub index: usize,
    pub key: i32,
    pub extent: i32,
}

/// The selected widgets of `elements`, in entity order.
pub open spec fn picked(elements: Seq<UiElement>, axis: Axis) -> Seq<Picked>
    decreases elements.len(),
{
    if elements.len() == 0 {
        Seq::<Picked>::empty()
    } else {
        let last = elements.last();
        if last.selected.selected {
            picked(elements.drop_last(), axis).push(
                Picked {
                    index: (elements.len() - 1) as usize,
                    key: along(last.position, axis) as i32,
                    extent: extent(last.size, axis) as i32,
                },
            )
        } else {
            picked(elements.drop_last(), axis)
        }
    }
}

/// How many of `items` go before a widget at place `index` with coordinate
/// `key`.
pub open spec fn count_in(items: Seq<Picked>, key: int, index: int) -> nat
    decreases items.len(),
{
    if items.len() == 0 {
        0
    } else {
        count_in(items.drop_last(), key, index) + if goes_before(
            items.last().key as int,
            items.last().index as int,
            key,
            index,
        ) {
            1nat
        } else {
            0nat
        }
    }
}

/// The room taken by those of `items` that go before a widget at place
/// `index` with coordinate `key`.
pub open spec fn run_in(items: Seq<Picked>, spacing: int, key: int, index: int) -> int
    decreases items.len(),
{
    if items.len() == 0 {
        0
    } else {
        run_in(items.drop_last(), spacing, key, index) + if goes_before(
            items.last().key as int,
            items.last().index as int,
            key,
            index,
        ) {
            items.last().extent + spacing
        } else {
            0
        }
    }
}

/// The least coordinate among `items`.
pub open spec fn least_in(items: Seq<Picked>) -> int
    decreases items.len(),
{
    if items.len() == 0 {
        i32::MAX as int
    } else {
        let rest = least_in(items.drop_last());
        if items.last().key < rest {
            items.last().key as int
        } else {
            rest
        }
    }
}

/// The greatest far edge among `items`.
pub open spec fn greatest_in(items: Seq<Picked>) -> int
    decreases items.len(),
{
    if items.len() == 0 {
        least_far_edge()
    } else {
        let rest = greatest_in(items.drop_last());
        let edge = items.last().key + items.last().extent;
        if edge > rest {
            edge
        } else {
            rest
        }
    }
}

/// What is counted, summed and compared over the picked widgets is what is
/// counted, summed and compared over the selected widgets of the world.
pub proof fn lemma_picked_stands_for_selected(
    elements: Seq<UiElement>,
    axis: Axis,
    spacing: int,
    key: int,
    index: int,
)
    requires
        elements.len() <= usize::MAX,
    ensures
        picked(elements, axis).len() == selected_count(elements),
        count_in(picked(elements, axis), key, index) == count_before(elements, axis, key, index),
        run_in(picked(elements, axis), spacing, key, index) == run_before(
            elements,
            axis,
            spacing,
            key,
            index,
        ),
        least_in(picked(elements, axis)) == least_selected(elements, axis),
        greatest_in(picked(elements, axis)) == greatest_far_edge(elements, axis),
    decreases elements.len(),
{
    if elements.len() > 0 {
        lemma_picked_stands_for_selected(elements.drop_last(), axis, spacing, key, index);
        if elements.last().selected.selected {
            let items = picked(elements, axis);
            assert(items.drop_last() =~= picked(elements.drop_last(), axis));
        }
    }
}

/// Reads the coordinate of a position along an axis.
pub fn coordinate(position: &UiElementPosition, axis: Axis) -> (v: i32)
    ensures
        v as int == along(*position, axis),
{
    match axis {
        Axis::Horizontal => position.x,
        Axis::Vertical => position.y,
    }
}

/// Reads the extent of a size along an axis.
pub fn extent_of(size: &UiElementSize, axis: Axis) -> (v: i32)
    ensures
        v as int == extent(*size, axis),
{
    match axis {
        Axis::Horizontal => size.width,
        Axis::Vertical => size.height,
    }
}

/// Collects the selected widgets with their coordinates along `axis`.
fn collect_selected(world: &DesignerWorld, axis: Axis) -> (items: Vec<Picked>)
    ensures
        items@ == picked(world@, axis),
{
    let mut items: Vec<Picked> = Vec::new();
    let mut i: usize = 0;
    assert(world@.take(0) =~= Seq::<UiElement>::empty());
    while i < world.elements.len()
        invariant
            i <= world@.len(),
            items@ == picked(world@.take(i as int), axis),
        decreases world@.len() - i,
    {
        proof {
            assert(world@.take(i + 1).drop_last() =~= world@.take(i as int));
        }
        if world.elements[i].selected.selected {
            items.push(
                Picked {
                    index: i,
                    key: coordinate(&world.elements[i].position, axis),
                    extent: extent_of(&world.elements[i].size, axis),
                },
            );
        }
        i += 1;
    }
    assert(world@.take(world@.len() as int) =~= world@);
    items
}

/// The least coordinate among the picked widgets.
fn least_key(items: &Vec<Picked>) -> (least: i32)
    ensures
        least as int == least_in(items@),
{
    let mut least: i32 = i32::MAX;
    let mut m: usize = 0;
    assert(items@.take(0) =~= Seq::<Picked>::empty());
    while m < items.len()
        invariant
            m <= items@.len(),
            least as int == least_in(items@.take(m as int)),
        decreases items@.len() - m,
    {
        proof {
            assert(items@.take(m + 1).drop_last() =~= items@.take(m as int));
        }
        if items[m].key < least {
            least = items[m].key;
        }
        m += 1;
    }
    assert(items@.take(items@.len() as int) =~= items@);
    least
}

/// The greatest far edge among the picked widgets.
fn greatest_edge(items: &Vec<Picked>) -> (greatest: i64)
    ensures
        greatest as int == greatest_in(items@),
        2 * (i32::MIN as int) <= greatest <= 2 * (i32::MAX as int),
{
    let mut greatest: i64 = -4294967296;
    let mut m: usize = 0;
    assert(items@.take(0) =~= Seq::<Picked>::empty());
    while m < items.len()
        invariant
            m <= items@.len(),
            greatest as int == greatest_in(items@.take(m as int)),
            2 * (i32::MIN as int) <= greatest <= 2 * (i32::MAX as int),
        decreases items@.len() - m,
    {
        proof {
            assert(items@.take(m + 1).drop_last() =~= items@.take(m as int));
        }
        let edge: i64 = items[m].key as i64 + items[m].extent as i64;
        if edge > greatest {
            greatest = edge;
        }
        m += 1;
    }
    assert(items@.take(items@.len() as int) =~= items@);
    greatest
}

/// The edges to which a selection can be aligned.
#[derive(Clone, Copy, Debug, PartialEq, Eq, Structural)]
pub enum Edge {
    Left,
    Right,
    Top,
    Bottom,
}

impl Edge {
    /// The axis along which aligning to this edge moves a widget.
    pub open spec fn spec_axis(self) -> Axis {
        match self {
            Edge::Left | Edge::Right => Axis::Horizontal,
            Edge::Top | Edge::Bottom => Axis::Vertical,
        }
    }

    /// Whether the edge is the far one along its axis.
    pub open spec fn spec_is_far(self) -> bool {
        self == Edge::Right || self == Edge::Bottom
    }

    pub fn axis(self) -> (a: Axis)
        ensures
            a == self.spec_axis(),
    {
        match self {
            Edge::Left | Edge::Right => Axis::Horizontal,
            Edge::Top | Edge::Bottom => Axis::Vertical,
        }
    }

    pub fn is_far(self) -> (far: bool)
        ensures
            far == self.spec_is_far(),
    {
        match self {
            Edge::Left | Edge::Top => false,
            Edge::Right | Edge::Bottom => true,
        }
    }
}

/// The widgets after a distribution along `axis` with the step `spacing`.
///
/// With fewer than two widgets selected nothing moves. Otherwise the
/// selected widget that comes first along the axis stays, and the one at
/// place `k` in the order goes `k` steps beyond it.
pub open spec fn distributed(elements: Seq<UiElement>, axis: Axis, spacing: int) -> Seq<UiElement> {
    if selected_count(elements) < 2 {
        elements
    } else {
        Seq::new(
            elements.len(),
            |i: int|
                if elements[i].selected.selected {
                    UiElement {
                        position: moved_along(
                            elements[i].position,
                            axis,
                            least_selected(elements, axis) + rank(elements, axis, i) * spacing,
                        ),
                        ..elements[i]
                    }
                } else {
                    elements[i]
                },
        )
    }
}

/// The widgets after the selection is arranged in a line along `axis`.
///
/// With fewer than two widgets selected nothing moves. Otherwise every
/// selected widget goes to the least coordinate of the selection across
/// the axis, and along the axis behind the widgets that come before it,
/// each followed by `spacing`.
pub open spec fn arranged(elements: Seq<UiElement>, axis: Axis, spacing: int) -> Seq<UiElement> {
    if selected_count(elements) < 2 {
        elements
    } else {
        Seq::new(
            elements.len(),
            |i: int|
                if elements[i].selected.selected {
                    UiElement {
                        position: moved_along(
                            moved_along(
                                elements[i].position,
                                axis.spec_cross(),
                                least_selected(elements, axis.spec_cross()),
                            ),
                            axis,
                            least_selected(elements, axis) + run_before(
                                elements,
                                axis,
                                spacing,
                                along(elements[i].position, axis),
                                i,
                            ),
                        ),
                        ..elements[i]
                    }
                } else {
                    elements[i]
                },
        )
    }
}

/// Where aligning to `edge` puts a widget of the given position and size:
/// with its near edge on the least coordinate of the selection, or with its
/// far edge on the greatest far edge of the selection.
pub open spec fn aligned_position(elements: Seq<UiElement>, edge: Edge, element: UiElement) -> UiElementPosition {
    if edge.spec_is_far() {
        moved_along(
            element.position,
            edge.spec_axis(),
            greatest_far_edge(elements, edge.spec_axis()) - extent(element.size, edge.spec_axis()),
        )
    } else {
        moved_along(element.position, edge.spec_axis(), least_selected(elements, edge.spec_axis()))
    }
}

/// The widgets after the selection is aligned to `edge`. With fewer than
/// two widgets selected nothing moves.
pub open spec fn aligned(elements: Seq<UiElement>, edge: Edge) -> Seq<UiElement> {
    if selected_count(elements) < 2 {
        elements
    } else {
        Seq::new(
            elements.len(),
            |i: int|
                if elements[i].selected.selected {
                    UiElement {
                        position: aligned_position(elements, edge, elements[i]),
                        ..elements[i]
                    }
                } else {
                    elements[i]
                },
        )
    }
}

/// Sets the coordinate of a position along an axis.
fn set_coordinate(position: &mut UiElementPosition, axis: Axis, v: i32)
    ensures
        *final(position) == moved_along(*old(position), axis, v as int),
{
    match axis {
        Axis::Horizontal => {
            position.x = v;
        },
        Axis::Vertical => {
            position.y = v;
        },
    }
}

/// Distributes the selection along `axis` and answers how many widgets are
/// selected.
///
/// The selected widgets are sorted by their coordinate along the axis. The
/// first stays where it is, and each one after it goes one `spacing`
/// beyond the one before.
pub fn distribute_along(world: &mut DesignerWorld, axis: Axis, spacing: i32) -> (count: usize)
    requires
        old(world).wf(),
    ensures
        final(world).wf(),
        final(world)@ == distributed(old(world)@, axis, spacing as int),
        count == selected_count(old(world)@),
        final(world).spec_next_id() == old(world).spec_next_id(),
        final(world).spec_panels() == old(world).spec_panels(),
{
    let n = world.elements.len();
    let items = collect_selected(world, axis);
    proof {
        lemma_picked_stands_for_selected(world@, axis, 0, 0, 0);
    }
    let count = items.len();
    if count < 2 {
        return count;
    }
    let sorted = sort_picked(&items);
    let start = sorted[0].key;
    proof {
        lemma_sorted_place_is_rank(world@, axis, spacing as int, sorted@, 0);
        lemma_least_selected_is_least(world@, axis, sorted@[0].index as int);
    }
    let mut k: usize = 0;
    while k < count
        invariant
            k <= count,
            count == sorted@.len(),
            n == world@.len(),
            n == old(world)@.len(),
            selected_count(old(world)@) >= 2,
            is_sorted(sorted@),
            sorted@.to_multiset() == picked(old(world)@, axis).to_multiset(),
            start as int == least_selected(old(world)@, axis),
            forall|i: int|
                0 <= i < n ==> #[trigger] world@[i] == (if old(world)@[i].selected.selected && rank(
                    old(world)@,
                    axis,
                    i,
                ) < k {
                    distributed(old(world)@, axis, spacing as int)[i]
                } else {
                    old(world)@[i]
                }),
            world.spec_next_id() == old(world).spec_next_id(),
            world.spec_panels() == old(world).spec_panels(),
        decreases count - k,
    {
        let item = sorted[k];
        proof {
            lemma_sorted_place_is_rank(old(world)@, axis, spacing as int, sorted@, k as int);
            assert(-0x1_0000_0000_0000_0000 * 0x8000_0000 <= k * spacing
                <= 0x1_0000_0000_0000_0000 * 0x8000_0000) by (nonlinear_arith)
                requires
                    0 <= k <= 0x1_0000_0000_0000_0000,
                    -0x8000_0000 <= spacing <= 0x8000_0000,
            ;
        }
        let target = saturate(start as i128 + (k as i128) * (spacing as i128));
        let ghost before = world@;
        set_coordinate(&mut world.elements[item.index].position, axis, target);
        proof {
            assert forall|i: int| 0 <= i < n implies #[trigger] world@[i] == (if old(
                world,
            )@[i].selected.selected && rank(old(world)@, axis, i) < k + 1 {
                distributed(old(world)@, axis, spacing as int)[i]
            } else {
                old(world)@[i]
            }) by {
                if i != item.index as int {
                    assert(world@[i] == before[i]);
                    if old(world)@[i].selected.selected {
                        lemma_rank_follows_order(old(world)@, axis, i, item.index as int);
                    }
                }
            }
        }
        k += 1;
    }
    proof {
        assert forall|i: int| 0 <= i < n implies #[trigger] world@[i] == distributed(
            old(world)@,
            axis,
            spacing as int,
        )[i] by {
            lemma_count_before_is_bounded(
                old(world)@,
                axis,
                along(old(world)@[i].position, axis),
                i,
            );
        }
        assert(world@ =~= distributed(old(world)@, axis, spacing as int));
        lemma_position_keeps_order(old(world)@, world@);
    }
    count
}

/// Arranges the selection in a line along `axis` and answers how many
/// widgets are selected.
///
/// The selected widgets are sorted by their coordinate along the axis and
/// laid out one behind the other from where the first one stands, each
/// followed by `spacing`, all flush with the least coordinate of the
/// selection across the axis.
pub fn arrange_along(world: &mut DesignerWorld, axis: Axis, spacing: i32) -> (count: usize)
    requires
        old(world).wf(),
    ensures
        final(world).wf(),
        final(world)@ == arranged(old(world)@, axis, spacing as int),
        count == selected_count(old(world)@),
        final(world).spec_next_id() == old(world).spec_next_id(),
        final(world).spec_panels() == old(world).spec_panels(),
{
    let n = world.elements.len();
    let items = collect_selected(world, axis);
    let across = collect_selected(world, axis.cross());
    proof {
        lemma_picked_stands_for_selected(world@, axis, 0, 0, 0);
        lemma_picked_stands_for_selected(world@, axis.spec_cross(), 0, 0, 0);
    }
    let count = items.len();
    if count < 2 {
        return count;
    }
    let sorted = sort_picked(&items);
    let flush = least_key(&across);
    let start = sorted[0].key;
    proof {
        lemma_sorted_place_is_rank(world@, axis, spacing as int, sorted@, 0);
        lemma_least_selected_is_least(world@, axis, sorted@[0].index as int);
    }
    let mut current: i128 = start as i128;
    let mut k: usize = 0;
    while k < count
        invariant
            k <= count,
            count == sorted@.len(),
            n == world@.len(),
            n == old(world)@.len(),
            selected_count(old(world)@) >= 2,
            is_sorted(sorted@),
            sorted@.to_multiset() == picked(old(world)@, axis).to_multiset(),
            start as int == least_selected(old(world)@, axis),
            flush as int == least_selected(old(world)@, axis.spec_cross()),
            current == start + room_of_first(sorted@, spacing as int, k as int),
            -(k * 0x1_0000_0000) <= room_of_first(sorted@, spacing as int, k as int) <= k
                * 0x1_0000_0000,
            forall|i: int|
                0 <= i < n ==> #[trigger] world@[i] == (if old(world)@[i].selected.selected && rank(
                    old(world)@,
                    axis,
                    i,
                ) < k {
                    arranged(old(world)@, axis, spacing as int)[i]
                } else {
                    old(world)@[i]
                }),
            world.spec_next_id() == old(world).spec_next_id(),
            world.spec_panels() == old(world).spec_panels(),
        decreases count - k,
    {
        let item = sorted[k];
        proof {
            lemma_sorted_place_is_rank(old(world)@, axis, spacing as int, sorted@, k as int);
            assert(k * 0x1_0000_0000 <= 0x1_0000_0000_0000_0000 * 0x1_0000_0000)
                by (nonlinear_arith)
                requires
                    0 <= k <= 0x1_0000_0000_0000_0000,
            ;
        }
        let target = saturate(current);
        let ghost before = world@;
        set_coordinate(&mut world.elements[item.index].position, axis.cross(), flush);
        set_coordinate(&mut world.elements[item.index].position, axis, target);
        current = current + (item.extent as i128 + spacing as i128);
        proof {
            assert forall|i: int| 0 <= i < n implies #[trigger] world@[i] == (if old(
                world,
            )@[i].selected.selected && rank(old(world)@, axis, i) < k + 1 {
                arranged(old(world)@, axis, spacing as int)[i]
            } else {
                old(world)@[i]
            }) by {
                if i != item.index as int {
                    assert(world@[i] == before[i]);
                    if old(world)@[i].selected.selected {
                        lemma_rank_follows_order(old(world)@, axis, i, item.index as int);
                    }
                }
            }
        }
        k += 1;
    }
    proof {
        assert forall|i: int| 0 <= i < n implies #[trigger] world@[i] == arranged(
            old(world)@,
            axis,
            spacing as int,
        )[i] by {
            lemma_count_before_is_bounded(
                old(world)@,
                axis,
                along(old(world)@[i].position, axis),
                i,
            );
        }
        assert(world@ =~= arranged(old(world)@, axis, spacing as int));
        lemma_position_keeps_order(old(world)@, world@);
    }
    count
}

/// Aligns the selection to `edge` and answers how many widgets are
/// selected.
pub fn align_to(world: &mut DesignerWorld, edge: Edge) -> (count: usize)
    requires
        old(world).wf(),
    ensures
        final(world).wf(),
        final(world)@ == aligned(old(world)@, edge),
        count == selected_count(old(world)@),
        final(world).spec_next_id() == old(world).spec_next_id(),
        final(world).spec_panels() == old(world).spec_panels(),
{
    let axis = edge.axis();
    let far = edge.is_far();
    let n = world.elements.len();
    let items = collect_selected(world, axis);
    proof {
        lemma_picked_stands_for_selected(world@, axis, 0, 0, 0);
    }
    let count = items.len();
    if count < 2 {
        return count;
    }
    let near_line = least_key(&items);
    let far_line = greatest_edge(&items);
    let mut j: usize = 0;
    while j < n
        invariant
            j <= n,
            n == world@.len(),
            n == old(world)@.len(),
            selected_count(old(world)@) >= 2,
            axis == edge.spec_axis(),
            far == edge.spec_is_far(),
            near_line as int == least_selected(old(world)@, axis),
            far_line as int == greatest_far_edge(old(world)@, axis),
            forall|k: int| 0 <= k < j ==> #[trigger] world@[k] == aligned(old(world)@, edge)[k],
            forall|k: int| j <= k < n ==> #[trigger] world@[k] == old(world)@[k],
            world.spec_next_id() == old(world).spec_next_id(),
            world.spec_panels() == old(world).spec_panels(),
        decreases n - j,
    {
        if world.elements[j].selected.selected {
            let target = if far {
                saturate(far_line as i128 - extent_of(&world.elements[j].size, axis) as i128)
            } else {
                near_line
            };
            set_coordinate(&mut world.elements[j].position, axis, target);
        }
        j += 1;
    }
    proof {
        assert(world@ =~= aligned(old(world)@, edge));
        lemma_position_keeps_order(old(world)@, world@);
    }
    count
}

/// The text `prefix`, then `count` in decimal, then `suffix`.
pub open spec fn count_message(prefix: Seq<char>, count: nat, suffix: Seq<char>) -> Seq<char> {
    prefix + decimal(count) + suffix
}

/// Writes a message that names a count to the event log.
fn log_count(world: &mut DesignerWorld, prefix: &str, count: usize, suffix: &str)
    ensures
        final(world)@ == old(world)@,
        final(world).wf() == old(world).wf(),
        final(world).spec_next_id() == old(world).spec_next_id(),
        logged(
            old(world).spec_panels(),
            final(world).spec_panels(),
            count_message(prefix@, count as nat, suffix@),
        ),
{
    let mut message = String::from_str(prefix);
    push_decimal(&mut message, count as u64);
    message.append(suffix);
    add_designer_log(world, message.as_str());
}

/// What the event log is told after a distribution.
pub open spec fn distribution_message(count: nat, axis: Axis) -> Seq<char> {
    if count < 2 {
        "Need at least 2 selected elements to distribute"@
    } else {
        match axis {
            Axis::Horizontal => count_message("Distributed "@, count, " elements horizontally"@),
            Axis::Vertical => count_message("Distributed "@, count, " elements vertically"@),
        }
    }
}

/// What the event log is told after an alignment.
pub open spec fn alignment_message(count: nat, edge: Edge) -> Seq<char> {
    if count < 2 {
        "Need at least 2 selected elements to align"@
    } else {
        match edge {
            Edge::Left => count_message("Aligned "@, count, " elements to left"@),
            Edge::Right => count_message("Aligned "@, count, " elements to right"@),
            Edge::Top => count_message("Aligned "@, count, " elements to top"@),
            Edge::Bottom => count_message("Aligned "@, count, " elements to bottom"@),
        }
    }
}

/// What the event log is told after an arrangement.
pub open spec fn arrangement_message(count: nat, axis: Axis) -> Seq<char> {
    match axis {
        Axis::Horizontal => if count < 2 {
            "Need at least 2 selected elements for row layout"@
        } else {
            count_message("Arranged "@, count, " elements in row layout"@)
        },
        Axis::Vertical => if count < 2 {
            "Need at least 2 selected elements for column layout"@
        } else {
            count_message("Arranged "@, count, " elements in column layout"@)
        },
    }
}

/// Spreads the selected widgets down the canvas: the topmost stays, and
/// each one after it in order of `y` stands `vertical_spacing` below the
/// one before. With fewer than two selected, nothing moves and the event
/// log says so.
pub fn distribute_items_vertically(world: &mut DesignerWorld, settings: &DistributionSettings)
    requires
        old(world).wf(),
    ensures
        final(world).wf(),
        final(world)@ == distributed(
            old(world)@,
            Axis::Vertical,
            settings.vertical_spacing as int,
        ),
        final(world).spec_next_id() == old(world).spec_next_id(),
        logged(
            old(world).spec_panels(),
            final(world).spec_panels(),
            distribution_message(selected_count(old(world)@), Axis::Vertical),
        ),
{
    let count = distribute_along(world, Axis::Vertical, settings.vertical_spacing);
    if count < 2 {
        add_designer_log(world, "Need at least 2 selected elements to distribute");
    } else {
        log_count(world, "Distributed ", count, " elements vertically");
    }
}

/// Spreads the selected widgets across the canvas: the leftmost stays, and
/// each one after it in order of `x` stands `horizontal_spacing` to the
/// right of the one before. With fewer than two selected, nothing moves
/// and the event log says so.
pub fn distribute_items_horizontally(world: &mut DesignerWorld, settings: &DistributionSettings)
    requires
        old(world).wf(),
    ensures
        final(world).wf(),
        final(world)@ == distributed(
            old(world)@,
            Axis::Horizontal,
            settings.horizontal_spacing as int,
        ),
        final(world).spec_next_id() == old(world).spec_next_id(),
        logged(
            old(world).spec_panels(),
            final(world).spec_panels(),
            distribution_message(selected_count(old(world)@), Axis::Horizontal),
        ),
{
    let count = distribute_along(world, Axis::Horizontal, settings.horizontal_spacing);
    if count < 2 {
        add_designer_log(world, "Need at least 2 selected elements to distribute");
    } else {
        log_count(world, "Distributed ", count, " elements horizontally");
    }
}

/// Moves every selected widget so that its left edge stands at the least
/// `x` of the selection.
pub fn align_selected_elements_left(world: &mut DesignerWorld)
    requires
        old(world).wf(),
    ensures
        final(world).wf(),
        final(world)@ == aligned(old(world)@, Edge::Left),
        final(world).spec_next_id() == old(world).spec_next_id(),
        logged(
            old(world).spec_panels(),
            final(world).spec_panels(),
            alignment_message(selected_count(old(world)@), Edge::Left),
        ),
{
    let count = align_to(world, Edge::Left);
    if count < 2 {
        add_designer_log(world, "Need at least 2 selected elements to align");
    } else {
        log_count(world, "Aligned ", count, " elements to left");
    }
}

/// Moves every selected widget so that its right edge stands at the
/// greatest right edge of the selection.
pub fn align_selected_elements_right(world: &mut DesignerWorld)
    requires
        old(world).wf(),
    ensures
        final(world).wf(),
        final(world)@ == aligned(old(world)@, Edge::Right),
        final(world).spec_next_id() == old(world).spec_next_id(),
        logged(
            old(world).spec_panels(),
            final(world).spec_panels(),
            alignment_message(selected_count(old(world)@), Edge::Right),
        ),
{
    let count = align_to(world, Edge::Right);
    if count < 2 {
        add_designer_log(world, "Need at least 2 selected elements to align");
    } else {
        log_count(world, "Aligned ", count, " elements to right");
    }
}

/// Moves every selected widget so that its top edge stands at the least
/// `y` of the selection.
pub fn align_selected_elements_top(world: &mut DesignerWorld)
    requires
        old(world).wf(),
    ensures
        final(world).wf(),
        final(world)@ == aligned(old(world)@, Edge::Top),
        final(world).spec_next_id() == old(world).spec_next_id(),
        logged(
            old(world).spec_panels(),
            final(world).spec_panels(),
            alignment_message(selected_count(old(world)@), Edge::Top),
        ),
{
    let count = align_to(world, Edge::Top);
    if count < 2 {
        add_designer_log(world, "Need at least 2 selected elements to align");
    } else {
        log_count(world, "Aligned ", count, " elements to top");
    }
}

/// Moves every selected widget so that its bottom edge stands at the
/// greatest bottom edge of the selection.
pub fn align_selected_elements_bottom(world: &mut DesignerWorld)
    requires
        old(world).wf(),
    ensures
        final(world).wf(),
        final(world)@ == aligned(old(world)@, Edge::Bottom),
        final(world).spec_next_id() == old(world).spec_next_id(),
        logged(
            old(world).spec_panels(),
            final(world).spec_panels(),
            alignment_message(selected_count(old(world)@), Edge::Bottom),
        ),
{
    let count = align_to(world, Edge::Bottom);
    if count < 2 {
        add_designer_log(world, "Need at least 2 selected elements to align");
    } else {
        log_count(world, "Aligned ", count, " elements to bottom");
    }
}

/// The gap that `arrange_elements_in_column` and `arrange_elements_in_row`
/// leave between widgets.
pub const DEFAULT_LAYOUT_SPACING: i32 = 20;

/// Stacks the selected widgets in a column with a gap of 20.
pub fn arrange_elements_in_column(world: &mut DesignerWorld)
    requires
        old(world).wf(),
    ensures
        final(world).wf(),
        final(world)@ == arranged(old(world)@, Axis::Vertical, DEFAULT_LAYOUT_SPACING as int),
        final(world).spec_next_id() == old(world).spec_next_id(),
        logged(
            old(world).spec_panels(),
            final(world).spec_panels(),
            arrangement_message(selected_count(old(world)@), Axis::Vertical),
        ),
{
    arrange_elements_in_column_with_spacing(world, DEFAULT_LAYOUT_SPACING)
}

/// Lines the selected widgets up in a row with a gap of 20.
pub fn arrange_elements_in_row(world: &mut DesignerWorld)
    requires
        old(world).wf(),
    ensures
        final(world).wf(),
        final(world)@ == arranged(old(world)@, Axis::Horizontal, DEFAULT_LAYOUT_SPACING as int),
        final(world).spec_next_id() == old(world).spec_next_id(),
        logged(
            old(world).spec_panels(),
            final(world).spec_panels(),
            arrangement_message(selected_count(old(world)@), Axis::Horizontal),
        ),
{
    arrange_elements_in_row_with_spacing(world, DEFAULT_LAYOUT_SPACING)
}

/// Stacks the selected widgets in a column: in order of `y`, flush with the
/// least `x` of the selection, the topmost where it was and each one after
/// it below the one before by that one's height and `spacing`. With fewer
/// than two selected, nothing moves and the event log says so.
pub fn arrange_elements_in_column_with_spacing(world: &mut DesignerWorld, spacing: i32)
    requires
        old(world).wf(),
    ensures
        final(world).wf(),
        final(world)@ == arranged(old(world)@, Axis::Vertical, spacing as int),
        final(world).spec_next_id() == old(world).spec_next_id(),
        logged(
            old(world).spec_panels(),
            final(world).spec_panels(),
            arrangement_message(selected_count(old(world)@), Axis::Vertical),
        ),
{
    let count = arrange_along(world, Axis::Vertical, spacing);
    if count < 2 {
        add_designer_log(world, "Need at least 2 selected elements for column layout");
    } else {
        log_count(world, "Arranged ", count, " elements in column layout");
    }
}

/// Lines the selected widgets up in a row: in order of `x`, flush with the
/// least `y` of the selection, the leftmost where it was and each one after
/// it right of the one before by that one's width and `spacing`. With
/// fewer than two selected, nothing moves and the event log says so.
pub fn arrange_elements_in_row_with_spacing(world: &mut DesignerWorld, spacing: i32)
    requires
        old(world).wf(),
    ensures
        final(world).wf(),
        final(world)@ == arranged(old(world)@, Axis::Horizontal, spacing as int),
        final(world).spec_next_id() == old(world).spec_next_id(),
        logged(
            old(world).spec_panels(),
            final(world).spec_panels(),
            arrangement_message(selected_count(old(world)@), Axis::Horizontal),
        ),
{
    let count = arrange_along(world, Axis::Horizontal, spacing);
    if count < 2 {
        add_designer_log(world, "Need at least 2 selected elements for row layout");
    } else {
        log_count(world, "Arranged ", count, " elements in row layout");
    }
}

/// The number of selected widgets depends on the selection flags alone.
pub proof fn lemma_selected_count_by_flags(a: Seq<UiElement>, b: Seq<UiElement>)
    requires
        a.len() == b.len(),
        forall|k: int| 0 <= k < a.len() ==> (#[trigger] a[k]).selected == b[k].selected,
    ensures
        selected_count(a) == selected_count(b),
    decreases a.len(),
{
    if a.len() > 0 {
        assert(a.last().selected == a[a.len() - 1].selected);
        assert forall|k: int| 0 <= k < a.drop_last().len() implies (#[trigger] a.drop_last()[k]).selected
            == b.drop_last()[k].selected by {
            assert(a.drop_last()[k] == a[k]);
        }
        lemma_selected_count_by_flags(a.drop_last(), b.drop_last());
    }
}

/// Fewer selected widgets go before a widget than there are selected
/// widgets, the widget itself being one of them.
pub proof fn lemma_count_before_is_bounded(elements: Seq<UiElement>, axis: Axis, key: int, index: int)
    ensures
        count_before(elements, axis, key, index) <= selected_count(elements),
        0 <= index < elements.len() && elements[index].selected.selected && along(
            elements[index].position,
            axis,
        ) == key ==> count_before(elements, axis, key, index) < selected_count(elements),
    decreases elements.len(),
{
    if elements.len() > 0 {
        lemma_count_before_is_bounded(elements.drop_last(), axis, key, index);
        if 0 <= index < elements.len() - 1 {
            assert(elements.drop_last()[index] == elements[index]);
        }
    }
}

/// A widget that goes before another has fewer selected widgets before it.
pub proof fn lemma_count_before_is_monotone(
    elements: Seq<UiElement>,
    axis: Axis,
    key_a: int,
    a: int,
    key_b: int,
    b: int,
)
    requires
        goes_before(key_a, a, key_b, b),
    ensures
        count_before(elements, axis, key_a, a) <= count_before(elements, axis, key_b, b),
        0 <= a < elements.len() && elements[a].selected.selected && along(
            elements[a].position,
            axis,
        ) == key_a ==> count_before(elements, axis, key_a, a) < count_before(
            elements,
            axis,
            key_b,
            b,
        ),
    decreases elements.len(),
{
    if elements.len() > 0 {
        lemma_count_before_is_monotone(elements.drop_last(), axis, key_a, a, key_b, b);
        if 0 <= a < elements.len() - 1 {
            assert(elements.drop_last()[a] == elements[a]);
        }
    }
}

/// The least coordinate of a selection lies in the coordinate range, no
/// selected widget lies below it, and a widget that no selected widget
/// goes before lies on it.
pub proof fn lemma_least_selected_is_least(elements: Seq<UiElement>, axis: Axis, i: int)
    requires
        0 <= i < elements.len(),
        elements[i].selected.selected,
    ensures
        i32::MIN <= least_selected(elements, axis) <= along(elements[i].position, axis),
        rank(elements, axis, i) == 0 ==> along(elements[i].position, axis) == least_selected(
            elements,
            axis,
        ),
{
    let key = along(elements[i].position, axis);
    lemma_least_selected_bounds(elements, axis, i);
    if rank(elements, axis, i) == 0 {
        lemma_nothing_before_means_least(elements, axis, key, i);
    }
}

proof fn lemma_least_selected_bounds(elements: Seq<UiElement>, axis: Axis, i: int)
    requires
        0 <= i < elements.len(),
        elements[i].selected.selected,
    ensures
        i32::MIN <= least_selected(elements, axis) <= along(elements[i].position, axis),
    decreases elements.len(),
{
    lemma_least_selected_in_range(elements, axis);
    if i < elements.len() - 1 {
        assert(elements.drop_last()[i] == elements[i]);
        lemma_least_selected_bounds(elements.drop_last(), axis, i);
    }
}

/// The least coordinate of a selection lies in the coordinate range.
pub proof fn lemma_least_selected_in_range(elements: Seq<UiElement>, axis: Axis)
    ensures
        i32::MIN <= least_selected(elements, axis) <= i32::MAX,
    decreases elements.len(),
{
    if elements.len() > 0 {
        lemma_least_selected_in_range(elements.drop_last(), axis);
    }
}

proof fn lemma_nothing_before_means_least(elements: Seq<UiElement>, axis: Axis, key: int, index: int)
    requires
        count_before(elements, axis, key, index) == 0,
        key <= i32::MAX,
        index >= elements.len() || (0 <= index && elements[index].selected.selected && along(
            elements[index].position,
            axis,
        ) == key),
    ensures
        key <= least_selected(elements, axis),
    decreases elements.len(),
{
    if elements.len() > 0 {
        let rest = elements.drop_last();
        if 0 <= index < rest.len() {
            assert(rest[index] == elements[index]);
        }
        lemma_nothing_before_means_least(rest, axis, key, index);
    }
}

/// After a distribution along `axis`, the selected widget at place `k` of
/// the order stands at `c0 + k * spacing` along the axis, where `c0` is the
/// least coordinate of the selection before; across the axis it stays where
/// it was. The places run from zero to one less than the number of selected
/// widgets. (Where `c0 + k * spacing` leaves the coordinate range, the
/// widget stands at the end of the range.)
pub proof fn lemma_distribution_is_even(elements: Seq<UiElement>, axis: Axis, spacing: int, i: int)
    requires
        selected_count(elements) >= 2,
        0 <= i < elements.len(),
        elements[i].selected.selected,
    ensures
        rank(elements, axis, i) < selected_count(elements),
        along(distributed(elements, axis, spacing)[i].position, axis) == clamp_coord(
            least_selected(elements, axis) + rank(elements, axis, i) * spacing,
        ),
        i32::MIN <= least_selected(elements, axis) + rank(elements, axis, i) * spacing <= i32::MAX
            ==> along(distributed(elements, axis, spacing)[i].position, axis) == least_selected(
            elements,
            axis,
        ) + rank(elements, axis, i) * spacing,
        along(distributed(elements, axis, spacing)[i].position, axis.spec_cross()) == along(
            elements[i].position,
            axis.spec_cross(),
        ),
{
    lemma_count_before_is_bounded(elements, axis, along(elements[i].position, axis), i);
}

/// The places of the order follow the coordinates: of two selected widgets
/// the one with the lesser coordinate has the lesser place, and of two with
/// equal coordinates the one that comes first in entity order. No two
/// selected widgets share a place.
pub proof fn lemma_rank_follows_order(elements: Seq<UiElement>, axis: Axis, i: int, j: int)
    requires
        0 <= i < elements.len(),
        0 <= j < elements.len(),
        i != j,
        elements[i].selected.selected,
        elements[j].selected.selected,
    ensures
        goes_before(along(elements[i].position, axis), i, along(elements[j].position, axis), j)
            <==> rank(elements, axis, i) < rank(elements, axis, j),
        rank(elements, axis, i) != rank(elements, axis, j),
{
    let key_i = along(elements[i].position, axis);
    let key_j = along(elements[j].position, axis);
    if goes_before(key_i, i, key_j, j) {
        lemma_count_before_is_monotone(elements, axis, key_i, i, key_j, j);
    } else {
        assert(goes_before(key_j, j, key_i, i));
        lemma_count_before_is_monotone(elements, axis, key_j, j, key_i, i);
    }
}

proof fn lemma_least_of_level(a: Seq<UiElement>, axis: Axis, level: int)
    requires
        i32::MIN <= level <= i32::MAX,
        forall|k: int|
            0 <= k < a.len() && (#[trigger] a[k]).selected.selected ==> along(a[k].position, axis)
                == level,
    ensures
        selected_count(a) == 0 ==> least_selected(a, axis) == i32::MAX,
        selected_count(a) > 0 ==> least_selected(a, axis) == level,
    decreases a.len(),
{
    if a.len() > 0 {
        assert forall|k: int| 0 <= k < a.drop_last().len() && (#[trigger] a.drop_last()[k]).selected.selected implies along(
            a.drop_last()[k].position,
            axis,
        ) == level by {
            assert(a.drop_last()[k] == a[k]);
        }
        lemma_least_of_level(a.drop_last(), axis, level);
        assert(a.last() == a[a.len() - 1]);
    }
}

/// No selected widget has its far edge beyond the greatest far edge.
pub proof fn lemma_greatest_far_edge_bounds(elements: Seq<UiElement>, axis: Axis, i: int)
    requires
        0 <= i < elements.len(),
        elements[i].selected.selected,
    ensures
        along(elements[i].position, axis) + extent(elements[i].size, axis) <= greatest_far_edge(
            elements,
            axis,
        ),
    decreases elements.len(),
{
    if i < elements.len() - 1 {
        assert(elements.drop_last()[i] == elements[i]);
        lemma_greatest_far_edge_bounds(elements.drop_last(), axis, i);
    }
}

/// The place of a selected widget whose far edge is the greatest far edge.
pub open spec fn farthest_selected(elements: Seq<UiElement>, axis: Axis) -> int {
    choose|m: int|
        0 <= m < elements.len() && (#[trigger] elements[m]).selected.selected && along(
            elements[m].position,
            axis,
        ) + extent(elements[m].size, axis) == greatest_far_edge(elements, axis)
}

/// Where a widget is selected, some selected widget has its far edge on
/// the greatest far edge.
pub proof fn lemma_greatest_far_edge_is_attained(elements: Seq<UiElement>, axis: Axis)
    requires
        selected_count(elements) > 0,
    ensures
        0 <= farthest_selected(elements, axis) < elements.len(),
        elements[farthest_selected(elements, axis)].selected.selected,
        along(elements[farthest_selected(elements, axis)].position, axis) + extent(
            elements[farthest_selected(elements, axis)].size,
            axis,
        ) == greatest_far_edge(elements, axis),
    decreases elements.len(),
{
    let rest = elements.drop_last();
    let last = elements.last();
    let edge = along(last.position, axis) + extent(last.size, axis);
    if last.selected.selected && edge > greatest_far_edge(rest, axis) {
        assert(elements[elements.len() - 1] == last);
    } else if selected_count(rest) > 0 {
        lemma_greatest_far_edge_is_attained(rest, axis);
        let m = farthest_selected(rest, axis);
        assert(elements[m] == rest[m]);
    } else {
        lemma_greatest_far_edge_without_selection(rest, axis);
        assert(elements[elements.len() - 1] == last);
    }
}

proof fn lemma_greatest_far_edge_without_selection(elements: Seq<UiElement>, axis: Axis)
    requires
        selected_count(elements) == 0,
    ensures
        greatest_far_edge(elements, axis) == least_far_edge(),
    decreases elements.len(),
{
    if elements.len() > 0 {
        lemma_greatest_far_edge_without_selection(elements.drop_last(), axis);
    }
}

proof fn lemma_greatest_is(a: Seq<UiElement>, axis: Axis, level: int, m: int)
    requires
        0 <= m < a.len(),
        a[m].selected.selected,
        along(a[m].position, axis) + extent(a[m].size, axis) == level,
        forall|k: int|
            0 <= k < a.len() && (#[trigger] a[k]).selected.selected ==> along(a[k].position, axis)
                + extent(a[k].size, axis) <= level,
    ensures
        greatest_far_edge(a, axis) == level,
{
    lemma_greatest_far_edge_bounds(a, axis, m);
    lemma_some_selected(a, m);
    lemma_greatest_far_edge_is_attained(a, axis);
}

proof fn lemma_some_selected(a: Seq<UiElement>, m: int)
    requires
        0 <= m < a.len(),
        a[m].selected.selected,
    ensures
        selected_count(a) > 0,
    decreases a.len(),
{
    if m < a.len() - 1 {
        assert(a.drop_last()[m] == a[m]);
        lemma_some_selected(a.drop_last(), m);
    }
}

/// Aligning twice gives what aligning once gives, for each of the four
/// edges.
pub proof fn lemma_align_is_idempotent(elements: Seq<UiElement>, edge: Edge)
    ensures
        aligned(aligned(elements, edge), edge) == aligned(elements, edge),
{
    let once = aligned(elements, edge);
    let axis = edge.spec_axis();
    if selected_count(elements) >= 2 {
        lemma_selected_count_by_flags(elements, once);
        lemma_least_selected_in_range(elements, axis);
        if edge.spec_is_far() {
            let line = greatest_far_edge(elements, axis);
            lemma_greatest_far_edge_is_attained(elements, axis);
            let m = farthest_selected(elements, axis);
            assert forall|k: int| 0 <= k < once.len() && (#[trigger] once[k]).selected.selected implies along(
                once[k].position,
                axis,
            ) + extent(once[k].size, axis) <= line by {
                lemma_greatest_far_edge_bounds(elements, axis, k);
            }
            lemma_greatest_is(once, axis, line, m);
        } else {
            lemma_least_of_level(once, axis, least_selected(elements, axis));
        }
        assert(aligned(once, edge) =~= once);
    }
}

} // verus!
