//! The store of widget entities.

use vstd::prelude::*;
use crate::components::Entity;
use crate::components::UiElement;
use crate::components::UiElementBundle;
use crate::components::UiElementPosition;
use crate::components::UiElementSelected;
use crate::components::UiElementSize;
use crate::components::WidgetKind;
use crate::grid::GridSettings;
use crate::logging::EventLoggerPanel;
use crate::panels::DesignerControlsPanel;
use crate::panels::DesignerSettingsPanel;
use crate::panels::DistributionSettings;
use crate::panels::MainWorkArea;

verus! {

/// What a world holds besides its widgets. Each is there at most once.
#[derive(Debug, PartialEq, Eq)]
pub struct DesignerPanels {
    pub grid_settings: Option<GridSettings>,
    pub distribution_settings: Option<DistributionSettings>,
    pub main_work_area: Option<MainWorkArea>,
    pub settings_panel: Option<DesignerSettingsPanel>,
    pub event_logger: Option<EventLoggerPanel>,
    pub controls_panel: Option<DesignerControlsPanel>,
}

/// The widgets of a design, in the order in which they were spawned, and the
/// panels of the designer.
#[derive(Debug)]
pub struct DesignerWorld {
    pub(crate) elements: Vec<UiElement>,
    pub(crate) next_id: u64,
    pub(crate) panels: DesignerPanels,
}

impl View for DesignerWorld {
    type V = Seq<UiElement>;

    open(crate) spec fn view(&self) -> Seq<UiElement> {
        self.elements@
    }
}

/// Whether some widget of `elements` belongs to `entity`.
pub open spec fn holds_entity(elements: Seq<UiElement>, entity: Entity) -> bool {
    exists|i: int| 0 <= i < elements.len() && (#[trigger] elements[i]).entity == entity
}

/// Where the widget of `entity` stands in `elements`.
pub open spec fn place_of(elements: Seq<UiElement>, entity: Entity) -> int
    recommends
        holds_entity(elements, entity),
{
    choose|i: int| 0 <= i < elements.len() && (#[trigger] elements[i]).entity == entity
}

/// Whether the handles grow strictly along `elements`, so that no two widgets
/// share one.
pub open spec fn in_entity_order(elements: Seq<UiElement>) -> bool {
    forall|i: int, j: int|
        0 <= i < j < elements.len() ==> (#[trigger] elements[i]).entity.id < (
        #[trigger] elements[j]).entity.id
}

impl DesignerWorld {
    /// The handle that the next spawned widget gets.
    pub open(crate) spec fn spec_next_id(&self) -> u64 {
        self.next_id
    }

    /// The widgets stand in the order of their handles, and every handle in
    /// use was handed out by this world.
    pub open spec fn wf(&self) -> bool {
        &&& in_entity_order(self@)
        &&& forall|i: int| 0 <= i < self@.len() ==> (#[trigger] self@[i]).entity.id < self.spec_next_id()
    }

    /// The panels of the world.
    pub open(crate) spec fn spec_panels(&self) -> DesignerPanels {
        self.panels
    }

    pub fn panels(&self) -> (p: &DesignerPanels)
        ensures
            *p == self.spec_panels(),
    {
        &self.panels
    }

    /// The panels of the world, to change them. The widgets stay as they are.
    pub fn panels_mut(&mut self) -> (p: &mut DesignerPanels)
        ensures
            *p == old(self).spec_panels(),
            final(self).spec_panels() == *final(p),
            final(self)@ == old(self)@,
            final(self).spec_next_id() == old(self).spec_next_id(),
    {
        &mut self.panels
    }

    /// A world without widgets or panels.
    pub fn new() -> (world: DesignerWorld)
        ensures
            world.wf(),
            world@ == Seq::<UiElement>::empty(),
            world.spec_next_id() == 0,
            world.spec_panels() == DesignerPanels::spec_none(),
    {
        DesignerWorld { elements: Vec::new(), next_id: 0, panels: DesignerPanels::none() }
    }

    /// How many widgets the world holds.
    pub fn len(&self) -> (n: usize)
        ensures
            n == self@.len(),
    {
        self.elements.len()
    }

    /// Every widget with all that is attached to it, in entity order.
    pub fn elements(&self) -> (all: &Vec<UiElement>)
        ensures
            all@ == self@,
    {
        &self.elements
    }

    /// Whether the world can still hand out a handle.
    pub fn can_spawn(&self) -> (free: bool)
        ensures
            free == (self.spec_next_id() < u64::MAX),
    {
        self.next_id < u64::MAX
    }

    /// How many handles the world can still hand out.
    pub fn handles_left(&self) -> (left: u64)
        ensures
            left == u64::MAX - self.spec_next_id(),
    {
        u64::MAX - self.next_id
    }

    /// Where the widget of `entity` stands, if the world holds it.
    pub fn index_of(&self, entity: Entity) -> (found: Option<usize>)
        requires
            self.wf(),
        ensures
            found is Some <==> holds_entity(self@, entity),
            found is Some ==> found->0 as int == place_of(self@, entity) && found->0 < self@.len()
                && self@[found->0 as int].entity == entity,
    {
        let mut i: usize = 0;
        while i < self.elements.len()
            invariant
                self.wf(),
                i <= self.elements@.len(),
                forall|k: int| 0 <= k < i ==> (#[trigger] self.elements@[k]).entity != entity,
            decreases self.elements@.len() - i,
        {
            if self.elements[i].entity.id == entity.id {
                proof {
                    lemma_place_of_is_unique(self@, entity, i as int);
                }
                return Some(i);
            }
            i += 1;
        }
        None
    }

    /// Whether the world holds a widget for `entity`.
    pub fn contains(&self, entity: Entity) -> (found: bool)
        requires
            self.wf(),
        ensures
            found == holds_entity(self@, entity),
    {
        self.index_of(entity).is_some()
    }

    /// The widget of `entity`, or nothing where the entity is gone or was
    /// never there.
    pub fn get(&self, entity: Entity) -> (found: Option<&UiElement>)
        requires
            self.wf(),
        ensures
            found is Some <==> holds_entity(self@, entity),
            found is Some ==> *found->0 == self@[place_of(self@, entity)],
    {
        match self.index_of(entity) {
            Some(i) => Some(&self.elements[i]),
            None => None,
        }
    }

    /// Makes a new entity with what `bundle` holds attached, after all
    /// others, and returns its handle, which no entity had before.
    pub fn spawn(&mut self, bundle: UiElementBundle) -> (entity: Entity)
        requires
            old(self).wf(),
            old(self).spec_next_id() < u64::MAX,
        ensures
            final(self).wf(),
            entity.id == old(self).spec_next_id(),
            !holds_entity(old(self)@, entity),
            final(self)@ == old(self)@.push(UiElement::from_bundle(entity, bundle)),
            final(self).spec_next_id() == old(self).spec_next_id() + 1,
            final(self).spec_panels() == old(self).spec_panels(),
    {
        let entity = Entity { id: self.next_id };
        self.next_id = self.next_id + 1;
        self.elements.push(
            UiElement {
                entity,
                widget: bundle.widget,
                position: bundle.position,
                size: bundle.size,
                tab: bundle.tab,
                selected: bundle.selected,
                container: bundle.container,
            },
        );
        entity
    }

    /// Removes the entity with all that is attached to it. Answers whether
    /// there was one; an unknown handle changes nothing.
    pub fn despawn(&mut self, entity: Entity) -> (removed: bool)
        requires
            old(self).wf(),
        ensures
            final(self).wf(),
            removed == holds_entity(old(self)@, entity),
            final(self)@ == despawned(old(self)@, entity),
            !holds_entity(final(self)@, entity),
            final(self).spec_next_id() == old(self).spec_next_id(),
            final(self).spec_panels() == old(self).spec_panels(),
    {
        proof {
            lemma_despawned_is_gone(self@, entity);
        }
        match self.index_of(entity) {
            Some(i) => {
                self.elements.remove(i);
                true
            },
            None => false,
        }
    }

    /// Removes every widget and every panel.
    pub fn clear_all(&mut self)
        ensures
            final(self).wf(),
            final(self)@ == Seq::<UiElement>::empty(),
            final(self).spec_next_id() == old(self).spec_next_id(),
            final(self).spec_panels() == DesignerPanels::spec_none(),
    {
        self.elements.clear();
        self.panels = DesignerPanels::none();
    }

    /// The position of the entity, to read or to change, or nothing where
    /// the entity is gone.
    pub fn get_position_mut(&mut self, entity: Entity) -> (found: Option<&mut UiElementPosition>)
        requires
            old(self).wf(),
        ensures
            final(self).wf(),
            found is Some <==> holds_entity(old(self)@, entity),
            found is None ==> final(self)@ == old(self)@,
            found is Some ==> *found->0 == old(self)@[place_of(old(self)@, entity)].position
                && final(self)@ == old(self)@.update(
                place_of(old(self)@, entity),
                UiElement {
                    position: *final(found->0),
                    ..old(self)@[place_of(old(self)@, entity)]
                },
            ),
            final(self).spec_next_id() == old(self).spec_next_id(),
            final(self).spec_panels() == old(self).spec_panels(),
    {
        match self.index_of(entity) {
            Some(i) => Some(&mut self.elements[i].position),
            None => None,
        }
    }

    /// The size of the entity, to read or to change, or nothing where the
    /// entity is gone.
    pub fn get_size_mut(&mut self, entity: Entity) -> (found: Option<&mut UiElementSize>)
        requires
            old(self).wf(),
        ensures
            final(self).wf(),
            found is Some <==> holds_entity(old(self)@, entity),
            found is None ==> final(self)@ == old(self)@,
            found is Some ==> *found->0 == old(self)@[place_of(old(self)@, entity)].size
                && final(self)@ == old(self)@.update(
                place_of(old(self)@, entity),
                UiElement { size: *final(found->0), ..old(self)@[place_of(old(self)@, entity)] },
            ),
            final(self).spec_next_id() == old(self).spec_next_id(),
            final(self).spec_panels() == old(self).spec_panels(),
    {
        match self.index_of(entity) {
            Some(i) => Some(&mut self.elements[i].size),
            None => None,
        }
    }

    /// The selection flag of the entity, to read or to change, or nothing
    /// where the entity is gone.
    pub fn get_selected_mut(&mut self, entity: Entity) -> (found: Option<&mut UiElementSelected>)
        requires
            old(self).wf(),
        ensures
            final(self).wf(),
            found is Some <==> holds_entity(old(self)@, entity),
            found is None ==> final(self)@ == old(self)@,
            found is Some ==> *found->0 == old(self)@[place_of(old(self)@, entity)].selected
                && final(self)@ == old(self)@.update(
                place_of(old(self)@, entity),
                UiElement {
                    selected: *final(found->0),
                    ..old(self)@[place_of(old(self)@, entity)]
                },
            ),
            final(self).spec_next_id() == old(self).spec_next_id(),
            final(self).spec_panels() == old(self).spec_panels(),
    {
        match self.index_of(entity) {
            Some(i) => Some(&mut self.elements[i].selected),
            None => None,
        }
    }

    /// The kind of the entity with its fields, to read or to change, or
    /// nothing where the entity is gone.
    pub fn get_widget_mut(&mut self, entity: Entity) -> (found: Option<&mut WidgetKind>)
        requires
            old(self).wf(),
        ensures
            final(self).wf(),
            found is Some <==> holds_entity(old(self)@, entity),
            found is None ==> final(self)@ == old(self)@,
            found is Some ==> *found->0 == old(self)@[place_of(old(self)@, entity)].widget
                && final(self)@ == old(self)@.update(
                place_of(old(self)@, entity),
                UiElement { widget: *final(found->0), ..old(self)@[place_of(old(self)@, entity)] },
            ),
            final(self).spec_next_id() == old(self).spec_next_id(),
            final(self).spec_panels() == old(self).spec_panels(),
    {
        match self.index_of(entity) {
            Some(i) => Some(&mut self.elements[i].widget),
            None => None,
        }
    }
}

impl DesignerPanels {
    /// No panel at all.
    pub open spec fn spec_none() -> DesignerPanels {
        DesignerPanels {
            grid_settings: None,
            distribution_settings: None,
            main_work_area: None,
            settings_panel: None,
            event_logger: None,
            controls_panel: None,
        }
    }

    pub fn none() -> (p: DesignerPanels)
        ensures
            p == DesignerPanels::spec_none(),
    {
        DesignerPanels {
            grid_settings: None,
            distribution_settings: None,
            main_work_area: None,
            settings_panel: None,
            event_logger: None,
            controls_panel: None,
        }
    }
}

/// What is left of `elements` once `entity` is removed.
pub open spec fn despawned(elements: Seq<UiElement>, entity: Entity) -> Seq<UiElement> {
    if holds_entity(elements, entity) {
        elements.remove(place_of(elements, entity))
    } else {
        elements
    }
}

/// In entity order a handle stands at one place only.
pub proof fn lemma_place_of_is_unique(elements: Seq<UiElement>, entity: Entity, i: int)
    requires
        in_entity_order(elements),
        0 <= i < elements.len(),
        elements[i].entity == entity,
    ensures
        holds_entity(elements, entity),
        place_of(elements, entity) == i,
{
    let p = place_of(elements, entity);
    if p < i {
        assert(elements[p].entity.id < elements[i].entity.id);
    } else if i < p {
        assert(elements[i].entity.id < elements[p].entity.id);
    }
}

/// Once an entity is despawned, a lookup of its handle finds nothing, and
/// the widgets that remain keep their order and what is attached to them.
pub proof fn lemma_despawned_is_gone(elements: Seq<UiElement>, entity: Entity)
    requires
        in_entity_order(elements),
    ensures
        !holds_entity(despawned(elements, entity), entity),
        in_entity_order(despawned(elements, entity)),
        forall|other: Entity|
            other != entity ==> (holds_entity(despawned(elements, entity), other) <==> holds_entity(
                elements,
                other,
            )),
        forall|other: Entity|
            other != entity && holds_entity(elements, other) ==> despawned(elements, entity)[place_of(
                despawned(elements, entity),
                other,
            )] == elements[place_of(elements, other)],
{
    let after = despawned(elements, entity);
    if holds_entity(elements, entity) {
        let p = place_of(elements, entity);
        assert forall|i: int, j: int| 0 <= i < j < after.len() implies (#[trigger] after[i]).entity.id
            < (#[trigger] after[j]).entity.id by {
            let oi = if i < p { i } else { i + 1 };
            let oj = if j < p { j } else { j + 1 };
            assert(after[i] == elements[oi]);
            assert(after[j] == elements[oj]);
        }
        if holds_entity(after, entity) {
            let q = place_of(after, entity);
            let oq = if q < p { q } else { q + 1 };
            assert(after[q] == elements[oq]);
            lemma_place_of_is_unique(elements, entity, oq);
        }
        assert forall|other: Entity| other != entity implies (holds_entity(after, other)
            <==> holds_entity(elements, other)) by {
            if holds_entity(after, other) {
                let q = place_of(after, other);
                let oq = if q < p { q } else { q + 1 };
                assert(elements[oq] == after[q]);
            }
            if holds_entity(elements, other) {
                let q = place_of(elements, other);
                let aq = if q < p { q } else { q - 1 };
                assert(after[aq] == elements[q]);
            }
        }
        assert forall|other: Entity| other != entity && holds_entity(elements, other) implies after[place_of(
            after,
            other,
        )] == elements[place_of(elements, other)] by {
            let q = place_of(elements, other);
            let aq = if q < p { q } else { q - 1 };
            assert(after[aq] == elements[q]);
            lemma_place_of_is_unique(after, other, aq);
        }
    }
}

/// A handle that this world gave out earlier and that is no longer in use
/// is not brought back by a later spawn.
pub proof fn lemma_spawn_leaves_stale_handles_stale(
    elements: Seq<UiElement>,
    next_id: u64,
    stale: Entity,
    bundle: UiElementBundle,
)
    requires
        stale.id < next_id,
        !holds_entity(elements, stale),
    ensures
        !holds_entity(elements.push(UiElement::from_bundle(Entity { id: next_id }, bundle)), stale),
{
    let grown = elements.push(UiElement::from_bundle(Entity { id: next_id }, bundle));
    if holds_entity(grown, stale) {
        let q = place_of(grown, stale);
        if q < elements.len() {
            assert(elements[q] == grown[q]);
        }
    }
}

} // verus!
