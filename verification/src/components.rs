//! What a widget entity is made of: its kind with the fields of that kind,
//! its place and size on the canvas, its tab, and its selection flag.

use vstd::prelude::*;
use crate::geometry::Pos2;
use crate::geometry::Rect;
use crate::geometry::Vec2;

verus! {

/// An opaque handle for one entity of a world.
///
/// A world hands out each handle once and never again, so a handle whose
/// entity is gone finds nothing.
#[derive(Clone, Copy, Debug, PartialEq, Eq, Hash, Structural)]
pub struct Entity {
    pub id: u64,
}

impl Entity {
    pub fn from_bits(bits: u64) -> (e: Entity)
        ensures
            e.id == bits,
    {
        Entity { id: bits }
    }

    pub fn to_bits(self) -> (bits: u64)
        ensures
            bits == self.id,
    {
        self.id
    }
}

/// The panels a tab can show.
#[derive(Clone, Copy, Debug, PartialEq, Eq, Hash, Structural)]
pub enum TabKind {
    MainWork,
    Settings,
    EventLogger,
    Controls,
    Inspector,
    Preview,
}

/// A tab of the dock.
#[derive(Debug, PartialEq, Eq)]
pub struct Tab {
    pub name: String,
    pub kind: TabKind,
    pub id: usize,
}

impl Clone for Tab {
    fn clone(&self) -> (t: Tab)
        ensures
            t == *self,
    {
        Tab { name: self.name.clone(), kind: self.kind, id: self.id }
    }
}

/// The top-left corner of a widget on the canvas.
#[derive(Clone, Copy, Debug, PartialEq, Eq, Hash, Structural)]
pub struct UiElementPosition {
    pub x: i32,
    pub y: i32,
}

/// The extent of a widget. Zero until the widget has been measured.
#[derive(Clone, Copy, Debug, PartialEq, Eq, Hash, Structural)]
pub struct UiElementSize {
    pub width: i32,
    pub height: i32,
}

impl Default for UiElementSize {
    fn default() -> (s: UiElementSize)
        ensures
            s == (UiElementSize { width: 0, height: 0 }),
    {
        UiElementSize { width: 0, height: 0 }
    }
}

/// Where the pointer grabbed a widget, relative to its corner.
#[derive(Clone, Copy, Debug, PartialEq, Eq, Hash, Structural)]
pub struct UiElementDragging {
    pub offset_x: i32,
    pub offset_y: i32,
}

/// The group box a widget sits in, if any.
#[derive(Clone, Copy, Debug, PartialEq, Eq, Hash, Structural)]
pub struct UiElementContainer {
    pub parent_group: Option<Entity>,
}

/// Whether a widget belongs to the current selection.
#[derive(Clone, Copy, Debug, PartialEq, Eq, Hash, Structural)]
pub struct UiElementSelected {
    pub selected: bool,
}

impl Default for UiElementSelected {
    fn default() -> (s: UiElementSelected)
        ensures
            !s.selected,
    {
        UiElementSelected { selected: false }
    }
}

/// The tab a widget is shown on, and its rank among the widgets of that tab.
#[derive(Clone, Copy, Debug, PartialEq, Eq, Hash, Structural)]
pub struct UiElementTab {
    pub tab_kind: TabKind,
    pub position: usize,
}

/// A push button. `click_time` is the clock reading, in milliseconds, at
/// which it was last pressed.
#[derive(Debug, PartialEq, Eq)]
pub struct UiButton {
    pub label: String,
    pub clicked: bool,
    pub enabled: bool,
    pub click_time: Option<u64>,
    pub font_size: u32,
}

/// A single-line text field.
#[derive(Debug, PartialEq, Eq)]
pub struct UiTextInput {
    pub label: String,
    pub value: String,
    pub enabled: bool,
    pub font_size: u32,
}

#[derive(Debug, PartialEq, Eq)]
pub struct UiCheckbox {
    pub label: String,
    pub checked: bool,
    pub enabled: bool,
    pub font_size: u32,
}

/// A radio button. At most one button of a group is selected.
#[derive(Debug, PartialEq, Eq)]
pub struct UiRadioButton {
    pub label: String,
    pub selected: bool,
    pub enabled: bool,
    pub font_size: u32,
    pub group_id: String,
}

/// A labelled frame round other widgets.
#[derive(Debug, PartialEq, Eq)]
pub struct UiGroupBox {
    pub label: String,
    pub enabled: bool,
    pub font_size: u32,
    pub contained_widgets: Vec<Entity>,
}

impl Clone for UiButton {
    fn clone(&self) -> (c: UiButton)
        ensures
            c == *self,
    {
        UiButton {
            label: self.label.clone(),
            clicked: self.clicked,
            enabled: self.enabled,
            click_time: self.click_time,
            font_size: self.font_size,
        }
    }
}

impl Clone for UiTextInput {
    fn clone(&self) -> (c: UiTextInput)
        ensures
            c == *self,
    {
        UiTextInput {
            label: self.label.clone(),
            value: self.value.clone(),
            enabled: self.enabled,
            font_size: self.font_size,
        }
    }
}

impl Clone for UiCheckbox {
    fn clone(&self) -> (c: UiCheckbox)
        ensures
            c == *self,
    {
        UiCheckbox {
            label: self.label.clone(),
            checked: self.checked,
            enabled: self.enabled,
            font_size: self.font_size,
        }
    }
}

impl Clone for UiRadioButton {
    fn clone(&self) -> (c: UiRadioButton)
        ensures
            c == *self,
    {
        UiRadioButton {
            label: self.label.clone(),
            selected: self.selected,
            enabled: self.enabled,
            font_size: self.font_size,
            group_id: self.group_id.clone(),
        }
    }
}

/// The kind of a widget, with the fields of that kind.
#[derive(Debug, PartialEq, Eq)]
pub enum WidgetKind {
    Button(UiButton),
    TextInput(UiTextInput),
    Checkbox(UiCheckbox),
    RadioButton(UiRadioButton),
    GroupBox(UiGroupBox),
}

impl WidgetKind {
    /// The text shown on the widget.
    pub open spec fn spec_label(self) -> Seq<char> {
        match self {
            WidgetKind::Button(b) => b.label@,
            WidgetKind::TextInput(t) => t.label@,
            WidgetKind::Checkbox(c) => c.label@,
            WidgetKind::RadioButton(r) => r.label@,
            WidgetKind::GroupBox(g) => g.label@,
        }
    }

    /// Whether the widget reacts to input.
    pub open spec fn spec_enabled(self) -> bool {
        match self {
            WidgetKind::Button(b) => b.enabled,
            WidgetKind::TextInput(t) => t.enabled,
            WidgetKind::Checkbox(c) => c.enabled,
            WidgetKind::RadioButton(r) => r.enabled,
            WidgetKind::GroupBox(g) => g.enabled,
        }
    }

    pub fn enabled(&self) -> (e: bool)
        ensures
            e == self.spec_enabled(),
    {
        match self {
            WidgetKind::Button(b) => b.enabled,
            WidgetKind::TextInput(t) => t.enabled,
            WidgetKind::Checkbox(c) => c.enabled,
            WidgetKind::RadioButton(r) => r.enabled,
            WidgetKind::GroupBox(g) => g.enabled,
        }
    }

    /// The same widget with its `enabled` flag set as given.
    pub open spec fn spec_with_enabled(self, enabled: bool) -> WidgetKind {
        match self {
            WidgetKind::Button(b) => WidgetKind::Button(UiButton { enabled, ..b }),
            WidgetKind::TextInput(t) => WidgetKind::TextInput(UiTextInput { enabled, ..t }),
            WidgetKind::Checkbox(c) => WidgetKind::Checkbox(UiCheckbox { enabled, ..c }),
            WidgetKind::RadioButton(r) => WidgetKind::RadioButton(UiRadioButton { enabled, ..r }),
            WidgetKind::GroupBox(g) => WidgetKind::GroupBox(UiGroupBox { enabled, ..g }),
        }
    }
}

/// What is attached to an entity when a widget is spawned.
#[derive(Debug, PartialEq, Eq)]
pub struct UiElementBundle {
    pub widget: WidgetKind,
    pub position: UiElementPosition,
    pub size: UiElementSize,
    pub tab: UiElementTab,
    pub selected: UiElementSelected,
    pub container: UiElementContainer,
}

/// One widget entity of a world, with everything attached to it.
#[derive(Debug, PartialEq, Eq)]
pub struct UiElement {
    pub entity: Entity,
    pub widget: WidgetKind,
    pub position: UiElementPosition,
    pub size: UiElementSize,
    pub tab: UiElementTab,
    pub selected: UiElementSelected,
    pub container: UiElementContainer,
}

impl UiElement {
    /// The widget that spawning `bundle` under `entity` gives.
    pub open spec fn from_bundle(entity: Entity, bundle: UiElementBundle) -> UiElement {
        UiElement {
            entity,
            widget: bundle.widget,
            position: bundle.position,
            size: bundle.size,
            tab: bundle.tab,
            selected: bundle.selected,
            container: bundle.container,
        }
    }

    /// The rectangle the widget covers, from its corner over its size.
    pub open spec fn spec_rect(self) -> Rect {
        Rect::spec_from_min_size(
            Pos2 { x: self.position.x, y: self.position.y },
            Vec2 { x: self.size.width, y: self.size.height },
        )
    }

    pub fn rect(&self) -> (r: Rect)
        ensures
            r == self.spec_rect(),
    {
        Rect::from_min_size(
            Pos2 { x: self.position.x, y: self.position.y },
            Vec2 { x: self.size.width, y: self.size.height },
        )
    }
}

} // verus!
