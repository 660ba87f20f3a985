//! Setting up a designer world and adding widgets to it.

use vstd::prelude::*;
use crate::bundles::UiButtonBundle;
use crate::bundles::UiCheckboxBundle;
use crate::bundles::UiGroupBoxBundle;
use crate::bundles::UiRadioButtonBundle;
use crate::bundles::UiTextInputBundle;
use crate::components::Entity;
use crate::components::TabKind;
use crate::components::UiButton;
use crate::components::UiCheckbox;
use crate::components::UiElement;
use crate::components::UiElementBundle;
use crate::components::UiElementContainer;
use crate::components::UiElementPosition;
use crate::components::UiElementSelected;
use crate::components::UiElementSize;
use crate::components::UiElementTab;
use crate::components::UiGroupBox;
use crate::components::UiRadioButton;
use crate::components::UiTextInput;
use crate::components::WidgetKind;
use crate::geometry::Pos2;
use crate::geometry::clamp_coord;
use crate::geometry::saturate;
use crate::grid::GridSettings;
use crate::grid::snap_to_grid;
use crate::grid::snapped;
use crate::logging::EventLoggerPanel;
use crate::logging::LogEntry;
use crate::logging::LogLevel;
use crate::logging::add_designer_log;
use crate::logging::local_time_of_day;
use crate::logging::logged;
use crate::panels::DesignerControlsPanel;
use crate::panels::DesignerSettingsPanel;
use crate::panels::DistributionSettings;
use crate::panels::LengthUnit;
use crate::panels::MainWorkArea;
use crate::panels::Tool;
use crate::text::decimal;
use crate::text::push_decimal;
use crate::text::push_signed_decimal;
use crate::text::signed_decimal;
use crate::world::DesignerPanels;
use crate::world::DesignerWorld;
use crate::world::in_entity_order;

verus! {

/// The font size that new widgets get.
pub const DEFAULT_FONT_SIZE: u32 = 14;

/// How many entries the event log of a new world keeps.
pub const DEFAULT_MAX_LOG_ENTRIES: usize = 1000;

/// Whether `panels` are those of a world that was just set up: the default
/// grid, the distribution steps 50 and 100, the welcome text on a dark
/// background, metric units in UTC, the select tool, and an event log of
/// one entry.
pub open spec fn is_initial_panels(panels: DesignerPanels) -> bool {
    &&& panels.grid_settings == Some(GridSettings::spec_default())
    &&& panels.distribution_settings == Some(
        DistributionSettings { vertical_spacing: 50, horizontal_spacing: 100 },
    )
    &&& panels.main_work_area is Some
    &&& panels.main_work_area->0.content@ == "Welcome to Mobius Designer!"@
    &&& panels.main_work_area->0.background_color@ == seq![25u8, 25u8, 25u8, 255u8]
    &&& panels.settings_panel is Some
    &&& panels.settings_panel->0.units == LengthUnit::Metric
    &&& panels.settings_panel->0.timezone@ == "UTC"@
    &&& panels.controls_panel == Some(DesignerControlsPanel { selected_tool: Tool::Select })
    &&& panels.event_logger is Some
    &&& panels.event_logger->0.max_entries == DEFAULT_MAX_LOG_ENTRIES
    &&& panels.event_logger->0.auto_scroll
    &&& panels.event_logger->0.entries@.len() == 1
    &&& panels.event_logger->0.entries@[0].level == LogLevel::Info
    &&& panels.event_logger->0.entries@[0].message@ == "Designer initialized"@
}

/// Initializes a new world with the default designer panels and no widgets.
pub fn create_designer_world() -> (world: DesignerWorld)
    ensures
        world.wf(),
        world@ == Seq::<UiElement>::empty(),
        world.spec_next_id() == 0,
        is_initial_panels(world.spec_panels()),
{
    let mut world = DesignerWorld::new();
    let mut entries: Vec<LogEntry> = Vec::new();
    entries.push(
        LogEntry {
            timestamp: local_time_of_day(),
            level: LogLevel::Info,
            message: String::from_str("Designer initialized"),
        },
    );
    let panels = world.panels_mut();
    panels.grid_settings = Some(GridSettings::default());
    panels.distribution_settings = Some(DistributionSettings::new());
    panels.main_work_area = Some(
        MainWorkArea {
            content: String::from_str("Welcome to Mobius Designer!"),
            background_color: [25, 25, 25, 255],
        },
    );
    panels.settings_panel = Some(
        DesignerSettingsPanel { units: LengthUnit::Metric, timezone: String::from_str("UTC") },
    );
    panels.event_logger = Some(
        EventLoggerPanel { entries, max_entries: DEFAULT_MAX_LOG_ENTRIES, auto_scroll: true },
    );
    panels.controls_panel = Some(DesignerControlsPanel { selected_tool: Tool::Select });
    world
}

/// What is attached to a new widget of the kind `widget` at `(x, y)`.
pub open spec fn new_bundle(
    widget: WidgetKind,
    x: i32,
    y: i32,
    size: UiElementSize,
    tab_kind: TabKind,
) -> UiElementBundle {
    UiElementBundle {
        widget,
        position: UiElementPosition { x, y },
        size,
        tab: UiElementTab { tab_kind, position: 0 },
        selected: UiElementSelected { selected: false },
        container: UiElementContainer { parent_group: None },
    }
}

fn make_bundle(widget: WidgetKind, x: i32, y: i32, size: UiElementSize, tab_kind: TabKind) -> (bundle:
    UiElementBundle)
    ensures
        bundle == new_bundle(widget, x, y, size, tab_kind),
{
    UiElementBundle {
        widget,
        position: UiElementPosition { x, y },
        size,
        tab: UiElementTab { tab_kind, position: 0 },
        selected: UiElementSelected { selected: false },
        container: UiElementContainer { parent_group: None },
    }
}

/// The button that `add_ui_button` makes of a label.
pub open spec fn new_button(label: String) -> WidgetKind {
    WidgetKind::Button(
        UiButton {
            label,
            clicked: false,
            enabled: true,
            click_time: None,
            font_size: DEFAULT_FONT_SIZE,
        },
    )
}

/// The checkbox that `add_ui_checkbox` makes of a label.
pub open spec fn new_checkbox(label: String) -> WidgetKind {
    WidgetKind::Checkbox(
        UiCheckbox { label, checked: false, enabled: true, font_size: DEFAULT_FONT_SIZE },
    )
}

/// The radio button that `add_ui_radio_button` makes of a label and a group.
pub open spec fn new_radio_button(label: String, group_id: String) -> WidgetKind {
    WidgetKind::RadioButton(
        UiRadioButton {
            label,
            selected: false,
            enabled: true,
            font_size: DEFAULT_FONT_SIZE,
            group_id,
        },
    )
}

/// Adds a button of 100 by 30 at `(x, y)`: enabled, not pressed, not
/// selected, in no group box.
pub fn add_ui_button(world: &mut DesignerWorld, label: String, x: i32, y: i32, tab_kind: TabKind) -> (entity:
    Entity)
    requires
        old(world).wf(),
        old(world).spec_next_id() < u64::MAX,
    ensures
        final(world).wf(),
        entity.id == old(world).spec_next_id(),
        final(world)@ == old(world)@.push(
            UiElement::from_bundle(
                entity,
                new_bundle(
                    new_button(label),
                    x,
                    y,
                    UiElementSize { width: 100, height: 30 },
                    tab_kind,
                ),
            ),
        ),
        final(world).spec_next_id() == old(world).spec_next_id() + 1,
        final(world).spec_panels() == old(world).spec_panels(),
{
    let bundle = UiButtonBundle {
        button: UiButton {
            label,
            clicked: false,
            enabled: true,
            click_time: None,
            font_size: DEFAULT_FONT_SIZE,
        },
        position: UiElementPosition { x, y },
        size: UiElementSize { width: 100, height: 30 },
        tab: UiElementTab { tab_kind, position: 0 },
        selected: UiElementSelected::default(),
        container: UiElementContainer { parent_group: None },
    };
    world.spawn(bundle.into_bundle())
}

/// Adds an empty text input of 200 by 50 at `(x, y)`.
pub fn add_ui_text_input(world: &mut DesignerWorld, label: String, x: i32, y: i32, tab_kind: TabKind) -> (entity:
    Entity)
    requires
        old(world).wf(),
        old(world).spec_next_id() < u64::MAX,
    ensures
        final(world).wf(),
        entity.id == old(world).spec_next_id(),
        final(world)@.len() == old(world)@.len() + 1,
        final(world)@.drop_last() == old(world)@,
        final(world)@.last().entity == entity,
        final(world)@.last().widget is TextInput,
        final(world)@.last().widget->TextInput_0.label == label,
        final(world)@.last().widget->TextInput_0.value@ == Seq::<char>::empty(),
        final(world)@.last().widget->TextInput_0.enabled,
        final(world)@.last().widget->TextInput_0.font_size == DEFAULT_FONT_SIZE,
        final(world)@.last().position == (UiElementPosition { x, y }),
        final(world)@.last().size == (UiElementSize { width: 200, height: 50 }),
        final(world)@.last().tab == (UiElementTab { tab_kind, position: 0 }),
        !final(world)@.last().selected.selected,
        final(world)@.last().container.parent_group is None,
        final(world).spec_next_id() == old(world).spec_next_id() + 1,
        final(world).spec_panels() == old(world).spec_panels(),
{
    let bundle = UiTextInputBundle {
        text_input: UiTextInput {
            label,
            value: String::new(),
            enabled: true,
            font_size: DEFAULT_FONT_SIZE,
        },
        position: UiElementPosition { x, y },
        size: UiElementSize { width: 200, height: 50 },
        tab: UiElementTab { tab_kind, position: 0 },
        selected: UiElementSelected::default(),
        container: UiElementContainer { parent_group: None },
    };
    let entity = world.spawn(bundle.into_bundle());
    assert(world@.drop_last() =~= old(world)@);
    entity
}

/// Adds an unchecked checkbox of 150 by 25 at `(x, y)`.
pub fn add_ui_checkbox(world: &mut DesignerWorld, label: String, x: i32, y: i32, tab_kind: TabKind) -> (entity:
    Entity)
    requires
        old(world).wf(),
        old(world).spec_next_id() < u64::MAX,
    ensures
        final(world).wf(),
        entity.id == old(world).spec_next_id(),
        final(world)@ == old(world)@.push(
            UiElement::from_bundle(
                entity,
                new_bundle(
                    new_checkbox(label),
                    x,
                    y,
                    UiElementSize { width: 150, height: 25 },
                    tab_kind,
                ),
            ),
        ),
        final(world).spec_next_id() == old(world).spec_next_id() + 1,
        final(world).spec_panels() == old(world).spec_panels(),
{
    let bundle = UiCheckboxBundle {
        checkbox: UiCheckbox {
            label,
            checked: false,
            enabled: true,
            font_size: DEFAULT_FONT_SIZE,
        },
        position: UiElementPosition { x, y },
        size: UiElementSize { width: 150, height: 25 },
        tab: UiElementTab { tab_kind, position: 0 },
        selected: UiElementSelected::default(),
        container: UiElementContainer { parent_group: None },
    };
    world.spawn(bundle.into_bundle())
}

/// Adds a radio button of 150 by 25 at `(x, y)`, not selected, to the group
/// `group_id`.
pub fn add_ui_radio_button(
    world: &mut DesignerWorld,
    label: String,
    group_id: String,
    x: i32,
    y: i32,
    tab_kind: TabKind,
) -> (entity: Entity)
    requires
        old(world).wf(),
        old(world).spec_next_id() < u64::MAX,
    ensures
        final(world).wf(),
        entity.id == old(world).spec_next_id(),
        final(world)@ == old(world)@.push(
            UiElement::from_bundle(
                entity,
                new_bundle(
                    new_radio_button(label, group_id),
                    x,
                    y,
                    UiElementSize { width: 150, height: 25 },
                    tab_kind,
                ),
            ),
        ),
        final(world).spec_next_id() == old(world).spec_next_id() + 1,
        final(world).spec_panels() == old(world).spec_panels(),
{
    let bundle = UiRadioButtonBundle {
        radio_button: UiRadioButton {
            label,
            selected: false,
            enabled: true,
            font_size: DEFAULT_FONT_SIZE,
            group_id,
        },
        position: UiElementPosition { x, y },
        size: UiElementSize { width: 150, height: 25 },
        tab: UiElementTab { tab_kind, position: 0 },
        selected: UiElementSelected::default(),
        container: UiElementContainer { parent_group: None },
    };
    world.spawn(bundle.into_bundle())
}

/// Adds an empty group box of the given size at `(x, y)`.
pub fn add_ui_group_box(
    world: &mut DesignerWorld,
    label: String,
    x: i32,
    y: i32,
    width: i32,
    height: i32,
    tab_kind: TabKind,
) -> (entity: Entity)
    requires
        old(world).wf(),
        old(world).spec_next_id() < u64::MAX,
    ensures
        final(world).wf(),
        entity.id == old(world).spec_next_id(),
        final(world)@.len() == old(world)@.len() + 1,
        final(world)@.drop_last() == old(world)@,
        final(world)@.last().entity == entity,
        final(world)@.last().widget is GroupBox,
        final(world)@.last().widget->GroupBox_0.label == label,
        final(world)@.last().widget->GroupBox_0.enabled,
        final(world)@.last().widget->GroupBox_0.font_size == DEFAULT_FONT_SIZE,
        final(world)@.last().widget->GroupBox_0.contained_widgets@ == Seq::<Entity>::empty(),
        final(world)@.last().position == (UiElementPosition { x, y }),
        final(world)@.last().size == (UiElementSize { width, height }),
        final(world)@.last().tab == (UiElementTab { tab_kind, position: 0 }),
        !final(world)@.last().selected.selected,
        final(world)@.last().container.parent_group is None,
        final(world).spec_next_id() == old(world).spec_next_id() + 1,
        final(world).spec_panels() == old(world).spec_panels(),
{
    let bundle = UiGroupBoxBundle {
        group_box: UiGroupBox {
            label,
            enabled: true,
            font_size: DEFAULT_FONT_SIZE,
            contained_widgets: Vec::new(),
        },
        position: UiElementPosition { x, y },
        size: UiElementSize { width, height },
        tab: UiElementTab { tab_kind, position: 0 },
        selected: UiElementSelected::default(),
        container: UiElementContainer { parent_group: None },
    };
    let entity = world.spawn(bundle.into_bundle());
    assert(world@.drop_last() =~= old(world)@);
    entity
}

/// The kinds of widget that the designer can add.
#[derive(Clone, Copy, Debug, PartialEq, Eq, Structural)]
pub enum ElementKind {
    Button,
    TextInput,
    Checkbox,
    RadioButton,
    GroupBox,
}

/// The kind of a widget.
pub open spec fn kind_of(widget: WidgetKind) -> ElementKind {
    match widget {
        WidgetKind::Button(_) => ElementKind::Button,
        WidgetKind::TextInput(_) => ElementKind::TextInput,
        WidgetKind::Checkbox(_) => ElementKind::Checkbox,
        WidgetKind::RadioButton(_) => ElementKind::RadioButton,
        WidgetKind::GroupBox(_) => ElementKind::GroupBox,
    }
}

/// The kind that a name stands for: `button`, `text_input`, `checkbox`,
/// `radio_button` or `group_box`.
pub open spec fn named_kind(name: Seq<char>) -> Option<ElementKind> {
    if name == "button"@ {
        Some(ElementKind::Button)
    } else if name == "text_input"@ {
        Some(ElementKind::TextInput)
    } else if name == "checkbox"@ {
        Some(ElementKind::Checkbox)
    } else if name == "radio_button"@ {
        Some(ElementKind::RadioButton)
    } else if name == "group_box"@ {
        Some(ElementKind::GroupBox)
    } else {
        None
    }
}

/// Whether two texts are the same.
pub fn same_text(a: &str, b: &str) -> (same: bool)
    ensures
        same == (a@ == b@),
{
    String::from_str(a) == String::from_str(b)
}

/// Reads the name of a kind of widget.
pub fn parse_element_kind(name: &str) -> (kind: Option<ElementKind>)
    ensures
        kind == named_kind(name@),
{
    if same_text(name, "button") {
        Some(ElementKind::Button)
    } else if same_text(name, "text_input") {
        Some(ElementKind::TextInput)
    } else if same_text(name, "checkbox") {
        Some(ElementKind::Checkbox)
    } else if same_text(name, "radio_button") {
        Some(ElementKind::RadioButton)
    } else if same_text(name, "group_box") {
        Some(ElementKind::GroupBox)
    } else {
        None
    }
}

/// How many widgets of `elements` are of the kind `kind`.
pub open spec fn kind_count(elements: Seq<UiElement>, kind: ElementKind) -> nat
    decreases elements.len(),
{
    if elements.len() == 0 {
        0
    } else {
        kind_count(elements.drop_last(), kind) + if kind_of(elements.last().widget) == kind {
            1nat
        } else {
            0nat
        }
    }
}

fn widget_kind(widget: &WidgetKind) -> (kind: ElementKind)
    ensures
        kind == kind_of(*widget),
{
    match widget {
        WidgetKind::Button(_) => ElementKind::Button,
        WidgetKind::TextInput(_) => ElementKind::TextInput,
        WidgetKind::Checkbox(_) => ElementKind::Checkbox,
        WidgetKind::RadioButton(_) => ElementKind::RadioButton,
        WidgetKind::GroupBox(_) => ElementKind::GroupBox,
    }
}

fn same_kind(a: ElementKind, b: ElementKind) -> (same: bool)
    ensures
        same == (a == b),
{
    match (a, b) {
        (ElementKind::Button, ElementKind::Button) => true,
        (ElementKind::TextInput, ElementKind::TextInput) => true,
        (ElementKind::Checkbox, ElementKind::Checkbox) => true,
        (ElementKind::RadioButton, ElementKind::RadioButton) => true,
        (ElementKind::GroupBox, ElementKind::GroupBox) => true,
        _ => false,
    }
}

/// Counts the widgets of one kind.
pub fn count_elements_of_kind(world: &DesignerWorld, kind: ElementKind) -> (count: usize)
    ensures
        count == kind_count(world@, kind),
        count <= world@.len(),
{
    let mut count: usize = 0;
    let mut i: usize = 0;
    assert(world@.take(0) =~= Seq::<UiElement>::empty());
    while i < world.elements.len()
        invariant
            i <= world@.len(),
            count <= i,
            count == kind_count(world@.take(i as int), kind),
        decreases world@.len() - i,
    {
        proof {
            assert(world@.take(i + 1).drop_last() =~= world@.take(i as int));
        }
        if same_kind(widget_kind(&world.elements[i].widget), kind) {
            count += 1;
        }
        i += 1;
    }
    assert(world@.take(world@.len() as int) =~= world@);
    count
}

/// The text with which the label of a new widget of `kind` begins.
pub open spec fn label_prefix(kind: ElementKind) -> Seq<char> {
    match kind {
        ElementKind::Button => "Button "@,
        ElementKind::TextInput => "Input "@,
        ElementKind::Checkbox => "Checkbox "@,
        ElementKind::RadioButton => "Radio "@,
        ElementKind::GroupBox => "Group "@,
    }
}

/// What the event log calls a widget of `kind`.
pub open spec fn kind_title(kind: ElementKind) -> Seq<char> {
    match kind {
        ElementKind::Button => "Button "@,
        ElementKind::TextInput => "Text Input "@,
        ElementKind::Checkbox => "Checkbox "@,
        ElementKind::RadioButton => "Radio Button "@,
        ElementKind::GroupBox => "Group Box "@,
    }
}

/// The size with which the designer adds a widget of `kind`: buttons,
/// checkboxes and radio buttons are measured later.
pub open spec fn initial_size(kind: ElementKind) -> UiElementSize {
    match kind {
        ElementKind::TextInput => UiElementSize { width: 200, height: 30 },
        ElementKind::GroupBox => UiElementSize { width: 200, height: 150 },
        _ => UiElementSize { width: 0, height: 0 },
    }
}

/// Whether `widget` is what the designer makes as the widget number
/// `number` of `kind`: labelled with the kind and the number, enabled, and
/// with nothing pressed, typed, checked, selected or contained. A radio
/// button is in the group `default_group`.
pub open spec fn is_numbered_widget(widget: WidgetKind, kind: ElementKind, number: nat) -> bool {
    &&& kind_of(widget) == kind
    &&& widget.spec_label() == label_prefix(kind) + decimal(number)
    &&& widget.spec_enabled()
    &&& match widget {
        WidgetKind::Button(b) => !b.clicked && b.click_time is None && b.font_size
            == DEFAULT_FONT_SIZE,
        WidgetKind::TextInput(t) => t.value@ == Seq::<char>::empty() && t.font_size
            == DEFAULT_FONT_SIZE,
        WidgetKind::Checkbox(c) => !c.checked && c.font_size == DEFAULT_FONT_SIZE,
        WidgetKind::RadioButton(r) => !r.selected && r.group_id@ == "default_group"@ && r.font_size
            == DEFAULT_FONT_SIZE,
        WidgetKind::GroupBox(g) => g.contained_widgets@ == Seq::<Entity>::empty() && g.font_size
            == DEFAULT_FONT_SIZE,
    }
}

/// Whether `element` is the widget number `number` of `kind`, newly placed
/// at `position` on the tab `tab_kind` with its initial size.
pub open spec fn is_numbered_element(
    element: UiElement,
    kind: ElementKind,
    number: nat,
    position: UiElementPosition,
    tab_kind: TabKind,
) -> bool {
    &&& is_numbered_widget(element.widget, kind, number)
    &&& element.position == position
    &&& element.size == initial_size(kind)
    &&& element.tab == (UiElementTab { tab_kind, position: 0 })
    &&& !element.selected.selected
    &&& element.container.parent_group is None
}

fn label_prefix_str(kind: ElementKind) -> (s: &'static str)
    ensures
        s@ == label_prefix(kind),
{
    match kind {
        ElementKind::Button => "Button ",
        ElementKind::TextInput => "Input ",
        ElementKind::Checkbox => "Checkbox ",
        ElementKind::RadioButton => "Radio ",
        ElementKind::GroupBox => "Group ",
    }
}

fn kind_title_str(kind: ElementKind) -> (s: &'static str)
    ensures
        s@ == kind_title(kind),
{
    match kind {
        ElementKind::Button => "Button ",
        ElementKind::TextInput => "Text Input ",
        ElementKind::Checkbox => "Checkbox ",
        ElementKind::RadioButton => "Radio Button ",
        ElementKind::GroupBox => "Group Box ",
    }
}

/// Makes the widget number `number` of `kind`.
fn numbered_widget(kind: ElementKind, number: u64) -> (widget: WidgetKind)
    ensures
        is_numbered_widget(widget, kind, number as nat),
{
    let mut label = String::from_str(label_prefix_str(kind));
    push_decimal(&mut label, number);
    match kind {
        ElementKind::Button => WidgetKind::Button(
            UiButton {
                label,
                clicked: false,
                enabled: true,
                click_time: None,
                font_size: DEFAULT_FONT_SIZE,
            },
        ),
        ElementKind::TextInput => WidgetKind::TextInput(
            UiTextInput {
                label,
                value: String::new(),
                enabled: true,
                font_size: DEFAULT_FONT_SIZE,
            },
        ),
        ElementKind::Checkbox => WidgetKind::Checkbox(
            UiCheckbox { label, checked: false, enabled: true, font_size: DEFAULT_FONT_SIZE },
        ),
        ElementKind::RadioButton => WidgetKind::RadioButton(
            UiRadioButton {
                label,
                selected: false,
                enabled: true,
                font_size: DEFAULT_FONT_SIZE,
                group_id: String::from_str("default_group"),
            },
        ),
        ElementKind::GroupBox => WidgetKind::GroupBox(
            UiGroupBox {
                label,
                enabled: true,
                font_size: DEFAULT_FONT_SIZE,
                contained_widgets: Vec::new(),
            },
        ),
    }
}

fn initial_size_of(kind: ElementKind) -> (size: UiElementSize)
    ensures
        size == initial_size(kind),
{
    match kind {
        ElementKind::TextInput => UiElementSize { width: 200, height: 30 },
        ElementKind::GroupBox => UiElementSize { width: 200, height: 150 },
        _ => UiElementSize { width: 0, height: 0 },
    }
}

/// A world in entity order holds no more widgets than it has handed out
/// handles.
pub proof fn lemma_len_below_next_id(world: &DesignerWorld)
    requires
        world.wf(),
    ensures
        world@.len() <= world.spec_next_id(),
{
    if world@.len() > 0 {
        lemma_handles_outgrow_places(world@, world@.len() - 1);
    }
}

proof fn lemma_handles_outgrow_places(elements: Seq<UiElement>, i: int)
    requires
        in_entity_order(elements),
        0 <= i < elements.len(),
    ensures
        elements[i].entity.id >= i,
    decreases i,
{
    if i > 0 {
        lemma_handles_outgrow_places(elements, i - 1);
        assert(elements[i - 1].entity.id < elements[i].entity.id);
    }
}

/// What the event log is told when a widget is placed by hand.
pub open spec fn placed_message(kind: ElementKind, number: nat, x: i32, y: i32) -> Seq<char> {
    "Added "@ + kind_title(kind) + decimal(number) + " at ("@ + signed_decimal(x as int) + ", "@
        + signed_decimal(y as int) + ")"@
}

/// Adds a widget of the kind that `element_type` names at `(x, y)` on the
/// tab `tab_kind`, numbered after the widgets of that kind already there,
/// and tells the event log. An unknown name adds nothing.
pub fn add_ui_element_at_position_in_tab(
    world: &mut DesignerWorld,
    element_type: &str,
    x: i32,
    y: i32,
    tab_kind: TabKind,
) -> (added: Option<Entity>)
    requires
        old(world).wf(),
        old(world).spec_next_id() < u64::MAX,
    ensures
        final(world).wf(),
        added is Some <==> named_kind(element_type@) is Some,
        added is None ==> final(world)@ == old(world)@ && final(world).spec_next_id() == old(
            world,
        ).spec_next_id() && final(world).spec_panels() == old(world).spec_panels(),
        added is Some ==> {
            let kind = named_kind(element_type@)->0;
            let number = kind_count(old(world)@, kind) + 1;
            &&& added->0.id == old(world).spec_next_id()
            &&& final(world).spec_next_id() == old(world).spec_next_id() + 1
            &&& final(world)@.len() == old(world)@.len() + 1
            &&& final(world)@.drop_last() == old(world)@
            &&& final(world)@.last().entity == added->0
            &&& is_numbered_element(
                final(world)@.last(),
                kind,
                number,
                UiElementPosition { x, y },
                tab_kind,
            )
            &&& logged(
                old(world).spec_panels(),
                final(world).spec_panels(),
                placed_message(kind, number, x, y),
            )
        },
{
    let kind = match parse_element_kind(element_type) {
        Some(kind) => kind,
        None => {
            return None;
        },
    };
    proof {
        lemma_len_below_next_id(world);
    }
    let number: u64 = count_elements_of_kind(world, kind) as u64 + 1;
    let widget = numbered_widget(kind, number);
    let entity = world.spawn(make_bundle(widget, x, y, initial_size_of(kind), tab_kind));
    assert(world@.drop_last() =~= old(world)@);
    let mut message = String::from_str("Added ");
    message.append(kind_title_str(kind));
    push_decimal(&mut message, number);
    message.append(" at (");
    push_signed_decimal(&mut message, x as i64);
    message.append(", ");
    push_signed_decimal(&mut message, y as i64);
    message.append(")");
    add_designer_log(world, message.as_str());
    Some(entity)
}

/// How the designer lays out the widgets that it adds from its menu: so
/// many to a row, with these steps, from this corner.
pub struct SlotGrid {
    pub columns: u32,
    pub x_step: i32,
    pub x_start: i32,
    pub y_step: i32,
    pub y_start: i32,
}

/// The slots for each kind of widget.
pub open spec fn slot_grid(kind: ElementKind) -> SlotGrid {
    match kind {
        ElementKind::Button => SlotGrid { columns: 5, x_step: 120, x_start: 20, y_step: 50, y_start: 50 },
        ElementKind::TextInput => SlotGrid { columns: 3, x_step: 200, x_start: 20, y_step: 50, y_start: 150 },
        ElementKind::Checkbox => SlotGrid { columns: 4, x_step: 150, x_start: 20, y_step: 50, y_start: 250 },
        ElementKind::RadioButton => SlotGrid { columns: 4, x_step: 150, x_start: 20, y_step: 50, y_start: 350 },
        ElementKind::GroupBox => SlotGrid { columns: 3, x_step: 250, x_start: 50, y_step: 200, y_start: 450 },
    }
}

fn slot_grid_of(kind: ElementKind) -> (grid: SlotGrid)
    ensures
        grid == slot_grid(kind),
{
    match kind {
        ElementKind::Button => SlotGrid { columns: 5, x_step: 120, x_start: 20, y_step: 50, y_start: 50 },
        ElementKind::TextInput => SlotGrid { columns: 3, x_step: 200, x_start: 20, y_step: 50, y_start: 150 },
        ElementKind::Checkbox => SlotGrid { columns: 4, x_step: 150, x_start: 20, y_step: 50, y_start: 250 },
        ElementKind::RadioButton => SlotGrid { columns: 4, x_step: 150, x_start: 20, y_step: 50, y_start: 350 },
        ElementKind::GroupBox => SlotGrid { columns: 3, x_step: 250, x_start: 50, y_step: 200, y_start: 450 },
    }
}

/// The slot of the widget that follows `count` widgets of its kind, before
/// any snapping: along the row by the remainder, down by the quotient.
pub open spec fn slot_position(kind: ElementKind, count: nat) -> Pos2 {
    let grid = slot_grid(kind);
    Pos2 {
        x: clamp_coord((count % grid.columns as nat) * grid.x_step + grid.x_start) as i32,
        y: clamp_coord((count / grid.columns as nat) * grid.y_step + grid.y_start) as i32,
    }
}

/// Where the designer puts the widget that follows `count` widgets of its
/// kind: in its slot, snapped to the grid where the world has grid settings
/// with snapping switched on.
pub open spec fn menu_position(grid_settings: Option<GridSettings>, kind: ElementKind, count: nat) -> UiElementPosition {
    let slot = slot_position(kind, count);
    let end = match grid_settings {
        Some(settings) => if settings.snap_enabled {
            snapped(slot, settings.spacing_pixels)
        } else {
            slot
        },
        None => slot,
    };
    UiElementPosition { x: end.x, y: end.y }
}

/// What the event log is told when a widget is added from the menu.
pub open spec fn added_message(kind: ElementKind, number: nat) -> Seq<char> {
    "Added "@ + kind_title(kind) + decimal(number) + " to tab"@
}

/// Adds a widget of `kind` to the tab `current_tab_kind`, in the next free
/// slot for its kind, and tells the event log.
pub fn add_element_to_current_tab(world: &mut DesignerWorld, kind: ElementKind, current_tab_kind: TabKind) -> (entity:
    Entity)
    requires
        old(world).wf(),
        old(world).spec_next_id() < u64::MAX,
    ensures
        final(world).wf(),
        entity.id == old(world).spec_next_id(),
        final(world).spec_next_id() == old(world).spec_next_id() + 1,
        final(world)@.len() == old(world)@.len() + 1,
        final(world)@.drop_last() == old(world)@,
        final(world)@.last().entity == entity,
        is_numbered_element(
            final(world)@.last(),
            kind,
            kind_count(old(world)@, kind) + 1,
            menu_position(
                old(world).spec_panels().grid_settings,
                kind,
                kind_count(old(world)@, kind),
            ),
            current_tab_kind,
        ),
        logged(
            old(world).spec_panels(),
            final(world).spec_panels(),
            added_message(kind, kind_count(old(world)@, kind) + 1),
        ),
{
    proof {
        lemma_len_below_next_id(world);
    }
    let count = count_elements_of_kind(world, kind);
    let grid = slot_grid_of(kind);
    let column: u64 = count as u64 % grid.columns as u64;
    let row: u64 = count as u64 / grid.columns as u64;
    proof {
        assert(0 <= column * grid.x_step <= 5 * 250) by (nonlinear_arith)
            requires
                0 <= column < 5,
                0 <= grid.x_step <= 250,
        ;
        assert(0 <= row * grid.y_step <= 0x1_0000_0000_0000_0000 * 200) by (nonlinear_arith)
            requires
                0 <= row <= 0x1_0000_0000_0000_0000,
                0 <= grid.y_step <= 200,
        ;
    }
    let slot = Pos2 {
        x: saturate((column as i128) * (grid.x_step as i128) + grid.x_start as i128),
        y: saturate((row as i128) * (grid.y_step as i128) + grid.y_start as i128),
    };
    let end = match world.panels().grid_settings {
        Some(settings) => if settings.snap_enabled {
            snap_to_grid(slot, settings.spacing_pixels)
        } else {
            slot
        },
        None => slot,
    };
    let number: u64 = count as u64 + 1;
    let widget = numbered_widget(kind, number);
    let entity = world.spawn(
        make_bundle(widget, end.x, end.y, initial_size_of(kind), current_tab_kind),
    );
    assert(world@.drop_last() =~= old(world)@);
    let mut message = String::from_str("Added ");
    message.append(kind_title_str(kind));
    push_decimal(&mut message, number);
    message.append(" to tab");
    add_designer_log(world, message.as_str());
    entity
}

/// Adds the six sample widgets: a button, a text input, a checkbox, two
/// radio buttons of one group, and a group box, all on the main work tab.
pub fn add_sample_ui_elements(world: &mut DesignerWorld)
    requires
        old(world).wf(),
        old(world).spec_next_id() + 6 <= u64::MAX,
    ensures
        final(world).wf(),
        final(world)@.len() == old(world)@.len() + 6,
        final(world)@.take(old(world)@.len() as int) == old(world)@,
        final(world).spec_next_id() == old(world).spec_next_id() + 6,
        final(world).spec_panels() == old(world).spec_panels(),
        ({
            let n = old(world)@.len() as int;
            let added = final(world)@;
            &&& added[n].widget.spec_label() == "Sample Button"@
            &&& added[n].position == (UiElementPosition { x: 50, y: 50 })
            &&& added[n + 1].widget.spec_label() == "Name"@
            &&& added[n + 1].position == (UiElementPosition { x: 50, y: 100 })
            &&& added[n + 2].widget.spec_label() == "Enable Feature"@
            &&& added[n + 2].position == (UiElementPosition { x: 50, y: 170 })
            &&& added[n + 3].widget.spec_label() == "Option A"@
            &&& added[n + 3].position == (UiElementPosition { x: 50, y: 220 })
            &&& added[n + 4].widget.spec_label() == "Option B"@
            &&& added[n + 4].position == (UiElementPosition { x: 50, y: 250 })
            &&& radio_group_name(added[n + 3].widget) == Some("group1"@)
            &&& radio_group_name(added[n + 4].widget) == Some("group1"@)
            &&& added[n + 5].widget.spec_label() == "Settings"@
            &&& added[n + 5].position == (UiElementPosition { x: 300, y: 50 })
            &&& added[n + 5].size == (UiElementSize { width: 200, height: 150 })
        }),
{
    let ghost n = old(world)@.len() as int;
    add_ui_button(world, String::from_str("Sample Button"), 50, 50, TabKind::MainWork);
    let ghost s1 = world@;
    add_ui_text_input(world, String::from_str("Name"), 50, 100, TabKind::MainWork);
    let ghost s2 = world@;
    assert(s2.drop_last()[n] == s2[n]);
    add_ui_checkbox(world, String::from_str("Enable Feature"), 50, 170, TabKind::MainWork);
    add_ui_radio_button(
        world,
        String::from_str("Option A"),
        String::from_str("group1"),
        50,
        220,
        TabKind::MainWork,
    );
    add_ui_radio_button(
        world,
        String::from_str("Option B"),
        String::from_str("group1"),
        50,
        250,
        TabKind::MainWork,
    );
    let ghost s5 = world@;
    add_ui_group_box(world, String::from_str("Settings"), 300, 50, 200, 150, TabKind::MainWork);
    proof {
        let s6 = world@;
        assert(s6.drop_last() == s5);
        assert forall|k: int| 0 <= k < n + 5 implies s6[k] == s5[k] by {
            assert(s6.drop_last()[k] == s6[k]);
        }
        assert forall|k: int| 0 <= k < n implies s2[k] == s1[k] by {
            assert(s2.drop_last()[k] == s2[k]);
        }
        assert(world@.take(n) =~= old(world)@);
    }
}

/// The radio group of a widget, where it is a radio button.
pub open spec fn radio_group_name(widget: WidgetKind) -> Option<Seq<char>> {
    match widget {
        WidgetKind::RadioButton(radio) => Some(radio.group_id@),
        _ => None,
    }
}

} // verus!
