//! A snapshot of the widgets of a world, taken so that source can be
//! generated from it away from the world, and the source made from it.

use vstd::prelude::*;
use vstd::utf8::encode_utf8;
use crate::components::Entity;
use crate::components::TabKind;
use crate::components::UiElement;
use crate::components::UiElementPosition;
use crate::components::UiElementSize;
use crate::components::UiElementTab;
use crate::components::WidgetKind;
use crate::grid::GridSettings;
use crate::text::bool_text;
use crate::text::debug_quote;
use crate::text::debug_quoted;
use crate::text::decimal;
use crate::text::fixed_decimal;
use crate::text::push_bool;
use crate::text::push_fixed_decimal;
use crate::world::DesignerWorld;

verus! {

/// The kind of a widget with the fields that source generation reads.
#[derive(Debug, PartialEq, Eq)]
pub enum UiElementType {
    Button { label: String, enabled: bool, font_size: u32 },
    TextInput { label: String, value: String, enabled: bool, font_size: u32 },
    Checkbox { label: String, checked: bool, enabled: bool, font_size: u32 },
    RadioButton { label: String, selected: bool, enabled: bool, font_size: u32, group_id: String },
    GroupBox { label: String, enabled: bool, font_size: u32 },
}

/// A widget as it was when the snapshot was taken.
#[derive(Debug, PartialEq, Eq)]
pub struct UiElementSnapshot {
    pub entity_id: Entity,
    pub position: UiElementPosition,
    pub size: UiElementSize,
    pub tab: UiElementTab,
    pub element_type: UiElementType,
}

/// The widgets and the grid of a world at one moment, with a hash over
/// all of it.
#[derive(Debug, PartialEq, Eq)]
pub struct WorldSnapshot {
    pub ui_elements: Vec<UiElementSnapshot>,
    pub grid_settings: GridSettings,
    pub hash: u64,
}

/// What a snapshot keeps of a widget kind.
pub open spec fn element_type_of(widget: WidgetKind) -> UiElementType {
    match widget {
        WidgetKind::Button(b) => UiElementType::Button {
            label: b.label,
            enabled: b.enabled,
            font_size: b.font_size,
        },
        WidgetKind::TextInput(t) => UiElementType::TextInput {
            label: t.label,
            value: t.value,
            enabled: t.enabled,
            font_size: t.font_size,
        },
        WidgetKind::Checkbox(c) => UiElementType::Checkbox {
            label: c.label,
            checked: c.checked,
            enabled: c.enabled,
            font_size: c.font_size,
        },
        WidgetKind::RadioButton(r) => UiElementType::RadioButton {
            label: r.label,
            selected: r.selected,
            enabled: r.enabled,
            font_size: r.font_size,
            group_id: r.group_id,
        },
        WidgetKind::GroupBox(g) => UiElementType::GroupBox {
            label: g.label,
            enabled: g.enabled,
            font_size: g.font_size,
        },
    }
}

/// What a snapshot keeps of a widget.
pub open spec fn snapshot_of(element: UiElement) -> UiElementSnapshot {
    UiElementSnapshot {
        entity_id: element.entity,
        position: element.position,
        size: element.size,
        tab: element.tab,
        element_type: element_type_of(element.widget),
    }
}

/// What a snapshot keeps of the widgets of a world, in entity order.
pub open spec fn snapshots_of(elements: Seq<UiElement>) -> Seq<UiElementSnapshot> {
    Seq::new(elements.len(), |i: int| snapshot_of(elements[i]))
}

/// Where every hash starts.
pub const HASH_SEED: u64 = 0xcbf2_9ce4_8422_2325;

/// The factor by which a hash is multiplied after each value.
pub const HASH_PRIME: u64 = 0x0000_0100_0000_01b3;

/// The hash `h` with the value `v` taken in.
pub open spec fn mixed(h: u64, v: u64) -> u64 {
    (h ^ v).wrapping_mul(HASH_PRIME)
}

/// The hash `h` with every byte of `bytes` taken in, in order.
pub open spec fn bytes_hash(h: u64, bytes: Seq<u8>) -> u64
    decreases bytes.len(),
{
    if bytes.len() == 0 {
        h
    } else {
        mixed(bytes_hash(h, bytes.drop_last()), bytes.last() as u64)
    }
}

/// The hash `h` with a text taken in: its bytes in UTF-8, then their
/// number.
pub open spec fn text_hash(h: u64, text: Seq<char>) -> u64 {
    mixed(bytes_hash(h, encode_utf8(text)), encode_utf8(text).len() as u64)
}

/// A flag as a number.
pub open spec fn flag_value(b: bool) -> u64 {
    if b {
        1
    } else {
        0
    }
}

/// A coordinate as a number that is not negative.
pub open spec fn coord_value(v: i32) -> u64 {
    (v + 0x8000_0000) as u64
}

/// The hash `h` with a widget kind taken in: a number for the kind, then
/// its fields in the order in which they are declared.
pub open spec fn element_type_hash(h: u64, element_type: UiElementType) -> u64 {
    match element_type {
        UiElementType::Button { label, enabled, font_size } => mixed(
            mixed(text_hash(mixed(h, 0), label@), flag_value(enabled)),
            font_size as u64,
        ),
        UiElementType::TextInput { label, value, enabled, font_size } => mixed(
            mixed(text_hash(text_hash(mixed(h, 1), label@), value@), flag_value(enabled)),
            font_size as u64,
        ),
        UiElementType::Checkbox { label, checked, enabled, font_size } => mixed(
            mixed(mixed(text_hash(mixed(h, 2), label@), flag_value(checked)), flag_value(enabled)),
            font_size as u64,
        ),
        UiElementType::RadioButton { label, selected, enabled, font_size, group_id } => text_hash(
            mixed(
                mixed(
                    mixed(text_hash(mixed(h, 3), label@), flag_value(selected)),
                    flag_value(enabled),
                ),
                font_size as u64,
            ),
            group_id@,
        ),
        UiElementType::GroupBox { label, enabled, font_size } => mixed(
            mixed(text_hash(mixed(h, 4), label@), flag_value(enabled)),
            font_size as u64,
        ),
    }
}

/// A tab kind as a number.
pub open spec fn tab_value(tab_kind: TabKind) -> u64 {
    match tab_kind {
        TabKind::MainWork => 0,
        TabKind::Settings => 1,
        TabKind::EventLogger => 2,
        TabKind::Controls => 3,
        TabKind::Inspector => 4,
        TabKind::Preview => 5,
    }
}

/// The hash `h` with a widget taken in: its handle, position, size, tab
/// and kind.
pub open spec fn snapshot_hash(h: u64, element: UiElementSnapshot) -> u64 {
    let h = mixed(h, element.entity_id.id);
    let h = mixed(h, coord_value(element.position.x));
    let h = mixed(h, coord_value(element.position.y));
    let h = mixed(h, coord_value(element.size.width));
    let h = mixed(h, coord_value(element.size.height));
    let h = mixed(h, tab_value(element.tab.tab_kind));
    let h = mixed(h, element.tab.position as u64);
    element_type_hash(h, element.element_type)
}

/// The hash `h` with every widget of `elements` taken in, in order.
pub open spec fn elements_hash(h: u64, elements: Seq<UiElementSnapshot>) -> u64
    decreases elements.len(),
{
    if elements.len() == 0 {
        h
    } else {
        snapshot_hash(elements_hash(h, elements.drop_last()), elements.last())
    }
}

/// The hash `h` with the grid settings taken in.
pub open spec fn grid_hash(h: u64, grid: GridSettings) -> u64 {
    let h = mixed(h, flag_value(grid.enabled));
    let h = mixed(h, coord_value(grid.spacing_pixels));
    let h = mixed(h, coord_value(grid.dot_size));
    let h = mixed(h, flag_value(grid.snap_enabled));
    mixed(h, flag_value(grid.show_grid))
}

/// The hash over the whole content of a snapshot: the number of widgets,
/// the widgets in order, and the grid settings. Snapshots with the same
/// content have the same hash.
pub open spec fn content_hash(elements: Seq<UiElementSnapshot>, grid: GridSettings) -> u64 {
    grid_hash(elements_hash(mixed(HASH_SEED, elements.len() as u64), elements), grid)
}

fn mix(h: u64, v: u64) -> (r: u64)
    ensures
        r == mixed(h, v),
{
    (h ^ v).wrapping_mul(HASH_PRIME)
}

fn mix_flag(h: u64, b: bool) -> (r: u64)
    ensures
        r == mixed(h, flag_value(b)),
{
    mix(h, if b { 1 } else { 0 })
}

fn mix_coord(h: u64, v: i32) -> (r: u64)
    ensures
        r == mixed(h, coord_value(v)),
{
    mix(h, (v as i64 + 0x8000_0000) as u64)
}

fn mix_text(h: u64, text: &str) -> (r: u64)
    ensures
        r == text_hash(h, text@),
{
    let bytes = text.as_bytes();
    let n = bytes.len();
    let mut r = h;
    let mut i: usize = 0;
    assert(bytes@.take(0) =~= Seq::<u8>::empty());
    while i < n
        invariant
            i <= n,
            n == bytes@.len(),
            r == bytes_hash(h, bytes@.take(i as int)),
        decreases n - i,
    {
        proof {
            assert(bytes@.take(i + 1).drop_last() =~= bytes@.take(i as int));
        }
        r = mix(r, bytes[i] as u64);
        i += 1;
    }
    assert(bytes@.take(n as int) =~= bytes@);
    mix(r, n as u64)
}

fn mix_element_type(h: u64, element_type: &UiElementType) -> (r: u64)
    ensures
        r == element_type_hash(h, *element_type),
{
    match element_type {
        UiElementType::Button { label, enabled, font_size } => {
            let h = mix_text(mix(h, 0), label.as_str());
            mix(mix_flag(h, *enabled), *font_size as u64)
        },
        UiElementType::TextInput { label, value, enabled, font_size } => {
            let h = mix_text(mix(h, 1), label.as_str());
            let h = mix_text(h, value.as_str());
            mix(mix_flag(h, *enabled), *font_size as u64)
        },
        UiElementType::Checkbox { label, checked, enabled, font_size } => {
            let h = mix_text(mix(h, 2), label.as_str());
            let h = mix_flag(h, *checked);
            mix(mix_flag(h, *enabled), *font_size as u64)
        },
        UiElementType::RadioButton { label, selected, enabled, font_size, group_id } => {
            let h = mix_text(mix(h, 3), label.as_str());
            let h = mix_flag(h, *selected);
            let h = mix(mix_flag(h, *enabled), *font_size as u64);
            mix_text(h, group_id.as_str())
        },
        UiElementType::GroupBox { label, enabled, font_size } => {
            let h = mix_text(mix(h, 4), label.as_str());
            mix(mix_flag(h, *enabled), *font_size as u64)
        },
    }
}

fn tab_number(tab_kind: TabKind) -> (v: u64)
    ensures
        v == tab_value(tab_kind),
{
    match tab_kind {
        TabKind::MainWork => 0,
        TabKind::Settings => 1,
        TabKind::EventLogger => 2,
        TabKind::Controls => 3,
        TabKind::Inspector => 4,
        TabKind::Preview => 5,
    }
}

fn mix_snapshot(h: u64, element: &UiElementSnapshot) -> (r: u64)
    ensures
        r == snapshot_hash(h, *element),
{
    let h = mix(h, element.entity_id.id);
    let h = mix_coord(h, element.position.x);
    let h = mix_coord(h, element.position.y);
    let h = mix_coord(h, element.size.width);
    let h = mix_coord(h, element.size.height);
    let h = mix(h, tab_number(element.tab.tab_kind));
    let h = mix(h, element.tab.position as u64);
    mix_element_type(h, &element.element_type)
}

/// Computes the hash over the content of a snapshot.
pub fn hash_content(elements: &Vec<UiElementSnapshot>, grid: &GridSettings) -> (hash: u64)
    ensures
        hash == content_hash(elements@, *grid),
{
    let n = elements.len();
    let mut h = mix(HASH_SEED, n as u64);
    let mut i: usize = 0;
    assert(elements@.take(0) =~= Seq::<UiElementSnapshot>::empty());
    while i < n
        invariant
            i <= n,
            n == elements@.len(),
            h == elements_hash(mixed(HASH_SEED, n as u64), elements@.take(i as int)),
        decreases n - i,
    {
        proof {
            assert(elements@.take(i + 1).drop_last() =~= elements@.take(i as int));
        }
        h = mix_snapshot(h, &elements[i]);
        i += 1;
    }
    assert(elements@.take(n as int) =~= elements@);
    let h = mix_flag(h, grid.enabled);
    let h = mix_coord(h, grid.spacing_pixels);
    let h = mix_coord(h, grid.dot_size);
    let h = mix_flag(h, grid.snap_enabled);
    mix_flag(h, grid.show_grid)
}

/// Copies what a snapshot keeps of a widget kind.
pub fn snapshot_widget(widget: &WidgetKind) -> (element_type: UiElementType)
    ensures
        element_type == element_type_of(*widget),
{
    match widget {
        WidgetKind::Button(b) => UiElementType::Button {
            label: b.label.clone(),
            enabled: b.enabled,
            font_size: b.font_size,
        },
        WidgetKind::TextInput(t) => UiElementType::TextInput {
            label: t.label.clone(),
            value: t.value.clone(),
            enabled: t.enabled,
            font_size: t.font_size,
        },
        WidgetKind::Checkbox(c) => UiElementType::Checkbox {
            label: c.label.clone(),
            checked: c.checked,
            enabled: c.enabled,
            font_size: c.font_size,
        },
        WidgetKind::RadioButton(r) => UiElementType::RadioButton {
            label: r.label.clone(),
            selected: r.selected,
            enabled: r.enabled,
            font_size: r.font_size,
            group_id: r.group_id.clone(),
        },
        WidgetKind::GroupBox(g) => UiElementType::GroupBox {
            label: g.label.clone(),
            enabled: g.enabled,
            font_size: g.font_size,
        },
    }
}

impl Clone for UiElementType {
    fn clone(&self) -> (c: UiElementType)
        ensures
            c == *self,
    {
        match self {
            UiElementType::Button { label, enabled, font_size } => UiElementType::Button {
                label: label.clone(),
                enabled: *enabled,
                font_size: *font_size,
            },
            UiElementType::TextInput { label, value, enabled, font_size } => UiElementType::TextInput {
                label: label.clone(),
                value: value.clone(),
                enabled: *enabled,
                font_size: *font_size,
            },
            UiElementType::Checkbox { label, checked, enabled, font_size } => UiElementType::Checkbox {
                label: label.clone(),
                checked: *checked,
                enabled: *enabled,
                font_size: *font_size,
            },
            UiElementType::RadioButton {
                label,
                selected,
                enabled,
                font_size,
                group_id,
            } => UiElementType::RadioButton {
                label: label.clone(),
                selected: *selected,
                enabled: *enabled,
                font_size: *font_size,
                group_id: group_id.clone(),
            },
            UiElementType::GroupBox { label, enabled, font_size } => UiElementType::GroupBox {
                label: label.clone(),
                enabled: *enabled,
                font_size: *font_size,
            },
        }
    }
}

impl Clone for UiElementSnapshot {
    fn clone(&self) -> (c: UiElementSnapshot)
        ensures
            c == *self,
    {
        UiElementSnapshot {
            entity_id: self.entity_id,
            position: self.position,
            size: self.size,
            tab: self.tab,
            element_type: self.element_type.clone(),
        }
    }
}

impl Clone for WorldSnapshot {
    fn clone(&self) -> (c: WorldSnapshot)
        ensures
            c.ui_elements@ == self.ui_elements@,
            c.grid_settings == self.grid_settings,
            c.hash == self.hash,
    {
        let mut ui_elements: Vec<UiElementSnapshot> = Vec::new();
        let mut i: usize = 0;
        while i < self.ui_elements.len()
            invariant
                i <= self.ui_elements@.len(),
                ui_elements@ == self.ui_elements@.take(i as int),
            decreases self.ui_elements@.len() - i,
        {
            ui_elements.push(self.ui_elements[i].clone());
            assert(ui_elements@ =~= self.ui_elements@.take(i + 1));
            i += 1;
        }
        assert(self.ui_elements@.take(self.ui_elements@.len() as int) =~= self.ui_elements@);
        WorldSnapshot { ui_elements, grid_settings: self.grid_settings, hash: self.hash }
    }
}

impl WorldSnapshot {
    /// Whether the hash of the snapshot is the hash of its content.
    pub open spec fn wf(&self) -> bool {
        self.hash == content_hash(self.ui_elements@, self.grid_settings)
    }

    /// Creates a snapshot from the current state of a world: every widget in
    /// entity order, the grid settings of the world or the default ones
    /// where it has none, and the hash over both.
    pub fn from_world(world: &DesignerWorld) -> (snapshot: WorldSnapshot)
        ensures
            snapshot.ui_elements@ == snapshots_of(world@),
            snapshot.grid_settings == (match world.spec_panels().grid_settings {
                Some(grid) => grid,
                None => GridSettings::spec_default(),
            }),
            snapshot.wf(),
    {
        let mut ui_elements: Vec<UiElementSnapshot> = Vec::new();
        let n = world.elements.len();
        let mut i: usize = 0;
        while i < n
            invariant
                i <= n,
                n == world@.len(),
                ui_elements@.len() == i,
                forall|k: int| 0 <= k < i ==> #[trigger] ui_elements@[k] == snapshot_of(world@[k]),
            decreases n - i,
        {
            let element = &world.elements[i];
            ui_elements.push(
                UiElementSnapshot {
                    entity_id: element.entity,
                    position: element.position,
                    size: element.size,
                    tab: element.tab,
                    element_type: snapshot_widget(&element.widget),
                },
            );
            i += 1;
        }
        assert(ui_elements@ =~= snapshots_of(world@));
        let grid_settings = match world.panels().grid_settings {
            Some(grid) => grid,
            None => GridSettings::default(),
        };
        let hash = hash_content(&ui_elements, &grid_settings);
        WorldSnapshot { ui_elements, grid_settings, hash }
    }
}

/// What is generated from a snapshot.
#[derive(Debug, Clone, Copy, PartialEq, Eq, Structural)]
pub enum CodeGenMode {
    /// A whole application.
    FullApp,
    /// The panel function alone.
    PanelFunction,
}

/// The `Debug` form of a widget kind, as it stands in a placeholder.
pub open spec fn element_type_debug(element_type: UiElementType) -> Seq<char> {
    match element_type {
        UiElementType::Button { label, enabled, font_size } => "Button { label: "@ + debug_quoted(
            label@,
        ) + ", enabled: "@ + bool_text(enabled) + ", font_size: "@ + fixed_decimal(
            font_size as int,
        ) + " }"@,
        UiElementType::TextInput { label, value, enabled, font_size } => "TextInput { label: "@
            + debug_quoted(label@) + ", value: "@ + debug_quoted(value@) + ", enabled: "@
            + bool_text(enabled) + ", font_size: "@ + fixed_decimal(font_size as int) + " }"@,
        UiElementType::Checkbox { label, checked, enabled, font_size } => "Checkbox { label: "@
            + debug_quoted(label@) + ", checked: "@ + bool_text(checked) + ", enabled: "@
            + bool_text(enabled) + ", font_size: "@ + fixed_decimal(font_size as int) + " }"@,
        UiElementType::RadioButton { label, selected, enabled, font_size, group_id } =>
            "RadioButton { label: "@ + debug_quoted(label@) + ", selected: "@ + bool_text(selected)
                + ", enabled: "@ + bool_text(enabled) + ", font_size: "@ + fixed_decimal(
                font_size as int,
            ) + ", group_id: "@ + debug_quoted(group_id@) + " }"@,
        UiElementType::GroupBox { label, enabled, font_size } => "GroupBox { label: "@
            + debug_quoted(label@) + ", enabled: "@ + bool_text(enabled) + ", font_size: "@
            + fixed_decimal(font_size as int) + " }"@,
    }
}

/// What follows a button that is disabled.
pub open spec fn disabled_call(enabled: bool) -> Seq<char> {
    if enabled {
        Seq::<char>::empty()
    } else {
        ".enabled(false)"@
    }
}

/// `written` and after it the source for one widget of a snapshot: for a
/// button an area fixed at its position with the button inside, for any
/// other kind a placeholder that names what is to be done.
pub open spec fn with_snapshot_element(written: Seq<char>, element: UiElementSnapshot) -> Seq<char> {
    match element.element_type {
        UiElementType::Button { label, enabled, font_size } => {
            let text = written + "    egui::Area::new(egui::Id::new(\"btn_"@ + decimal(
                element.entity_id.id as nat,
            ) + "\"))\n"@;
            let text = text + "        .fixed_pos(egui::pos2("@ + fixed_decimal(
                element.position.x as int,
            ) + ", "@ + fixed_decimal(element.position.y as int) + "))\n"@;
            let text = text + "        .show(ui.ctx(), |ui| {\n"@;
            let text = text + "            if ui.add_sized(egui::vec2("@ + fixed_decimal(
                element.size.width as int,
            ) + ", "@ + fixed_decimal(element.size.height as int) + "), egui::Button::new(\""@
                + label@ + "\")"@ + disabled_call(enabled) + ").clicked() {\n"@;
            let text = text + "                // Handle "@ + label@ + " button click\n"@;
            let text = text + "            }\n"@;
            text + "        });\n"@
        },
        _ => written + "    // TODO: Implement "@ + element_type_debug(element.element_type)
            + "\n"@,
    }
}

/// `written` and after it the source for those of `elements` that are on
/// the tab `tab_kind`, in their order.
pub open spec fn with_snapshot_elements(
    written: Seq<char>,
    elements: Seq<UiElementSnapshot>,
    tab_kind: TabKind,
) -> Seq<char>
    decreases elements.len(),
{
    if elements.len() == 0 {
        written
    } else if elements.last().tab.tab_kind == tab_kind {
        with_snapshot_element(
            with_snapshot_elements(written, elements.drop_last(), tab_kind),
            elements.last(),
        )
    } else {
        with_snapshot_elements(written, elements.drop_last(), tab_kind)
    }
}

/// The source of the panel function for the widgets of a snapshot that
/// are on the tab `tab_kind`.
pub open spec fn snapshot_panel_text(elements: Seq<UiElementSnapshot>, tab_kind: TabKind) -> Seq<char> {
    let text = "// Generated Panel Function\n"@;
    let text = text + "use egui;\n\n"@;
    let text = text + "pub fn show_generated_panel(ui: &mut egui::Ui, app: &mut App) {\n"@;
    let text = text + "    ui.heading(\"Generated Panel\");\n"@;
    let text = text + "    ui.separator();\n\n"@;
    let text = with_snapshot_elements(text, elements, tab_kind);
    text + "}\n"@
}

/// The source of a whole application round the panel function for the
/// widgets of a snapshot that are on the tab `tab_kind`.
pub open spec fn snapshot_app_text(elements: Seq<UiElementSnapshot>, tab_kind: TabKind) -> Seq<char> {
    let text = "// Generated by Mobius Designer\n"@;
    let text = text + "// Full Application Code\n\n"@;
    let text = text + "use eframe::egui;\n\n"@;
    let text = text + snapshot_panel_text(elements, tab_kind);
    let text = text + "\n\n"@;
    let text = text + "#[derive(Default)]\n"@;
    let text = text + "pub struct App {\n"@;
    let text = text + "    // Add your app state fields here\n"@;
    let text = text + "}\n\n"@;
    let text = text + "impl eframe::App for App {\n"@;
    let text = text + "    fn update(&mut self, ctx: &egui::Context, _frame: &mut eframe::Frame) {\n"@;
    let text = text + "        egui::CentralPanel::default().show(ctx, |ui| {\n"@;
    let text = text + "            show_generated_panel(ui, self);\n"@;
    let text = text + "        });\n"@;
    let text = text + "    }\n"@;
    let text = text + "}\n\n"@;
    let text = text + "fn main() -> Result<(), eframe::Error> {\n"@;
    let text = text + "    let options = eframe::NativeOptions::default();\n"@;
    let text = text + "    eframe::run_native(\n"@;
    let text = text + "        \"Generated App\",\n"@;
    let text = text + "        options,\n"@;
    let text = text + "        Box::new(|_cc| Ok(Box::new(App::default()))),\n"@;
    let text = text + "    )\n"@;
    let text = text + "}\n"@;
    text
}

/// The source that is generated from a snapshot in the given mode, for
/// the widgets on the tab `tab_kind`.
pub open spec fn generated_text(elements: Seq<UiElementSnapshot>, mode: CodeGenMode, tab_kind: TabKind) -> Seq<
    char,
> {
    match mode {
        CodeGenMode::FullApp => snapshot_app_text(elements, tab_kind),
        CodeGenMode::PanelFunction => snapshot_panel_text(elements, tab_kind),
    }
}

fn push_disabled_call(out: &mut String, enabled: bool)
    ensures
        final(out)@ == old(out)@ + disabled_call(enabled),
{
    if !enabled {
        out.append(".enabled(false)");
    }
    assert(out@ =~= old(out)@ + disabled_call(enabled));
}

/// Appends the `Debug` form of a widget kind.
fn push_element_type_debug(out: &mut String, element_type: &UiElementType)
    ensures
        final(out)@ == old(out)@ + element_type_debug(*element_type),
{
    let mut text = String::new();
    match element_type {
        UiElementType::Button { label, enabled, font_size } => {
            text.append("Button { label: ");
            text.append(debug_quote(label.as_str()).as_str());
            text.append(", enabled: ");
            push_bool(&mut text, *enabled);
            text.append(", font_size: ");
            push_fixed_decimal(&mut text, *font_size as i64);
            text.append(" }");
        },
        UiElementType::TextInput { label, value, enabled, font_size } => {
            text.append("TextInput { label: ");
            text.append(debug_quote(label.as_str()).as_str());
            text.append(", value: ");
            text.append(debug_quote(value.as_str()).as_str());
            text.append(", enabled: ");
            push_bool(&mut text, *enabled);
            text.append(", font_size: ");
            push_fixed_decimal(&mut text, *font_size as i64);
            text.append(" }");
        },
        UiElementType::Checkbox { label, checked, enabled, font_size } => {
            text.append("Checkbox { label: ");
            text.append(debug_quote(label.as_str()).as_str());
            text.append(", checked: ");
            push_bool(&mut text, *checked);
            text.append(", enabled: ");
            push_bool(&mut text, *enabled);
            text.append(", font_size: ");
            push_fixed_decimal(&mut text, *font_size as i64);
            text.append(" }");
        },
        UiElementType::RadioButton { label, selected, enabled, font_size, group_id } => {
            text.append("RadioButton { label: ");
            text.append(debug_quote(label.as_str()).as_str());
            text.append(", selected: ");
            push_bool(&mut text, *selected);
            text.append(", enabled: ");
            push_bool(&mut text, *enabled);
            text.append(", font_size: ");
            push_fixed_decimal(&mut text, *font_size as i64);
            text.append(", group_id: ");
            text.append(debug_quote(group_id.as_str()).as_str());
            text.append(" }");
        },
        UiElementType::GroupBox { label, enabled, font_size } => {
            text.append("GroupBox { label: ");
            text.append(debug_quote(label.as_str()).as_str());
            text.append(", enabled: ");
            push_bool(&mut text, *enabled);
            text.append(", font_size: ");
            push_fixed_decimal(&mut text, *font_size as i64);
            text.append(" }");
        },
    }
    assert(text@ =~= element_type_debug(*element_type));
    out.append(text.as_str());
}

/// Appends the source for one widget of a snapshot.
pub fn push_snapshot_element(code: &mut String, element: &UiElementSnapshot)
    ensures
        final(code)@ == with_snapshot_element(old(code)@, *element),
{
    match &element.element_type {
        UiElementType::Button { label, enabled, font_size } => {
            code.append("    egui::Area::new(egui::Id::new(\"btn_");
            let id_text = crate::text::decimal_string(element.entity_id.id);
            code.append(id_text.as_str());
            code.append("\"))\n");
            code.append("        .fixed_pos(egui::pos2(");
            let mut x_text = String::new();
            push_fixed_decimal(&mut x_text, element.position.x as i64);
            assert(x_text@ =~= fixed_decimal(element.position.x as int));
            code.append(x_text.as_str());
            code.append(", ");
            let mut y_text = String::new();
            push_fixed_decimal(&mut y_text, element.position.y as i64);
            assert(y_text@ =~= fixed_decimal(element.position.y as int));
            code.append(y_text.as_str());
            code.append("))\n");
            code.append("        .show(ui.ctx(), |ui| {\n");
            code.append("            if ui.add_sized(egui::vec2(");
            let mut w_text = String::new();
            push_fixed_decimal(&mut w_text, element.size.width as i64);
            assert(w_text@ =~= fixed_decimal(element.size.width as int));
            code.append(w_text.as_str());
            code.append(", ");
            let mut h_text = String::new();
            push_fixed_decimal(&mut h_text, element.size.height as i64);
            assert(h_text@ =~= fixed_decimal(element.size.height as int));
            code.append(h_text.as_str());
            code.append("), egui::Button::new(\"");
            code.append(label.as_str());
            code.append("\")");
            push_disabled_call(code, *enabled);
            code.append(").clicked() {\n");
            code.append("                // Handle ");
            code.append(label.as_str());
            code.append(" button click\n");
            code.append("            }\n");
            code.append("        });\n");
        },
        _ => {
            code.append("    // TODO: Implement ");
            push_element_type_debug(code, &element.element_type);
            code.append("\n");
        },
    }
}

/// Generates the panel function for the widgets of a snapshot that are on
/// the tab `tab_kind`, in entity order. Generation cannot fail.
pub fn generate_panel_from_snapshot(elements: &Vec<UiElementSnapshot>, tab_kind: TabKind) -> (result:
    Result<String, String>)
    ensures
        result is Ok,
        result->Ok_0@ == snapshot_panel_text(elements@, tab_kind),
{
    let mut code = String::from_str("// Generated Panel Function\n");
    code.append("use egui;\n\n");
    code.append("pub fn show_generated_panel(ui: &mut egui::Ui, app: &mut App) {\n");
    code.append("    ui.heading(\"Generated Panel\");\n");
    code.append("    ui.separator();\n\n");
    let ghost start = code@;
    let n = elements.len();
    let mut i: usize = 0;
    assert(elements@.take(0) =~= Seq::<UiElementSnapshot>::empty());
    while i < n
        invariant
            i <= n,
            n == elements@.len(),
            code@ == with_snapshot_elements(start, elements@.take(i as int), tab_kind),
        decreases n - i,
    {
        proof {
            assert(elements@.take(i + 1).drop_last() =~= elements@.take(i as int));
        }
        if elements[i].tab.tab_kind == tab_kind {
            push_snapshot_element(&mut code, &elements[i]);
        }
        i += 1;
    }
    assert(elements@.take(n as int) =~= elements@);
    code.append("}\n");
    Ok(code)
}

/// Generates a whole application round the panel function for the widgets
/// of a snapshot that are on the tab `tab_kind`. Generation cannot fail.
pub fn generate_full_app_from_snapshot(elements: &Vec<UiElementSnapshot>, tab_kind: TabKind) -> (result:
    Result<String, String>)
    ensures
        result is Ok,
        result->Ok_0@ == snapshot_app_text(elements@, tab_kind),
{
    let panel_code = match generate_panel_from_snapshot(elements, tab_kind) {
        Ok(panel_code) => panel_code,
        Err(message) => {
            return Err(message);
        },
    };
    let mut code = String::from_str("// Generated by Mobius Designer\n");
    code.append("// Full Application Code\n\n");
    code.append("use eframe::egui;\n\n");
    code.append(panel_code.as_str());
    code.append("\n\n");
    code.append("#[derive(Default)]\n");
    code.append("pub struct App {\n");
    code.append("    // Add your app state fields here\n");
    code.append("}\n\n");
    code.append("impl eframe::App for App {\n");
    code.append("    fn update(&mut self, ctx: &egui::Context, _frame: &mut eframe::Frame) {\n");
    code.append("        egui::CentralPanel::default().show(ctx, |ui| {\n");
    code.append("            show_generated_panel(ui, self);\n");
    code.append("        });\n");
    code.append("    }\n");
    code.append("}\n\n");
    code.append("fn main() -> Result<(), eframe::Error> {\n");
    code.append("    let options = eframe::NativeOptions::default();\n");
    code.append("    eframe::run_native(\n");
    code.append("        \"Generated App\",\n");
    code.append("        options,\n");
    code.append("        Box::new(|_cc| Ok(Box::new(App::default()))),\n");
    code.append("    )\n");
    code.append("}\n");
    Ok(code)
}

/// Generates source from a snapshot in the given mode, for the widgets on
/// the tab `tab_kind`. The text depends on the content of the snapshot, the
/// mode and the tab alone, and generation cannot fail.
pub fn generate_code_from_snapshot(snapshot: &WorldSnapshot, mode: &CodeGenMode, tab_kind: &TabKind) -> (result:
    Result<String, String>)
    ensures
        result is Ok,
        result->Ok_0@ == generated_text(snapshot.ui_elements@, *mode, *tab_kind),
{
    match mode {
        CodeGenMode::FullApp => generate_full_app_from_snapshot(&snapshot.ui_elements, *tab_kind),
        CodeGenMode::PanelFunction => generate_panel_from_snapshot(
            &snapshot.ui_elements,
            *tab_kind,
        ),
    }
}

/// Generating twice from snapshots with the same content gives the same
/// text, and snapshots with the same content carry the same hash.
pub proof fn lemma_generation_is_repeatable(
    first: WorldSnapshot,
    second: WorldSnapshot,
    mode: CodeGenMode,
    tab_kind: TabKind,
)
    requires
        first.wf(),
        second.wf(),
        first.ui_elements@ == second.ui_elements@,
        first.grid_settings == second.grid_settings,
    ensures
        first.hash == second.hash,
        generated_text(first.ui_elements@, mode, tab_kind) == generated_text(
            second.ui_elements@,
            mode,
            tab_kind,
        ),
{
}

} // verus!
