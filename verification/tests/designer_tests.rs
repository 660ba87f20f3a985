use mobius_designer::components::{
    TabKind, UiElementPosition, UiElementSize, UiElementTab, WidgetKind,
};
use mobius_designer::designer::{
    add_element_to_current_tab, add_sample_ui_elements, add_ui_button, add_ui_checkbox,
    add_ui_element_at_position_in_tab, add_ui_group_box, add_ui_radio_button, add_ui_text_input,
    count_elements_of_kind, create_designer_world, parse_element_kind, same_text, ElementKind,
};
use mobius_designer::dock::{add_preview_tab, create_default_dock_layout, shows_tab_of_kind};
use mobius_designer::grid::GridSettings;
use mobius_designer::logging::{add_designer_log, EventLoggerPanel, LogEntry, LogLevel};
use mobius_designer::panels::{
    DesignerControlsPanel, DesignerSettingsPanel, DistributionSettings, LengthUnit, Tool,
};
use mobius_designer::text::{decimal_string, push_signed_decimal, replace_char};
use mobius_designer::world::DesignerWorld;

fn newest_message(world: &DesignerWorld) -> String {
    world.panels().event_logger.as_ref().unwrap().entries[0].message.clone()
}

#[test]
fn a_designer_world_starts_with_its_panels() {
    let world = create_designer_world();
    assert_eq!(world.len(), 0);
    let panels = world.panels();
    assert_eq!(panels.grid_settings, Some(GridSettings::default()));
    assert_eq!(
        panels.distribution_settings,
        Some(DistributionSettings { vertical_spacing: 50, horizontal_spacing: 100 })
    );
    let area = panels.main_work_area.as_ref().unwrap();
    assert_eq!(area.content, "Welcome to Mobius Designer!");
    assert_eq!(area.background_color, [25, 25, 25, 255]);
    let settings = panels.settings_panel.as_ref().unwrap();
    assert_eq!(settings.units, LengthUnit::Metric);
    assert_eq!(settings.timezone, "UTC");
    assert_eq!(panels.controls_panel, Some(DesignerControlsPanel { selected_tool: Tool::Select }));
    let logger = panels.event_logger.as_ref().unwrap();
    assert_eq!(logger.max_entries, 1000);
    assert!(logger.auto_scroll);
    assert_eq!(logger.entries.len(), 1);
    assert_eq!(logger.entries[0].level, LogLevel::Info);
    assert_eq!(logger.entries[0].message, "Designer initialized");
}

#[test]
fn defaults_of_the_panels() {
    assert_eq!(LengthUnit::default(), LengthUnit::Metric);
    assert_eq!(Tool::default(), Tool::Select);
    assert_eq!(DesignerControlsPanel::default().selected_tool, Tool::Select);
    let settings = DesignerSettingsPanel::default();
    assert_eq!(settings.units, LengthUnit::Metric);
    assert_eq!(settings.timezone, "UTC");
    assert_eq!(
        DistributionSettings::default(),
        DistributionSettings { vertical_spacing: 0, horizontal_spacing: 0 }
    );
    assert_eq!(UiElementSize::default(), UiElementSize { width: 0, height: 0 });
}

#[test]
fn the_log_stamps_entries_with_the_time_of_day() {
    let mut world = create_designer_world();
    add_designer_log(&mut world, "hello");
    let logger = world.panels().event_logger.as_ref().unwrap();
    assert_eq!(logger.entries.len(), 2);
    assert_eq!(logger.entries[0].message, "hello");
    assert_eq!(logger.entries[0].level, LogLevel::Info);
    assert_eq!(logger.entries[1].message, "Designer initialized");
    let stamp = logger.entries[0].timestamp.as_bytes();
    assert_eq!(stamp.len(), 8);
    assert_eq!(stamp[2], b':');
    assert_eq!(stamp[5], b':');
    for i in [0, 1, 3, 4, 6, 7] {
        assert!(stamp[i].is_ascii_digit());
    }
}

#[test]
fn the_log_without_a_logger_changes_nothing() {
    let mut world = DesignerWorld::new();
    add_designer_log(&mut world, "hello");
    assert!(world.panels().event_logger.is_none());
}

#[test]
fn the_log_keeps_the_newest_entries() {
    let entry = |text: &str| LogEntry {
        timestamp: "00:00:00".to_string(),
        level: LogLevel::Warn,
        message: text.to_string(),
    };
    let mut logger = EventLoggerPanel { entries: Vec::new(), max_entries: 2, auto_scroll: false };
    logger.push_entry(entry("one"));
    logger.push_entry(entry("two"));
    logger.push_entry(entry("three"));
    let messages: Vec<&str> = logger.entries.iter().map(|e| e.message.as_str()).collect();
    assert_eq!(messages, vec!["three", "two"]);
    let mut none = EventLoggerPanel { entries: vec![entry("old")], max_entries: 0, auto_scroll: true };
    none.push_entry(entry("new"));
    assert!(none.entries.is_empty());
    assert_eq!(entry("x").clone(), entry("x"));
}

#[test]
fn widgets_are_added_with_their_initial_sizes() {
    let mut world = create_designer_world();
    let a = add_ui_button(&mut world, "Go".to_string(), 1, 2, TabKind::MainWork);
    let b = add_ui_text_input(&mut world, "Name".to_string(), 3, 4, TabKind::Controls);
    let c = add_ui_checkbox(&mut world, "On".to_string(), 5, 6, TabKind::MainWork);
    let d = add_ui_radio_button(&mut world, "A".to_string(), "g".to_string(), 7, 8, TabKind::MainWork);
    let e = add_ui_group_box(&mut world, "Box".to_string(), 9, 10, 11, 12, TabKind::Settings);
    let sizes: Vec<(i32, i32)> =
        world.elements().iter().map(|e| (e.size.width, e.size.height)).collect();
    assert_eq!(sizes, vec![(100, 30), (200, 50), (150, 25), (150, 25), (11, 12)]);
    assert_eq!(world.get(b).unwrap().tab, UiElementTab { tab_kind: TabKind::Controls, position: 0 });
    assert_eq!(world.get(e).unwrap().position, UiElementPosition { x: 9, y: 10 });
    for id in [a, b, c, d, e] {
        let element = world.get(id).unwrap();
        assert!(!element.selected.selected);
        assert!(element.container.parent_group.is_none());
        assert!(element.widget.enabled());
    }
    match &world.get(d).unwrap().widget {
        WidgetKind::RadioButton(r) => {
            assert_eq!(r.label, "A");
            assert_eq!(r.group_id, "g");
            assert!(!r.selected);
            assert_eq!(r.font_size, 14);
        }
        _ => panic!("not a radio button"),
    }
    match &world.get(b).unwrap().widget {
        WidgetKind::TextInput(t) => {
            assert_eq!(t.label, "Name");
            assert_eq!(t.value, "");
        }
        _ => panic!("not a text input"),
    }
}

#[test]
fn widgets_placed_by_hand_are_numbered_by_kind() {
    let mut world = create_designer_world();
    let a = add_ui_element_at_position_in_tab(&mut world, "button", 10, 20, TabKind::MainWork).unwrap();
    assert_eq!(newest_message(&world), "Added Button 1 at (10, 20)");
    let b = add_ui_element_at_position_in_tab(&mut world, "text_input", -5, 0, TabKind::MainWork).unwrap();
    assert_eq!(newest_message(&world), "Added Text Input 1 at (-5, 0)");
    let c = add_ui_element_at_position_in_tab(&mut world, "button", 0, 0, TabKind::Controls).unwrap();
    assert_eq!(newest_message(&world), "Added Button 2 at (0, 0)");
    let d = add_ui_element_at_position_in_tab(&mut world, "radio_button", 1, 1, TabKind::MainWork).unwrap();
    let e = add_ui_element_at_position_in_tab(&mut world, "group_box", 2, 2, TabKind::MainWork).unwrap();
    let f = add_ui_element_at_position_in_tab(&mut world, "checkbox", 3, 3, TabKind::MainWork).unwrap();
    assert_eq!(newest_message(&world), "Added Checkbox 1 at (3, 3)");
    assert!(add_ui_element_at_position_in_tab(&mut world, "slider", 0, 0, TabKind::MainWork).is_none());
    assert!(add_ui_element_at_position_in_tab(&mut world, "Button", 0, 0, TabKind::MainWork).is_none());
    assert_eq!(world.len(), 6);
    let label = |id| match &world.get(id).unwrap().widget {
        WidgetKind::Button(w) => w.label.clone(),
        WidgetKind::TextInput(w) => w.label.clone(),
        WidgetKind::Checkbox(w) => w.label.clone(),
        WidgetKind::RadioButton(w) => w.label.clone(),
        WidgetKind::GroupBox(w) => w.label.clone(),
    };
    assert_eq!(label(a), "Button 1");
    assert_eq!(label(b), "Input 1");
    assert_eq!(label(c), "Button 2");
    assert_eq!(label(d), "Radio 1");
    assert_eq!(label(e), "Group 1");
    assert_eq!(label(f), "Checkbox 1");
    assert_eq!(world.get(a).unwrap().size, UiElementSize { width: 0, height: 0 });
    assert_eq!(world.get(b).unwrap().size, UiElementSize { width: 200, height: 30 });
    assert_eq!(world.get(e).unwrap().size, UiElementSize { width: 200, height: 150 });
    assert_eq!(world.get(c).unwrap().tab.tab_kind, TabKind::Controls);
    match &world.get(d).unwrap().widget {
        WidgetKind::RadioButton(r) => assert_eq!(r.group_id, "default_group"),
        _ => panic!("not a radio button"),
    }
    assert_eq!(count_elements_of_kind(&world, ElementKind::Button), 2);
    assert_eq!(count_elements_of_kind(&world, ElementKind::GroupBox), 1);
}

#[test]
fn widgets_added_from_the_menu_fill_their_slots() {
    let mut world = create_designer_world();
    let mut at = Vec::new();
    for _ in 0..7 {
        let id = add_element_to_current_tab(&mut world, ElementKind::Button, TabKind::MainWork);
        let p = world.get(id).unwrap().position;
        at.push((p.x, p.y));
    }
    assert_eq!(
        at,
        vec![(20, 50), (140, 50), (260, 50), (380, 50), (500, 50), (20, 100), (140, 100)]
    );
    assert_eq!(newest_message(&world), "Added Button 7 to tab");
    let t = add_element_to_current_tab(&mut world, ElementKind::TextInput, TabKind::Controls);
    assert_eq!(world.get(t).unwrap().position, UiElementPosition { x: 20, y: 150 });
    assert_eq!(world.get(t).unwrap().tab.tab_kind, TabKind::Controls);
    assert_eq!(newest_message(&world), "Added Text Input 1 to tab");
    let g = add_element_to_current_tab(&mut world, ElementKind::GroupBox, TabKind::MainWork);
    assert_eq!(world.get(g).unwrap().position, UiElementPosition { x: 50, y: 450 });
    assert_eq!(newest_message(&world), "Added Group Box 1 to tab");
    let c = add_element_to_current_tab(&mut world, ElementKind::Checkbox, TabKind::MainWork);
    assert_eq!(world.get(c).unwrap().position, UiElementPosition { x: 20, y: 250 });
    let r = add_element_to_current_tab(&mut world, ElementKind::RadioButton, TabKind::MainWork);
    assert_eq!(world.get(r).unwrap().position, UiElementPosition { x: 20, y: 350 });
    assert_eq!(newest_message(&world), "Added Radio Button 1 to tab");
}

#[test]
fn widgets_added_from_the_menu_snap_where_snapping_is_on() {
    let mut world = create_designer_world();
    world.panels_mut().grid_settings =
        Some(GridSettings { snap_enabled: true, spacing_pixels: 40, ..GridSettings::default() });
    let a = add_element_to_current_tab(&mut world, ElementKind::Button, TabKind::MainWork);
    assert_eq!(world.get(a).unwrap().position, UiElementPosition { x: 40, y: 40 });
    let b = add_element_to_current_tab(&mut world, ElementKind::Button, TabKind::MainWork);
    assert_eq!(world.get(b).unwrap().position, UiElementPosition { x: 160, y: 40 });
    world.panels_mut().grid_settings = None;
    let c = add_element_to_current_tab(&mut world, ElementKind::Button, TabKind::MainWork);
    assert_eq!(world.get(c).unwrap().position, UiElementPosition { x: 260, y: 50 });
}

#[test]
fn the_sample_widgets() {
    let mut world = create_designer_world();
    add_sample_ui_elements(&mut world);
    assert_eq!(world.len(), 6);
    let at: Vec<(i32, i32)> =
        world.elements().iter().map(|e| (e.position.x, e.position.y)).collect();
    assert_eq!(at, vec![(50, 50), (50, 100), (50, 170), (50, 220), (50, 250), (300, 50)]);
    assert_eq!(world.elements()[5].size, UiElementSize { width: 200, height: 150 });
}

#[test]
fn kinds_are_read_from_their_names() {
    assert_eq!(parse_element_kind("button"), Some(ElementKind::Button));
    assert_eq!(parse_element_kind("text_input"), Some(ElementKind::TextInput));
    assert_eq!(parse_element_kind("checkbox"), Some(ElementKind::Checkbox));
    assert_eq!(parse_element_kind("radio_button"), Some(ElementKind::RadioButton));
    assert_eq!(parse_element_kind("group_box"), Some(ElementKind::GroupBox));
    assert_eq!(parse_element_kind(""), None);
    assert_eq!(parse_element_kind("button "), None);
    assert!(same_text("a", "a"));
    assert!(!same_text("a", "b"));
}

#[test]
fn numbers_and_texts() {
    assert_eq!(decimal_string(0), "0");
    assert_eq!(decimal_string(7), "7");
    assert_eq!(decimal_string(10), "10");
    assert_eq!(decimal_string(1234567890), "1234567890");
    assert_eq!(decimal_string(u64::MAX), "18446744073709551615");
    let mut out = String::from("x=");
    push_signed_decimal(&mut out, -42);
    push_signed_decimal(&mut out, 0);
    push_signed_decimal(&mut out, i64::MIN);
    assert_eq!(out, "x=-420-9223372036854775808");
    assert_eq!(replace_char("a b  c", ' ', "_"), "a_b__c");
    assert_eq!(replace_char("why? ok?", '?', ""), "why ok");
    assert_eq!(replace_char("", 'x', "y"), "");
    assert_eq!(replace_char("héllo wörld", 'ö', "oe"), "héllo woerld");
}

#[test]
fn the_default_dock_layout() {
    let tabs = create_default_dock_layout();
    let shown: Vec<(&str, TabKind, usize)> =
        tabs.iter().map(|t| (t.name.as_str(), t.kind, t.id)).collect();
    assert_eq!(
        shown,
        vec![
            ("Main Work", TabKind::MainWork, 0),
            ("Inspector", TabKind::Inspector, 1),
            ("Controls", TabKind::Controls, 2),
            ("Settings", TabKind::Settings, 3),
            ("Event Logger", TabKind::EventLogger, 4),
            ("Preview", TabKind::Preview, 5),
        ]
    );
    let mut tabs = tabs;
    assert!(!add_preview_tab(&mut tabs));
    assert_eq!(tabs.len(), 6);
    tabs.pop();
    assert!(!shows_tab_of_kind(&tabs, TabKind::Preview));
    assert!(add_preview_tab(&mut tabs));
    assert_eq!(tabs.len(), 6);
    assert_eq!(tabs[5].name, "Preview");
    assert_eq!(tabs[5].clone(), tabs[5]);
}
