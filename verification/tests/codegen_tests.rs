use mobius_designer::codegen::{field_name_from, flag_field_name_from, reading_order_of, CodeGenerator};
use mobius_designer::components::{
    TabKind, UiButton, UiCheckbox, UiElementSize, UiGroupBox, UiRadioButton, UiTextInput,
    WidgetKind,
};
use mobius_designer::designer::{
    add_ui_button, add_ui_checkbox, add_ui_group_box, add_ui_radio_button, add_ui_text_input,
    create_designer_world,
};
use mobius_designer::events::{
    codegen_response, plan_codegen, CodeGenAction, CodeGenEvent, CodeGenResponse, CodeGenState,
};
use mobius_designer::grid::GridSettings;
use mobius_designer::snapshot::{
    generate_code_from_snapshot, generate_full_app_from_snapshot, generate_panel_from_snapshot,
    hash_content, CodeGenMode, UiElementType, WorldSnapshot,
};

#[test]
fn the_panel_function_places_a_button() {
    let mut world = create_designer_world();
    add_ui_button(&mut world, "Go".to_string(), 50, 100, TabKind::MainWork);
    let code = CodeGenerator::generate_panel_function(&world, "Generated");
    let expected = "use egui;\n\
\n\
pub fn show_generated_panel(ui: &mut egui::Ui, app: &mut App) {\n\
\x20   ui.heading(\"Generated\");\n\
\x20   ui.separator();\n\
\x20   \n\
\x20   // Elements positioned exactly as in the designer\n\
\x20   egui::Area::new(egui::Id::new(\"element_0\"))\n\
\x20       .fixed_pos(egui::pos2(50.0, 100.0))\n\
\x20       .show(ui.ctx(), |ui| {\n\
\x20           if ui.add_sized(\n\
\x20               egui::vec2(100.0, 30.0),\n\
\x20               egui::Button::new(\"Go\")\n\
\x20           ).clicked() {\n\
\x20               // TODO: Handle Go button click\n\
\x20           }\n\
\x20       });\n\
\x20   \n\
}\n";
    assert_eq!(code, expected);
}

#[test]
fn the_panel_function_is_named_after_the_panel() {
    let world = create_designer_world();
    let code = CodeGenerator::generate_panel_function(&world, "My Main PANEL");
    assert!(code.contains("pub fn show_my_main_panel_panel(ui: &mut egui::Ui, app: &mut App) {\n"));
    assert!(code.contains("    ui.heading(\"My Main PANEL\");\n"));
    let named = CodeGenerator::generate_panel_function_named(&world, "Title", "other");
    assert!(named.contains("pub fn show_other_panel("));
    assert!(named.contains("ui.heading(\"Title\");"));
}

#[test]
fn the_panel_function_reads_from_the_top_left() {
    let mut world = create_designer_world();
    add_ui_button(&mut world, "low".to_string(), 0, 200, TabKind::MainWork);
    add_ui_button(&mut world, "right".to_string(), 300, 10, TabKind::MainWork);
    add_ui_button(&mut world, "elsewhere".to_string(), 0, 0, TabKind::Controls);
    add_ui_button(&mut world, "left".to_string(), 5, 10, TabKind::MainWork);
    add_ui_button(&mut world, "twin".to_string(), 5, 10, TabKind::MainWork);
    assert_eq!(reading_order_of(&world, TabKind::MainWork), vec![3, 4, 1, 0]);
    assert_eq!(reading_order_of(&world, TabKind::Controls), vec![2]);
    assert!(reading_order_of(&world, TabKind::Preview).is_empty());
    let code = CodeGenerator::generate_panel_function(&world, "P");
    let at = |label: &str| code.find(&format!("egui::Button::new(\"{}\")", label));
    assert!(at("left").unwrap() < at("twin").unwrap());
    assert!(at("twin").unwrap() < at("right").unwrap());
    assert!(at("right").unwrap() < at("low").unwrap());
    assert!(at("elsewhere").is_none());
}

#[test]
fn the_source_for_each_kind_of_widget() {
    let size = UiElementSize { width: 200, height: 50 };
    let mut gen = CodeGenerator::new();
    gen.indent_level = 1;
    gen.generate_text_input_code(
        &UiTextInput { label: "First Name".to_string(), value: String::new(), enabled: false, font_size: 14 },
        &size,
        "horizontal",
    );
    assert_eq!(
        gen.code,
        "    ui.horizontal(|ui| {\n        ui.label(\"First Name\");\n        ui.add_sized(\n            egui::vec2(200.0, 50.0),\n            egui::TextEdit::singleline(&mut app.first_name).enabled(false)\n        );\n    });\n"
    );
    let mut gen = CodeGenerator::new();
    gen.generate_checkbox_code(&UiCheckbox {
        label: "Really Sure?".to_string(),
        checked: false,
        enabled: true,
        font_size: 14,
    });
    assert_eq!(gen.code, "ui.checkbox(&mut app.really_sure, \"Really Sure?\");\n");
    let mut gen = CodeGenerator::new();
    gen.generate_radio_button_code(&UiRadioButton {
        label: "A".to_string(),
        selected: true,
        enabled: false,
        font_size: 14,
        group_id: "grp".to_string(),
    });
    assert_eq!(
        gen.code,
        "ui.radio_value(&mut app.grp_selection, \"A\", \"A\").enabled(false);\n"
    );
    let mut gen = CodeGenerator::new();
    gen.generate_group_box_code(
        &UiGroupBox { label: "Box".to_string(), enabled: true, font_size: 14, contained_widgets: Vec::new() },
        &UiElementSize { width: -3, height: 0 },
    );
    assert_eq!(
        gen.code,
        "ui.group(|ui| {\n    ui.set_min_size(egui::vec2(-3.0, 0.0));\n    ui.label(\"Box\");\n    ui.separator();\n    // TODO: Add group box contents\n});\n"
    );
    let mut gen = CodeGenerator::new();
    gen.generate_button_code(
        &UiButton { label: "B".to_string(), clicked: true, enabled: false, click_time: None, font_size: 14 },
        &size,
    );
    assert!(gen.code.contains("    egui::Button::new(\"B\").enabled(false)\n"));
    assert_eq!(gen.indent_level, 0);
    let mut gen = CodeGenerator::new();
    gen.writeln("a");
    gen.write_raw("b");
    gen.indent_level = 2;
    gen.writeln("c");
    assert_eq!(gen.code, "a\nb        c\n");
}

#[test]
fn widgets_in_the_flow_of_a_panel() {
    let mut world = create_designer_world();
    let t = add_ui_text_input(&mut world, "Name".to_string(), 0, 0, TabKind::MainWork);
    let mut flow = CodeGenerator::new();
    flow.generate_element_code(world.get(t).unwrap());
    assert!(flow.code.starts_with("ui.horizontal(|ui| {\n"));
    let mut placed = CodeGenerator::new();
    placed.generate_positioned_element_code(world.get(t).unwrap());
    assert!(placed.code.starts_with("egui::Area::new(egui::Id::new(\"element_0\"))\n"));
    assert!(placed.code.contains("        ui.vertical(|ui| {\n"));
    assert!(placed.code.ends_with("    });\n"));
}

#[test]
fn field_names() {
    assert_eq!(field_name_from("first name"), "first_name");
    assert_eq!(flag_field_name_from("are you sure?"), "are_you_sure");
    assert_eq!(flag_field_name_from("?? ?"), "_");
}

#[test]
fn the_full_application_has_a_field_for_each_input() {
    let mut world = create_designer_world();
    add_ui_text_input(&mut world, "User Name".to_string(), 0, 0, TabKind::MainWork);
    add_ui_checkbox(&mut world, "Remember Me?".to_string(), 0, 40, TabKind::MainWork);
    add_ui_radio_button(&mut world, "A".to_string(), "size".to_string(), 0, 80, TabKind::MainWork);
    add_ui_radio_button(&mut world, "B".to_string(), "size".to_string(), 0, 120, TabKind::MainWork);
    add_ui_text_input(&mut world, "user name".to_string(), 0, 160, TabKind::MainWork);
    add_ui_text_input(&mut world, "Hidden".to_string(), 0, 0, TabKind::Settings);
    add_ui_button(&mut world, "Go".to_string(), 0, 200, TabKind::MainWork);
    let mut gen = CodeGenerator::new();
    gen.indent_level = 1;
    gen.generate_app_fields(&world);
    assert_eq!(
        gen.code,
        "    user_name: String,\n    remember_me: bool,\n    size_selection: String,\n"
    );
    let code = CodeGenerator::generate_full_app_code(&world);
    assert!(code.starts_with(
        "// Generated by Mobius Designer\n// This code provides a starting point for your egui application\n\nuse eframe::egui;\n\n#[derive(Default)]\npub struct App {\n    user_name: String,\n    remember_me: bool,\n    size_selection: String,\n}\n\nimpl App {\n    pub fn new(_cc: &eframe::CreationContext<'_>) -> Self {\n        Default::default()\n    }\n}\n"
    ));
    assert!(code.contains("                    if ui.button(\"Open\").clicked() {\n                        // TODO: Implement open file\n                    }\n"));
    assert!(code.contains("            show_main_panel(ui, self);\n        });\n    }\n}\n\nuse egui;\n\npub fn show_main_panel(ui: &mut egui::Ui, app: &mut App) {\n    ui.heading(\"Main\");\n"));
    assert!(code.ends_with(
        "}\n\nfn main() -> Result<(), eframe::Error> {\n    let options = eframe::NativeOptions {\n        viewport: egui::ViewportBuilder::default().with_inner_size([800.0, 600.0]),\n        ..Default::default()\n    };\n    \n    eframe::run_native(\n        \"My egui App\",\n        options,\n        Box::new(|cc| Box::new(App::new(cc))),\n    )\n}\n"
    ));
    assert_eq!(code, CodeGenerator::generate_full_app_code(&world));
}

#[test]
fn a_snapshot_copies_the_widgets_in_entity_order() {
    let mut world = create_designer_world();
    let a = add_ui_button(&mut world, "Go".to_string(), 50, 100, TabKind::MainWork);
    let b = add_ui_radio_button(&mut world, "A".to_string(), "g".to_string(), 1, 2, TabKind::Controls);
    add_ui_group_box(&mut world, "Box".to_string(), 3, 4, 5, 6, TabKind::MainWork);
    let snapshot = WorldSnapshot::from_world(&world);
    assert_eq!(snapshot.ui_elements.len(), 3);
    assert_eq!(snapshot.ui_elements[0].entity_id, a);
    assert_eq!(snapshot.ui_elements[0].position, world.get(a).unwrap().position);
    assert_eq!(snapshot.ui_elements[0].size, UiElementSize { width: 100, height: 30 });
    assert_eq!(
        snapshot.ui_elements[0].element_type,
        UiElementType::Button { label: "Go".to_string(), enabled: true, font_size: 14 }
    );
    assert_eq!(snapshot.ui_elements[1].entity_id, b);
    assert_eq!(snapshot.ui_elements[1].tab.tab_kind, TabKind::Controls);
    assert_eq!(
        snapshot.ui_elements[1].element_type,
        UiElementType::RadioButton {
            label: "A".to_string(),
            selected: false,
            enabled: true,
            font_size: 14,
            group_id: "g".to_string()
        }
    );
    assert_eq!(snapshot.grid_settings, GridSettings::default());
    assert_eq!(snapshot.hash, hash_content(&snapshot.ui_elements, &snapshot.grid_settings));
    let copy = snapshot.clone();
    assert_eq!(copy, snapshot);
    world.clear_all();
    let empty = WorldSnapshot::from_world(&world);
    assert!(empty.ui_elements.is_empty());
    assert_eq!(empty.grid_settings, GridSettings::default());
    assert_eq!(empty.hash, hash_content(&Vec::new(), &GridSettings::default()));
}

#[test]
fn the_hash_follows_the_content() {
    let mut world = create_designer_world();
    let a = add_ui_button(&mut world, "Go".to_string(), 50, 100, TabKind::MainWork);
    let first = WorldSnapshot::from_world(&world);
    let second = WorldSnapshot::from_world(&world);
    assert_eq!(first.hash, second.hash);
    world.get_position_mut(a).unwrap().x = 51;
    let moved = WorldSnapshot::from_world(&world);
    assert_ne!(first.hash, moved.hash);
    world.get_position_mut(a).unwrap().x = 50;
    let back = WorldSnapshot::from_world(&world);
    assert_eq!(first.hash, back.hash);
    if let WidgetKind::Button(button) = world.get_widget_mut(a).unwrap() {
        button.label = "Gp".to_string();
    }
    assert_ne!(first.hash, WorldSnapshot::from_world(&world).hash);
    world.panels_mut().grid_settings =
        Some(GridSettings { show_grid: true, ..GridSettings::default() });
    let shown = WorldSnapshot::from_world(&world);
    assert!(shown.grid_settings.show_grid);
    world.panels_mut().grid_settings = None;
    assert_ne!(shown.hash, WorldSnapshot::from_world(&world).hash);
}

#[test]
fn the_hash_of_an_empty_snapshot() {
    let grid = GridSettings::default();
    let mut h: u64 = 0xcbf2_9ce4_8422_2325;
    for v in [0u64, 0, 0x8000_0000 + 20, 0x8000_0000 + 2, 0, 0] {
        h = (h ^ v).wrapping_mul(0x0000_0100_0000_01b3);
    }
    assert_eq!(hash_content(&Vec::new(), &grid), h);
}

#[test]
fn the_panel_from_a_snapshot() {
    let mut world = create_designer_world();
    add_ui_button(&mut world, "Go".to_string(), 50, 100, TabKind::MainWork);
    add_ui_text_input(&mut world, "Na\"me".to_string(), 0, 0, TabKind::MainWork);
    add_ui_button(&mut world, "Other".to_string(), 0, 0, TabKind::Controls);
    let button = add_ui_button(&mut world, "Off".to_string(), -1, -2, TabKind::MainWork);
    if let WidgetKind::Button(b) = world.get_widget_mut(button).unwrap() {
        b.enabled = false;
    }
    let snapshot = WorldSnapshot::from_world(&world);
    let code = generate_panel_from_snapshot(&snapshot.ui_elements, TabKind::MainWork).unwrap();
    let expected = "// Generated Panel Function\n\
use egui;\n\
\n\
pub fn show_generated_panel(ui: &mut egui::Ui, app: &mut App) {\n\
\x20   ui.heading(\"Generated Panel\");\n\
\x20   ui.separator();\n\
\n\
\x20   egui::Area::new(egui::Id::new(\"btn_0\"))\n\
\x20       .fixed_pos(egui::pos2(50.0, 100.0))\n\
\x20       .show(ui.ctx(), |ui| {\n\
\x20           if ui.add_sized(egui::vec2(100.0, 30.0), egui::Button::new(\"Go\")).clicked() {\n\
\x20               // Handle Go button click\n\
\x20           }\n\
\x20       });\n\
\x20   // TODO: Implement TextInput { label: \"Na\\\"me\", value: \"\", enabled: true, font_size: 14.0 }\n\
\x20   egui::Area::new(egui::Id::new(\"btn_3\"))\n\
\x20       .fixed_pos(egui::pos2(-1.0, -2.0))\n\
\x20       .show(ui.ctx(), |ui| {\n\
\x20           if ui.add_sized(egui::vec2(100.0, 30.0), egui::Button::new(\"Off\").enabled(false)).clicked() {\n\
\x20               // Handle Off button click\n\
\x20           }\n\
\x20       });\n\
}\n";
    assert_eq!(code, expected);
    let other = generate_panel_from_snapshot(&snapshot.ui_elements, TabKind::Controls).unwrap();
    assert!(other.contains("btn_2"));
    assert!(!other.contains("btn_0"));
}

#[test]
fn placeholders_for_the_other_kinds() {
    let mut world = create_designer_world();
    add_ui_checkbox(&mut world, "C".to_string(), 0, 0, TabKind::MainWork);
    add_ui_radio_button(&mut world, "R".to_string(), "g\\1".to_string(), 0, 0, TabKind::MainWork);
    add_ui_group_box(&mut world, "G\n".to_string(), 0, 0, 1, 1, TabKind::MainWork);
    let snapshot = WorldSnapshot::from_world(&world);
    let code = generate_panel_from_snapshot(&snapshot.ui_elements, TabKind::MainWork).unwrap();
    assert!(code.contains(
        "    // TODO: Implement Checkbox { label: \"C\", checked: false, enabled: true, font_size: 14.0 }\n"
    ));
    assert!(code.contains(
        "    // TODO: Implement RadioButton { label: \"R\", selected: false, enabled: true, font_size: 14.0, group_id: \"g\\\\1\" }\n"
    ));
    assert!(code.contains(
        "    // TODO: Implement GroupBox { label: \"G\\n\", enabled: true, font_size: 14.0 }\n"
    ));
}

#[test]
fn the_full_application_from_a_snapshot() {
    let mut world = create_designer_world();
    add_ui_button(&mut world, "Go".to_string(), 50, 100, TabKind::MainWork);
    let snapshot = WorldSnapshot::from_world(&world);
    let panel = generate_panel_from_snapshot(&snapshot.ui_elements, TabKind::MainWork).unwrap();
    let app = generate_full_app_from_snapshot(&snapshot.ui_elements, TabKind::MainWork).unwrap();
    let expected = format!(
        "// Generated by Mobius Designer\n// Full Application Code\n\nuse eframe::egui;\n\n{}\n\n#[derive(Default)]\npub struct App {{\n    // Add your app state fields here\n}}\n\nimpl eframe::App for App {{\n    fn update(&mut self, ctx: &egui::Context, _frame: &mut eframe::Frame) {{\n        egui::CentralPanel::default().show(ctx, |ui| {{\n            show_generated_panel(ui, self);\n        }});\n    }}\n}}\n\nfn main() -> Result<(), eframe::Error> {{\n    let options = eframe::NativeOptions::default();\n    eframe::run_native(\n        \"Generated App\",\n        options,\n        Box::new(|_cc| Ok(Box::new(App::default()))),\n    )\n}}\n",
        panel
    );
    assert_eq!(app, expected);
    assert_eq!(
        generate_code_from_snapshot(&snapshot, &CodeGenMode::FullApp, &TabKind::MainWork),
        Ok(app)
    );
    assert_eq!(
        generate_code_from_snapshot(&snapshot, &CodeGenMode::PanelFunction, &TabKind::MainWork),
        Ok(panel)
    );
}

#[test]
fn generating_twice_gives_the_same_text() {
    let mut world = create_designer_world();
    add_ui_button(&mut world, "Go".to_string(), 50, 100, TabKind::MainWork);
    add_ui_checkbox(&mut world, "C".to_string(), 0, 0, TabKind::MainWork);
    let first = WorldSnapshot::from_world(&world);
    let second = WorldSnapshot::from_world(&world);
    assert_eq!(first.hash, second.hash);
    for mode in [CodeGenMode::PanelFunction, CodeGenMode::FullApp] {
        let a = generate_code_from_snapshot(&first, &mode, &TabKind::MainWork).unwrap();
        let b = generate_code_from_snapshot(&first, &mode, &TabKind::MainWork).unwrap();
        let c = generate_code_from_snapshot(&second, &mode, &TabKind::MainWork).unwrap();
        assert_eq!(a.as_bytes(), b.as_bytes());
        assert_eq!(a.as_bytes(), c.as_bytes());
    }
}

#[test]
fn the_state_of_code_generation() {
    let mut state = CodeGenState::new();
    assert!(!state.is_generating());
    assert!(state.needs_update);
    assert_eq!(state.get_last_generation_time(), None);
    assert_eq!(state.last_generation_time_ms(), 0);
    assert_eq!(state.get_generated_code(TabKind::MainWork, CodeGenMode::FullApp), None);
    let event = state.request_code_generation(TabKind::MainWork, CodeGenMode::PanelFunction);
    assert_eq!(
        event,
        CodeGenEvent::RegenerateCode { tab_kind: TabKind::MainWork, mode: CodeGenMode::PanelFunction }
    );
    assert!(state.is_generating());
    state.handle_response(CodeGenResponse::CacheCleared);
    assert!(state.is_generating());
    state.handle_response(CodeGenResponse::CodeReady {
        tab_kind: TabKind::MainWork,
        mode: CodeGenMode::PanelFunction,
        code: "panel".to_string(),
        generation_time_ms: 12,
    });
    assert!(!state.is_generating());
    assert_eq!(state.get_code(&CodeGenMode::PanelFunction), "panel");
    assert_eq!(state.get_code(&CodeGenMode::FullApp), "");
    assert_eq!(state.get_last_generation_time(), Some(12));
    assert_eq!(
        state.get_generated_code(TabKind::Preview, CodeGenMode::PanelFunction),
        Some("panel".to_string())
    );
    state.request_code_generation(TabKind::MainWork, CodeGenMode::FullApp);
    state.handle_response(CodeGenResponse::Error { message: "no".to_string() });
    assert!(!state.is_generating());
    assert_eq!(state.get_code(&CodeGenMode::FullApp), "");
    state.request_code_generation(TabKind::MainWork, CodeGenMode::FullApp);
    state.request_failed();
    assert!(!state.is_generating());
    state.handle_response(CodeGenResponse::CodeReady {
        tab_kind: TabKind::MainWork,
        mode: CodeGenMode::FullApp,
        code: "app".to_string(),
        generation_time_ms: 0,
    });
    assert_eq!(state.get_code(&CodeGenMode::FullApp), "app");
    assert_eq!(state.get_code(&CodeGenMode::PanelFunction), "panel");
    assert_eq!(state.get_last_generation_time(), None);
}

#[test]
fn what_the_worker_does_with_an_event() {
    let regenerate =
        CodeGenEvent::RegenerateCode { tab_kind: TabKind::Controls, mode: CodeGenMode::FullApp };
    assert_eq!(
        plan_codegen(&regenerate, true),
        CodeGenAction::Generate { tab_kind: TabKind::Controls, mode: CodeGenMode::FullApp }
    );
    assert_eq!(
        plan_codegen(&regenerate, false),
        CodeGenAction::Respond(CodeGenResponse::Error {
            message: "No world snapshot available for code generation".to_string()
        })
    );
    assert_eq!(
        plan_codegen(&CodeGenEvent::ClearCache, false),
        CodeGenAction::Respond(CodeGenResponse::CacheCleared)
    );
    assert_eq!(plan_codegen(&CodeGenEvent::Shutdown, true), CodeGenAction::Stop);
    assert_eq!(
        codegen_response(TabKind::MainWork, CodeGenMode::FullApp, Ok("x".to_string()), 5),
        CodeGenResponse::CodeReady {
            tab_kind: TabKind::MainWork,
            mode: CodeGenMode::FullApp,
            code: "x".to_string(),
            generation_time_ms: 5
        }
    );
    assert_eq!(
        codegen_response(TabKind::MainWork, CodeGenMode::FullApp, Err("bad".to_string()), 5),
        CodeGenResponse::Error { message: "Code generation failed: bad".to_string() }
    );
}
