use mobius_designer::cli::{
    cargo_toml_for, generate_mobius_project, main_rs_for, parse_command, parse_new_command,
    parse_option, CliCommand, CliError, CliOption, NewProjectArgs,
};
use mobius_designer::logging::LogLevel;
use mobius_designer::templates::{
    MainAreaType, MobiusTemplate, MobiusTemplateRegistry, TabType,
};

fn args(list: &[&str]) -> Vec<String> {
    list.iter().map(|s| s.to_string()).collect()
}

#[test]
fn test_template_registry() {
    let registry = MobiusTemplateRegistry::default();
    assert!(registry.contains_key("gerber_viewer"));
    assert!(registry.contains_key("text_editor"));
}

#[test]
fn the_registry_finds_templates_by_name() {
    let registry = MobiusTemplateRegistry::default();
    assert_eq!(registry.get_templates().len(), 2);
    assert!(!registry.contains_key("Gerber_Viewer"));
    assert!(!registry.contains_key(""));
    assert!(registry.get("missing").is_none());
    let gerber = registry.get("gerber_viewer").unwrap();
    assert_eq!(gerber.description, "PCB Gerber file viewer");
    assert_eq!(gerber.main_area_type, MainAreaType::GerberViewer);
    let editor = registry.get("text_editor").unwrap();
    assert_eq!(editor.description, "Code/text editor");
    assert_eq!(editor.main_area_type, MainAreaType::TextEditor);
    assert_eq!(*editor, MobiusTemplate::text_editor());
    assert_eq!(gerber.clone(), MobiusTemplate::gerber_viewer());
    assert_eq!(TabType::default(), TabType::MainWork);
}

#[test]
fn the_first_template_of_a_name_is_found() {
    let mut registry = MobiusTemplateRegistry::default();
    registry.templates.push(MobiusTemplate {
        name: "text_editor".to_string(),
        description: "second".to_string(),
        main_area_type: MainAreaType::Generic,
    });
    assert_eq!(registry.get("text_editor").unwrap().description, "Code/text editor");
}

#[test]
fn an_application_starts_with_its_panels() {
    let mut registry = MobiusTemplateRegistry::default();
    registry.templates.push(MobiusTemplate {
        name: "plain".to_string(),
        description: "nothing special".to_string(),
        main_area_type: MainAreaType::Generic,
    });
    assert!(registry.spawn_from_template("unknown").is_none());
    let instance = registry.spawn_from_template("gerber_viewer").unwrap();
    assert_eq!(instance.app.app_name, "gerber_viewer");
    assert_eq!(instance.app.template_name, "gerber_viewer");
    assert_eq!(instance.app.active_tab, TabType::MainWork);
    assert_eq!(instance.main_work_area.content, "Gerber Viewer - Drop .gbr files here");
    assert_eq!(instance.main_work_area.background_color, [25, 25, 25, 255]);
    assert!(!instance.settings.global_units_mils);
    assert_eq!(instance.settings.user_timezone, None);
    assert!(instance.settings.use_24_hour_clock);
    assert_eq!(instance.settings.interface_language, "English");
    assert_eq!(instance.event_logger.max_entries, 1000);
    assert!(instance.event_logger.auto_scroll);
    assert_eq!(instance.event_logger.entries.len(), 1);
    assert_eq!(instance.event_logger.entries[0].timestamp, "12:34:56");
    assert_eq!(instance.event_logger.entries[0].level, LogLevel::Info);
    assert_eq!(instance.event_logger.entries[0].message, "Application 'gerber_viewer' started");
    let buttons: Vec<(&str, &str, bool)> = instance
        .controls
        .buttons
        .iter()
        .map(|b| (b.id.as_str(), b.label.as_str(), b.enabled))
        .collect();
    assert_eq!(buttons, vec![("btn1", "Action 1", true), ("btn2", "Action 2", true)]);
    let editor = registry.spawn_from_template("text_editor").unwrap();
    assert_eq!(editor.main_work_area.content, "Text Editor - Start typing...");
    let plain = registry.spawn_from_template("plain").unwrap();
    assert_eq!(plain.main_work_area.content, "Generic work area");
}

#[test]
fn commands_are_read_from_the_second_argument() {
    assert_eq!(parse_command(&args(&[])), Ok(CliCommand::Help));
    assert_eq!(parse_command(&args(&["mobius"])), Ok(CliCommand::Help));
    for help in ["help", "--help", "-h"] {
        assert_eq!(parse_command(&args(&["mobius", help])), Ok(CliCommand::Help));
    }
    for list in ["templates", "list"] {
        assert_eq!(parse_command(&args(&["mobius", list, "more"])), Ok(CliCommand::ListTemplates));
    }
    assert_eq!(
        parse_command(&args(&["mobius", "build"])),
        Err(CliError::UnknownCommand("build".to_string()))
    );
    assert_eq!(
        parse_command(&args(&["mobius", "new", "--template", "text_editor", "--name", "Ed"])),
        Ok(CliCommand::New(NewProjectArgs {
            template_name: "text_editor".to_string(),
            project_name: "Ed".to_string(),
            output_dir: "./Ed".to_string(),
        }))
    );
    assert_eq!(
        parse_command(&args(&["mobius", "new"])),
        Err(CliError::MissingRequired(CliOption::Template))
    );
}

#[test]
fn the_options_of_new() {
    assert_eq!(
        parse_new_command(&args(&["-t", "a", "-n", "b", "-o", "./out"]), 0),
        Ok(NewProjectArgs {
            template_name: "a".to_string(),
            project_name: "b".to_string(),
            output_dir: "./out".to_string(),
        })
    );
    assert_eq!(
        parse_new_command(&args(&["--name", "b", "--template", "a", "--name", "c", "-t", "--name"]), 0),
        Ok(NewProjectArgs {
            template_name: "--name".to_string(),
            project_name: "c".to_string(),
            output_dir: "./c".to_string(),
        })
    );
    assert_eq!(
        parse_new_command(&args(&["--template", "a"]), 0),
        Err(CliError::MissingRequired(CliOption::Name))
    );
    assert_eq!(
        parse_new_command(&args(&["--name", "a", "-o", "x"]), 0),
        Err(CliError::MissingRequired(CliOption::Template))
    );
    assert_eq!(
        parse_new_command(&args(&["--template", "a", "--name"]), 0),
        Err(CliError::MissingValue(CliOption::Name))
    );
    assert_eq!(
        parse_new_command(&args(&["--template"]), 0),
        Err(CliError::MissingValue(CliOption::Template))
    );
    assert_eq!(
        parse_new_command(&args(&["-t", "a", "-n", "b", "-o"]), 0),
        Err(CliError::MissingValue(CliOption::Output))
    );
    assert_eq!(
        parse_new_command(&args(&["-t", "a", "extra", "-n"]), 0),
        Err(CliError::UnknownOption("extra".to_string()))
    );
    assert_eq!(
        parse_new_command(&args(&["skipped", "-t", "a", "-n", "b"]), 1),
        Ok(NewProjectArgs {
            template_name: "a".to_string(),
            project_name: "b".to_string(),
            output_dir: "./b".to_string(),
        })
    );
    assert_eq!(
        parse_new_command(&args(&["-t", "a"]), 9),
        Err(CliError::MissingRequired(CliOption::Template))
    );
    assert_eq!(parse_option("--output"), Some(CliOption::Output));
    assert_eq!(parse_option("-x"), None);
}

#[test]
fn what_the_user_is_told_of_an_error() {
    assert_eq!(CliError::UnknownCommand("build".to_string()).message(), "Unknown command: build");
    assert_eq!(CliError::UnknownOption("--x".to_string()).message(), "Unknown option: --x");
    assert_eq!(
        CliError::MissingValue(CliOption::Template).message(),
        "Error: --template requires a value"
    );
    assert_eq!(CliError::MissingValue(CliOption::Name).message(), "Error: --name requires a value");
    assert_eq!(
        CliError::MissingValue(CliOption::Output).message(),
        "Error: --output requires a value"
    );
    assert_eq!(
        CliError::MissingRequired(CliOption::Template).message(),
        "Error: --template is required"
    );
    assert_eq!(CliError::MissingRequired(CliOption::Name).message(), "Error: --name is required");
}

#[test]
fn the_files_of_a_project() {
    let registry = MobiusTemplateRegistry::default();
    let files = generate_mobius_project(&registry, "text_editor", "MyEd").unwrap();
    assert_eq!(
        files.cargo_toml,
        "[package]\nname = \"MyEd\"\nversion = \"0.1.0\"\nedition = \"2021\"\n\n[dependencies]\neframe = \"0.31\"\negui = \"0.31\"\nbevy_ecs = \"0.14\"\nserde = { version = \"1.0\", features = [\"derive\"] }\nchrono = { version = \"0.4\", features = [\"serde\"] }\nchrono-tz = \"0.8\"\n# egui_lens = { git = \"https://github.com/yourusername/egui_lens\" }\n# egui_mobius_reactive = \"0.1\"\n"
    );
    assert_eq!(files.cargo_toml, cargo_toml_for("MyEd"));
    assert_eq!(files.main_rs, main_rs_for("text_editor", "MyEd"));
    assert!(files.main_rs.starts_with(
        "use eframe::{egui, App, Frame};\nuse bevy_ecs::prelude::*;\n\nmod mobius;\nuse mobius::*;\n\n#[derive(Default)]\npub struct MyEdApp {\n    world: World,\n"
    ));
    assert!(files.main_rs.contains("impl App for MyEdApp {\n"));
    assert!(files
        .main_rs
        .contains("            self.app_entity = registry.spawn_from_template(&mut commands, \"text_editor\");\n"));
    assert!(files.main_rs.contains("                TabType::Generic(name) => show_generic_tab(ui, &self.world, name),\n"));
    assert!(files.main_rs.ends_with(
        "    eframe::run_native(\n        \"MyEd\",\n        options,\n        Box::new(|_cc| Box::new(MyEdApp::default())),\n    )\n}\n"
    ));
    assert_eq!(files.main_rs.matches("MyEd").count(), 4);
    assert_eq!(
        files.mobius_rs,
        "// This would contain the mobius-ecs library code\n// In real usage, this would be a crate dependency"
    );
}

#[test]
fn a_project_needs_a_known_template() {
    let registry = MobiusTemplateRegistry::default();
    assert_eq!(
        generate_mobius_project(&registry, "nope", "X"),
        Err("Template 'nope' not found. Available templates: [\"gerber_viewer\", \"text_editor\"]"
            .to_string())
    );
    let empty = MobiusTemplateRegistry { templates: Vec::new() };
    assert_eq!(
        generate_mobius_project(&empty, "nope", "X"),
        Err("Template 'nope' not found. Available templates: []".to_string())
    );
}
