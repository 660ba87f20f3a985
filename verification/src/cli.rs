//! The command line of the project generator: what its arguments ask for,
//! and the files of a project made from a template.

use vstd::prelude::*;
use crate::designer::same_text;
use crate::templates::MobiusTemplate;
use crate::templates::MobiusTemplateRegistry;
use crate::templates::has_template;
use crate::text::debug_quote;
use crate::text::debug_quoted;
use crate::text::texts_of;

verus! {

/// The options of the command `new`.
#[derive(Debug, Clone, Copy, PartialEq, Eq, Structural)]
pub enum CliOption {
    Template,
    Name,
    Output,
}

/// Why a command line is refused.
#[derive(Debug, PartialEq, Eq)]
pub enum CliError {
    /// The first argument names no command.
    UnknownCommand(String),
    /// An option stands last, without its value.
    MissingValue(CliOption),
    /// An argument of `new` is no option.
    UnknownOption(String),
    /// An option that `new` needs is not given.
    MissingRequired(CliOption),
}

/// What the command `new` was asked to make.
#[derive(Debug, PartialEq, Eq)]
pub struct NewProjectArgs {
    pub template_name: String,
    pub project_name: String,
    pub output_dir: String,
}

/// What a command line asks for.
#[derive(Debug, PartialEq, Eq)]
pub enum CliCommand {
    Help,
    ListTemplates,
    New(NewProjectArgs),
}

/// The option that an argument names, in its long or its short form.
pub open spec fn option_named(arg: Seq<char>) -> Option<CliOption> {
    if arg == "--template"@ || arg == "-t"@ {
        Some(CliOption::Template)
    } else if arg == "--name"@ || arg == "-n"@ {
        Some(CliOption::Name)
    } else if arg == "--output"@ || arg == "-o"@ {
        Some(CliOption::Output)
    } else {
        None
    }
}

/// The values that were found for the options of `new`.
pub struct FoundOptions {
    pub template_name: Option<Seq<char>>,
    pub project_name: Option<Seq<char>>,
    pub output_dir: Option<Seq<char>>,
}

impl FoundOptions {
    /// No value for any option.
    pub open spec fn nothing() -> FoundOptions {
        FoundOptions { template_name: None, project_name: None, output_dir: None }
    }

    /// The values with `value` noted for `option`, in place of an earlier
    /// one.
    pub open spec fn with(self, option: CliOption, value: Seq<char>) -> FoundOptions {
        match option {
            CliOption::Template => FoundOptions { template_name: Some(value), ..self },
            CliOption::Name => FoundOptions { project_name: Some(value), ..self },
            CliOption::Output => FoundOptions { output_dir: Some(value), ..self },
        }
    }
}

/// What reading the options of `new` comes to.
pub enum OptionScan {
    /// Every argument was an option with its value.
    Done(FoundOptions),
    /// This option stood last, without its value.
    MissingValue(CliOption),
    /// This argument was no option.
    UnknownOption(Seq<char>),
}

/// Reads the options of `new` from the argument at `i` on, two arguments at
/// a time: an option and its value. Reading stops at the first argument
/// that is no option and at an option without a value.
pub open spec fn scan_options(args: Seq<Seq<char>>, i: int, found: FoundOptions) -> OptionScan
    decreases args.len() - i,
{
    if i < 0 || i >= args.len() {
        OptionScan::Done(found)
    } else {
        match option_named(args[i]) {
            None => OptionScan::UnknownOption(args[i]),
            Some(option) => if i + 1 < args.len() {
                scan_options(args, i + 2, found.with(option, args[i + 1]))
            } else {
                OptionScan::MissingValue(option)
            },
        }
    }
}

/// Whether `result` is what the options found for `new` come to: the
/// template and the name are required, in this order, and the output
/// directory is `./` and the name where none is given.
pub open spec fn is_new_command(result: Result<NewProjectArgs, CliError>, scan: OptionScan) -> bool {
    match scan {
        OptionScan::UnknownOption(arg) => result is Err && result->Err_0 is UnknownOption
            && result->Err_0->UnknownOption_0@ == arg,
        OptionScan::MissingValue(option) => result == Err::<NewProjectArgs, CliError>(
            CliError::MissingValue(option),
        ),
        OptionScan::Done(found) => if found.template_name is None {
            result == Err::<NewProjectArgs, CliError>(
                CliError::MissingRequired(CliOption::Template),
            )
        } else if found.project_name is None {
            result == Err::<NewProjectArgs, CliError>(CliError::MissingRequired(CliOption::Name))
        } else {
            &&& result is Ok
            &&& result->Ok_0.template_name@ == found.template_name->0
            &&& result->Ok_0.project_name@ == found.project_name->0
            &&& result->Ok_0.output_dir@ == (match found.output_dir {
                Some(dir) => dir,
                None => "./"@ + found.project_name->0,
            })
        },
    }
}

/// Reads the name of an option.
pub fn parse_option(arg: &str) -> (option: Option<CliOption>)
    ensures
        option == option_named(arg@),
{
    if same_text(arg, "--template") || same_text(arg, "-t") {
        Some(CliOption::Template)
    } else if same_text(arg, "--name") || same_text(arg, "-n") {
        Some(CliOption::Name)
    } else if same_text(arg, "--output") || same_text(arg, "-o") {
        Some(CliOption::Output)
    } else {
        None
    }
}

/// The views of the values kept while the options are read.
pub open spec fn found_so_far(
    template_name: Option<String>,
    project_name: Option<String>,
    output_dir: Option<String>,
) -> FoundOptions {
    FoundOptions {
        template_name: match template_name {
            Some(s) => Some(s@),
            None => None,
        },
        project_name: match project_name {
            Some(s) => Some(s@),
            None => None,
        },
        output_dir: match output_dir {
            Some(s) => Some(s@),
            None => None,
        },
    }
}

/// Reads the options of the command `new` from the argument at `first` on.
pub fn parse_new_command(args: &Vec<String>, first: usize) -> (result: Result<NewProjectArgs, CliError>)
    ensures
        is_new_command(result, scan_options(texts_of(args@), first as int, FoundOptions::nothing())),
{
    let mut template_name: Option<String> = None;
    let mut project_name: Option<String> = None;
    let mut output_dir: Option<String> = None;
    let n = args.len();
    let mut i: usize = first;
    while i < n
        invariant
            n == args@.len(),
            scan_options(texts_of(args@), first as int, FoundOptions::nothing()) == scan_options(
                texts_of(args@),
                i as int,
                found_so_far(template_name, project_name, output_dir),
            ),
        decreases n - i,
    {
        assert(texts_of(args@)[i as int] == args@[i as int]@);
        let option = match parse_option(args[i].as_str()) {
            Some(option) => option,
            None => {
                return Err(CliError::UnknownOption(args[i].clone()));
            },
        };
        if i + 1 < n {
            assert(texts_of(args@)[i + 1] == args@[i + 1]@);
            let value = args[i + 1].clone();
            match option {
                CliOption::Template => {
                    template_name = Some(value);
                },
                CliOption::Name => {
                    project_name = Some(value);
                },
                CliOption::Output => {
                    output_dir = Some(value);
                },
            }
            i += 2;
        } else {
            return Err(CliError::MissingValue(option));
        }
    }
    let template_name = match template_name {
        Some(name) => name,
        None => {
            return Err(CliError::MissingRequired(CliOption::Template));
        },
    };
    let project_name = match project_name {
        Some(name) => name,
        None => {
            return Err(CliError::MissingRequired(CliOption::Name));
        },
    };
    let output_dir = match output_dir {
        Some(dir) => dir,
        None => {
            let mut dir = String::from_str("./");
            dir.append(project_name.as_str());
            dir
        },
    };
    Ok(NewProjectArgs { template_name, project_name, output_dir })
}

/// The commands of the command line.
#[derive(Debug, Clone, Copy, PartialEq, Eq, Structural)]
pub enum CommandName {
    New,
    ListTemplates,
    Help,
}

/// The command that an argument names: `new`; `templates` or `list`;
/// `help`, `--help` or `-h`.
pub open spec fn command_named(arg: Seq<char>) -> Option<CommandName> {
    if arg == "new"@ {
        Some(CommandName::New)
    } else if arg == "templates"@ || arg == "list"@ {
        Some(CommandName::ListTemplates)
    } else if arg == "help"@ || arg == "--help"@ || arg == "-h"@ {
        Some(CommandName::Help)
    } else {
        None
    }
}

/// Whether `result` is what the command line `args` asks for. The first
/// argument is the name of the program. Without a command, help is asked
/// for.
pub open spec fn is_command(result: Result<CliCommand, CliError>, args: Seq<Seq<char>>) -> bool {
    if args.len() < 2 {
        result == Ok::<CliCommand, CliError>(CliCommand::Help)
    } else {
        match command_named(args[1]) {
            None => result is Err && result->Err_0 is UnknownCommand
                && result->Err_0->UnknownCommand_0@ == args[1],
            Some(CommandName::Help) => result == Ok::<CliCommand, CliError>(CliCommand::Help),
            Some(CommandName::ListTemplates) => result == Ok::<CliCommand, CliError>(
                CliCommand::ListTemplates,
            ),
            Some(CommandName::New) => match result {
                Ok(command) => command is New && is_new_command(
                    Ok(command->New_0),
                    scan_options(args, 2, FoundOptions::nothing()),
                ),
                Err(error) => is_new_command(
                    Err(error),
                    scan_options(args, 2, FoundOptions::nothing()),
                ),
            },
        }
    }
}

/// Reads a command line. The first argument is the name of the program.
pub fn parse_command(args: &Vec<String>) -> (result: Result<CliCommand, CliError>)
    ensures
        is_command(result, texts_of(args@)),
{
    if args.len() < 2 {
        return Ok(CliCommand::Help);
    }
    assert(texts_of(args@)[1] == args@[1]@);
    let command = args[1].as_str();
    if same_text(command, "new") {
        match parse_new_command(args, 2) {
            Ok(new_args) => Ok(CliCommand::New(new_args)),
            Err(error) => Err(error),
        }
    } else if same_text(command, "templates") || same_text(command, "list") {
        Ok(CliCommand::ListTemplates)
    } else if same_text(command, "help") || same_text(command, "--help") || same_text(
        command,
        "-h",
    ) {
        Ok(CliCommand::Help)
    } else {
        Err(CliError::UnknownCommand(args[1].clone()))
    }
}

/// The long form of an option.
pub open spec fn option_flag(option: CliOption) -> Seq<char> {
    match option {
        CliOption::Template => "--template"@,
        CliOption::Name => "--name"@,
        CliOption::Output => "--output"@,
    }
}

fn option_flag_str(option: CliOption) -> (flag: &'static str)
    ensures
        flag@ == option_flag(option),
{
    match option {
        CliOption::Template => "--template",
        CliOption::Name => "--name",
        CliOption::Output => "--output",
    }
}

impl CliError {
    /// What the user is told of the error.
    pub open spec fn spec_message(self) -> Seq<char> {
        match self {
            CliError::UnknownCommand(command) => "Unknown command: "@ + command@,
            CliError::MissingValue(option) => "Error: "@ + option_flag(option)
                + " requires a value"@,
            CliError::UnknownOption(arg) => "Unknown option: "@ + arg@,
            CliError::MissingRequired(option) => "Error: "@ + option_flag(option)
                + " is required"@,
        }
    }

    pub fn message(&self) -> (text: String)
        ensures
            text@ == self.spec_message(),
    {
        match self {
            CliError::UnknownCommand(command) => {
                let mut text = String::from_str("Unknown command: ");
                text.append(command.as_str());
                text
            },
            CliError::MissingValue(option) => {
                let mut text = String::from_str("Error: ");
                text.append(option_flag_str(*option));
                text.append(" requires a value");
                text
            },
            CliError::UnknownOption(arg) => {
                let mut text = String::from_str("Unknown option: ");
                text.append(arg.as_str());
                text
            },
            CliError::MissingRequired(option) => {
                let mut text = String::from_str("Error: ");
                text.append(option_flag_str(*option));
                text.append(" is required");
                text
            },
        }
    }
}

/// The files of a generated project.
#[derive(Debug, PartialEq, Eq)]
pub struct ProjectFiles {
    /// The manifest, `Cargo.toml`.
    pub cargo_toml: String,
    /// The program, `src/main.rs`.
    pub main_rs: String,
    /// The library stub, `src/mobius.rs`.
    pub mobius_rs: String,
}

/// The manifest of a project with the name `project_name`.
pub open spec fn cargo_toml_text(project_name: Seq<char>) -> Seq<char> {
    let text = Seq::<char>::empty();
    let text = text + "[package]\n"@;
    let text = text + "name = \""@;
    let text = text + project_name;
    let text = text + "\"\n"@;
    let text = text + "version = \"0.1.0\"\n"@;
    let text = text + "edition = \"2021\"\n"@;
    let text = text + "\n"@;
    let text = text + "[dependencies]\n"@;
    let text = text + "eframe = \"0.31\"\n"@;
    let text = text + "egui = \"0.31\"\n"@;
    let text = text + "bevy_ecs = \"0.14\"\n"@;
    let text = text + "serde = { version = \"1.0\", features = [\"derive\"] }\n"@;
    let text = text + "chrono = { version = \"0.4\", features = [\"serde\"] }\n"@;
    let text = text + "chrono-tz = \"0.8\"\n"@;
    let text = text + "# egui_lens = { git = \"https://github.com/yourusername/egui_lens\" }\n"@;
    let text = text + "# egui_mobius_reactive = \"0.1\"\n"@;
    text
}

/// The program of a project with the name `project_name`, made from the
/// template `template_name`.
pub open spec fn main_rs_text(template_name: Seq<char>, project_name: Seq<char>) -> Seq<char> {
    let text = Seq::<char>::empty();
    let text = text + "use eframe::{egui, App, Frame};\n"@;
    let text = text + "use bevy_ecs::prelude::*;\n"@;
    let text = text + "\n"@;
    let text = text + "mod mobius;\n"@;
    let text = text + "use mobius::*;\n"@;
    let text = text + "\n"@;
    let text = text + "#[derive(Default)]\n"@;
    let text = text + "pub struct "@;
    let text = text + project_name;
    let text = text + "App {\n"@;
    let text = text + "    world: World,\n"@;
    let text = text + "    active_tab: TabType,\n"@;
    let text = text + "    app_entity: Option<Entity>,\n"@;
    let text = text + "}\n"@;
    let text = text + "\n"@;
    let text = text + "impl App for "@;
    let text = text + project_name;
    let text = text + "App {\n"@;
    let text = text + "    fn update(&mut self, ctx: &egui::Context, _frame: &mut Frame) {\n"@;
    let text = text + "        // Initialize if needed\n"@;
    let text = text + "        if self.app_entity.is_none() {\n"@;
    let text = text + "            let registry = MobiusTemplateRegistry::default();\n"@;
    let text = text + "            let mut commands = self.world.commands();\n"@;
    let text = text + "            self.app_entity = registry.spawn_from_template(&mut commands, \""@;
    let text = text + template_name;
    let text = text + "\");\n"@;
    let text = text + "        }\n"@;
    let text = text + "        \n"@;
    let text = text + "        // Top menu bar\n"@;
    let text = text + "        egui::TopBottomPanel::top(\"top_panel\").show(ctx, |ui| {\n"@;
    let text = text + "            egui::menu::bar(ui, |ui| {\n"@;
    let text = text + "                ui.menu_button(\"File\", |ui| {\n"@;
    let text = text + "                    if ui.button(\"New\").clicked() {\n"@;
    let text = text + "                        // Handle new\n"@;
    let text = text + "                    }\n"@;
    let text = text + "                });\n"@;
    let text = text + "                ui.menu_button(\"View\", |ui| {\n"@;
    let text = text + "                    ui.selectable_value(&mut self.active_tab, TabType::MainWork, \"Main Work Area\");\n"@;
    let text = text + "                    ui.selectable_value(&mut self.active_tab, TabType::Settings, \"Settings\");\n"@;
    let text = text + "                    ui.selectable_value(&mut self.active_tab, TabType::EventLogger, \"Event Logger\");\n"@;
    let text = text + "                    ui.selectable_value(&mut self.active_tab, TabType::Controls, \"Controls\");\n"@;
    let text = text + "                });\n"@;
    let text = text + "            });\n"@;
    let text = text + "        });\n"@;
    let text = text + "\n"@;
    let text = text + "        // Tab bar\n"@;
    let text = text + "        egui::TopBottomPanel::top(\"tab_panel\").show(ctx, |ui| {\n"@;
    let text = text + "            ui.horizontal(|ui| {\n"@;
    let text = text + "                ui.selectable_value(&mut self.active_tab, TabType::MainWork, \"📋 Main\");\n"@;
    let text = text + "                ui.selectable_value(&mut self.active_tab, TabType::Settings, \"⚙️ Settings\");\n"@;
    let text = text + "                ui.selectable_value(&mut self.active_tab, TabType::EventLogger, \"📜 Logs\");\n"@;
    let text = text + "                ui.selectable_value(&mut self.active_tab, TabType::Controls, \"🎛️ Controls\");\n"@;
    let text = text + "            });\n"@;
    let text = text + "        });\n"@;
    let text = text + "\n"@;
    let text = text + "        // Main content area\n"@;
    let text = text + "        egui::CentralPanel::default().show(ctx, |ui| {\n"@;
    let text = text + "            match &self.active_tab {\n"@;
    let text = text + "                TabType::MainWork => show_main_work_area(ui, &self.world),\n"@;
    let text = text + "                TabType::Settings => show_settings_panel(ui, &mut self.world),\n"@;
    let text = text + "                TabType::EventLogger => show_event_logger_panel(ui, &mut self.world),\n"@;
    let text = text + "                TabType::Controls => show_controls_panel(ui, &self.world),\n"@;
    let text = text + "                TabType::Generic(name) => show_generic_tab(ui, &self.world, name),\n"@;
    let text = text + "            }\n"@;
    let text = text + "        });\n"@;
    let text = text + "    }\n"@;
    let text = text + "}\n"@;
    let text = text + "\n"@;
    let text = text + "fn main() -> Result<(), eframe::Error> {\n"@;
    let text = text + "    let options = eframe::NativeOptions {\n"@;
    let text = text + "        viewport: egui::ViewportBuilder::default().with_inner_size([1200.0, 800.0]),\n"@;
    let text = text + "        ..Default::default()\n"@;
    let text = text + "    };\n"@;
    let text = text + "    eframe::run_native(\n"@;
    let text = text + "        \""@;
    let text = text + project_name;
    let text = text + "\",\n"@;
    let text = text + "        options,\n"@;
    let text = text + "        Box::new(|_cc| Box::new("@;
    let text = text + project_name;
    let text = text + "App::default())),\n"@;
    let text = text + "    )\n"@;
    let text = text + "}\n"@;
    text
}

/// The names of `templates` as a list in `Debug` form, after `written`.
pub open spec fn with_template_names(written: Seq<char>, templates: Seq<MobiusTemplate>) -> Seq<char>
    decreases templates.len(),
{
    if templates.len() == 0 {
        written
    } else if templates.len() == 1 {
        written + debug_quoted(templates.last().name@)
    } else {
        with_template_names(written, templates.drop_last()) + ", "@ + debug_quoted(
            templates.last().name@,
        )
    }
}

/// What the user is told when there is no template `template_name`.
pub open spec fn template_not_found_text(template_name: Seq<char>, templates: Seq<MobiusTemplate>) -> Seq<
    char,
> {
    with_template_names(
        "Template '"@ + template_name + "' not found. Available templates: ["@,
        templates,
    ) + "]"@
}

/// Writes the manifest of a project.
pub fn cargo_toml_for(project_name: &str) -> (text: String)
    ensures
        text@ == cargo_toml_text(project_name@),
{
    let mut text = String::new();
    text.append("[package]\n");
    text.append("name = \"");
    text.append(project_name);
    text.append("\"\n");
    text.append("version = \"0.1.0\"\n");
    text.append("edition = \"2021\"\n");
    text.append("\n");
    text.append("[dependencies]\n");
    text.append("eframe = \"0.31\"\n");
    text.append("egui = \"0.31\"\n");
    text.append("bevy_ecs = \"0.14\"\n");
    text.append("serde = { version = \"1.0\", features = [\"derive\"] }\n");
    text.append("chrono = { version = \"0.4\", features = [\"serde\"] }\n");
    text.append("chrono-tz = \"0.8\"\n");
    text.append("# egui_lens = { git = \"https://github.com/yourusername/egui_lens\" }\n");
    text.append("# egui_mobius_reactive = \"0.1\"\n");
    text
}

/// Writes the program of a project.
pub fn main_rs_for(template_name: &str, project_name: &str) -> (text: String)
    ensures
        text@ == main_rs_text(template_name@, project_name@),
{
    let mut text = String::new();
    text.append("use eframe::{egui, App, Frame};\n");
    text.append("use bevy_ecs::prelude::*;\n");
    text.append("\n");
    text.append("mod mobius;\n");
    text.append("use mobius::*;\n");
    text.append("\n");
    text.append("#[derive(Default)]\n");
    text.append("pub struct ");
    text.append(project_name);
    text.append("App {\n");
    text.append("    world: World,\n");
    text.append("    active_tab: TabType,\n");
    text.append("    app_entity: Option<Entity>,\n");
    text.append("}\n");
    text.append("\n");
    text.append("impl App for ");
    text.append(project_name);
    text.append("App {\n");
    text.append("    fn update(&mut self, ctx: &egui::Context, _frame: &mut Frame) {\n");
    text.append("        // Initialize if needed\n");
    text.append("        if self.app_entity.is_none() {\n");
    text.append("            let registry = MobiusTemplateRegistry::default();\n");
    text.append("            let mut commands = self.world.commands();\n");
    text.append("            self.app_entity = registry.spawn_from_template(&mut commands, \"");
    text.append(template_name);
    text.append("\");\n");
    text.append("        }\n");
    text.append("        \n");
    text.append("        // Top menu bar\n");
    text.append("        egui::TopBottomPanel::top(\"top_panel\").show(ctx, |ui| {\n");
    text.append("            egui::menu::bar(ui, |ui| {\n");
    text.append("                ui.menu_button(\"File\", |ui| {\n");
    text.append("                    if ui.button(\"New\").clicked() {\n");
    text.append("                        // Handle new\n");
    text.append("                    }\n");
    text.append("                });\n");
    text.append("                ui.menu_button(\"View\", |ui| {\n");
    text.append("                    ui.selectable_value(&mut self.active_tab, TabType::MainWork, \"Main Work Area\");\n");
    text.append("                    ui.selectable_value(&mut self.active_tab, TabType::Settings, \"Settings\");\n");
    text.append("                    ui.selectable_value(&mut self.active_tab, TabType::EventLogger, \"Event Logger\");\n");
    text.append("                    ui.selectable_value(&mut self.active_tab, TabType::Controls, \"Controls\");\n");
    text.append("                });\n");
    text.append("            });\n");
    text.append("        });\n");
    text.append("\n");
    text.append("        // Tab bar\n");
    text.append("        egui::TopBottomPanel::top(\"tab_panel\").show(ctx, |ui| {\n");
    text.append("            ui.horizontal(|ui| {\n");
    text.append("                ui.selectable_value(&mut self.active_tab, TabType::MainWork, \"📋 Main\");\n");
    text.append("                ui.selectable_value(&mut self.active_tab, TabType::Settings, \"⚙️ Settings\");\n");
    text.append("                ui.selectable_value(&mut self.active_tab, TabType::EventLogger, \"📜 Logs\");\n");
    text.append("                ui.selectable_value(&mut self.active_tab, TabType::Controls, \"🎛️ Controls\");\n");
    text.append("            });\n");
    text.append("        });\n");
    text.append("\n");
    text.append("        // Main content area\n");
    text.append("        egui::CentralPanel::default().show(ctx, |ui| {\n");
    text.append("            match &self.active_tab {\n");
    text.append("                TabType::MainWork => show_main_work_area(ui, &self.world),\n");
    text.append("                TabType::Settings => show_settings_panel(ui, &mut self.world),\n");
    text.append("                TabType::EventLogger => show_event_logger_panel(ui, &mut self.world),\n");
    text.append("                TabType::Controls => show_controls_panel(ui, &self.world),\n");
    text.append("                TabType::Generic(name) => show_generic_tab(ui, &self.world, name),\n");
    text.append("            }\n");
    text.append("        });\n");
    text.append("    }\n");
    text.append("}\n");
    text.append("\n");
    text.append("fn main() -> Result<(), eframe::Error> {\n");
    text.append("    let options = eframe::NativeOptions {\n");
    text.append("        viewport: egui::ViewportBuilder::default().with_inner_size([1200.0, 800.0]),\n");
    text.append("        ..Default::default()\n");
    text.append("    };\n");
    text.append("    eframe::run_native(\n");
    text.append("        \"");
    text.append(project_name);
    text.append("\",\n");
    text.append("        options,\n");
    text.append("        Box::new(|_cc| Box::new(");
    text.append(project_name);
    text.append("App::default())),\n");
    text.append("    )\n");
    text.append("}\n");
    text
}

/// The files of a project with the name `project_name` made from the
/// template `template_name`, or what the user is told where the registry
/// holds no such template.
pub fn generate_mobius_project(
    registry: &MobiusTemplateRegistry,
    template_name: &str,
    project_name: &str,
) -> (result: Result<ProjectFiles, String>)
    ensures
        result is Ok <==> has_template(registry.templates@, template_name@),
        result is Ok ==> {
            &&& result->Ok_0.cargo_toml@ == cargo_toml_text(project_name@)
            &&& result->Ok_0.main_rs@ == main_rs_text(template_name@, project_name@)
            &&& result->Ok_0.mobius_rs@
                == "// This would contain the mobius-ecs library code\n// In real usage, this would be a crate dependency"@
        },
        result is Err ==> result->Err_0@ == template_not_found_text(
            template_name@,
            registry.templates@,
        ),
{
    if registry.contains_key(template_name) {
        Ok(
            ProjectFiles {
                cargo_toml: cargo_toml_for(project_name),
                main_rs: main_rs_for(template_name, project_name),
                mobius_rs: String::from_str(
                    "// This would contain the mobius-ecs library code\n// In real usage, this would be a crate dependency",
                ),
            },
        )
    } else {
        let mut message = String::from_str("Template '");
        message.append(template_name);
        message.append("' not found. Available templates: [");
        let ghost start = message@;
        let n = registry.templates.len();
        let mut i: usize = 0;
        assert(registry.templates@.take(0) =~= Seq::<MobiusTemplate>::empty());
        while i < n
            invariant
                i <= n,
                n == registry.templates@.len(),
                message@ == with_template_names(start, registry.templates@.take(i as int)),
            decreases n - i,
        {
            proof {
                assert(registry.templates@.take(i + 1).drop_last() =~= registry.templates@.take(
                    i as int,
                ));
            }
            if i > 0 {
                message.append(", ");
            }
            message.append(debug_quote(registry.templates[i].name.as_str()).as_str());
            i += 1;
        }
        assert(registry.templates@.take(n as int) =~= registry.templates@);
        message.append("]");
        Err(message)
    }
}

} // verus!
