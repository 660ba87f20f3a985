//! Application templates, the registry that holds them, and the panels
//! that an application made from a template starts with.

use vstd::prelude::*;
use crate::logging::EventLoggerPanel;
use crate::logging::LogEntry;
use crate::logging::LogLevel;
use crate::panels::MainWorkArea;
use crate::designer::same_text;

verus! {

/// The tabs of an application.
#[derive(Debug, PartialEq, Eq)]
pub enum TabType {
    MainWork,
    Settings,
    EventLogger,
    Controls,
    Generic(String),
}

impl Default for TabType {
    fn default() -> (t: TabType)
        ensures
            t == TabType::MainWork,
    {
        TabType::MainWork
    }
}

/// The root of an application.
#[derive(Debug, PartialEq, Eq)]
pub struct MobiusApp {
    pub app_name: String,
    pub template_name: String,
    pub active_tab: TabType,
}

/// The settings of an application.
#[derive(Debug, PartialEq, Eq)]
pub struct SettingsPanel {
    pub global_units_mils: bool,
    pub user_timezone: Option<String>,
    pub use_24_hour_clock: bool,
    pub interface_language: String,
}

/// A button of the controls panel.
#[derive(Debug, PartialEq, Eq)]
pub struct ControlButton {
    pub id: String,
    pub label: String,
    pub enabled: bool,
}

/// The controls of an application.
#[derive(Debug, PartialEq, Eq)]
pub struct ControlsPanel {
    pub buttons: Vec<ControlButton>,
}

/// A tab without a purpose of its own.
#[derive(Debug, PartialEq, Eq)]
pub struct GenericTab {
    pub title: String,
    pub content: String,
}

/// What fills the main area of an application.
#[derive(Debug, Clone, Copy, PartialEq, Eq, Structural)]
pub enum MainAreaType {
    GerberViewer,
    TextEditor,
    Generic,
}

/// A template from which an application is made.
#[derive(Debug, PartialEq, Eq)]
pub struct MobiusTemplate {
    pub name: String,
    pub description: String,
    pub main_area_type: MainAreaType,
}

impl Clone for MobiusTemplate {
    fn clone(&self) -> (c: MobiusTemplate)
        ensures
            c == *self,
    {
        MobiusTemplate {
            name: self.name.clone(),
            description: self.description.clone(),
            main_area_type: self.main_area_type,
        }
    }
}

impl MobiusTemplate {
    /// The template `gerber_viewer`.
    pub fn gerber_viewer() -> (t: MobiusTemplate)
        ensures
            t.name@ == "gerber_viewer"@,
            t.description@ == "PCB Gerber file viewer"@,
            t.main_area_type == MainAreaType::GerberViewer,
    {
        MobiusTemplate {
            name: String::from_str("gerber_viewer"),
            description: String::from_str("PCB Gerber file viewer"),
            main_area_type: MainAreaType::GerberViewer,
        }
    }

    /// The template `text_editor`.
    pub fn text_editor() -> (t: MobiusTemplate)
        ensures
            t.name@ == "text_editor"@,
            t.description@ == "Code/text editor"@,
            t.main_area_type == MainAreaType::TextEditor,
    {
        MobiusTemplate {
            name: String::from_str("text_editor"),
            description: String::from_str("Code/text editor"),
            main_area_type: MainAreaType::TextEditor,
        }
    }
}

/// The templates that applications can be made from, each under its name.
#[derive(Debug, PartialEq, Eq)]
pub struct MobiusTemplateRegistry {
    pub templates: Vec<MobiusTemplate>,
}

/// Whether some template of `templates` has the name `name`.
pub open spec fn has_template(templates: Seq<MobiusTemplate>, name: Seq<char>) -> bool {
    exists|i: int| 0 <= i < templates.len() && (#[trigger] templates[i]).name@ == name
}

/// The place of the first template of `templates` with the name `name`.
pub open spec fn first_template(templates: Seq<MobiusTemplate>, name: Seq<char>) -> int
    recommends
        has_template(templates, name),
{
    choose|i: int|
        0 <= i < templates.len() && (#[trigger] templates[i]).name@ == name && forall|j: int|
            0 <= j < i ==> (#[trigger] templates[j]).name@ != name
}

/// What an application made from a template starts with.
#[derive(Debug, PartialEq, Eq)]
pub struct TemplateInstance {
    pub app: MobiusApp,
    pub main_work_area: MainWorkArea,
    pub settings: SettingsPanel,
    pub event_logger: EventLoggerPanel,
    pub controls: ControlsPanel,
}

/// The text that the main area of an application shows at first.
pub open spec fn main_area_content(main_area_type: MainAreaType) -> Seq<char> {
    match main_area_type {
        MainAreaType::GerberViewer => "Gerber Viewer - Drop .gbr files here"@,
        MainAreaType::TextEditor => "Text Editor - Start typing..."@,
        MainAreaType::Generic => "Generic work area"@,
    }
}

/// Whether `instance` is what an application made from `template` under
/// the name `template_name` starts with: the main work tab active, the
/// main area with the text for its kind on a dark background, metric units
/// with a 24-hour clock in English, an event log of one entry that says
/// that the application has started, and two enabled control buttons.
pub open spec fn is_instance_of(
    instance: TemplateInstance,
    template: MobiusTemplate,
    template_name: Seq<char>,
) -> bool {
    &&& instance.app.app_name@ == template.name@
    &&& instance.app.template_name@ == template_name
    &&& instance.app.active_tab == TabType::MainWork
    &&& instance.main_work_area.content@ == main_area_content(template.main_area_type)
    &&& instance.main_work_area.background_color@ == seq![25u8, 25u8, 25u8, 255u8]
    &&& !instance.settings.global_units_mils
    &&& instance.settings.user_timezone is None
    &&& instance.settings.use_24_hour_clock
    &&& instance.settings.interface_language@ == "English"@
    &&& instance.event_logger.max_entries == 1000
    &&& instance.event_logger.auto_scroll
    &&& instance.event_logger.entries@.len() == 1
    &&& instance.event_logger.entries@[0].timestamp@ == "12:34:56"@
    &&& instance.event_logger.entries@[0].level == LogLevel::Info
    &&& instance.event_logger.entries@[0].message@ == "Application '"@ + template.name@
        + "' started"@
    &&& instance.controls.buttons@.len() == 2
    &&& instance.controls.buttons@[0].id@ == "btn1"@
    &&& instance.controls.buttons@[0].label@ == "Action 1"@
    &&& instance.controls.buttons@[0].enabled
    &&& instance.controls.buttons@[1].id@ == "btn2"@
    &&& instance.controls.buttons@[1].label@ == "Action 2"@
    &&& instance.controls.buttons@[1].enabled
}

impl Default for MobiusTemplateRegistry {
    /// The registry with the two templates `gerber_viewer` and
    /// `text_editor`.
    fn default() -> (registry: MobiusTemplateRegistry)
        ensures
            registry.templates@.len() == 2,
            registry.templates@[0].name@ == "gerber_viewer"@,
            registry.templates@[0].main_area_type == MainAreaType::GerberViewer,
            registry.templates@[1].name@ == "text_editor"@,
            registry.templates@[1].main_area_type == MainAreaType::TextEditor,
    {
        let mut templates: Vec<MobiusTemplate> = Vec::new();
        templates.push(MobiusTemplate::gerber_viewer());
        templates.push(MobiusTemplate::text_editor());
        MobiusTemplateRegistry { templates }
    }
}

impl MobiusTemplateRegistry {
    /// All templates.
    pub fn get_templates(&self) -> (templates: &Vec<MobiusTemplate>)
        ensures
            templates@ == self.templates@,
    {
        &self.templates
    }

    /// The first template with the name `name`.
    pub fn get(&self, name: &str) -> (found: Option<&MobiusTemplate>)
        ensures
            found is Some <==> has_template(self.templates@, name@),
            found is Some ==> *found->0 == self.templates@[first_template(self.templates@, name@)]
                && found->0.name@ == name@,
    {
        let mut i: usize = 0;
        while i < self.templates.len()
            invariant
                i <= self.templates@.len(),
                forall|j: int| 0 <= j < i ==> (#[trigger] self.templates@[j]).name@ != name@,
            decreases self.templates@.len() - i,
        {
            if same_text(self.templates[i].name.as_str(), name) {
                proof {
                    let first = first_template(self.templates@, name@);
                    assert(self.templates@[i as int].name@ == name@);
                    if first < i {
                        assert(self.templates@[first].name@ != name@);
                    }
                    if i < first {
                        assert(self.templates@[i as int].name@ != name@);
                    }
                }
                return Some(&self.templates[i]);
            }
            i += 1;
        }
        None
    }

    /// Whether there is a template with the name `name`.
    pub fn contains_key(&self, name: &str) -> (found: bool)
        ensures
            found == has_template(self.templates@, name@),
    {
        self.get(name).is_some()
    }

    /// What an application made from the template `template_name` starts
    /// with, or nothing where there is no such template.
    pub fn spawn_from_template(&self, template_name: &str) -> (instance: Option<TemplateInstance>)
        ensures
            instance is Some <==> has_template(self.templates@, template_name@),
            instance is Some ==> is_instance_of(
                instance->0,
                self.templates@[first_template(self.templates@, template_name@)],
                template_name@,
            ),
    {
        let template = match self.get(template_name) {
            Some(template) => template,
            None => {
                return None;
            },
        };
        let app = MobiusApp {
            app_name: template.name.clone(),
            template_name: String::from_str(template_name),
            active_tab: TabType::MainWork,
        };
        let main_content = match template.main_area_type {
            MainAreaType::GerberViewer => "Gerber Viewer - Drop .gbr files here",
            MainAreaType::TextEditor => "Text Editor - Start typing...",
            MainAreaType::Generic => "Generic work area",
        };
        let main_work_area = MainWorkArea {
            content: String::from_str(main_content),
            background_color: [25, 25, 25, 255],
        };
        let settings = SettingsPanel {
            global_units_mils: false,
            user_timezone: None,
            use_24_hour_clock: true,
            interface_language: String::from_str("English"),
        };
        let mut message = String::from_str("Application '");
        message.append(template.name.as_str());
        message.append("' started");
        let mut entries: Vec<LogEntry> = Vec::new();
        entries.push(
            LogEntry { timestamp: String::from_str("12:34:56"), level: LogLevel::Info, message },
        );
        let event_logger = EventLoggerPanel { entries, max_entries: 1000, auto_scroll: true };
        let mut buttons: Vec<ControlButton> = Vec::new();
        buttons.push(
            ControlButton {
                id: String::from_str("btn1"),
                label: String::from_str("Action 1"),
                enabled: true,
            },
        );
        buttons.push(
            ControlButton {
                id: String::from_str("btn2"),
                label: String::from_str("Action 2"),
                enabled: true,
            },
        );
        let controls = ControlsPanel { buttons };
        Some(TemplateInstance { app, main_work_area, settings, event_logger, controls })
    }
}

} // verus!
