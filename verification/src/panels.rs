//! The panels of the designer and the settings they carry.

use vstd::prelude::*;

verus! {

/// Units of measurement for the designer.
#[derive(Debug, Clone, Copy, PartialEq, Eq, Structural)]
pub enum LengthUnit {
    Metric,
    Imperial,
}

impl Default for LengthUnit {
    fn default() -> (u: LengthUnit)
        ensures
            u == LengthUnit::Metric,
    {
        LengthUnit::Metric
    }
}

/// Tools available in the designer.
#[derive(Debug, Clone, Copy, PartialEq, Eq, Structural)]
pub enum Tool {
    Select,
    Draw,
    Measure,
    Place,
}

impl Default for Tool {
    fn default() -> (t: Tool)
        ensures
            t == Tool::Select,
    {
        Tool::Select
    }
}

/// The steps that distribution moves along each axis.
#[derive(Debug, Clone, Copy, PartialEq, Eq, Structural)]
pub struct DistributionSettings {
    pub vertical_spacing: i32,
    pub horizontal_spacing: i32,
}

impl DistributionSettings {
    /// Steps of 50 down and 100 across.
    pub fn new() -> (s: DistributionSettings)
        ensures
            s == (DistributionSettings { vertical_spacing: 50, horizontal_spacing: 100 }),
    {
        DistributionSettings { vertical_spacing: 50, horizontal_spacing: 100 }
    }
}

impl Default for DistributionSettings {
    fn default() -> (s: DistributionSettings)
        ensures
            s == (DistributionSettings { vertical_spacing: 0, horizontal_spacing: 0 }),
    {
        DistributionSettings { vertical_spacing: 0, horizontal_spacing: 0 }
    }
}

/// Designer-specific settings panel with units.
#[derive(Debug, PartialEq, Eq)]
pub struct DesignerSettingsPanel {
    pub units: LengthUnit,
    pub timezone: String,
}

impl Default for DesignerSettingsPanel {
    fn default() -> (p: DesignerSettingsPanel)
        ensures
            p.units == LengthUnit::Metric,
            p.timezone@ == "UTC"@,
    {
        DesignerSettingsPanel { units: LengthUnit::Metric, timezone: String::from_str("UTC") }
    }
}

/// Designer-specific controls panel with tool selection.
#[derive(Debug, Clone, Copy, PartialEq, Eq, Structural)]
pub struct DesignerControlsPanel {
    pub selected_tool: Tool,
}

impl Default for DesignerControlsPanel {
    fn default() -> (p: DesignerControlsPanel)
        ensures
            p.selected_tool == Tool::Select,
    {
        DesignerControlsPanel { selected_tool: Tool::Select }
    }
}

/// The central work area. The background is red, green, blue and opacity,
/// each from 0 to 255.
#[derive(Debug, PartialEq, Eq)]
pub struct MainWorkArea {
    pub content: String,
    pub background_color: [u8; 4],
}

/// How the preview shows the generated source.
#[derive(Debug, Clone, Copy, PartialEq, Eq, Structural)]
pub enum PreviewMode {
    FullApp,
    PanelFunction,
}

} // verus!
