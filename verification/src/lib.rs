//! The designer core: an integer canvas, a store of widget entities, selection,
//! alignment and distribution of the selected widgets, and source generation.

pub mod batch;
pub mod bundles;
pub mod cli;
pub mod codegen;
pub mod components;
pub mod designer;
pub mod distribution;
pub mod dock;
pub mod drag;
pub mod events;
pub mod geometry;
pub mod grid;
pub mod interaction;
pub mod logging;
pub mod panels;
pub mod selection;
pub mod shortcuts;
pub mod snapshot;
pub mod sorting;
pub mod templates;
pub mod text;
pub mod world;

pub use batch::{clear_all_ui_elements, delete_selected_elements};
pub use bundles::{
    UiButtonBundle, UiCheckboxBundle, UiGroupBoxBundle, UiRadioButtonBundle, UiTextInputBundle,
};
pub use codegen::CodeGenerator;
pub use components::{
    Entity, Tab, TabKind, UiButton, UiCheckbox, UiElement, UiElementBundle, UiElementContainer,
    UiElementDragging, UiElementPosition, UiElementSelected, UiElementSize, UiElementTab,
    UiGroupBox, UiRadioButton, UiTextInput, WidgetKind,
};
pub use designer::{
    add_sample_ui_elements, add_ui_button, add_ui_checkbox, add_ui_element_at_position_in_tab,
    add_ui_group_box, add_ui_radio_button, add_ui_text_input, create_designer_world,
};
pub use distribution::{
    align_selected_elements_bottom, align_selected_elements_left, align_selected_elements_right,
    align_selected_elements_top, arrange_elements_in_column,
    arrange_elements_in_column_with_spacing, arrange_elements_in_row,
    arrange_elements_in_row_with_spacing, distribute_items_horizontally,
    distribute_items_vertically,
};
pub use dock::create_default_dock_layout;
pub use drag::{
    handle_drag_selection_in_work_area, handle_selection_box, DragSelection, SelectionState,
};
pub use events::{CodeGenEvent, CodeGenResponse, CodeGenState};
pub use geometry::{Pos2, Rect, Vec2};
pub use grid::{get_grid_status, snap_to_grid, GridSettings, GridStatus};
pub use interaction::{reset_button_clicks, select_radio_button};
pub use logging::{add_designer_log, EventLoggerPanel, LogEntry, LogLevel};
pub use panels::{
    DesignerControlsPanel, DesignerSettingsPanel, DistributionSettings, LengthUnit, MainWorkArea,
    PreviewMode, Tool,
};
pub use selection::{clear_all_selections, count_selected_elements, select_elements_in_rect, selected_ids};
pub use shortcuts::{handle_double_click_edit, handle_keyboard_shortcuts};
pub use snapshot::{CodeGenMode, UiElementSnapshot, UiElementType, WorldSnapshot};
pub use templates::{
    ControlButton, ControlsPanel, GenericTab, MainAreaType, MobiusApp, MobiusTemplate,
    MobiusTemplateRegistry, SettingsPanel, TabType,
};
pub use world::{DesignerPanels, DesignerWorld};
