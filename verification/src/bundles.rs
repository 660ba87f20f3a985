//! What is attached to a widget of each kind when it is spawned.

use vstd::prelude::*;
use crate::components::UiButton;
use crate::components::UiCheckbox;
use crate::components::UiElementBundle;
use crate::components::UiElementContainer;
use crate::components::UiElementPosition;
use crate::components::UiElementSelected;
use crate::components::UiElementSize;
use crate::components::UiElementTab;
use crate::components::UiGroupBox;
use crate::components::UiRadioButton;
use crate::components::UiTextInput;
use crate::components::WidgetKind;

verus! {

#[derive(Debug, PartialEq, Eq)]
pub struct UiButtonBundle {
    pub button: UiButton,
    pub position: UiElementPosition,
    pub size: UiElementSize,
    pub tab: UiElementTab,
    pub selected: UiElementSelected,
    pub container: UiElementContainer,
}

#[derive(Debug, PartialEq, Eq)]
pub struct UiTextInputBundle {
    pub text_input: UiTextInput,
    pub position: UiElementPosition,
    pub size: UiElementSize,
    pub tab: UiElementTab,
    pub selected: UiElementSelected,
    pub container: UiElementContainer,
}

#[derive(Debug, PartialEq, Eq)]
pub struct UiCheckboxBundle {
    pub checkbox: UiCheckbox,
    pub position: UiElementPosition,
    pub size: UiElementSize,
    pub tab: UiElementTab,
    pub selected: UiElementSelected,
    pub container: UiElementContainer,
}

#[derive(Debug, PartialEq, Eq)]
pub struct UiRadioButtonBundle {
    pub radio_button: UiRadioButton,
    pub position: UiElementPosition,
    pub size: UiElementSize,
    pub tab: UiElementTab,
    pub selected: UiElementSelected,
    pub container: UiElementContainer,
}

#[derive(Debug, PartialEq, Eq)]
pub struct UiGroupBoxBundle {
    pub group_box: UiGroupBox,
    pub position: UiElementPosition,
    pub size: UiElementSize,
    pub tab: UiElementTab,
    pub selected: UiElementSelected,
    pub container: UiElementContainer,
}

impl UiButtonBundle {
    /// The bundle as one that a world spawns.
    pub fn into_bundle(self) -> (bundle: UiElementBundle)
        ensures
            bundle == (UiElementBundle {
                widget: WidgetKind::Button(self.button),
                position: self.position,
                size: self.size,
                tab: self.tab,
                selected: self.selected,
                container: self.container,
            }),
    {
        UiElementBundle {
            widget: WidgetKind::Button(self.button),
            position: self.position,
            size: self.size,
            tab: self.tab,
            selected: self.selected,
            container: self.container,
        }
    }
}

impl UiTextInputBundle {
    /// The bundle as one that a world spawns.
    pub fn into_bundle(self) -> (bundle: UiElementBundle)
        ensures
            bundle == (UiElementBundle {
                widget: WidgetKind::TextInput(self.text_input),
                position: self.position,
                size: self.size,
                tab: self.tab,
                selected: self.selected,
                container: self.container,
            }),
    {
        UiElementBundle {
            widget: WidgetKind::TextInput(self.text_input),
            position: self.position,
            size: self.size,
            tab: self.tab,
            selected: self.selected,
            container: self.container,
        }
    }
}

impl UiCheckboxBundle {
    /// The bundle as one that a world spawns.
    pub fn into_bundle(self) -> (bundle: UiElementBundle)
        ensures
            bundle == (UiElementBundle {
                widget: WidgetKind::Checkbox(self.checkbox),
                position: self.position,
                size: self.size,
                tab: self.tab,
                selected: self.selected,
                container: self.container,
            }),
    {
        UiElementBundle {
            widget: WidgetKind::Checkbox(self.checkbox),
            position: self.position,
            size: self.size,
            tab: self.tab,
            selected: self.selected,
            container: self.container,
        }
    }
}

impl UiRadioButtonBundle {
    /// The bundle as one that a world spawns.
    pub fn into_bundle(self) -> (bundle: UiElementBundle)
        ensures
            bundle == (UiElementBundle {
                widget: WidgetKind::RadioButton(self.radio_button),
                position: self.position,
                size: self.size,
                tab: self.tab,
                selected: self.selected,
                container: self.container,
            }),
    {
        UiElementBundle {
            widget: WidgetKind::RadioButton(self.radio_button),
            position: self.position,
            size: self.size,
            tab: self.tab,
            selected: self.selected,
            container: self.container,
        }
    }
}

impl UiGroupBoxBundle {
    /// The bundle as one that a world spawns.
    pub fn into_bundle(self) -> (bundle: UiElementBundle)
        ensures
            bundle == (UiElementBundle {
                widget: WidgetKind::GroupBox(self.group_box),
                position: self.position,
                size: self.size,
                tab: self.tab,
                selected: self.selected,
                container: self.container,
            }),
    {
        UiElementBundle {
            widget: WidgetKind::GroupBox(self.group_box),
            position: self.position,
            size: self.size,
            tab: self.tab,
            selected: self.selected,
            container: self.container,
        }
    }
}

} // verus!
