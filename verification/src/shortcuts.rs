//! Keyboard shortcuts and the double click that switches the edit mode.

use vstd::prelude::*;
use crate::batch::delete_selected_elements;
use crate::batch::deletion_message;
use crate::batch::without_selected;
use crate::components::UiElement;
use crate::drag::selection_message;
use crate::grid::GridSettings;
use crate::logging::add_designer_log;
use crate::logging::logged;
use crate::selection::clear_all_selections;
use crate::selection::select_all_elements;
use crate::selection::selected_count;
use crate::selection::with_all_selected;
use crate::selection::with_none_selected;
use crate::text::push_decimal;
use crate::world::DesignerPanels;
use crate::world::DesignerWorld;

verus! {

/// The keys that the designer listens to, as pressed in one frame.
#[derive(Clone, Copy, Debug, PartialEq, Eq, Structural)]
pub struct KeyboardInput {
    pub g_pressed: bool,
    pub delete_pressed: bool,
    pub a_pressed: bool,
    pub escape_pressed: bool,
    pub ctrl_held: bool,
}

/// `after` is `before` with `message` written to the event log where
/// `written` holds, and `before` itself where it does not.
pub open spec fn logged_if(
    written: bool,
    before: DesignerPanels,
    after: DesignerPanels,
    message: Seq<char>,
) -> bool {
    if written {
        logged(before, after, message)
    } else {
        after == before
    }
}

/// What the event log is told when the grid is switched.
pub open spec fn grid_message(shown: bool) -> Seq<char> {
    if shown {
        "Grid enabled"@
    } else {
        "Grid disabled"@
    }
}

/// What the event log is told when the edit mode is switched.
pub open spec fn edit_mode_message(on: bool) -> Seq<char> {
    if on {
        "Edit mode enabled"@
    } else {
        "Edit mode disabled"@
    }
}

/// The widgets after the keys of one frame were handled: Delete removes the
/// selected widgets, then Ctrl+A selects all that are left, then Escape
/// drops the selection.
pub open spec fn elements_after_keys(keys: KeyboardInput, elements: Seq<UiElement>) -> Seq<UiElement> {
    let deleted = if keys.delete_pressed {
        without_selected(elements)
    } else {
        elements
    };
    let selected = if keys.ctrl_held && keys.a_pressed {
        with_all_selected(deleted)
    } else {
        deleted
    };
    if keys.escape_pressed {
        with_none_selected(selected)
    } else {
        selected
    }
}

/// What G writes to the event log: the new state of the grid.
pub open spec fn grid_key_logged(
    keys: KeyboardInput,
    show_grid: bool,
    before: DesignerPanels,
    after: DesignerPanels,
) -> bool {
    logged_if(keys.g_pressed, before, after, grid_message(!show_grid))
}

/// What Delete writes to the event log: the number of deleted widgets,
/// where any was deleted.
pub open spec fn delete_key_logged(
    keys: KeyboardInput,
    elements: Seq<UiElement>,
    before: DesignerPanels,
    after: DesignerPanels,
) -> bool {
    logged_if(
        keys.delete_pressed && selected_count(elements) > 0,
        before,
        after,
        deletion_message(selected_count(elements)),
    )
}

/// What Ctrl+A writes to the event log: the number of widgets, all of them
/// now selected.
pub open spec fn select_all_logged(
    keys: KeyboardInput,
    elements: Seq<UiElement>,
    before: DesignerPanels,
    after: DesignerPanels,
) -> bool {
    logged_if(
        keys.ctrl_held && keys.a_pressed,
        before,
        after,
        selection_message(
            (if keys.delete_pressed {
                without_selected(elements)
            } else {
                elements
            }).len(),
        ),
    )
}

/// Whether the panels `after` are the panels `before` with what the keys of
/// one frame write to the event log, in this order: for G, for Delete, and
/// for Ctrl+A.
pub open spec fn panels_after_keys(
    keys: KeyboardInput,
    elements: Seq<UiElement>,
    show_grid: bool,
    before: DesignerPanels,
    after: DesignerPanels,
) -> bool {
    exists|first: DesignerPanels, second: DesignerPanels|
        {
            &&& #[trigger] grid_key_logged(keys, show_grid, before, first)
            &&& #[trigger] delete_key_logged(keys, elements, first, second)
            &&& select_all_logged(keys, elements, second, after)
        }
}

/// Handles the keys of one frame. G shows or hides the grid; Delete removes
/// the selected widgets; Ctrl+A selects every widget; Escape drops the
/// selection.
pub fn handle_keyboard_shortcuts(
    keys: &KeyboardInput,
    world: &mut DesignerWorld,
    grid_settings: &mut GridSettings,
)
    requires
        old(world).wf(),
    ensures
        final(world).wf(),
        final(world)@ == elements_after_keys(*keys, old(world)@),
        *final(grid_settings) == (GridSettings {
            show_grid: old(grid_settings).show_grid != keys.g_pressed,
            ..*old(grid_settings)
        }),
        final(world).spec_next_id() == old(world).spec_next_id(),
        panels_after_keys(
            *keys,
            old(world)@,
            old(grid_settings).show_grid,
            old(world).spec_panels(),
            final(world).spec_panels(),
        ),
{
    if keys.g_pressed {
        grid_settings.show_grid = !grid_settings.show_grid;
        if grid_settings.show_grid {
            add_designer_log(world, "Grid enabled");
        } else {
            add_designer_log(world, "Grid disabled");
        }
    }
    let ghost first = world.spec_panels();
    if keys.delete_pressed {
        delete_selected_elements(world);
    }
    let ghost second = world.spec_panels();
    if keys.ctrl_held && keys.a_pressed {
        let count = select_all_elements(world);
        let mut message = String::from_str("Selected ");
        push_decimal(&mut message, count as u64);
        message.append(" elements");
        add_designer_log(world, message.as_str());
    }
    if keys.escape_pressed {
        clear_all_selections(world);
    }
    proof {
        assert(grid_key_logged(
            *keys,
            old(grid_settings).show_grid,
            old(world).spec_panels(),
            first,
        ));
        assert(delete_key_logged(*keys, old(world)@, first, second));
        assert(select_all_logged(*keys, old(world)@, second, world.spec_panels()));
    }
}

/// Switches the edit mode on a double click and tells the event log.
pub fn handle_double_click_edit(double_clicked: bool, world: &mut DesignerWorld, edit_mode: &mut bool)
    ensures
        final(world)@ == old(world)@,
        final(world).wf() == old(world).wf(),
        final(world).spec_next_id() == old(world).spec_next_id(),
        *final(edit_mode) == (*old(edit_mode) != double_clicked),
        logged_if(
            double_clicked,
            old(world).spec_panels(),
            final(world).spec_panels(),
            edit_mode_message(!*old(edit_mode)),
        ),
{
    if double_clicked {
        *edit_mode = !*edit_mode;
        if *edit_mode {
            add_designer_log(world, "Edit mode enabled");
        } else {
            add_designer_log(world, "Edit mode disabled");
        }
    }
}

} // verus!
