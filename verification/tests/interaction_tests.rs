use mobius_designer::batch::{
    apply_offset_to_selected, clear_all_ui_elements, delete_selected_elements, despawn_selected,
    edit_enabled_of_selected, scale_selected, set_size_of_selected, EnableEdit,
};
use mobius_designer::components::{TabKind, UiElementPosition, UiElementSize, WidgetKind};
use mobius_designer::designer::{
    add_ui_button, add_ui_checkbox, add_ui_group_box, add_ui_radio_button, add_ui_text_input,
    create_designer_world,
};
use mobius_designer::geometry::Vec2;
use mobius_designer::grid::GridSettings;
use mobius_designer::interaction::{
    handle_drag, move_selected_elements, press_button, reset_button_clicks, resize_element,
    select_radio_button, toggle_element_selection,
};
use mobius_designer::selection::select_all_elements;
use mobius_designer::shortcuts::{handle_double_click_edit, handle_keyboard_shortcuts, KeyboardInput};
use mobius_designer::world::DesignerWorld;
use mobius_designer::Entity;

fn radio_flags(world: &DesignerWorld) -> Vec<Option<bool>> {
    world
        .elements()
        .iter()
        .map(|e| match &e.widget {
            WidgetKind::RadioButton(r) => Some(r.selected),
            _ => None,
        })
        .collect()
}

fn newest_message(world: &DesignerWorld) -> String {
    world.panels().event_logger.as_ref().unwrap().entries[0].message.clone()
}

fn no_keys() -> KeyboardInput {
    KeyboardInput {
        g_pressed: false,
        delete_pressed: false,
        a_pressed: false,
        escape_pressed: false,
        ctrl_held: false,
    }
}

#[test]
fn a_radio_group_has_one_selected_button() {
    let mut world = create_designer_world();
    let a = add_ui_radio_button(&mut world, "A".to_string(), "g1".to_string(), 0, 0, TabKind::MainWork);
    let b = add_ui_radio_button(&mut world, "B".to_string(), "g1".to_string(), 0, 30, TabKind::MainWork);
    let c = add_ui_radio_button(&mut world, "C".to_string(), "g2".to_string(), 0, 60, TabKind::MainWork);
    let d = add_ui_radio_button(&mut world, "D".to_string(), "g1".to_string(), 0, 90, TabKind::MainWork);
    let button = add_ui_button(&mut world, "x".to_string(), 0, 120, TabKind::MainWork);
    assert!(select_radio_button(&mut world, c));
    assert!(select_radio_button(&mut world, a));
    assert_eq!(radio_flags(&world), vec![Some(true), Some(false), Some(true), Some(false), None]);
    assert!(select_radio_button(&mut world, d));
    assert_eq!(radio_flags(&world), vec![Some(false), Some(false), Some(true), Some(true), None]);
    assert!(select_radio_button(&mut world, b));
    assert_eq!(radio_flags(&world), vec![Some(false), Some(true), Some(true), Some(false), None]);
    assert!(!select_radio_button(&mut world, button));
    assert!(!select_radio_button(&mut world, Entity::from_bits(999)));
    assert_eq!(radio_flags(&world), vec![Some(false), Some(true), Some(true), Some(false), None]);
}

#[test]
fn selected_widgets_move_together() {
    let mut world = create_designer_world();
    let a = add_ui_button(&mut world, "a".to_string(), 0, 0, TabKind::MainWork);
    let b = add_ui_button(&mut world, "b".to_string(), 10, 10, TabKind::MainWork);
    let c = add_ui_button(&mut world, "c".to_string(), 20, 20, TabKind::MainWork);
    world.get_selected_mut(a).unwrap().selected = true;
    world.get_selected_mut(c).unwrap().selected = true;
    move_selected_elements(&mut world, Vec2::new(7, -3), false, 20);
    assert_eq!(world.get(a).unwrap().position, UiElementPosition { x: 7, y: -3 });
    assert_eq!(world.get(b).unwrap().position, UiElementPosition { x: 10, y: 10 });
    assert_eq!(world.get(c).unwrap().position, UiElementPosition { x: 27, y: 17 });
    move_selected_elements(&mut world, Vec2::new(4, 4), true, 20);
    assert_eq!(world.get(a).unwrap().position, UiElementPosition { x: 20, y: 0 });
    assert_eq!(world.get(c).unwrap().position, UiElementPosition { x: 40, y: 20 });
    move_selected_elements(&mut world, Vec2::new(3, 3), true, 0);
    assert_eq!(world.get(a).unwrap().position, UiElementPosition { x: 23, y: 3 });
}

#[test]
fn a_drag_moves_one_widget_and_a_stale_handle_none() {
    let mut world = create_designer_world();
    let a = add_ui_button(&mut world, "a".to_string(), 0, 0, TabKind::MainWork);
    let b = add_ui_button(&mut world, "b".to_string(), 10, 10, TabKind::MainWork);
    assert!(handle_drag(&mut world, b, Vec2::new(16, 29), true, 10));
    assert_eq!(world.get(b).unwrap().position, UiElementPosition { x: 30, y: 40 });
    assert!(handle_drag(&mut world, a, Vec2::new(i32::MAX, i32::MIN), false, 10));
    assert_eq!(world.get(a).unwrap().position, UiElementPosition { x: i32::MAX, y: i32::MIN });
    world.despawn(b);
    assert!(!handle_drag(&mut world, b, Vec2::new(1, 1), false, 10));
    assert_eq!(world.len(), 1);
}

#[test]
fn resizing_stays_between_the_least_and_the_greatest_size() {
    let mut world = create_designer_world();
    let a = add_ui_button(&mut world, "a".to_string(), 0, 0, TabKind::MainWork);
    assert!(resize_element(&mut world, a, Vec2::new(100, 30), Vec2::new(20, 5)));
    assert_eq!(world.get(a).unwrap().size, UiElementSize { width: 120, height: 35 });
    assert!(resize_element(&mut world, a, Vec2::new(120, 35), Vec2::new(-500, -500)));
    assert_eq!(world.get(a).unwrap().size, UiElementSize { width: 60, height: 25 });
    assert!(resize_element(&mut world, a, Vec2::new(60, 25), Vec2::new(i32::MAX, i32::MAX)));
    assert_eq!(world.get(a).unwrap().size, UiElementSize { width: 300, height: 100 });
    assert!(!resize_element(&mut world, Entity::from_bits(77), Vec2::new(1, 1), Vec2::new(1, 1)));
}

#[test]
fn a_click_in_edit_mode_toggles_the_selection() {
    let mut world = create_designer_world();
    let a = add_ui_button(&mut world, "a".to_string(), 0, 0, TabKind::MainWork);
    assert!(toggle_element_selection(&mut world, a));
    assert!(world.get(a).unwrap().selected.selected);
    assert!(toggle_element_selection(&mut world, a));
    assert!(!world.get(a).unwrap().selected.selected);
    assert!(!toggle_element_selection(&mut world, Entity::from_bits(5)));
}

#[test]
fn a_pressed_button_is_released_after_a_tenth_of_a_second() {
    let mut world = create_designer_world();
    let a = add_ui_button(&mut world, "a".to_string(), 0, 0, TabKind::MainWork);
    let b = add_ui_checkbox(&mut world, "b".to_string(), 0, 0, TabKind::MainWork);
    assert!(press_button(&mut world, a, 1000));
    assert!(press_button(&mut world, b, 1000));
    assert!(press_button(&mut world, a, 1050));
    let pressed = |world: &DesignerWorld| match &world.get(a).unwrap().widget {
        WidgetKind::Button(button) => (button.clicked, button.click_time),
        _ => panic!("not a button"),
    };
    assert_eq!(pressed(&world), (true, Some(1000)));
    reset_button_clicks(&mut world, 1100);
    assert_eq!(pressed(&world), (true, Some(1000)));
    reset_button_clicks(&mut world, 900);
    assert_eq!(pressed(&world), (true, Some(1000)));
    reset_button_clicks(&mut world, 1101);
    assert_eq!(pressed(&world), (false, None));
    assert!(!press_button(&mut world, Entity::from_bits(50), 0));
}

#[test]
fn batch_edits_apply_to_the_selection() {
    let mut world = create_designer_world();
    let a = add_ui_button(&mut world, "a".to_string(), 0, 0, TabKind::MainWork);
    let b = add_ui_text_input(&mut world, "b".to_string(), 10, 10, TabKind::MainWork);
    let c = add_ui_group_box(&mut world, "c".to_string(), 20, 20, 15, 25, TabKind::MainWork);
    world.get_selected_mut(a).unwrap().selected = true;
    world.get_selected_mut(c).unwrap().selected = true;
    assert_eq!(apply_offset_to_selected(&mut world, 5, -7), 2);
    assert_eq!(world.get(a).unwrap().position, UiElementPosition { x: 5, y: -7 });
    assert_eq!(world.get(b).unwrap().position, UiElementPosition { x: 10, y: 10 });
    assert_eq!(world.get(c).unwrap().position, UiElementPosition { x: 25, y: 13 });
    assert_eq!(scale_selected(&mut world, 150), 2);
    assert_eq!(world.get(a).unwrap().size, UiElementSize { width: 150, height: 45 });
    assert_eq!(world.get(b).unwrap().size, UiElementSize { width: 200, height: 50 });
    assert_eq!(world.get(c).unwrap().size, UiElementSize { width: 23, height: 38 });
    assert_eq!(scale_selected(&mut world, 10), 2);
    assert_eq!(world.get(c).unwrap().size, UiElementSize { width: 2, height: 4 });
    assert_eq!(set_size_of_selected(&mut world, UiElementSize { width: 80, height: 20 }), 2);
    assert_eq!(world.get(a).unwrap().size, UiElementSize { width: 80, height: 20 });
    assert_eq!(world.get(c).unwrap().size, UiElementSize { width: 80, height: 20 });
    assert_eq!(edit_enabled_of_selected(&mut world, EnableEdit::DisableAll), 2);
    assert!(!world.get(a).unwrap().widget.enabled());
    assert!(world.get(b).unwrap().widget.enabled());
    assert!(!world.get(c).unwrap().widget.enabled());
    world.get_selected_mut(b).unwrap().selected = true;
    assert_eq!(edit_enabled_of_selected(&mut world, EnableEdit::ToggleAll), 3);
    assert!(world.get(a).unwrap().widget.enabled());
    assert!(!world.get(b).unwrap().widget.enabled());
    assert_eq!(edit_enabled_of_selected(&mut world, EnableEdit::EnableAll), 3);
    assert!(world.get(b).unwrap().widget.enabled());
}

#[test]
fn deleting_the_selection_keeps_the_rest_in_order() {
    let mut world = create_designer_world();
    let a = add_ui_button(&mut world, "a".to_string(), 0, 0, TabKind::MainWork);
    let b = add_ui_button(&mut world, "b".to_string(), 0, 0, TabKind::MainWork);
    let c = add_ui_button(&mut world, "c".to_string(), 0, 0, TabKind::MainWork);
    let d = add_ui_button(&mut world, "d".to_string(), 0, 0, TabKind::MainWork);
    world.get_selected_mut(a).unwrap().selected = true;
    world.get_selected_mut(c).unwrap().selected = true;
    delete_selected_elements(&mut world);
    let left: Vec<Entity> = world.elements().iter().map(|e| e.entity).collect();
    assert_eq!(left, vec![b, d]);
    assert_eq!(newest_message(&world), "Deleted 2 elements");
    let before = world.panels().event_logger.as_ref().unwrap().entries.len();
    delete_selected_elements(&mut world);
    assert_eq!(world.len(), 2);
    assert_eq!(world.panels().event_logger.as_ref().unwrap().entries.len(), before);
    select_all_elements(&mut world);
    assert_eq!(despawn_selected(&mut world), 2);
    assert_eq!(world.len(), 0);
}

#[test]
fn clearing_removes_every_widget_and_keeps_the_panels() {
    let mut world = create_designer_world();
    add_ui_button(&mut world, "a".to_string(), 0, 0, TabKind::MainWork);
    add_ui_checkbox(&mut world, "b".to_string(), 0, 0, TabKind::Controls);
    clear_all_ui_elements(&mut world);
    assert_eq!(world.len(), 0);
    assert_eq!(newest_message(&world), "Cleared all UI elements");
    assert!(world.panels().grid_settings.is_some());
}

#[test]
fn keyboard_shortcuts() {
    let mut world = create_designer_world();
    let a = add_ui_button(&mut world, "a".to_string(), 0, 0, TabKind::MainWork);
    let b = add_ui_button(&mut world, "b".to_string(), 0, 0, TabKind::MainWork);
    let mut grid = GridSettings::default();
    handle_keyboard_shortcuts(&KeyboardInput { g_pressed: true, ..no_keys() }, &mut world, &mut grid);
    assert!(grid.show_grid);
    assert_eq!(newest_message(&world), "Grid enabled");
    handle_keyboard_shortcuts(&KeyboardInput { g_pressed: true, ..no_keys() }, &mut world, &mut grid);
    assert!(!grid.show_grid);
    assert_eq!(newest_message(&world), "Grid disabled");
    handle_keyboard_shortcuts(&KeyboardInput { a_pressed: true, ..no_keys() }, &mut world, &mut grid);
    assert!(!world.get(a).unwrap().selected.selected);
    handle_keyboard_shortcuts(
        &KeyboardInput { a_pressed: true, ctrl_held: true, ..no_keys() },
        &mut world,
        &mut grid,
    );
    assert!(world.get(a).unwrap().selected.selected && world.get(b).unwrap().selected.selected);
    assert_eq!(newest_message(&world), "Selected 2 elements");
    handle_keyboard_shortcuts(&KeyboardInput { escape_pressed: true, ..no_keys() }, &mut world, &mut grid);
    assert!(!world.get(a).unwrap().selected.selected && !world.get(b).unwrap().selected.selected);
    world.get_selected_mut(b).unwrap().selected = true;
    handle_keyboard_shortcuts(&KeyboardInput { delete_pressed: true, ..no_keys() }, &mut world, &mut grid);
    assert_eq!(world.len(), 1);
    assert!(world.get(b).is_none());
    assert_eq!(newest_message(&world), "Deleted 1 elements");
    assert_eq!(grid, GridSettings::default());
}

#[test]
fn a_double_click_switches_the_edit_mode() {
    let mut world = create_designer_world();
    let mut edit_mode = false;
    handle_double_click_edit(false, &mut world, &mut edit_mode);
    assert!(!edit_mode);
    assert_eq!(newest_message(&world), "Designer initialized");
    handle_double_click_edit(true, &mut world, &mut edit_mode);
    assert!(edit_mode);
    assert_eq!(newest_message(&world), "Edit mode enabled");
    handle_double_click_edit(true, &mut world, &mut edit_mode);
    assert!(!edit_mode);
    assert_eq!(newest_message(&world), "Edit mode disabled");
}
