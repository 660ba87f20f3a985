use mobius_designer::components::{TabKind, UiElementPosition};
use mobius_designer::designer::{add_ui_button, add_ui_group_box, create_designer_world};
use mobius_designer::drag::{
    handle_drag_selection_in_work_area, handle_selection_box, DragSelection, PointerState,
    SelectionState, WorkAreaResponse,
};
use mobius_designer::geometry::{Pos2, Rect};
use mobius_designer::selection::{
    clear_all_selections, count_selected_elements, element_hit_rect, is_clicking_on_widget,
    select_all_elements, select_elements_in_rect, selected_ids,
};
use mobius_designer::world::DesignerWorld;
use mobius_designer::Entity;

fn flags(world: &DesignerWorld) -> Vec<bool> {
    world.elements().iter().map(|e| e.selected.selected).collect()
}

fn sample_world() -> (DesignerWorld, Vec<Entity>) {
    let mut world = create_designer_world();
    let a = add_ui_button(&mut world, "a".to_string(), 0, 0, TabKind::MainWork);
    let b = add_ui_button(&mut world, "b".to_string(), 300, 0, TabKind::MainWork);
    let c = add_ui_group_box(&mut world, "c".to_string(), 0, 200, 400, 300, TabKind::MainWork);
    (world, vec![a, b, c])
}

fn quiet() -> WorkAreaResponse {
    WorkAreaResponse {
        drag_started: false,
        clicked: false,
        dragged: false,
        drag_stopped: false,
        interact_pointer_pos: None,
        ctrl_held: false,
        escape_pressed: false,
    }
}

#[test]
fn a_drag_rectangle_selects_what_it_reaches() {
    let (mut world, ids) = sample_world();
    select_elements_in_rect(&mut world, Rect::from_two_pos(Pos2::new(50, 10), Pos2::new(60, 20)));
    assert_eq!(flags(&world), vec![true, false, false]);
    assert_eq!(selected_ids(&world), vec![ids[0]]);
    assert_eq!(count_selected_elements(&world), 1);
}

#[test]
fn a_widget_outside_the_rectangle_is_not_selected() {
    let (mut world, _) = sample_world();
    select_elements_in_rect(&mut world, Rect::from_two_pos(Pos2::new(101, 31), Pos2::new(299, 199)));
    assert_eq!(flags(&world), vec![false, false, false]);
}

#[test]
fn a_widget_inside_or_overlapping_is_selected() {
    let (mut world, _) = sample_world();
    select_elements_in_rect(&mut world, Rect::from_two_pos(Pos2::new(-10, -10), Pos2::new(350, 250)));
    assert_eq!(flags(&world), vec![true, true, true]);
}

#[test]
fn a_rectangle_that_touches_an_edge_selects() {
    let (mut world, _) = sample_world();
    select_elements_in_rect(&mut world, Rect::from_two_pos(Pos2::new(100, 30), Pos2::new(200, 100)));
    assert_eq!(flags(&world), vec![true, false, false]);
}

#[test]
fn a_selected_widget_stays_selected_when_the_rectangle_misses_it() {
    let (mut world, ids) = sample_world();
    world.get_selected_mut(ids[1]).unwrap().selected = true;
    select_elements_in_rect(&mut world, Rect::from_two_pos(Pos2::new(0, 0), Pos2::new(10, 10)));
    assert_eq!(flags(&world), vec![true, true, false]);
}

#[test]
fn a_small_widget_is_hit_at_its_least_visual_size() {
    let mut world = create_designer_world();
    let a = add_ui_group_box(&mut world, "a".to_string(), 10, 10, 0, 0, TabKind::MainWork);
    let rect = element_hit_rect(world.get(a).unwrap());
    assert_eq!(rect, Rect { min: Pos2::new(10, 10), max: Pos2::new(110, 35) });
    assert!(is_clicking_on_widget(&world, Pos2::new(110, 35)));
    assert!(!is_clicking_on_widget(&world, Pos2::new(111, 35)));
    select_elements_in_rect(&mut world, Rect::from_two_pos(Pos2::new(100, 30), Pos2::new(500, 500)));
    assert_eq!(flags(&world), vec![true]);
}

#[test]
fn select_all_and_clear_all() {
    let (mut world, ids) = sample_world();
    assert_eq!(select_all_elements(&mut world), 3);
    assert_eq!(flags(&world), vec![true, true, true]);
    assert_eq!(selected_ids(&world), ids);
    clear_all_selections(&mut world);
    assert_eq!(flags(&world), vec![false, false, false]);
    assert_eq!(count_selected_elements(&world), 0);
    assert!(selected_ids(&world).is_empty());
}

#[test]
fn a_drag_over_the_canvas_selects_and_is_logged() {
    let (mut world, ids) = sample_world();
    world.get_selected_mut(ids[1]).unwrap().selected = true;
    let mut drag: Option<DragSelection> = None;
    let press = WorkAreaResponse {
        drag_started: true,
        interact_pointer_pos: Some(Pos2::new(150, 100)),
        ..quiet()
    };
    assert_eq!(handle_drag_selection_in_work_area(&press, &mut world, &mut drag), None);
    assert_eq!(
        drag,
        Some(DragSelection {
            start_pos: Pos2::new(150, 100),
            current_pos: Pos2::new(150, 100),
            is_active: true
        })
    );
    assert_eq!(flags(&world), vec![false, false, false]);
    let moved = WorkAreaResponse {
        dragged: true,
        interact_pointer_pos: Some(Pos2::new(90, 20)),
        ..quiet()
    };
    assert_eq!(handle_drag_selection_in_work_area(&moved, &mut world, &mut drag), None);
    assert_eq!(drag.unwrap().current_pos, Pos2::new(90, 20));
    assert_eq!(flags(&world), vec![true, false, false]);
    let further = WorkAreaResponse {
        dragged: true,
        interact_pointer_pos: Some(Pos2::new(140, 250)),
        ..quiet()
    };
    handle_drag_selection_in_work_area(&further, &mut world, &mut drag);
    assert_eq!(flags(&world), vec![true, false, true]);
    let before = world.panels().event_logger.as_ref().unwrap().entries.len();
    let release = WorkAreaResponse { drag_stopped: true, ..quiet() };
    assert_eq!(handle_drag_selection_in_work_area(&release, &mut world, &mut drag), Some(2));
    assert_eq!(drag, None);
    let entries = &world.panels().event_logger.as_ref().unwrap().entries;
    assert_eq!(entries.len(), before + 1);
    assert_eq!(entries[0].message, "Selected 2 elements");
}

#[test]
fn a_press_on_a_widget_starts_no_drag() {
    let (mut world, ids) = sample_world();
    world.get_selected_mut(ids[1]).unwrap().selected = true;
    let mut drag: Option<DragSelection> = None;
    let press = WorkAreaResponse {
        drag_started: true,
        interact_pointer_pos: Some(Pos2::new(50, 10)),
        ..quiet()
    };
    assert_eq!(handle_drag_selection_in_work_area(&press, &mut world, &mut drag), None);
    assert_eq!(drag, None);
    assert_eq!(flags(&world), vec![false, true, false]);
}

#[test]
fn the_adding_key_keeps_the_selection() {
    let (mut world, ids) = sample_world();
    world.get_selected_mut(ids[1]).unwrap().selected = true;
    let mut drag: Option<DragSelection> = None;
    let press = WorkAreaResponse {
        drag_started: true,
        ctrl_held: true,
        interact_pointer_pos: Some(Pos2::new(150, 100)),
        ..quiet()
    };
    handle_drag_selection_in_work_area(&press, &mut world, &mut drag);
    assert!(drag.is_some());
    assert_eq!(flags(&world), vec![false, true, false]);
    let click = WorkAreaResponse { clicked: true, ctrl_held: true, ..quiet() };
    handle_drag_selection_in_work_area(&click, &mut world, &mut drag);
    assert_eq!(flags(&world), vec![false, true, false]);
}

#[test]
fn a_click_on_the_canvas_drops_the_selection() {
    let (mut world, ids) = sample_world();
    world.get_selected_mut(ids[1]).unwrap().selected = true;
    let mut drag: Option<DragSelection> = None;
    let click = WorkAreaResponse { clicked: true, ..quiet() };
    assert_eq!(handle_drag_selection_in_work_area(&click, &mut world, &mut drag), None);
    assert_eq!(flags(&world), vec![false, false, false]);
}

#[test]
fn a_tiny_drag_is_a_click() {
    let (mut world, _) = sample_world();
    let mut drag = Some(DragSelection {
        start_pos: Pos2::new(150, 100),
        current_pos: Pos2::new(150, 100),
        is_active: true,
    });
    let before = world.panels().event_logger.as_ref().unwrap().entries.len();
    let release = WorkAreaResponse {
        dragged: true,
        drag_stopped: true,
        interact_pointer_pos: Some(Pos2::new(155, 300)),
        ..quiet()
    };
    assert_eq!(handle_drag_selection_in_work_area(&release, &mut world, &mut drag), None);
    assert_eq!(drag, None);
    assert_eq!(world.panels().event_logger.as_ref().unwrap().entries.len(), before);
    let mut drag = Some(DragSelection {
        start_pos: Pos2::new(150, 100),
        current_pos: Pos2::new(150, 100),
        is_active: true,
    });
    let release = WorkAreaResponse {
        dragged: true,
        drag_stopped: true,
        interact_pointer_pos: Some(Pos2::new(156, 106)),
        ..quiet()
    };
    assert_eq!(handle_drag_selection_in_work_area(&release, &mut world, &mut drag), Some(1));
}

#[test]
fn escape_drops_selection_and_drag() {
    let (mut world, _) = sample_world();
    select_all_elements(&mut world);
    let mut drag = Some(DragSelection {
        start_pos: Pos2::new(150, 100),
        current_pos: Pos2::new(160, 100),
        is_active: true,
    });
    let escape = WorkAreaResponse { escape_pressed: true, ..quiet() };
    assert_eq!(handle_drag_selection_in_work_area(&escape, &mut world, &mut drag), None);
    assert_eq!(drag, None);
    assert_eq!(flags(&world), vec![false, false, false]);
}

#[test]
fn a_drag_that_is_not_active_is_left_alone() {
    let (mut world, _) = sample_world();
    let idle = DragSelection::default();
    assert!(!idle.is_active);
    let mut drag = Some(idle);
    let moved = WorkAreaResponse {
        dragged: true,
        drag_stopped: true,
        interact_pointer_pos: Some(Pos2::new(0, 0)),
        ..quiet()
    };
    assert_eq!(handle_drag_selection_in_work_area(&moved, &mut world, &mut drag), None);
    assert_eq!(drag, Some(idle));
    assert_eq!(flags(&world), vec![false, false, false]);
}

#[test]
fn the_selection_box_selects_on_release() {
    let (mut world, ids) = sample_world();
    world.get_selected_mut(ids[2]).unwrap().selected = true;
    let mut state = SelectionState::default();
    state.selected_entities.push(ids[2]);
    let press = PointerState {
        primary_pressed: true,
        primary_released: false,
        interact_pos: Some(Pos2::new(350, 10)),
    };
    handle_selection_box(&press, &mut world, &mut state);
    assert!(state.selecting);
    assert_eq!(state.start_pos, Pos2::new(350, 10));
    assert_eq!(flags(&world), vec![false, false, false]);
    assert_eq!(state.selected_entities, vec![ids[2]]);
    let moved = PointerState {
        primary_pressed: false,
        primary_released: false,
        interact_pos: Some(Pos2::new(90, 20)),
    };
    handle_selection_box(&moved, &mut world, &mut state);
    assert_eq!(state.current_pos, Pos2::new(90, 20));
    assert_eq!(flags(&world), vec![false, false, false]);
    let release = PointerState {
        primary_pressed: false,
        primary_released: true,
        interact_pos: Some(Pos2::new(80, 20)),
    };
    handle_selection_box(&release, &mut world, &mut state);
    assert!(!state.selecting);
    assert_eq!(state.current_pos, Pos2::new(80, 20));
    assert_eq!(flags(&world), vec![true, true, false]);
    assert!(state.selected_entities.is_empty());
    assert_eq!(world.get(ids[0]).unwrap().position, UiElementPosition { x: 0, y: 0 });
}

#[test]
fn the_selection_box_ignores_a_release_without_a_press() {
    let (mut world, _) = sample_world();
    let mut state = SelectionState::default();
    let release = PointerState {
        primary_pressed: false,
        primary_released: true,
        interact_pos: Some(Pos2::new(80, 20)),
    };
    handle_selection_box(&release, &mut world, &mut state);
    assert!(!state.selecting);
    assert_eq!(state.current_pos, Pos2::new(0, 0));
    assert_eq!(flags(&world), vec![false, false, false]);
}
