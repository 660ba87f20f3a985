use mobius_designer::components::{TabKind, UiElementPosition, UiElementSize};
use mobius_designer::designer::{add_ui_button, add_ui_group_box, create_designer_world};
use mobius_designer::distribution::{
    align_selected_elements_bottom, align_selected_elements_left, align_selected_elements_right,
    align_selected_elements_top, arrange_elements_in_column,
    arrange_elements_in_column_with_spacing, arrange_elements_in_row,
    arrange_elements_in_row_with_spacing, distribute_along, distribute_items_horizontally,
    distribute_items_vertically, Axis, Picked,
};
use mobius_designer::sorting::sort_picked;
use mobius_designer::panels::DistributionSettings;
use mobius_designer::selection::select_all_elements;
use mobius_designer::world::DesignerWorld;
use mobius_designer::Entity;

fn positions(world: &DesignerWorld) -> Vec<(i32, i32)> {
    world.elements().iter().map(|e| (e.position.x, e.position.y)).collect()
}

fn newest_message(world: &DesignerWorld) -> String {
    world.panels().event_logger.as_ref().unwrap().entries[0].message.clone()
}

fn world_with_buttons(at: &[(i32, i32)]) -> (DesignerWorld, Vec<Entity>) {
    let mut world = create_designer_world();
    let mut ids = Vec::new();
    for (i, (x, y)) in at.iter().enumerate() {
        ids.push(add_ui_button(&mut world, format!("b{}", i), *x, *y, TabKind::MainWork));
    }
    (world, ids)
}

fn select(world: &mut DesignerWorld, ids: &[Entity]) {
    for id in ids {
        world.get_selected_mut(*id).unwrap().selected = true;
    }
}

#[test]
fn distribute_three_buttons_vertically() {
    let (mut world, _) = world_with_buttons(&[(0, 0), (50, 100), (20, 40)]);
    select_all_elements(&mut world);
    let settings = DistributionSettings { vertical_spacing: 30, horizontal_spacing: 100 };
    distribute_items_vertically(&mut world, &settings);
    assert_eq!(positions(&world), vec![(0, 0), (50, 60), (20, 30)]);
    assert_eq!(newest_message(&world), "Distributed 3 elements vertically");
}

#[test]
fn distribute_horizontally_starts_at_the_leftmost() {
    let (mut world, _) = world_with_buttons(&[(300, 5), (-40, 6), (10, 7), (0, 8)]);
    select_all_elements(&mut world);
    let settings = DistributionSettings::new();
    assert_eq!(settings.vertical_spacing, 50);
    assert_eq!(settings.horizontal_spacing, 100);
    distribute_items_horizontally(&mut world, &settings);
    assert_eq!(positions(&world), vec![(260, 5), (-40, 6), (160, 7), (60, 8)]);
    assert_eq!(newest_message(&world), "Distributed 4 elements horizontally");
}

#[test]
fn distribute_keeps_entity_order_for_equal_coordinates() {
    let (mut world, _) = world_with_buttons(&[(0, 10), (1, 10), (2, 5), (3, 10)]);
    select_all_elements(&mut world);
    let settings = DistributionSettings { vertical_spacing: 7, horizontal_spacing: 0 };
    distribute_items_vertically(&mut world, &settings);
    assert_eq!(positions(&world), vec![(0, 12), (1, 19), (2, 5), (3, 26)]);
}

#[test]
fn distribute_moves_only_the_selection() {
    let (mut world, ids) = world_with_buttons(&[(0, 0), (0, 500), (0, 100), (0, -20)]);
    select(&mut world, &[ids[0], ids[2], ids[3]]);
    let settings = DistributionSettings { vertical_spacing: 10, horizontal_spacing: 0 };
    distribute_items_vertically(&mut world, &settings);
    assert_eq!(positions(&world), vec![(0, -10), (0, 500), (0, 0), (0, -20)]);
}

#[test]
fn distribute_needs_two_selected() {
    let (mut world, ids) = world_with_buttons(&[(0, 0), (50, 100)]);
    let settings = DistributionSettings::new();
    distribute_items_vertically(&mut world, &settings);
    assert_eq!(positions(&world), vec![(0, 0), (50, 100)]);
    assert_eq!(newest_message(&world), "Need at least 2 selected elements to distribute");
    select(&mut world, &ids[..1]);
    distribute_items_horizontally(&mut world, &settings);
    assert_eq!(positions(&world), vec![(0, 0), (50, 100)]);
    assert_eq!(newest_message(&world), "Need at least 2 selected elements to distribute");
    let entries = &world.panels().event_logger.as_ref().unwrap().entries;
    assert_eq!(entries.len(), 3);
}

#[test]
fn distribute_with_negative_and_zero_spacing() {
    let (mut world, _) = world_with_buttons(&[(0, 0), (0, 10), (0, 20)]);
    select_all_elements(&mut world);
    assert_eq!(distribute_along(&mut world, Axis::Vertical, -5), 3);
    assert_eq!(positions(&world), vec![(0, 0), (0, -5), (0, -10)]);
    let (mut world, _) = world_with_buttons(&[(0, 3), (0, 10), (0, 20)]);
    select_all_elements(&mut world);
    assert_eq!(distribute_along(&mut world, Axis::Vertical, 0), 3);
    assert_eq!(positions(&world), vec![(0, 3), (0, 3), (0, 3)]);
}

#[test]
fn distribute_saturates_at_the_end_of_the_range() {
    let (mut world, _) = world_with_buttons(&[(0, i32::MAX - 10), (0, i32::MAX - 5), (0, i32::MAX)]);
    select_all_elements(&mut world);
    distribute_along(&mut world, Axis::Vertical, 8);
    assert_eq!(positions(&world), vec![(0, i32::MAX - 10), (0, i32::MAX - 2), (0, i32::MAX)]);
}

#[test]
fn align_left_and_top() {
    let (mut world, ids) = world_with_buttons(&[(30, 40), (10, 90), (70, 20), (-5, -5)]);
    select(&mut world, &ids[..3]);
    align_selected_elements_left(&mut world);
    assert_eq!(positions(&world), vec![(10, 40), (10, 90), (10, 20), (-5, -5)]);
    assert_eq!(newest_message(&world), "Aligned 3 elements to left");
    align_selected_elements_top(&mut world);
    assert_eq!(positions(&world), vec![(10, 20), (10, 20), (10, 20), (-5, -5)]);
    assert_eq!(newest_message(&world), "Aligned 3 elements to top");
}

#[test]
fn align_right_and_bottom_use_the_far_edges() {
    let mut world = create_designer_world();
    add_ui_group_box(&mut world, "a".to_string(), 0, 0, 50, 10, TabKind::MainWork);
    add_ui_group_box(&mut world, "b".to_string(), 100, 20, 200, 40, TabKind::MainWork);
    add_ui_group_box(&mut world, "c".to_string(), 250, 5, 20, 100, TabKind::MainWork);
    select_all_elements(&mut world);
    align_selected_elements_right(&mut world);
    assert_eq!(positions(&world), vec![(250, 0), (100, 20), (280, 5)]);
    assert_eq!(newest_message(&world), "Aligned 3 elements to right");
    align_selected_elements_bottom(&mut world);
    assert_eq!(positions(&world), vec![(250, 95), (100, 65), (280, 5)]);
    assert_eq!(newest_message(&world), "Aligned 3 elements to bottom");
}

#[test]
fn aligning_twice_is_aligning_once() {
    let (mut world, _) = world_with_buttons(&[(30, 40), (10, 90), (70, 20)]);
    select_all_elements(&mut world);
    align_selected_elements_left(&mut world);
    let once = positions(&world);
    align_selected_elements_left(&mut world);
    assert_eq!(positions(&world), once);
    align_selected_elements_right(&mut world);
    let once = positions(&world);
    align_selected_elements_right(&mut world);
    assert_eq!(positions(&world), once);
    align_selected_elements_top(&mut world);
    let once = positions(&world);
    align_selected_elements_top(&mut world);
    assert_eq!(positions(&world), once);
    align_selected_elements_bottom(&mut world);
    let once = positions(&world);
    align_selected_elements_bottom(&mut world);
    assert_eq!(positions(&world), once);
}

#[test]
fn align_needs_two_selected() {
    let (mut world, ids) = world_with_buttons(&[(30, 40), (10, 90)]);
    select(&mut world, &ids[..1]);
    align_selected_elements_left(&mut world);
    align_selected_elements_right(&mut world);
    assert_eq!(positions(&world), vec![(30, 40), (10, 90)]);
    assert_eq!(newest_message(&world), "Need at least 2 selected elements to align");
}

#[test]
fn arrange_in_column_stacks_by_height() {
    let mut world = create_designer_world();
    add_ui_group_box(&mut world, "a".to_string(), 40, 200, 50, 10, TabKind::MainWork);
    add_ui_group_box(&mut world, "b".to_string(), 15, 20, 200, 40, TabKind::MainWork);
    add_ui_group_box(&mut world, "c".to_string(), 250, 100, 20, 100, TabKind::MainWork);
    select_all_elements(&mut world);
    arrange_elements_in_column_with_spacing(&mut world, 5);
    assert_eq!(positions(&world), vec![(15, 170), (15, 20), (15, 65)]);
    assert_eq!(newest_message(&world), "Arranged 3 elements in column layout");
    let sizes: Vec<UiElementSize> = world.elements().iter().map(|e| e.size).collect();
    assert_eq!(sizes[1], UiElementSize { width: 200, height: 40 });
}

#[test]
fn arrange_in_row_lines_up_by_width() {
    let mut world = create_designer_world();
    add_ui_group_box(&mut world, "a".to_string(), 40, 200, 50, 10, TabKind::MainWork);
    add_ui_group_box(&mut world, "b".to_string(), 15, 20, 200, 40, TabKind::MainWork);
    add_ui_group_box(&mut world, "c".to_string(), 250, 100, 20, 100, TabKind::MainWork);
    select_all_elements(&mut world);
    arrange_elements_in_row_with_spacing(&mut world, 10);
    assert_eq!(positions(&world), vec![(225, 20), (15, 20), (285, 20)]);
    assert_eq!(newest_message(&world), "Arranged 3 elements in row layout");
}

#[test]
fn arrange_with_the_default_gap() {
    let (mut world, _) = world_with_buttons(&[(0, 0), (7, 300), (3, 50)]);
    select_all_elements(&mut world);
    arrange_elements_in_column(&mut world);
    assert_eq!(positions(&world), vec![(0, 0), (0, 100), (0, 50)]);
    arrange_elements_in_row(&mut world);
    assert_eq!(positions(&world), vec![(0, 0), (120, 0), (240, 0)]);
}

#[test]
fn arrange_needs_two_selected() {
    let (mut world, ids) = world_with_buttons(&[(5, 6), (7, 8)]);
    select(&mut world, &ids[1..]);
    arrange_elements_in_column(&mut world);
    assert_eq!(positions(&world), vec![(5, 6), (7, 8)]);
    assert_eq!(newest_message(&world), "Need at least 2 selected elements for column layout");
    arrange_elements_in_row(&mut world);
    assert_eq!(positions(&world), vec![(5, 6), (7, 8)]);
    assert_eq!(newest_message(&world), "Need at least 2 selected elements for row layout");
    assert_eq!(world.get(ids[0]).unwrap().position, UiElementPosition { x: 5, y: 6 });
}

#[test]
fn picked_widgets_are_sorted_by_coordinate_then_place() {
    let items: Vec<Picked> = [(5, 0), (3, 1), (5, 2), (-7, 3), (3, 4), (i32::MAX, 5), (i32::MIN, 6)]
        .iter()
        .map(|(key, index)| Picked { index: *index, key: *key, extent: *key / 2 })
        .collect();
    let sorted = sort_picked(&items);
    let order: Vec<(i32, usize)> = sorted.iter().map(|p| (p.key, p.index)).collect();
    assert_eq!(
        order,
        vec![(i32::MIN, 6), (-7, 3), (3, 1), (3, 4), (5, 0), (5, 2), (i32::MAX, 5)]
    );
    assert!(sorted.iter().all(|p| p.extent == p.key / 2));
    assert!(sort_picked(&Vec::new()).is_empty());
    let many: Vec<Picked> = (0..1000usize)
        .map(|i| Picked { index: i, key: ((i * 7919) % 101) as i32 - 50, extent: 1 })
        .collect();
    let sorted = sort_picked(&many);
    assert_eq!(sorted.len(), 1000);
    for pair in sorted.windows(2) {
        assert!((pair[0].key, pair[0].index) < (pair[1].key, pair[1].index));
    }
}

#[test]
fn distribute_many_widgets() {
    let at: Vec<(i32, i32)> = (0..200).map(|i| (i, ((i * 37) % 200) * 3)).collect();
    let (mut world, _) = world_with_buttons(&at);
    select_all_elements(&mut world);
    assert_eq!(distribute_along(&mut world, Axis::Vertical, 2), 200);
    for (x, y) in positions(&world) {
        assert_eq!(y, ((x * 37) % 200) * 2);
    }
}
