use mobius_designer::components::{
    Entity, TabKind, UiButton, UiElementBundle, UiElementContainer, UiElementPosition,
    UiElementSelected, UiElementSize, UiElementTab, WidgetKind,
};
use mobius_designer::designer::{add_ui_button, create_designer_world};
use mobius_designer::world::DesignerWorld;

fn button(label: &str, x: i32, y: i32) -> UiElementBundle {
    UiElementBundle {
        widget: WidgetKind::Button(UiButton {
            label: label.to_string(),
            clicked: false,
            enabled: true,
            click_time: None,
            font_size: 14,
        }),
        position: UiElementPosition { x, y },
        size: UiElementSize { width: 100, height: 30 },
        tab: UiElementTab { tab_kind: TabKind::MainWork, position: 0 },
        selected: UiElementSelected { selected: false },
        container: UiElementContainer { parent_group: None },
    }
}

#[test]
fn a_new_world_is_empty() {
    let world = DesignerWorld::new();
    assert_eq!(world.len(), 0);
    assert!(world.elements().is_empty());
    assert!(world.can_spawn());
    assert_eq!(world.handles_left(), u64::MAX);
    assert!(world.panels().grid_settings.is_none());
    assert!(world.panels().event_logger.is_none());
    assert!(!world.contains(Entity::from_bits(0)));
}

#[test]
fn spawn_hands_out_fresh_handles_in_order() {
    let mut world = DesignerWorld::new();
    let a = world.spawn(button("a", 1, 2));
    let b = world.spawn(button("b", 3, 4));
    assert_ne!(a, b);
    assert_eq!(world.len(), 2);
    assert_eq!(world.elements()[0].entity, a);
    assert_eq!(world.elements()[1].entity, b);
    assert_eq!(world.index_of(a), Some(0));
    assert_eq!(world.index_of(b), Some(1));
    let found = world.get(b).unwrap();
    assert_eq!(found.position, UiElementPosition { x: 3, y: 4 });
    assert_eq!(found.size, UiElementSize { width: 100, height: 30 });
    assert!(!found.selected.selected);
    assert_eq!(found.widget, WidgetKind::Button(UiButton {
        label: "b".to_string(),
        clicked: false,
        enabled: true,
        click_time: None,
        font_size: 14,
    }));
}

#[test]
fn a_despawned_entity_is_not_found() {
    let mut world = DesignerWorld::new();
    let a = world.spawn(button("a", 0, 0));
    let b = world.spawn(button("b", 10, 10));
    let c = world.spawn(button("c", 20, 20));
    let collected: Vec<Entity> = world.elements().iter().map(|e| e.entity).collect();
    assert_eq!(collected, vec![a, b, c]);
    assert!(world.despawn(b));
    for entity in collected {
        let found = world.get_position_mut(entity);
        if entity == b {
            assert!(found.is_none());
        } else {
            found.unwrap().x += 1;
        }
    }
    assert!(world.get(b).is_none());
    assert!(!world.contains(b));
    assert!(world.get_size_mut(b).is_none());
    assert!(world.get_selected_mut(b).is_none());
    assert!(world.get_widget_mut(b).is_none());
    assert!(!world.despawn(b));
    assert_eq!(world.len(), 2);
    assert_eq!(world.get(a).unwrap().position.x, 1);
    assert_eq!(world.get(c).unwrap().position.x, 21);
}

#[test]
fn a_stale_handle_is_not_handed_out_again() {
    let mut world = DesignerWorld::new();
    let a = world.spawn(button("a", 0, 0));
    assert!(world.despawn(a));
    let b = world.spawn(button("b", 0, 0));
    assert_ne!(a, b);
    assert!(world.get(a).is_none());
    assert!(world.get(b).is_some());
}

#[test]
fn components_can_be_changed_in_place() {
    let mut world = DesignerWorld::new();
    let a = world.spawn(button("a", 0, 0));
    *world.get_position_mut(a).unwrap() = UiElementPosition { x: 5, y: 6 };
    world.get_size_mut(a).unwrap().width = 77;
    world.get_selected_mut(a).unwrap().selected = true;
    if let WidgetKind::Button(b) = world.get_widget_mut(a).unwrap() {
        b.label = "renamed".to_string();
    }
    let element = world.get(a).unwrap();
    assert_eq!(element.position, UiElementPosition { x: 5, y: 6 });
    assert_eq!(element.size, UiElementSize { width: 77, height: 30 });
    assert!(element.selected.selected);
    assert_eq!(element.widget.enabled(), true);
    match &element.widget {
        WidgetKind::Button(b) => assert_eq!(b.label, "renamed"),
        _ => panic!("not a button"),
    }
}

#[test]
fn clear_all_removes_widgets_and_panels() {
    let mut world = create_designer_world();
    add_ui_button(&mut world, "a".to_string(), 0, 0, TabKind::MainWork);
    assert!(world.panels().grid_settings.is_some());
    world.clear_all();
    assert_eq!(world.len(), 0);
    assert!(world.panels().grid_settings.is_none());
    assert!(world.panels().event_logger.is_none());
    assert!(world.panels().main_work_area.is_none());
}

#[test]
fn entity_bits_round_trip() {
    let e = Entity::from_bits(42);
    assert_eq!(e.to_bits(), 42);
    assert_eq!(e, Entity { id: 42 });
}
