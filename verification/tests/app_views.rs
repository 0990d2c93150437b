use bevy_in_app::app_views::{AppView, AppViewWindow, AppViews, ViewObj};

fn view(handle: u64) -> ViewObj {
    ViewObj { native_handle: handle, scale_factor_bits: 2.0f32.to_bits() }
}

fn window(handle: u64) -> AppViewWindow {
    AppViewWindow { view: AppView { view_obj: view(handle) } }
}

#[test]
fn new_registry_is_empty() {
    let views = AppViews::new();
    assert_eq!(views.get_view(0), None);
    assert_eq!(views.get_view(42), None);
    assert!(views.has_window_ids_left(1));
}

#[test]
fn default_registry_is_empty() {
    let views = AppViews::default();
    assert_eq!(views.get_view(0), None);
}

#[test]
fn app_view_new_keeps_view_obj() {
    assert_eq!(AppView::new(view(9)).view_obj, view(9));
}

#[test]
fn create_window_returns_the_window_of_the_view() {
    let mut views = AppViews::new();
    let created = views.create_window(view(0x1000), 7);
    assert_eq!(created, window(0x1000));
}

#[test]
fn get_view_after_create_window() {
    let mut views = AppViews::new();
    views.create_window(view(0x1000), 7);
    assert_eq!(views.get_view(7), Some(window(0x1000)));
    assert_eq!(views.get_view(8), None);
}

#[test]
fn create_window_leaves_other_entities() {
    let mut views = AppViews::new();
    views.create_window(view(1), 10);
    views.create_window(view(2), 20);
    assert_eq!(views.get_view(10), Some(window(1)));
    assert_eq!(views.get_view(20), Some(window(2)));
}

#[test]
fn create_window_again_replaces_the_window() {
    let mut views = AppViews::new();
    views.create_window(view(1), 10);
    views.create_window(view(3), 10);
    assert_eq!(views.get_view(10), Some(window(3)));
    assert_eq!(views.remove_view(10), Some(window(3)));
    assert_eq!(views.get_view(10), None);
}

#[test]
fn remove_view_returns_the_window_and_forgets_it() {
    let mut views = AppViews::new();
    views.create_window(view(1), 10);
    views.create_window(view(2), 20);
    assert_eq!(views.remove_view(10), Some(window(1)));
    assert_eq!(views.get_view(10), None);
    assert_eq!(views.get_view(20), Some(window(2)));
}

#[test]
fn remove_view_of_unknown_entity_is_none() {
    let mut views = AppViews::new();
    views.create_window(view(1), 10);
    assert_eq!(views.remove_view(11), None);
    assert_eq!(views.get_view(10), Some(window(1)));
}

#[test]
fn remove_view_twice_finds_nothing_the_second_time() {
    let mut views = AppViews::new();
    views.create_window(view(1), 10);
    assert_eq!(views.remove_view(10), Some(window(1)));
    assert_eq!(views.remove_view(10), None);
}

#[test]
fn recreate_after_remove() {
    let mut views = AppViews::new();
    views.create_window(view(1), 10);
    views.remove_view(10);
    views.create_window(view(4), 10);
    assert_eq!(views.get_view(10), Some(window(4)));
}

#[test]
fn handle_create_window_events_binds_every_entity() {
    let mut views = AppViews::new();
    views.create_window(view(1), 99);
    assert!(views.has_window_ids_left(3));
    let created = views.handle_create_window_events(view(5), &[10, 20, 10]);
    assert_eq!(created, vec![window(5), window(5), window(5)]);
    assert_eq!(views.get_view(10), Some(window(5)));
    assert_eq!(views.get_view(20), Some(window(5)));
    assert_eq!(views.get_view(99), Some(window(1)));
    assert_eq!(views.get_view(30), None);
}

#[test]
fn handle_create_window_events_without_requests() {
    let mut views = AppViews::new();
    let created = views.handle_create_window_events(view(5), &[]);
    assert!(created.is_empty());
    assert_eq!(views.get_view(0), None);
}

#[test]
fn window_ids_left_count_down() {
    let mut views = AppViews::new();
    assert!(views.has_window_ids_left(u64::MAX as usize));
    views.create_window(view(1), 10);
    assert!(!views.has_window_ids_left(u64::MAX as usize));
    assert!(views.has_window_ids_left(u64::MAX as usize - 1));
}
