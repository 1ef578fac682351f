use deno_minifb::registry::window_close;
use deno_minifb::registry::window_get_size;
use deno_minifb::registry::window_is_active;
use deno_minifb::registry::window_is_menu_pressed;
use deno_minifb::registry::window_is_open;
use deno_minifb::registry::window_limit_update_rate;
use deno_minifb::registry::window_new;
use deno_minifb::registry::window_set_background_color;
use deno_minifb::registry::window_set_cursor_visibility;
use deno_minifb::registry::window_set_key_repeat_delay;
use deno_minifb::registry::window_set_key_repeat_rate;
use deno_minifb::registry::window_set_position;
use deno_minifb::registry::window_set_title;
use deno_minifb::registry::window_topmost;
use deno_minifb::registry::window_update;
use deno_minifb::registry::window_update_with_buffer;
use deno_minifb::registry::get_last_error;
use deno_minifb::registry::lookup_window;
use deno_minifb::registry::Registry;
use deno_minifb::registry::ERR;
use deno_minifb::registry::OK;

fn fresh() -> Registry<u32, u32> {
    Registry::new()
}

#[test]
fn first_window_gets_id_one() {
    let mut reg = fresh();
    let id = window_new(&mut reg, Ok(0), "T".to_string(), 320, 240);
    assert_eq!(id, Some(1));
}

#[test]
fn issued_ids_are_distinct_and_nonzero() {
    let mut reg = fresh();
    let a = window_new(&mut reg, Ok(0), "A".to_string(), 10, 10).unwrap();
    let b = window_new(&mut reg, Ok(1), "B".to_string(), 20, 20).unwrap();
    let c = window_new(&mut reg, Ok(2), "C".to_string(), 30, 30).unwrap();
    assert_ne!(a, 0);
    assert_ne!(b, 0);
    assert_ne!(c, 0);
    assert_ne!(a, b);
    assert_ne!(a, c);
    assert_ne!(b, c);
}

#[test]
fn closed_id_is_never_reissued() {
    let mut reg = fresh();
    let a = window_new(&mut reg, Ok(0), "A".to_string(), 10, 10).unwrap();
    assert_eq!(window_close(&mut reg, a), OK);
    let b = window_new(&mut reg, Ok(1), "B".to_string(), 10, 10).unwrap();
    assert_ne!(b, a);
    assert!(b > a);
}

#[test]
fn close_twice_fails_the_second_time() {
    let mut reg = fresh();
    let a = window_new(&mut reg, Ok(0), "A".to_string(), 10, 10).unwrap();
    assert_eq!(window_close(&mut reg, a), OK);
    assert_eq!(window_close(&mut reg, a), ERR);
    let message = get_last_error(&reg).unwrap();
    assert_eq!(message.as_str(), "Resource with ID 1 not found");
}

#[test]
fn backend_construction_failure_is_reported() {
    let mut reg = fresh();
    let id = window_new(&mut reg, Err("display unavailable".to_string()), "T".to_string(), 1, 1);
    assert_eq!(id, None);
    assert_eq!(get_last_error(&reg).unwrap().as_str(), "display unavailable");
    // The failed creation consumed no identifier slot visible to callers:
    // nothing is live under any identifier.
    assert!(lookup_window(&reg, 1).is_none());
}

#[test]
fn get_size_returns_creation_size() {
    let mut reg = fresh();
    let id = window_new(&mut reg, Ok(0), "T".to_string(), 320, 240).unwrap();
    assert_eq!(window_get_size(&mut reg, id), Some((320, 240)));
}

#[test]
fn property_setters_succeed_on_live_window() {
    let mut reg = fresh();
    let id = window_new(&mut reg, Ok(0), "T".to_string(), 64, 48).unwrap();
    assert_eq!(window_set_title(&mut reg, id, "New".to_string()), OK);
    assert_eq!(window_topmost(&mut reg, id, true), OK);
    assert_eq!(window_set_cursor_visibility(&mut reg, id, false), OK);
    assert_eq!(window_set_background_color(&mut reg, id, 10, 20, 30), OK);
    assert_eq!(window_set_position(&mut reg, id, -5, 7), OK);
    assert_eq!(window_set_key_repeat_delay(&mut reg, id), OK);
    assert_eq!(window_set_key_repeat_rate(&mut reg, id), OK);
    assert_eq!(window_limit_update_rate(&mut reg, id, 16600), OK);
    assert_eq!(window_is_open(&mut reg, id), OK);
    assert_eq!(window_is_active(&mut reg, id), OK);
    assert_eq!(window_is_menu_pressed(&mut reg, id), OK);
    assert_eq!(window_update(&mut reg, id), OK);
    // None of these successes wrote the error slot.
    assert!(get_last_error(&reg).is_none());
    let entry = lookup_window(&reg, id).unwrap();
    assert_eq!(entry.title.as_str(), "New");
    assert!(entry.topmost);
    assert!(!entry.cursor_visible);
    assert_eq!(entry.background, (10, 20, 30));
    assert_eq!(entry.position, Some((-5, 7)));
    assert_eq!(entry.rate_micros, 16600);
}

#[test]
fn update_with_buffer_accepts_exact_element_count() {
    let mut reg = fresh();
    let id = window_new(&mut reg, Ok(0), "T".to_string(), 320, 240).unwrap();
    let buffer = vec![0u32; 320 * 240];
    assert_eq!(window_update_with_buffer(&mut reg, id, &buffer, 320, 240), OK);
}

#[test]
fn update_with_buffer_rejects_wrong_length() {
    let mut reg = fresh();
    let id = window_new(&mut reg, Ok(0), "T".to_string(), 320, 240).unwrap();
    let buffer = vec![0u32; 320 * 240 - 1];
    assert_eq!(window_update_with_buffer(&mut reg, id, &buffer, 320, 240), ERR);
    assert_eq!(
        get_last_error(&reg).unwrap().as_str(),
        "Buffer length must equal width * height"
    );
}

#[test]
fn full_window_scenario() {
    let mut reg = fresh();
    let id = window_new(&mut reg, Ok(0), "T".to_string(), 320, 240);
    assert_eq!(id, Some(1));
    assert_eq!(window_get_size(&mut reg, 1), Some((320, 240)));
    let buffer = vec![0u32; 320 * 240];
    assert_eq!(window_update_with_buffer(&mut reg, 1, &buffer, 320, 240), OK);
    assert_eq!(window_close(&mut reg, 1), OK);
    assert_eq!(window_get_size(&mut reg, 1), None);
    assert_eq!(
        get_last_error(&reg).unwrap().as_str(),
        "Resource with ID 1 not found"
    );
}

#[test]
fn two_windows_are_independent() {
    let mut reg = fresh();
    let a = window_new(&mut reg, Ok(0), "A".to_string(), 10, 10).unwrap();
    let b = window_new(&mut reg, Ok(1), "B".to_string(), 20, 20).unwrap();
    assert_eq!(window_set_title(&mut reg, a, "A2".to_string()), OK);
    assert_eq!(window_update(&mut reg, b), OK);
    assert_eq!(window_get_size(&mut reg, a), Some((10, 10)));
    assert_eq!(window_get_size(&mut reg, b), Some((20, 20)));
    assert_eq!(window_close(&mut reg, a), OK);
    // Closing one window leaves the other fully usable, and no successful
    // operation wrote the error slot.
    assert_eq!(window_get_size(&mut reg, b), Some((20, 20)));
    assert_eq!(window_close(&mut reg, b), OK);
}
