use deno_minifb::registry::error;
use deno_minifb::registry::error_resource_not_found;
use deno_minifb::registry::get_last_error;
use deno_minifb::registry::lookup_menu;
use deno_minifb::registry::lookup_menu_handle;
use deno_minifb::registry::lookup_window;
use deno_minifb::registry::menu_add_item;
use deno_minifb::registry::menu_add_separator;
use deno_minifb::registry::menu_destroy;
use deno_minifb::registry::window_close;
use deno_minifb::registry::window_get_size;
use deno_minifb::registry::window_new;
use deno_minifb::registry::window_set_title;
use deno_minifb::registry::window_update;
use deno_minifb::registry::window_update_with_buffer;
use deno_minifb::registry::Registry;
use deno_minifb::registry::ERR;
use deno_minifb::text::decimal_string;

fn fresh() -> Registry<u32, u32> {
    Registry::new()
}

#[test]
fn no_error_before_any_failure() {
    let reg = fresh();
    assert!(get_last_error(&reg).is_none());
}

#[test]
fn error_returns_failure_and_stores_the_message() {
    let mut reg = fresh();
    assert_eq!(error(&mut reg, "boom".to_string()), ERR);
    assert_eq!(get_last_error(&reg).unwrap().as_str(), "boom");
}

#[test]
fn peek_does_not_clear_the_slot() {
    let mut reg = fresh();
    error(&mut reg, "first".to_string());
    assert_eq!(get_last_error(&reg).unwrap().as_str(), "first");
    assert_eq!(get_last_error(&reg).unwrap().as_str(), "first");
}

#[test]
fn the_slot_is_overwritten_not_appended() {
    let mut reg = fresh();
    error(&mut reg, "first".to_string());
    error(&mut reg, "second".to_string());
    assert_eq!(get_last_error(&reg).unwrap().as_str(), "second");
}

#[test]
fn not_found_message_formats_the_identifier() {
    let mut reg = fresh();
    assert_eq!(error_resource_not_found(&mut reg, 0), ERR);
    assert_eq!(
        get_last_error(&reg).unwrap().as_str(),
        "Resource with ID 0 not found"
    );
    error_resource_not_found(&mut reg, 4294967295);
    assert_eq!(
        get_last_error(&reg).unwrap().as_str(),
        "Resource with ID 4294967295 not found"
    );
}

#[test]
fn decimal_rendering_matches_standard_formatting() {
    for n in [0u32, 1, 9, 10, 99, 100, 1000000, 1234567890, u32::MAX] {
        assert_eq!(decimal_string(n), format!("{}", n));
    }
}

#[test]
fn identifier_zero_is_never_live() {
    let mut reg = fresh();
    window_new(&mut reg, Ok(0), "T".to_string(), 10, 10).unwrap();
    assert!(lookup_window(&reg, 0).is_none());
    assert!(lookup_menu(&reg, 0).is_none());
    assert!(lookup_menu_handle(&reg, 0).is_none());
    assert_eq!(window_close(&mut reg, 0), ERR);
    assert_eq!(
        get_last_error(&reg).unwrap().as_str(),
        "Resource with ID 0 not found"
    );
}

#[test]
fn operations_on_unknown_ids_fail_and_change_nothing() {
    let mut reg = fresh();
    let id = window_new(&mut reg, Ok(0), "Keep".to_string(), 11, 12).unwrap();
    assert_eq!(window_set_title(&mut reg, 99, "X".to_string()), ERR);
    assert_eq!(
        get_last_error(&reg).unwrap().as_str(),
        "Resource with ID 99 not found"
    );
    assert_eq!(window_update(&mut reg, 99), ERR);
    let buffer = vec![0u32; 4];
    assert_eq!(window_update_with_buffer(&mut reg, 99, &buffer, 2, 2), ERR);
    assert_eq!(menu_add_separator(&mut reg, 99), ERR);
    assert_eq!(menu_add_item(&mut reg, 99, "X".to_string(), 1), ERR);
    assert_eq!(menu_destroy(&mut reg, 99), ERR);
    // The surviving window is untouched by all those failures.
    assert_eq!(window_get_size(&mut reg, id), Some((11, 12)));
    let entry = lookup_window(&reg, id).unwrap();
    assert_eq!(entry.title.as_str(), "Keep");
}

#[test]
fn the_counter_can_issue_its_last_identifier() {
    let mut reg = fresh();
    reg.next_id = u32::MAX - 1;
    let id = window_new(&mut reg, Ok(0), "T".to_string(), 1, 1);
    assert_eq!(id, Some(u32::MAX - 1));
    // A backend failure needs no identifier, so it is still reported even
    // with the counter exhausted.
    let failed = window_new(&mut reg, Err("late".to_string()), "T".to_string(), 1, 1);
    assert_eq!(failed, None);
    assert_eq!(get_last_error(&reg).unwrap().as_str(), "late");
}

#[test]
fn registries_are_independent_values() {
    let mut a = fresh();
    let mut b = fresh();
    assert_eq!(window_new(&mut a, Ok(0), "A".to_string(), 1, 1), Some(1));
    assert_eq!(window_new(&mut b, Ok(0), "B".to_string(), 2, 2), Some(1));
    assert_eq!(window_get_size(&mut a, 1), Some((1, 1)));
    assert_eq!(window_get_size(&mut b, 1), Some((2, 2)));
}

#[test]
fn generic_payloads_are_returned_as_stored() {
    let mut reg: Registry<String, u8> = Registry::new();
    let id = window_new(&mut reg, Ok("backend-window".to_string()), "T".to_string(), 3, 3)
        .unwrap();
    assert_eq!(lookup_window(&reg, id).unwrap().native.as_str(), "backend-window");
}
