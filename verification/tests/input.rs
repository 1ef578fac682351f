use deno_minifb::registry::get_last_error;
use deno_minifb::registry::read_keys;
use deno_minifb::registry::window_get_keys;
use deno_minifb::registry::window_get_keys_pressed;
use deno_minifb::registry::window_get_keys_released;
use deno_minifb::registry::window_get_mouse_down;
use deno_minifb::registry::window_get_mouse_pos;
use deno_minifb::registry::window_new;
use deno_minifb::registry::Registry;
use deno_minifb::registry::ERR;
use deno_minifb::registry::OK;

fn fresh_with_window() -> (Registry<u32, u32>, u32) {
    let mut reg = Registry::new();
    let id = window_new(&mut reg, Ok(0), "T".to_string(), 100, 100).unwrap();
    (reg, id)
}

#[test]
fn query_then_drain_returns_the_staged_codes_in_order() {
    let (mut reg, id) = fresh_with_window();
    let n = window_get_keys(&mut reg, id, vec![3, 1, 4, 1, 5]);
    assert_eq!(n, Some(5));
    let drained = read_keys(&mut reg, id).unwrap();
    assert_eq!(drained, vec![3, 1, 4, 1, 5]);
}

#[test]
fn second_drain_without_a_query_is_empty() {
    let (mut reg, id) = fresh_with_window();
    assert_eq!(window_get_keys(&mut reg, id, vec![9, 8]), Some(2));
    assert_eq!(read_keys(&mut reg, id).unwrap(), vec![9, 8]);
    assert_eq!(read_keys(&mut reg, id).unwrap(), Vec::<u8>::new());
}

#[test]
fn a_new_query_replaces_the_previous_snapshot() {
    let (mut reg, id) = fresh_with_window();
    assert_eq!(window_get_keys(&mut reg, id, vec![1, 2, 3]), Some(3));
    assert_eq!(window_get_keys_pressed(&mut reg, id, vec![7]), Some(1));
    assert_eq!(read_keys(&mut reg, id).unwrap(), vec![7]);
}

#[test]
fn released_keys_use_the_same_protocol() {
    let (mut reg, id) = fresh_with_window();
    assert_eq!(window_get_keys_released(&mut reg, id, vec![11]), Some(1));
    assert_eq!(read_keys(&mut reg, id).unwrap(), vec![11]);
}

#[test]
fn snapshots_are_kept_per_window() {
    let mut reg = Registry::<u32, u32>::new();
    let a = window_new(&mut reg, Ok(0), "A".to_string(), 10, 10).unwrap();
    let b = window_new(&mut reg, Ok(1), "B".to_string(), 10, 10).unwrap();
    assert_eq!(window_get_keys(&mut reg, a, vec![1]), Some(1));
    assert_eq!(window_get_keys(&mut reg, b, vec![2, 3]), Some(2));
    assert_eq!(read_keys(&mut reg, a).unwrap(), vec![1]);
    assert_eq!(read_keys(&mut reg, b).unwrap(), vec![2, 3]);
}

#[test]
fn key_queries_on_a_dead_window_fail() {
    let (mut reg, _id) = fresh_with_window();
    assert_eq!(window_get_keys(&mut reg, 9, vec![1]), None);
    assert_eq!(
        get_last_error(&reg).unwrap().as_str(),
        "Resource with ID 9 not found"
    );
    assert_eq!(read_keys(&mut reg, 9), None);
}

#[test]
fn mouse_queries_validate_their_codes() {
    let (mut reg, id) = fresh_with_window();
    assert_eq!(window_get_mouse_down(&mut reg, id, 0), OK);
    assert_eq!(window_get_mouse_down(&mut reg, id, 2), OK);
    assert_eq!(window_get_mouse_down(&mut reg, id, 3), ERR);
    assert_eq!(get_last_error(&reg).unwrap().as_str(), "Invalid mouse button");
    assert_eq!(window_get_mouse_pos(&mut reg, id, 1), OK);
    assert_eq!(window_get_mouse_pos(&mut reg, id, 9), ERR);
    assert_eq!(get_last_error(&reg).unwrap().as_str(), "Invalid mouse mode");
}

#[test]
fn mouse_queries_check_the_window_before_the_code() {
    let (mut reg, _id) = fresh_with_window();
    assert_eq!(window_get_mouse_down(&mut reg, 9, 250), ERR);
    assert_eq!(
        get_last_error(&reg).unwrap().as_str(),
        "Resource with ID 9 not found"
    );
}
