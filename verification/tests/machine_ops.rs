use asciicam::machine::Action;
use asciicam::machine::App;
use asciicam::machine::Device;
use asciicam::machine::Key;
use asciicam::render::render_frame;
use asciicam::render::RawFrame;

fn two_device_app() -> App {
    let devices = vec![
        Device { name: String::from("front"), handle: 0 },
        Device { name: String::from("rear"), handle: 1 },
    ];
    let mut app = App::with_devices(devices);
    app.menu.select_first();
    app
}

fn small_frame(seed: u8) -> RawFrame {
    RawFrame::new(2, 2, vec![seed, 0, 0, 0, seed, 0, 0, 0, seed, seed, seed, seed])
        .expect("valid frame")
}

#[test]
fn starts_in_menu() {
    let app = two_device_app();
    assert!(app.in_menu());
    assert!(!app.is_paused());
    assert!(!app.needs_frame());
}

#[test]
fn menu_navigation_moves_cursor() {
    let mut app = two_device_app();
    assert_eq!(app.handle_key(Key::Down), Action::Idle);
    assert_eq!(app.menu.selected(), Some(1));
    assert_eq!(app.handle_key(Key::Down), Action::Idle);
    assert_eq!(app.menu.selected(), Some(0));
    assert_eq!(app.handle_key(Key::Up), Action::Idle);
    assert_eq!(app.menu.selected(), Some(1));
}

#[test]
fn confirm_asks_to_open_selected_device() {
    let mut app = two_device_app();
    app.handle_key(Key::Down);
    assert_eq!(app.handle_key(Key::Confirm), Action::TryOpen(1));
    // The confirm alone does not leave the menu.
    assert!(app.in_menu());
}

#[test]
fn failed_open_annotates_only_selected_entry() {
    let mut app = two_device_app();
    let cursor_before = app.menu.selected();
    assert_eq!(app.handle_key(Key::Confirm), Action::TryOpen(0));
    app.open_result(0, false);
    assert!(app.in_menu());
    assert_eq!(app.menu.selected(), cursor_before);
    assert_eq!(app.menu.items[0].name, "front - An Error occured");
    assert_eq!(app.menu.items[1].name, "rear");
    assert_eq!(app.menu.items[0].handle, 0);
}

#[test]
fn successful_open_enters_live_viewing() {
    let mut app = two_device_app();
    assert_eq!(app.handle_key(Key::Confirm), Action::TryOpen(0));
    app.open_result(0, true);
    assert!(!app.in_menu());
    assert!(!app.is_paused());
    assert!(app.needs_frame());
    assert_eq!(app.menu.items[0].name, "front");
}

#[test]
fn pause_freezes_content_across_ticks() {
    let mut app = two_device_app();
    app.handle_key(Key::Confirm);
    app.open_result(0, true);
    // Live tick.
    let live_text = app.render_live(small_frame(200), 4, 3);
    assert_eq!(live_text, render_frame(&small_frame(200), 4, 3));
    assert!(app.needs_frame());
    // Request pause: the next rendered frame gets frozen.
    assert_eq!(app.handle_key(Key::TogglePause), Action::Idle);
    assert!(app.is_paused());
    assert!(app.needs_frame());
    let frozen_text = app.render_live(small_frame(90), 4, 3);
    assert!(!app.needs_frame());
    // Later ticks re-render the frozen frame, never a fresh one.
    assert_eq!(app.render_frozen(4, 3), frozen_text);
    assert_eq!(app.render_frozen(4, 3), frozen_text);
    assert_eq!(frozen_text, render_frame(&small_frame(90), 4, 3));
    // Resizing the terminal re-renders the same frozen frame.
    assert_eq!(app.render_frozen(6, 2), render_frame(&small_frame(90), 6, 2));
    // Toggling pause again resumes live viewing.
    assert_eq!(app.handle_key(Key::TogglePause), Action::Idle);
    assert!(!app.is_paused());
    assert!(app.needs_frame());
}

#[test]
fn back_returns_to_menu_and_releases_capture() {
    let mut app = two_device_app();
    app.handle_key(Key::Confirm);
    app.open_result(0, true);
    assert_eq!(app.handle_key(Key::Back), Action::Close);
    assert!(app.in_menu());
    assert!(!app.is_paused());
    assert_eq!(app.menu.selected(), Some(0));
}

#[test]
fn back_while_paused_discards_frozen_frame() {
    let mut app = two_device_app();
    app.handle_key(Key::Confirm);
    app.open_result(0, true);
    app.handle_key(Key::TogglePause);
    app.render_live(small_frame(10), 2, 2);
    assert_eq!(app.handle_key(Key::Back), Action::Close);
    assert!(app.in_menu());
    assert!(!app.is_paused());
}

#[test]
fn quit_works_from_menu_and_viewing() {
    let mut app = two_device_app();
    assert_eq!(app.handle_key(Key::Quit), Action::Quit);
    app.handle_key(Key::Confirm);
    app.open_result(0, true);
    assert_eq!(app.handle_key(Key::Quit), Action::Quit);
    app.handle_key(Key::TogglePause);
    assert_eq!(app.handle_key(Key::Quit), Action::Quit);
}

#[test]
fn unrecognized_keys_are_ignored() {
    let mut app = two_device_app();
    assert_eq!(app.handle_key(Key::TogglePause), Action::Idle);
    assert_eq!(app.handle_key(Key::Back), Action::Idle);
    assert!(app.in_menu());
    assert_eq!(app.menu.selected(), Some(0));
    app.open_result(0, true);
    assert_eq!(app.handle_key(Key::Down), Action::Idle);
    assert_eq!(app.handle_key(Key::Up), Action::Idle);
    assert_eq!(app.handle_key(Key::Confirm), Action::Idle);
    assert_eq!(app.menu.selected(), Some(0));
    assert!(!app.in_menu());
}
