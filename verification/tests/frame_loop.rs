use asteroids::events::{InputEvent, Key};
use asteroids::frame::{
    FrameAction, FrameDriver, LoopState, FRAME_INTERVAL_MILLIS, TARGET_FRAME_RATE,
};
use asteroids::keys::{KeyStatus, Keys};

fn press(key: Key) -> InputEvent {
    InputEvent::KeyDown { key, repeat: false }
}

fn release(key: Key) -> InputEvent {
    InputEvent::KeyUp { key, repeat: false }
}

fn advance(thrust: bool, left: bool, right: bool) -> FrameAction {
    FrameAction::Advance { thrust, left, right, sleep_millis: 16 }
}

#[test]
fn frame_interval_is_sixteen_milliseconds() {
    assert_eq!(TARGET_FRAME_RATE, 60);
    assert_eq!(FRAME_INTERVAL_MILLIS, 16);
}

#[test]
fn new_driver_runs_with_all_keys_up() {
    let driver = FrameDriver::new();
    assert_eq!(driver.state, LoopState::Running);
    assert_eq!(driver.keys, Keys::new());
    assert!(driver.is_running());
}

#[test]
fn quiet_frame_advances_with_no_control() {
    let mut driver = FrameDriver::new();
    let action = driver.begin_frame(&Vec::new());
    assert_eq!(action, advance(false, false, false));
    assert!(driver.is_running());
    assert_eq!(driver.keys, Keys::new());
}

#[test]
fn held_keys_are_reported_every_frame() {
    let mut driver = FrameDriver::new();
    let action = driver.begin_frame(&vec![press(Key::Up), press(Key::Left)]);
    assert_eq!(action, advance(true, true, false));
    assert_eq!(driver.keys.thrust, KeyStatus::Held);

    let action = driver.begin_frame(&Vec::new());
    assert_eq!(action, advance(true, true, false));

    let action = driver.begin_frame(&vec![release(Key::Left), press(Key::Right)]);
    assert_eq!(action, advance(true, false, true));

    let action = driver.begin_frame(&vec![release(Key::Up), press(Key::Left)]);
    assert_eq!(action, advance(false, true, true));
}

#[test]
fn fire_and_pause_do_not_reach_the_action() {
    let mut driver = FrameDriver::new();
    let action = driver.begin_frame(&vec![press(Key::Space), press(Key::P)]);
    assert_eq!(action, advance(false, false, false));
    assert_eq!(driver.keys.fire, KeyStatus::Held);
    assert_eq!(driver.keys.pause, KeyStatus::Held);
}

#[test]
fn quit_request_stops_the_loop() {
    let mut driver = FrameDriver::new();
    let action = driver.begin_frame(&vec![press(Key::Up), InputEvent::Quit, press(Key::Left)]);
    assert_eq!(action, FrameAction::Stop);
    assert_eq!(driver.state, LoopState::Quitting);
    assert!(!driver.is_running());
}

#[test]
fn window_close_stops_the_loop() {
    let mut driver = FrameDriver::new();
    driver.begin_frame(&vec![press(Key::Up)]);
    let action = driver.begin_frame(&vec![InputEvent::WindowClose]);
    assert_eq!(action, FrameAction::Stop);
    assert_eq!(driver.state, LoopState::Quitting);
}

#[test]
fn quit_keys_stop_the_loop() {
    let mut driver = FrameDriver::new();
    assert_eq!(driver.begin_frame(&vec![press(Key::Q)]), FrameAction::Stop);

    let mut driver = FrameDriver::new();
    assert_eq!(driver.begin_frame(&vec![press(Key::Escape)]), FrameAction::Stop);

    let mut driver = FrameDriver::new();
    let action = driver.begin_frame(&vec![InputEvent::KeyDown { key: Key::Q, repeat: true }]);
    assert_eq!(action, advance(false, false, false));
}

#[test]
fn quit_request_followed_by_quit_key_press_still_stops() {
    let mut driver = FrameDriver::new();
    let action = driver.begin_frame(&vec![InputEvent::Quit, press(Key::Q), release(Key::Up)]);
    assert_eq!(action, FrameAction::Stop);
}

#[test]
fn quit_key_released_in_the_same_batch_does_not_stop() {
    let mut driver = FrameDriver::new();
    let action = driver.begin_frame(&vec![press(Key::Q), release(Key::Q)]);
    assert_eq!(action, advance(false, false, false));
    assert!(driver.is_running());

    let mut driver = FrameDriver::new();
    let action = driver.begin_frame(&vec![InputEvent::Quit, release(Key::Escape)]);
    assert_eq!(action, advance(false, false, false));
}

#[test]
fn quitting_is_terminal() {
    let mut driver = FrameDriver::new();
    driver.begin_frame(&vec![InputEvent::Quit]);
    let stopped = driver;
    let action = driver.begin_frame(&vec![release(Key::Q), press(Key::Up)]);
    assert_eq!(action, FrameAction::Stop);
    assert_eq!(driver, stopped);
    let action = driver.begin_frame(&Vec::new());
    assert_eq!(action, FrameAction::Stop);
    assert_eq!(driver, stopped);
}
