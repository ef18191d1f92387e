use std::cell::RefCell;

use mapvina_native::{
    camera_did_change_callback, failing_loading_map_callback, finish_rendering_frame_callback,
    void_callback, MapLoadError, MapObserverCameraChangeMode,
};

#[test]
fn void_callback_is_called_once() {
    let calls = RefCell::new(0);
    void_callback(&|| *calls.borrow_mut() += 1);
    assert_eq!(*calls.borrow(), 1);
}

#[test]
fn frame_callback_gets_both_flags() {
    let seen = RefCell::new(Vec::new());
    let callback = |repaint: bool, placement: bool| seen.borrow_mut().push((repaint, placement));
    finish_rendering_frame_callback(&callback, true, false);
    finish_rendering_frame_callback(&callback, false, true);
    assert_eq!(*seen.borrow(), vec![(true, false), (false, true)]);
}

#[test]
fn failure_callback_gets_error_and_text() {
    let seen = RefCell::new(None);
    failing_loading_map_callback(
        &|error: MapLoadError, what: &str| *seen.borrow_mut() = Some((error, what.to_owned())),
        MapLoadError::NotFoundError,
        "style.json missing",
    );
    assert_eq!(
        *seen.borrow(),
        Some((MapLoadError::NotFoundError, "style.json missing".to_owned()))
    );
}

#[test]
fn camera_callback_gets_mode() {
    let seen = RefCell::new(None);
    camera_did_change_callback(
        &|mode: MapObserverCameraChangeMode| *seen.borrow_mut() = Some(mode),
        MapObserverCameraChangeMode::Animated,
    );
    assert_eq!(*seen.borrow(), Some(MapObserverCameraChangeMode::Animated));
}
