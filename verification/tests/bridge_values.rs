use mapvina_native::{
    describe_map_load_error, log_from_cpp, Event, EventSeverity, FsErrorReason, Height, LogLevel,
    MapDebugOptions, MapLoadError, MapMode, MapObserverCameraChangeMode, ResourceKind, Size,
    SymbolAnchorType, Width,
};

#[test]
fn size_keeps_width_and_height() {
    let size = Size::new(Width(64), Height(32));
    assert_eq!(size.width(), 64);
    assert_eq!(size.height(), 32);
}

#[test]
fn map_load_error_texts() {
    assert_eq!(MapLoadError::StyleParseError.to_string(), "Failed parsing style");
    assert_eq!(MapLoadError::StyleLoadError.to_string(), "Failed loading style");
    assert_eq!(MapLoadError::NotFoundError.to_string(), "Style not found");
    assert_eq!(MapLoadError::UnknownError.to_string(), "Unknown error");
    assert_eq!(describe_map_load_error(4), "Unrecognized error");
}

#[test]
fn map_load_error_numbers_round_trip() {
    for e in [
        MapLoadError::StyleParseError,
        MapLoadError::StyleLoadError,
        MapLoadError::NotFoundError,
        MapLoadError::UnknownError,
    ] {
        assert_eq!(MapLoadError::from_repr(e.repr()), Some(e));
    }
    assert_eq!(MapLoadError::from_repr(17), None);
}

#[test]
fn resource_kind_numbers_round_trip() {
    for n in 0u8..8 {
        assert_eq!(ResourceKind::from_repr(n).unwrap().repr(), n);
    }
    assert_eq!(ResourceKind::from_repr(3), Some(ResourceKind::Tile));
    assert_eq!(ResourceKind::from_repr(8), None);
}

#[test]
fn numbers_sent_to_the_renderer() {
    assert_eq!(FsErrorReason::Success.repr(), 1);
    assert_eq!(FsErrorReason::Other.repr(), 6);
    assert_eq!(MapMode::Continuous.repr(), 0);
    assert_eq!(MapMode::Tile.repr(), 2);
    assert_eq!(SymbolAnchorType::BottomRight.repr(), 8);
    assert_eq!(
        MapObserverCameraChangeMode::from_repr(1),
        Some(MapObserverCameraChangeMode::Animated)
    );
    assert_eq!(MapObserverCameraChangeMode::from_repr(2), None);
}

#[test]
fn debug_options_are_single_bits() {
    let all = [
        MapDebugOptions::TileBorders,
        MapDebugOptions::ParseStatus,
        MapDebugOptions::Timestamps,
        MapDebugOptions::Collision,
        MapDebugOptions::Overdraw,
        MapDebugOptions::StencilClip,
        MapDebugOptions::DepthBuffer,
    ];
    assert_eq!(MapDebugOptions::NoDebug.repr(), 0);
    let mut seen = 0u32;
    for (k, option) in all.iter().enumerate() {
        assert_eq!(option.repr(), 1 << (k + 1));
        assert_eq!(seen & option.repr(), 0);
        seen |= option.repr();
    }
    assert_eq!(seen, 0b1111_1110);
}

#[test]
fn log_levels_follow_severity() {
    assert_eq!(log_from_cpp(0, 0, 0, "m").level, LogLevel::Debug);
    assert_eq!(log_from_cpp(1, 0, 0, "m").level, LogLevel::Info);
    assert_eq!(log_from_cpp(2, 0, 0, "m").level, LogLevel::Warn);
    assert_eq!(log_from_cpp(3, 0, 0, "m").level, LogLevel::Error);
    assert_eq!(log_from_cpp(200, 0, 0, "m").level, LogLevel::Error);
}

#[test]
fn log_text_shows_event_code_and_message() {
    let record = log_from_cpp(2, 3, -5, "style has no sources");
    assert_eq!(record.text, "ParseStyle (code=-5) style has no sources");
    let record = log_from_cpp(1, 8, 404, "not found");
    assert_eq!(record.text, "HttpRequest (code=404) not found");
}

#[test]
fn log_text_shows_unknown_severity_and_event() {
    let record = log_from_cpp(9, 42, 0, "odd");
    assert_eq!(record.text, "Event(42) (severity=9, code=0) odd");
}

#[test]
fn log_text_extreme_codes() {
    assert_eq!(
        log_from_cpp(3, 16, i64::MIN, "").text,
        "Timing (code=-9223372036854775808) "
    );
    assert_eq!(
        log_from_cpp(3, 16, i64::MAX, "x").text,
        "Timing (code=9223372036854775807) x"
    );
}

#[test]
fn event_names_match_debug_form() {
    for n in 0u8..17 {
        let e = Event::from_repr(n).unwrap();
        assert_eq!(e.name(), format!("{e:?}"));
    }
    assert_eq!(Event::from_repr(17), None);
    assert_eq!(EventSeverity::from_repr(2), Some(EventSeverity::Warning));
    assert_eq!(EventSeverity::from_repr(4), None);
}
