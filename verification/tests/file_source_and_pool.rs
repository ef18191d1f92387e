use mapvina_native::{
    answer_for, fs_request_callback, tile_response, FsErrorReason, FsResponse, Image,
    RenderWorker, RenderingError, ResourceKind, SingleThreadedRenderPoolError, StyleLoadError,
    StyleLoadErrorKind,
};

#[test]
fn served_resource_is_answered_with_its_body() {
    let answer = answer_for(FsResponse::Data(vec![1, 2, 3]));
    assert_eq!(answer.data, vec![1, 2, 3]);
    assert_eq!(answer.error_reason, FsErrorReason::Success);
    assert_eq!(answer.error_message, "");
    assert!(!answer.no_content);
}

#[test]
fn miss_is_answered_as_no_content() {
    let answer = answer_for(FsResponse::NoContent);
    assert!(answer.data.is_empty());
    assert_eq!(answer.error_reason, FsErrorReason::Success);
    assert!(answer.no_content);
}

#[test]
fn error_is_answered_with_reason_and_message() {
    let answer = answer_for(FsResponse::Error {
        reason: FsErrorReason::RateLimit,
        message: "slow down".to_owned(),
    });
    assert!(answer.data.is_empty());
    assert_eq!(answer.error_reason, FsErrorReason::RateLimit);
    assert_eq!(answer.error_message, "slow down");
    assert!(!answer.no_content);
}

#[test]
fn callback_is_asked_with_url_and_kind() {
    let callback = |url: &str, kind: ResourceKind| {
        if kind == ResourceKind::Style && url.ends_with("/inline-style.json") {
            FsResponse::Data(url.as_bytes().to_vec())
        } else {
            FsResponse::NoContent
        }
    };
    let style = fs_request_callback(&callback, "https://x/inline-style.json", ResourceKind::Style);
    assert_eq!(style.data, b"https://x/inline-style.json".to_vec());
    assert!(!style.no_content);
    let glyphs = fs_request_callback(&callback, "https://x/glyphs/0-255.pbf", ResourceKind::Glyphs);
    assert!(glyphs.no_content);
}

#[test]
fn boxed_callback_can_serve_requests() {
    let callback: Box<dyn Fn(&str, ResourceKind) -> FsResponse + Send + Sync> =
        Box::new(|_url: &str, _kind: ResourceKind| FsResponse::Error {
            reason: FsErrorReason::NotFound,
            message: "gone".to_owned(),
        });
    let answer = fs_request_callback(&callback, "mbtiles://t/1/2/3", ResourceKind::Tile);
    assert_eq!(answer.error_reason, FsErrorReason::NotFound);
    assert_eq!(answer.error_message, "gone");
}

#[test]
fn worker_loads_each_style_once() {
    let mut worker = RenderWorker::new();
    assert!(worker.needs_style(b"a/style.json"));
    assert!(worker.style_loaded(b"a/style.json", Ok(())).is_ok());
    assert!(!worker.needs_style(b"a/style.json"));
    assert!(worker.needs_style(b"b/style.json"));
    assert!(worker.needs_style(b"a/style.jso"));
    assert!(worker.needs_style(b""));
}

#[test]
fn failed_style_load_keeps_previous_style() {
    let mut worker = RenderWorker::new();
    worker.style_loaded(b"a", Ok(())).unwrap();
    let failure = StyleLoadError {
        kind: StyleLoadErrorKind::NotFound,
        message: "Path b is not a file".to_owned(),
    };
    match worker.style_loaded(b"b", Err(failure)) {
        Err(SingleThreadedRenderPoolError::IOError(e)) => {
            assert_eq!(e.kind, StyleLoadErrorKind::NotFound);
            assert_eq!(e.message, "Path b is not a file");
        }
        other => panic!("expected an I/O error, got {other:?}"),
    }
    assert!(!worker.needs_style(b"a"));
    assert!(worker.needs_style(b"b"));
}

#[test]
fn tile_responses_carry_render_outcome() {
    let mut raw = Vec::new();
    raw.extend_from_slice(&1u32.to_ne_bytes());
    raw.extend_from_slice(&1u32.to_ne_bytes());
    raw.extend_from_slice(&[1, 2, 3, 4]);
    let image = Image::from_raw(&raw).unwrap();
    assert_eq!(tile_response(Ok(image)).unwrap().width(), 1);
    match tile_response(Err(RenderingError::StyleNotSpecified)) {
        Err(SingleThreadedRenderPoolError::RenderingError(e)) => {
            assert_eq!(e, RenderingError::StyleNotSpecified)
        }
        other => panic!("expected a rendering error, got {other:?}"),
    }
}

#[test]
fn pool_error_texts() {
    assert_eq!(
        SingleThreadedRenderPoolError::FailedToSendRequest.to_string(),
        "Failed to send request to rendering thread"
    );
    assert_eq!(
        SingleThreadedRenderPoolError::FailedToReceiveResponse.to_string(),
        "Failed to receive response from rendering thread"
    );
    assert_eq!(
        SingleThreadedRenderPoolError::RenderingError(RenderingError::InvalidImageData).to_string(),
        "Invalid image data received from renderer"
    );
    let io = StyleLoadError { kind: StyleLoadErrorKind::InvalidData, message: "bad".to_owned() };
    assert_eq!(SingleThreadedRenderPoolError::IOError(io).to_string(), "bad");
}
