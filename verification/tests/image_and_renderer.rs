use mapvina_native::{
    image_from_output, Image, RendererState, RenderingError, StyleLoadErrorKind,
};

fn raw(width: u32, height: u32, data: &[u8]) -> Vec<u8> {
    let mut bytes = Vec::new();
    bytes.extend_from_slice(&width.to_ne_bytes());
    bytes.extend_from_slice(&height.to_ne_bytes());
    bytes.extend_from_slice(data);
    bytes
}

#[test]
fn from_raw_reads_header_and_pixels() {
    let data: Vec<u8> = (0u8..16).collect();
    let image = Image::from_raw(&raw(2, 2, &data)).expect("2x2 RGBA image");
    assert_eq!(image.width(), 2);
    assert_eq!(image.height(), 2);
    assert_eq!(image.as_raw(), &data);
    assert_eq!(image.buffer.width(), 2);
    assert_eq!(image.buffer.get_pixel(1, 0).0, [4, 5, 6, 7]);
}

#[test]
fn from_raw_keeps_extra_trailing_bytes() {
    let data: Vec<u8> = (0u8..10).collect();
    let image = Image::from_raw(&raw(1, 2, &data)).expect("enough data for 1x2");
    assert_eq!(image.width(), 1);
    assert_eq!(image.height(), 2);
    assert_eq!(image.as_raw().len(), 10);
}

#[test]
fn from_raw_rejects_short_header() {
    assert!(Image::from_raw(&[]).is_none());
    assert!(Image::from_raw(&[1, 0, 0, 0, 1, 0, 0]).is_none());
}

#[test]
fn from_raw_rejects_missing_pixels() {
    assert!(Image::from_raw(&raw(2, 2, &[0u8; 15])).is_none());
    assert!(Image::from_raw(&raw(u32::MAX, u32::MAX, &[0u8; 4])).is_none());
}

#[test]
fn from_raw_accepts_empty_image() {
    let image = Image::from_raw(&raw(0, 7, &[])).expect("zero-width image needs no data");
    assert_eq!(image.width(), 0);
    assert_eq!(image.height(), 7);
}

#[test]
fn cloned_image_is_equal() {
    let image = Image::from_raw(&raw(1, 1, &[9, 8, 7, 6])).unwrap();
    let copy = image.clone();
    assert_eq!(copy, image);
    assert_eq!(copy.as_raw(), &vec![9, 8, 7, 6]);
}

#[test]
fn output_without_image_is_invalid_image_data() {
    assert_eq!(image_from_output(&[1, 2, 3]).unwrap_err(), RenderingError::InvalidImageData);
    let image = image_from_output(&raw(1, 1, &[1, 2, 3, 4])).unwrap();
    assert_eq!(image.height(), 1);
}

#[test]
fn rendering_requires_a_style() {
    let state = RendererState::new();
    assert!(!state.style_specified());
    assert_eq!(state.check_style(), Err(RenderingError::StyleNotSpecified));
}

#[test]
fn url_style_enables_rendering() {
    let mut state = RendererState::new();
    let url = state.load_style_from_url("https://example.invalid/inline-style.json");
    assert_eq!(url, "https://example.invalid/inline-style.json");
    assert!(state.style_specified());
    assert_eq!(state.check_style(), Ok(()));
}

#[test]
fn path_that_is_not_a_file_is_not_found() {
    let mut state = RendererState::new();
    let err = state.load_style_from_path(false, Some("/nope/style.json"), "/nope/style.json").unwrap_err();
    assert_eq!(err.kind, StyleLoadErrorKind::NotFound);
    assert_eq!(err.message, "Path /nope/style.json is not a file");
    assert_eq!(state.check_style(), Err(RenderingError::StyleNotSpecified));
}

#[test]
fn path_that_is_not_utf8_is_invalid_data() {
    let mut state = RendererState::new();
    let err = state.load_style_from_path(true, None, "/tmp/st\u{FFFD}yle.json").unwrap_err();
    assert_eq!(err.kind, StyleLoadErrorKind::InvalidData);
    assert_eq!(err.message, "Path /tmp/st\u{FFFD}yle.json is not valid UTF-8");
    assert!(!state.style_specified());
}

#[test]
fn file_style_is_loaded_from_file_url() {
    let mut state = RendererState::new();
    let url = state.load_style_from_path(true, Some("/data/style.json"), "/data/style.json").unwrap();
    assert_eq!(url, "file:///data/style.json");
    assert_eq!(state.check_style(), Ok(()));
}

#[test]
fn failed_path_load_keeps_earlier_style() {
    let mut state = RendererState::new();
    state.load_style_from_url("https://example.invalid/a.json");
    assert!(state.load_style_from_path(false, None, "b").is_err());
    assert_eq!(state.check_style(), Ok(()));
}

#[test]
fn rendering_error_texts() {
    assert_eq!(
        RenderingError::StyleNotSpecified.to_string(),
        "Style must be specified to render a tile"
    );
    assert_eq!(
        RenderingError::InvalidImageData.to_string(),
        "Invalid image data received from renderer"
    );
}

#[test]
fn from_raw_rejects_sizes_that_overflow() {
    assert!(Image::from_raw(&raw(u32::MAX, 0, &[])).is_some() == (usize::BITS > 32));
}
