use image::{DynamicImage, GrayImage, Luma, Rgba, RgbaImage};
use mapvina_native::{
    ImageId, ResourceOptions, SourceId, StyleImageRef, StyleSourceRef, TileServerOptions,
};

#[test]
fn tile_server_options_start_unset() {
    let options = TileServerOptions::default();
    assert!(options.base_url.is_none());
    assert!(options.tile_template.is_none());
    assert!(options.requires_api_key.is_none());
}

#[test]
fn tile_server_options_record_each_setting() {
    let options = TileServerOptions::default()
        .with_base_url(b"https://tiles.example".to_vec())
        .with_uri_scheme_alias(b"mapvina".to_vec())
        .with_source_template(b"/tiles/{domain}.json".to_vec(), "tiles", "/v3")
        .with_tile_template(b"/tiles/{z}/{x}/{y}.pbf".to_vec(), "tiles", "/v4")
        .with_api_key_parameter_name("key")
        .set_requires_api_key(true);
    assert_eq!(options.base_url.as_deref(), Some(&b"https://tiles.example"[..]));
    assert_eq!(options.uri_scheme_alias.as_deref(), Some(&b"mapvina"[..]));
    let source = options.source_template.as_ref().unwrap();
    assert_eq!(source.template, b"/tiles/{domain}.json".to_vec());
    assert_eq!(source.domain_name, "tiles");
    assert_eq!(source.version_prefix, "/v3");
    assert_eq!(options.tile_template.as_ref().unwrap().version_prefix, "/v4");
    assert!(options.sprites_template.is_none());
    assert!(options.glyphs_template.is_none());
    assert_eq!(options.api_key_parameter_name.as_deref(), Some("key"));
    assert_eq!(options.requires_api_key, Some(true));
}

#[test]
fn later_setting_replaces_earlier() {
    let options = TileServerOptions::default()
        .with_glyphs_template(b"a".to_vec(), "d1", "p1")
        .with_glyphs_template(b"b".to_vec(), "d2", "p2")
        .with_sprites_template(b"s".to_vec(), "d", "p")
        .set_requires_api_key(true)
        .set_requires_api_key(false);
    let glyphs = options.glyphs_template.as_ref().unwrap();
    assert_eq!(glyphs.template, b"b".to_vec());
    assert_eq!(glyphs.domain_name, "d2");
    assert_eq!(options.sprites_template.as_ref().unwrap().template, b"s".to_vec());
    assert_eq!(options.requires_api_key, Some(false));
}

#[test]
fn resource_options_record_each_setting() {
    let tiles = TileServerOptions::default().with_base_url(b"https://t".to_vec());
    let options = ResourceOptions::default()
        .with_api_key("SECRET-REDACTED")
        .with_cache_path(b"/tmp/cache.db".to_vec())
        .with_asset_path(b"/usr/share/assets".to_vec())
        .with_maximum_cache_size(50 * 1024 * 1024)
        .with_tile_server_options(&tiles);
    assert_eq!(options.api_key.as_deref(), Some("SECRET-REDACTED"));
    assert_eq!(options.cache_path.as_deref(), Some(&b"/tmp/cache.db"[..]));
    assert_eq!(options.asset_path.as_deref(), Some(&b"/usr/share/assets"[..]));
    assert_eq!(options.maximum_cache_size, Some(52_428_800));
    let copied = options.tile_server_options.as_ref().unwrap();
    assert_eq!(copied.base_url.as_deref(), Some(&b"https://t"[..]));
    assert_eq!(tiles.base_url.as_deref(), Some(&b"https://t"[..]));
}

#[test]
fn resource_options_start_unset() {
    let options = ResourceOptions::default();
    assert!(options.api_key.is_none());
    assert!(options.tile_server_options.is_none());
    assert!(options.maximum_cache_size.is_none());
}

#[test]
fn ids_keep_their_text() {
    let source = SourceId::new("geojson-test-source");
    assert_eq!(source.as_str(), "geojson-test-source");
    assert_eq!(source.source_id(), "geojson-test-source");
    let moved = source.clone();
    assert_eq!(moved.as_str(), "geojson-test-source");
    let image = ImageId::new("marker");
    assert_eq!(image.as_str(), "marker");
    assert_eq!(image.image_id(), "marker");
    let copy = image.clone();
    assert_eq!(copy.as_str(), "marker");
    assert_eq!(copy.image_id(), image.as_str());
}

#[test]
fn style_image_converts_to_rgba_with_its_size() {
    let gray = GrayImage::from_fn(3, 2, |x, y| Luma([(10 * x + y) as u8]));
    let (id, rgba, size) = mapvina_native::style_image("marker", &DynamicImage::ImageLuma8(gray));
    assert_eq!(id.as_str(), "marker");
    assert_eq!((size.width(), size.height()), (3, 2));
    assert_eq!((rgba.width(), rgba.height()), (3, 2));
    assert_eq!(rgba.as_raw().len(), 24);
    assert_eq!(&rgba.as_raw()[4..8], &[10, 10, 10, 255]);
}

#[test]
fn style_image_keeps_rgba_pixels() {
    let src = RgbaImage::from_pixel(1, 4, Rgba([1, 2, 3, 4]));
    let (_, rgba, size) = mapvina_native::style_image("dot", &DynamicImage::ImageRgba8(src));
    assert_eq!((size.width(), size.height()), (1, 4));
    assert_eq!(rgba.as_raw(), &[1, 2, 3, 4].repeat(4));
}
