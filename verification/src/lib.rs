//! Verified core of the MapVina Native bindings: the values that cross the
//! boundary to the native map renderer, and the decisions taken around it.

pub mod bridge;
pub mod callbacks;
pub mod file_source;
pub mod image_renderer;
pub mod logging;
pub mod options;
pub mod pool;
pub mod style;

pub use bridge::{
    describe_map_load_error, FsErrorReason, Height, MapDebugOptions, MapLoadError, MapMode,
    MapObserverCameraChangeMode, ResourceKind, RustFsResponse, Size, SymbolAnchorType, Width,
};
pub use callbacks::{
    camera_did_change_callback, failing_loading_map_callback, finish_rendering_frame_callback,
    void_callback,
};
pub use file_source::{answer_for, fs_request_callback, FsResponse};
pub use image_renderer::{
    image_from_output, Continuous, Image, RendererState, RenderingError, Static, StyleLoadError,
    StyleLoadErrorKind, Tile,
};
pub use logging::{log_from_cpp, Event, EventSeverity, LogLevel, LogRecord};
pub use options::{ResourceOptions, TileServerOptions, UrlTemplate};
pub use pool::{tile_response, RenderWorker, SingleThreadedRenderPoolError};
pub use style::{style_image, ImageId, SourceId, StyleImageRef, StyleSourceRef};
