//! Plain values shared with the native map renderer.

use vstd::arithmetic::power2::{lemma2_to64, pow2};
use vstd::prelude::*;

verus! {

/// A width value
#[derive(Debug)]
pub struct Width(pub u32);

/// A height value
#[derive(Debug)]
pub struct Height(pub u32);

/// A size in pixels, laid out as the native renderer expects it.
#[derive(Debug, Clone, Copy)]
pub struct Size {
    width: u32,
    heigth: u32,
}

impl Size {
    /// The width held by this size.
    pub closed spec fn spec_width(self) -> u32 {
        self.width
    }

    /// The height held by this size.
    pub closed spec fn spec_height(self) -> u32 {
        self.heigth
    }

    /// Create a new size object
    pub fn new(width: Width, height: Height) -> (size: Self)
        ensures
            size.spec_width() == width.0,
            size.spec_height() == height.0,
    {
        Self { width: width.0, heigth: height.0 }
    }

    /// get width
    pub fn width(self) -> (w: u32)
        ensures
            w == self.spec_width(),
    {
        self.width
    }

    /// get height
    pub fn height(self) -> (h: u32)
        ensures
            h == self.spec_height(),
    {
        self.heigth
    }
}

/// Symbol anchor position type.
#[derive(Debug, Clone, Copy, PartialEq, Eq, Structural)]
pub enum SymbolAnchorType {
    /// Center anchor point.
    Center,
    /// Left anchor point.
    Left,
    /// Right anchor point.
    Right,
    /// Top anchor point.
    Top,
    /// Bottom anchor point.
    Bottom,
    /// Top-left anchor point.
    TopLeft,
    /// Top-right anchor point.
    TopRight,
    /// Bottom-left anchor point.
    BottomLeft,
    /// Bottom-right anchor point.
    BottomRight,
}

impl SymbolAnchorType {
    /// The number by which the native renderer knows this anchor.
    pub open spec fn spec_repr(self) -> u8 {
        match self {
            SymbolAnchorType::Center => 0,
            SymbolAnchorType::Left => 1,
            SymbolAnchorType::Right => 2,
            SymbolAnchorType::Top => 3,
            SymbolAnchorType::Bottom => 4,
            SymbolAnchorType::TopLeft => 5,
            SymbolAnchorType::TopRight => 6,
            SymbolAnchorType::BottomLeft => 7,
            SymbolAnchorType::BottomRight => 8,
        }
    }

    /// The number by which the native renderer knows this anchor.
    pub fn repr(self) -> (r: u8)
        ensures
            r == self.spec_repr(),
    {
        match self {
            SymbolAnchorType::Center => 0,
            SymbolAnchorType::Left => 1,
            SymbolAnchorType::Right => 2,
            SymbolAnchorType::Top => 3,
            SymbolAnchorType::Bottom => 4,
            SymbolAnchorType::TopLeft => 5,
            SymbolAnchorType::TopRight => 6,
            SymbolAnchorType::BottomLeft => 7,
            SymbolAnchorType::BottomRight => 8,
        }
    }
}

/// Camera change mode for map observer callbacks.
#[derive(Debug, Clone, Copy, PartialEq, Eq, Structural)]
pub enum MapObserverCameraChangeMode {
    /// Camera changed immediately without animation.
    Immediate,
    /// Camera changed using an animated transition.
    Animated,
}

impl MapObserverCameraChangeMode {
    /// The mode that the native renderer reports with this number, if any.
    pub open spec fn spec_from_repr(repr: u32) -> Option<Self> {
        if repr == 0 {
            Some(MapObserverCameraChangeMode::Immediate)
        } else if repr == 1 {
            Some(MapObserverCameraChangeMode::Animated)
        } else {
            None
        }
    }

    /// The mode that the native renderer reports with this number, if any.
    pub fn from_repr(repr: u32) -> (m: Option<Self>)
        ensures
            m == Self::spec_from_repr(repr),
    {
        if repr == 0 {
            Some(MapObserverCameraChangeMode::Immediate)
        } else if repr == 1 {
            Some(MapObserverCameraChangeMode::Animated)
        } else {
            None
        }
    }
}

/// Map loading error types.
#[derive(Debug, Clone, Copy, PartialEq, Eq, Structural)]
pub enum MapLoadError {
    /// Style parsing error.
    StyleParseError,
    /// Style loading error.
    StyleLoadError,
    /// Resource not found.
    NotFoundError,
    /// Unknown error.
    UnknownError,
}

/// The text shown for a map loading error that the native renderer reports
/// with the given number; numbers it does not define read "Unrecognized error".
pub open spec fn map_load_error_text(repr: u32) -> Seq<char> {
    if repr == 0 {
        "Failed parsing style"@
    } else if repr == 1 {
        "Failed loading style"@
    } else if repr == 2 {
        "Style not found"@
    } else if repr == 3 {
        "Unknown error"@
    } else {
        "Unrecognized error"@
    }
}

impl MapLoadError {
    /// The number by which the native renderer reports this error.
    pub open spec fn spec_repr(self) -> u32 {
        match self {
            MapLoadError::StyleParseError => 0,
            MapLoadError::StyleLoadError => 1,
            MapLoadError::NotFoundError => 2,
            MapLoadError::UnknownError => 3,
        }
    }

    /// The number by which the native renderer reports this error.
    pub fn repr(self) -> (r: u32)
        ensures
            r == self.spec_repr(),
    {
        match self {
            MapLoadError::StyleParseError => 0,
            MapLoadError::StyleLoadError => 1,
            MapLoadError::NotFoundError => 2,
            MapLoadError::UnknownError => 3,
        }
    }

    /// The error that the native renderer reports with this number, if it is one it defines.
    pub open spec fn spec_from_repr(repr: u32) -> Option<Self> {
        if repr == 0 {
            Some(MapLoadError::StyleParseError)
        } else if repr == 1 {
            Some(MapLoadError::StyleLoadError)
        } else if repr == 2 {
            Some(MapLoadError::NotFoundError)
        } else if repr == 3 {
            Some(MapLoadError::UnknownError)
        } else {
            None
        }
    }

    /// The error that the native renderer reports with this number, if it is one it defines.
    pub fn from_repr(repr: u32) -> (e: Option<Self>)
        ensures
            e == Self::spec_from_repr(repr),
    {
        if repr == 0 {
            Some(MapLoadError::StyleParseError)
        } else if repr == 1 {
            Some(MapLoadError::StyleLoadError)
        } else if repr == 2 {
            Some(MapLoadError::NotFoundError)
        } else if repr == 3 {
            Some(MapLoadError::UnknownError)
        } else {
            None
        }
    }

    /// The text shown for this error.
    pub fn to_string(&self) -> (s: String)
        ensures
            s@ == map_load_error_text(self.spec_repr()),
    {
        describe_map_load_error(self.repr())
    }
}

/// The text shown for the map loading error that the native renderer reports
/// with this number.
pub fn describe_map_load_error(repr: u32) -> (s: String)
    ensures
        s@ == map_load_error_text(repr),
{
    proof {
        reveal_strlit("Failed parsing style");
        reveal_strlit("Failed loading style");
        reveal_strlit("Style not found");
        reveal_strlit("Unknown error");
        reveal_strlit("Unrecognized error");
    }
    let text = if repr == 0 {
        "Failed parsing style"
    } else if repr == 1 {
        "Failed loading style"
    } else if repr == 2 {
        "Style not found"
    } else if repr == 3 {
        "Unknown error"
    } else {
        "Unrecognized error"
    };
    text.to_owned()
}

/// Resource kinds requested by the native renderer.
#[derive(Debug, Clone, Copy, PartialEq, Eq, Structural)]
pub enum ResourceKind {
    /// Unknown / unspecified resource kind.
    Unknown,
    /// A style.json.
    Style,
    /// A TileJSON / source descriptor.
    Source,
    /// A single tile (vector or raster).
    Tile,
    /// A glyph PBF range.
    Glyphs,
    /// A sprite sheet PNG.
    SpriteImage,
    /// A sprite sheet JSON.
    SpriteJSON,
    /// A generic image resource.
    Image,
}

impl ResourceKind {
    /// The number by which the native renderer knows this kind.
    pub open spec fn spec_repr(self) -> u8 {
        match self {
            ResourceKind::Unknown => 0,
            ResourceKind::Style => 1,
            ResourceKind::Source => 2,
            ResourceKind::Tile => 3,
            ResourceKind::Glyphs => 4,
            ResourceKind::SpriteImage => 5,
            ResourceKind::SpriteJSON => 6,
            ResourceKind::Image => 7,
        }
    }

    /// The number by which the native renderer knows this kind.
    pub fn repr(self) -> (r: u8)
        ensures
            r == self.spec_repr(),
    {
        match self {
            ResourceKind::Unknown => 0,
            ResourceKind::Style => 1,
            ResourceKind::Source => 2,
            ResourceKind::Tile => 3,
            ResourceKind::Glyphs => 4,
            ResourceKind::SpriteImage => 5,
            ResourceKind::SpriteJSON => 6,
            ResourceKind::Image => 7,
        }
    }

    /// The kind that the native renderer requests with this number, if it defines one.
    pub open spec fn spec_from_repr(repr: u8) -> Option<Self> {
        if repr == 0 {
            Some(ResourceKind::Unknown)
        } else if repr == 1 {
            Some(ResourceKind::Style)
        } else if repr == 2 {
            Some(ResourceKind::Source)
        } else if repr == 3 {
            Some(ResourceKind::Tile)
        } else if repr == 4 {
            Some(ResourceKind::Glyphs)
        } else if repr == 5 {
            Some(ResourceKind::SpriteImage)
        } else if repr == 6 {
            Some(ResourceKind::SpriteJSON)
        } else if repr == 7 {
            Some(ResourceKind::Image)
        } else {
            None
        }
    }

    /// The kind that the native renderer requests with this number, if it defines one.
    pub fn from_repr(repr: u8) -> (k: Option<Self>)
        ensures
            k == Self::spec_from_repr(repr),
    {
        if repr == 0 {
            Some(ResourceKind::Unknown)
        } else if repr == 1 {
            Some(ResourceKind::Style)
        } else if repr == 2 {
            Some(ResourceKind::Source)
        } else if repr == 3 {
            Some(ResourceKind::Tile)
        } else if repr == 4 {
            Some(ResourceKind::Glyphs)
        } else if repr == 5 {
            Some(ResourceKind::SpriteImage)
        } else if repr == 6 {
            Some(ResourceKind::SpriteJSON)
        } else if repr == 7 {
            Some(ResourceKind::Image)
        } else {
            None
        }
    }
}

/// Error reason categories handed back to the native renderer.
#[derive(Debug, Clone, Copy, PartialEq, Eq, Structural)]
pub enum FsErrorReason {
    /// The renderer's "no error" sentinel; not a meaningful error category.
    Success,
    /// Resource not found at the requested URL.
    NotFound,
    /// Server-side error (5xx and similar).
    Server,
    /// Transport-level connection failure.
    Connection,
    /// Rate-limit response.
    RateLimit,
    /// Any other error.
    Other,
}

impl FsErrorReason {
    /// The number by which the native renderer knows this reason.
    pub open spec fn spec_repr(self) -> u8 {
        match self {
            FsErrorReason::Success => 1,
            FsErrorReason::NotFound => 2,
            FsErrorReason::Server => 3,
            FsErrorReason::Connection => 4,
            FsErrorReason::RateLimit => 5,
            FsErrorReason::Other => 6,
        }
    }

    /// The number by which the native renderer knows this reason.
    pub fn repr(self) -> (r: u8)
        ensures
            r == self.spec_repr(),
    {
        match self {
            FsErrorReason::Success => 1,
            FsErrorReason::NotFound => 2,
            FsErrorReason::Server => 3,
            FsErrorReason::Connection => 4,
            FsErrorReason::RateLimit => 5,
            FsErrorReason::Other => 6,
        }
    }
}

/// The shape of a resource-request response handed to the native renderer.
/// `error_reason == FsErrorReason::Success` means no error; any other value is
/// the reason attached to the renderer's error. `no_content == true` with
/// `error_reason == Success` is a well-formed miss (e.g. tile not present).
#[derive(Debug)]
pub struct RustFsResponse {
    pub data: Vec<u8>,
    pub error_reason: FsErrorReason,
    pub error_message: String,
    pub no_content: bool,
}

/// Map rendering mode configuration.
#[derive(Debug, Clone, Copy, PartialEq, Eq, Structural)]
pub enum MapMode {
    /// Continually updating map
    Continuous,
    /// Once-off still image of an arbitrary viewport
    Static,
    /// Once-off still image of a single tile
    Tile,
}

impl MapMode {
    /// The number by which the native renderer knows this mode.
    pub open spec fn spec_repr(self) -> u32 {
        match self {
            MapMode::Continuous => 0,
            MapMode::Static => 1,
            MapMode::Tile => 2,
        }
    }

    /// The number by which the native renderer knows this mode.
    pub fn repr(self) -> (r: u32)
        ensures
            r == self.spec_repr(),
    {
        match self {
            MapMode::Continuous => 0,
            MapMode::Static => 1,
            MapMode::Tile => 2,
        }
    }
}

/// Debug visualization options for map rendering.
#[derive(Debug, Clone, Copy, PartialEq, Eq, Structural)]
pub enum MapDebugOptions {
    /// No debug visualization.
    NoDebug,
    /// Edges of tile boundaries are shown as thick, red lines.
    ///
    /// Can help diagnose tile clipping issues.
    TileBorders,
    /// Shows tile parsing status information.
    ParseStatus,
    /// Each tile shows a timestamp indicating when it was loaded.
    Timestamps,
    /// Edges of glyphs and symbols are shown as faint, green lines.
    ///
    /// Can help diagnose collision and label placement issues.
    Collision,
    /// Each drawing operation is replaced by a translucent fill.
    ///
    /// Overlapping drawing operations appear more prominent to help diagnose overdrawing.
    Overdraw,
    /// The stencil buffer is shown instead of the color buffer.
    ///
    /// Note: This option does nothing in Release builds of the SDK.
    StencilClip,
    /// The depth buffer is shown instead of the color buffer.
    ///
    /// Note: This option does nothing in Release builds of the SDK
    DepthBuffer,
}

impl MapDebugOptions {
    /// The position of the flag bit of this option; `NoDebug` sets none.
    pub open spec fn flag_bit(self) -> Option<nat> {
        match self {
            MapDebugOptions::NoDebug => None,
            MapDebugOptions::TileBorders => Some(1),
            MapDebugOptions::ParseStatus => Some(2),
            MapDebugOptions::Timestamps => Some(3),
            MapDebugOptions::Collision => Some(4),
            MapDebugOptions::Overdraw => Some(5),
            MapDebugOptions::StencilClip => Some(6),
            MapDebugOptions::DepthBuffer => Some(7),
        }
    }

    /// The flags word that the native renderer receives for this option.
    pub open spec fn spec_repr(self) -> u32 {
        match self.flag_bit() {
            None => 0,
            Some(bit) => pow2(bit) as u32,
        }
    }

    /// The flags word that the native renderer receives for this option.
    pub fn repr(self) -> (r: u32)
        ensures
            r == self.spec_repr(),
    {
        proof {
            lemma2_to64();
        }
        match self {
            MapDebugOptions::NoDebug => 0,
            MapDebugOptions::TileBorders => 2,
            MapDebugOptions::ParseStatus => 4,
            MapDebugOptions::Timestamps => 8,
            MapDebugOptions::Collision => 16,
            MapDebugOptions::Overdraw => 32,
            MapDebugOptions::StencilClip => 64,
            MapDebugOptions::DepthBuffer => 128,
        }
    }
}

/// The numbers that cross to and from the native renderer name each value
/// once: reading back the number of a resource kind or of a map loading error
/// gives that value again, and a number read as a value is that value's number.
pub proof fn lemma_repr_round_trip(kind: ResourceKind, error: MapLoadError, repr8: u8, repr32: u32)
    ensures
        ResourceKind::spec_from_repr(kind.spec_repr()) == Some(kind),
        MapLoadError::spec_from_repr(error.spec_repr()) == Some(error),
        ResourceKind::spec_from_repr(repr8) matches Some(k) ==> k.spec_repr() == repr8,
        MapLoadError::spec_from_repr(repr32) matches Some(e) ==> e.spec_repr() == repr32,
        ResourceKind::spec_from_repr(repr8) is None <==> repr8 > 7,
        MapLoadError::spec_from_repr(repr32) is None <==> repr32 > 3,
{
}

/// Each map mode crosses as the number the native renderer gives it
/// (`Continuous` 0, `Static` 1, `Tile` 2), so distinct modes never meet.
pub proof fn lemma_map_mode_numbers(a: MapMode, b: MapMode)
    ensures
        MapMode::Continuous.spec_repr() == 0,
        MapMode::Static.spec_repr() == 1,
        MapMode::Tile.spec_repr() == 2,
        a != b ==> a.spec_repr() != b.spec_repr(),
{
}

/// Each error reason crosses as the native renderer's number (`Success` 1 up
/// to `Other` 6), so distinct reasons never meet and only `Success` means no
/// error.
pub proof fn lemma_error_reason_numbers(a: FsErrorReason, b: FsErrorReason)
    ensures
        FsErrorReason::Success.spec_repr() == 1,
        FsErrorReason::NotFound.spec_repr() == 2,
        FsErrorReason::Server.spec_repr() == 3,
        FsErrorReason::Connection.spec_repr() == 4,
        FsErrorReason::RateLimit.spec_repr() == 5,
        FsErrorReason::Other.spec_repr() == 6,
        a != b ==> a.spec_repr() != b.spec_repr(),
{
}

/// Each symbol anchor crosses as the native renderer's number, in the order
/// it declares them, so distinct anchors never meet.
pub proof fn lemma_symbol_anchor_numbers(a: SymbolAnchorType, b: SymbolAnchorType)
    ensures
        SymbolAnchorType::Center.spec_repr() == 0,
        SymbolAnchorType::Left.spec_repr() == 1,
        SymbolAnchorType::Right.spec_repr() == 2,
        SymbolAnchorType::Top.spec_repr() == 3,
        SymbolAnchorType::Bottom.spec_repr() == 4,
        SymbolAnchorType::TopLeft.spec_repr() == 5,
        SymbolAnchorType::TopRight.spec_repr() == 6,
        SymbolAnchorType::BottomLeft.spec_repr() == 7,
        SymbolAnchorType::BottomRight.spec_repr() == 8,
        a != b ==> a.spec_repr() != b.spec_repr(),
{
}

/// Resource kinds and map loading errors cross as the native renderer's
/// numbers, in the order it declares them; camera change modes are read
/// from the numbers 0 (`Immediate`) and 1 (`Animated`).
pub proof fn lemma_native_declaration_order(a: ResourceKind, b: ResourceKind, e: MapLoadError, f: MapLoadError)
    ensures
        ResourceKind::Unknown.spec_repr() == 0,
        ResourceKind::Style.spec_repr() == 1,
        ResourceKind::Source.spec_repr() == 2,
        ResourceKind::Tile.spec_repr() == 3,
        ResourceKind::Glyphs.spec_repr() == 4,
        ResourceKind::SpriteImage.spec_repr() == 5,
        ResourceKind::SpriteJSON.spec_repr() == 6,
        ResourceKind::Image.spec_repr() == 7,
        a != b ==> a.spec_repr() != b.spec_repr(),
        MapLoadError::StyleParseError.spec_repr() == 0,
        MapLoadError::StyleLoadError.spec_repr() == 1,
        MapLoadError::NotFoundError.spec_repr() == 2,
        MapLoadError::UnknownError.spec_repr() == 3,
        e != f ==> e.spec_repr() != f.spec_repr(),
        MapObserverCameraChangeMode::spec_from_repr(0) == Some(MapObserverCameraChangeMode::Immediate),
        MapObserverCameraChangeMode::spec_from_repr(1) == Some(MapObserverCameraChangeMode::Animated),
{
}

/// Each debug option other than `NoDebug` sets a single flag bit of its own,
/// so that no two options share a flags word.
pub proof fn lemma_debug_options_are_single_bits(a: MapDebugOptions, b: MapDebugOptions)
    ensures
        a.flag_bit() matches Some(k) ==> 1 <= k <= 7 && a.spec_repr() == pow2(k),
        a.flag_bit() is None <==> a == MapDebugOptions::NoDebug,
        a.flag_bit() is None ==> a.spec_repr() == 0,
        MapDebugOptions::TileBorders.spec_repr() == 2,
        MapDebugOptions::ParseStatus.spec_repr() == 4,
        MapDebugOptions::Timestamps.spec_repr() == 8,
        MapDebugOptions::Collision.spec_repr() == 16,
        MapDebugOptions::Overdraw.spec_repr() == 32,
        MapDebugOptions::StencilClip.spec_repr() == 64,
        MapDebugOptions::DepthBuffer.spec_repr() == 128,
        a != b ==> a.flag_bit() != b.flag_bit() && a.spec_repr() != b.spec_repr(),
{
    lemma2_to64();
}

} // verus!
