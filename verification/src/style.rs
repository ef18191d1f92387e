//! Stable handles for the sources and images added to a map style.

use crate::bridge::{Height, Size, Width};
use crate::image_renderer::{
    dynamic_height, dynamic_width, rgba8_of, rgba8_samples, rgba_fits, Image,
};
use image::DynamicImage;
use vstd::prelude::*;

verus! {

/// Shared interface for style sources that expose a stable source ID.
pub trait StyleSourceRef {
    /// Returns the stable source ID.
    fn source_id(&self) -> &str;
}

/// Shared interface for style images that expose a stable image ID.
pub trait StyleImageRef {
    /// Returns the stable image ID.
    fn image_id(&self) -> &str;
}

/// Stable source ID handle that can be used after a source object is moved.
#[derive(Debug)]
pub struct SourceId(String);

impl View for SourceId {
    type V = Seq<char>;

    closed spec fn view(&self) -> Seq<char> {
        self.0@
    }
}

impl Clone for SourceId {
    fn clone(&self) -> (c: Self)
        ensures
            c@ == self@,
    {
        SourceId(self.0.clone())
    }
}

impl SourceId {
    /// The handle for the source with the given ID.
    pub fn new(id: &str) -> (s: Self)
        ensures
            s@ == id@,
    {
        SourceId(id.to_owned())
    }

    /// Returns the source ID as a string.
    pub fn as_str(&self) -> (s: &str)
        ensures
            s@ == self@,
    {
        self.0.as_str()
    }
}

impl StyleSourceRef for SourceId {
    fn source_id(&self) -> (s: &str)
        ensures
            s@ == self@,
    {
        self.as_str()
    }
}

/// A stable image ID handle that can be used after an image object is moved.
#[derive(Debug)]
pub struct ImageId(String);

impl View for ImageId {
    type V = Seq<char>;

    closed spec fn view(&self) -> Seq<char> {
        self.0@
    }
}

impl Clone for ImageId {
    fn clone(&self) -> (c: Self)
        ensures
            c@ == self@,
    {
        ImageId(self.0.clone())
    }
}

impl ImageId {
    /// The handle for the image with the given ID.
    pub fn new(id: &str) -> (s: Self)
        ensures
            s@ == id@,
    {
        ImageId(id.to_owned())
    }

    /// Returns the image ID as a string.
    pub fn as_str(&self) -> (s: &str)
        ensures
            s@ == self@,
    {
        self.0.as_str()
    }
}

impl StyleImageRef for ImageId {
    fn image_id(&self) -> (s: &str)
        ensures
            s@ == self@,
    {
        self.as_str()
    }
}

/// Prepares an image for the style: its ID, the image as RGBA pixels (the
/// source's pixels as `to_rgba8` converts them), and the size sent with those
/// pixels, which is that of the source image and of the converted pixels,
/// whose data holds at least four bytes for each pixel.
pub fn style_image(id: &str, source: &DynamicImage) -> (r: (ImageId, Image, Size))
    ensures
        r.0@ == id@,
        r.1.spec_width() == dynamic_width(*source),
        r.1.spec_height() == dynamic_height(*source),
        r.1.samples() == rgba8_samples(*source),
        r.2.spec_width() == r.1.spec_width(),
        r.2.spec_height() == r.1.spec_height(),
        rgba_fits(r.2.spec_width() as int, r.2.spec_height() as int, r.1.samples().len() as int),
{
    let rgba = rgba8_of(source);
    let size = Size::new(Width(rgba.width()), Height(rgba.height()));
    (ImageId::new(id), rgba, size)
}

} // verus!
