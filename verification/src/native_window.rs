//! The render target: an opaque display surface that decoded buffers can
//! be presented to.
//!
//! The surface itself is an external collaborator; this module models
//! what the coordination layer reads of it — its negotiated geometry and
//! pixel format. Presenting pixels is the platform's business and stays
//! outside the verified core.

use vstd::prelude::*;

verus! {

/// Pixel formats a render target can negotiate.
#[derive(Debug, Clone, Copy, PartialEq, Eq, Structural)]
pub enum NativeWindowFormat {
    /// 32 bits per pixel, 8 bits per channel.
    Rgba8,
    /// 32 bits per pixel, 8 bits per channel, alpha ignored.
    Rgb8,
    /// 16 bits per pixel, 5/6/5 bits per channel.
    Rgb565,
    /// Planar YUV 4:2:0; width and height must be even.
    Yuv420,
    /// An unrecognized, undocumented format.
    Other,
}

impl NativeWindowFormat {
    /// The numeric code of this format in the platform's space.
    pub open spec fn spec_code(self) -> int {
        match self {
            NativeWindowFormat::Rgba8 => 1,
            NativeWindowFormat::Rgb8 => 2,
            NativeWindowFormat::Rgb565 => 4,
            NativeWindowFormat::Yuv420 => 0x23,
            NativeWindowFormat::Other => 0x24,
        }
    }

    /// The format a numeric code stands for; unrecognized codes map to
    /// `Other`.
    pub open spec fn spec_from_code(value: int) -> NativeWindowFormat {
        if value == 1 {
            NativeWindowFormat::Rgba8
        } else if value == 2 {
            NativeWindowFormat::Rgb8
        } else if value == 4 {
            NativeWindowFormat::Rgb565
        } else if value == 0x23 {
            NativeWindowFormat::Yuv420
        } else {
            NativeWindowFormat::Other
        }
    }

    /// The numeric code of this format.
    pub fn code(&self) -> (r: isize)
        ensures
            r as int == self.spec_code(),
    {
        match self {
            NativeWindowFormat::Rgba8 => 1,
            NativeWindowFormat::Rgb8 => 2,
            NativeWindowFormat::Rgb565 => 4,
            NativeWindowFormat::Yuv420 => 0x23,
            NativeWindowFormat::Other => 0x24,
        }
    }

    /// The recognized formats.
    pub fn values() -> (r: Vec<NativeWindowFormat>)
        ensures
            r@ =~= seq![
                NativeWindowFormat::Rgba8,
                NativeWindowFormat::Rgb8,
                NativeWindowFormat::Rgb565,
                NativeWindowFormat::Yuv420,
            ],
    {
        let mut v: Vec<NativeWindowFormat> = Vec::new();
        v.push(NativeWindowFormat::Rgba8);
        v.push(NativeWindowFormat::Rgb8);
        v.push(NativeWindowFormat::Rgb565);
        v.push(NativeWindowFormat::Yuv420);
        v
    }
}

impl From<isize> for NativeWindowFormat {
    /// The format a numeric code stands for; unrecognized codes map to
    /// `Other`.
    fn from(value: isize) -> (r: NativeWindowFormat) {
        if value == 1 {
            NativeWindowFormat::Rgba8
        } else if value == 2 {
            NativeWindowFormat::Rgb8
        } else if value == 4 {
            NativeWindowFormat::Rgb565
        } else if value == 0x23 {
            NativeWindowFormat::Yuv420
        } else {
            NativeWindowFormat::Other
        }
    }
}

impl vstd::std_specs::convert::FromSpecImpl<isize> for NativeWindowFormat {
    open spec fn obeys_from_spec() -> bool {
        true
    }

    open spec fn from_spec(value: isize) -> NativeWindowFormat {
        NativeWindowFormat::spec_from_code(value as int)
    }
}

/// Transformations a presented buffer can be given.
#[derive(Debug, Clone, Copy, PartialEq, Eq, Structural)]
pub enum NativeWindowTransform {
    Identity,
    MirrorHorizontal,
    MirrorVertical,
    Rotate90,
    Rotate180,
    Rotate270,
}

impl NativeWindowTransform {
    /// The bit value of this transform: a rotation is the combination of
    /// the mirror bits it is made of.
    pub open spec fn spec_value(self) -> int {
        match self {
            NativeWindowTransform::Identity => 0,
            NativeWindowTransform::MirrorHorizontal => 1,
            NativeWindowTransform::MirrorVertical => 2,
            NativeWindowTransform::Rotate90 => 4,
            NativeWindowTransform::Rotate180 => 3,
            NativeWindowTransform::Rotate270 => 7,
        }
    }

    /// The bit value of this transform.
    pub fn value(&self) -> (r: isize)
        ensures
            r as int == self.spec_value(),
    {
        match self {
            NativeWindowTransform::Identity => 0,
            NativeWindowTransform::MirrorHorizontal => 1,
            NativeWindowTransform::MirrorVertical => 2,
            NativeWindowTransform::Rotate90 => 4,
            NativeWindowTransform::Rotate180 => 3,
            NativeWindowTransform::Rotate270 => 7,
        }
    }

    /// The combined bit value of two transforms.
    pub fn combine(self, rhs: NativeWindowTransform) -> (r: isize)
        ensures
            r == ((self.spec_value() as isize) | (rhs.spec_value() as isize)),
    {
        self.value() | rhs.value()
    }
}

/// A region of a surface, in pixels.
#[derive(Debug, Clone, Copy, PartialEq, Eq, Structural)]
pub struct ARect {
    pub left: i32,
    pub top: i32,
    pub right: i32,
    pub bottom: i32,
}

/// A render target with its negotiated geometry.
#[derive(Debug, Clone, Copy)]
pub struct NativeWindow {
    width: i32,
    height: i32,
    format: NativeWindowFormat,
}

impl NativeWindow {
    /// The negotiated width, in pixels.
    pub closed spec fn spec_width(&self) -> i32 {
        self.width
    }

    /// The negotiated height, in pixels.
    pub closed spec fn spec_height(&self) -> i32 {
        self.height
    }

    /// The negotiated pixel format.
    pub closed spec fn spec_format(&self) -> NativeWindowFormat {
        self.format
    }

    /// A render target with the given geometry.
    pub fn new(width: i32, height: i32, format: NativeWindowFormat) -> (r: NativeWindow)
        ensures
            r.spec_width() == width,
            r.spec_height() == height,
            r.spec_format() == format,
    {
        NativeWindow { width, height, format }
    }

    /// The negotiated width, in pixels.
    pub fn width(&self) -> (r: i32)
        ensures
            r == self.spec_width(),
    {
        self.width
    }

    /// The negotiated height, in pixels.
    pub fn height(&self) -> (r: i32)
        ensures
            r == self.spec_height(),
    {
        self.height
    }

    /// The negotiated pixel format.
    pub fn format(&self) -> (r: NativeWindowFormat)
        ensures
            r == self.spec_format(),
    {
        self.format
    }

    /// Renegotiates the surface's geometry.
    pub fn set_geometry(&mut self, width: i32, height: i32, format: NativeWindowFormat)
        ensures
            final(self).spec_width() == width,
            final(self).spec_height() == height,
            final(self).spec_format() == format,
    {
        self.width = width;
        self.height = height;
        self.format = format;
    }
}

} // verus!
