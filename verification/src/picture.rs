//! Pixels an application hands to the runtime.

use vstd::prelude::*;

use crate::item::copied;

verus! {

/// How many bytes a pixel takes.
#[derive(Clone, Copy, Debug, PartialEq, Eq, Structural)]
pub enum PictureFormat {
    Gray8,
    Rgb8,
}

impl PictureFormat {
    pub open spec fn channels(self) -> int {
        match self {
            PictureFormat::Gray8 => 1,
            PictureFormat::Rgb8 => 3,
        }
    }

    /// The bytes a picture of this size takes.
    pub open spec fn size(self, width: u32, height: u32) -> int {
        width * height * self.channels()
    }

    /// The bytes a picture of this size takes, unless the machine cannot count
    /// that far.
    pub fn byte_len(self, width: u32, height: u32) -> (length: Option<usize>)
        ensures
            length == (if self.size(width, height) <= usize::MAX {
                Some(self.size(width, height) as usize)
            } else {
                None
            }),
    {
        let channels: usize = match self {
            PictureFormat::Gray8 => 1,
            PictureFormat::Rgb8 => 3,
        };
        proof {
            assert(0 <= width * height) by (nonlinear_arith)
                requires
                    0 <= width,
                    0 <= height,
            ;
            assert(width * height * channels >= width * height) by (nonlinear_arith)
                requires
                    0 <= width * height,
                    channels >= 1,
            ;
        }
        let area: usize = (width as usize).checked_mul(height as usize)?;
        area.checked_mul(channels)
    }
}

/// The bytes of a picture, row by row.
#[derive(Debug, PartialEq, Eq)]
pub enum PicturePixels {
    Gray8(Vec<u8>),
    Rgb8(Vec<u8>),
}

/// What a [`PicturePixels`] says.
pub enum PicturePixelsModel {
    Gray8(Seq<u8>),
    Rgb8(Seq<u8>),
}

impl View for PicturePixels {
    type V = PicturePixelsModel;

    open spec fn view(&self) -> PicturePixelsModel {
        match *self {
            PicturePixels::Gray8(inner) => PicturePixelsModel::Gray8(inner@),
            PicturePixels::Rgb8(inner) => PicturePixelsModel::Rgb8(inner@),
        }
    }
}

impl Clone for PicturePixels {
    fn clone(&self) -> (copy: Self)
        ensures
            copy@ == self@,
    {
        match self {
            PicturePixels::Gray8(inner) => PicturePixels::Gray8(copied(inner)),
            PicturePixels::Rgb8(inner) => PicturePixels::Rgb8(copied(inner)),
        }
    }
}

impl PicturePixelsModel {
    pub open spec fn format(self) -> PictureFormat {
        match self {
            PicturePixelsModel::Gray8(_) => PictureFormat::Gray8,
            PicturePixelsModel::Rgb8(_) => PictureFormat::Rgb8,
        }
    }

    pub open spec fn bytes(self) -> Seq<u8> {
        match self {
            PicturePixelsModel::Gray8(bytes) => bytes,
            PicturePixelsModel::Rgb8(bytes) => bytes,
        }
    }
}

impl PicturePixels {
    pub fn format(&self) -> (format: PictureFormat)
        ensures
            format == self@.format(),
    {
        match self {
            PicturePixels::Gray8(_) => PictureFormat::Gray8,
            PicturePixels::Rgb8(_) => PictureFormat::Rgb8,
        }
    }

    pub fn bytes(&self) -> (bytes: &Vec<u8>)
        ensures
            bytes@ == self@.bytes(),
    {
        match self {
            PicturePixels::Gray8(bytes) => bytes,
            PicturePixels::Rgb8(bytes) => bytes,
        }
    }

    pub fn byte_count(&self) -> (count: usize)
        ensures
            count == self@.bytes().len(),
    {
        self.bytes().len()
    }

    /// The pixels that are these bytes in this format.
    pub fn of(format: PictureFormat, bytes: Vec<u8>) -> (pixels: PicturePixels)
        ensures
            pixels@.format() == format,
            pixels@.bytes() == bytes@,
    {
        match format {
            PictureFormat::Gray8 => PicturePixels::Gray8(bytes),
            PictureFormat::Rgb8 => PicturePixels::Rgb8(bytes),
        }
    }
}

/// A gray picture takes one byte for each of its pixels, and a colored one
/// three.
pub proof fn law_pixels_take_one_byte_or_three(width: u32, height: u32)
    ensures
        PictureFormat::Gray8.size(width, height) == width * height,
        PictureFormat::Rgb8.size(width, height) == 3 * (width * height),
{
    let area = width * height;
    assert(area * 1 == area && area * 3 == 3 * area);
}

} // verus!
