//! The window icon: 32-bit RGBA pixels decoded from an embedded image.

use vstd::prelude::*;

verus! {

/// Bytes per RGBA pixel.
pub const PIXEL_SIZE: usize = 4;

/// Why bytes could not be turned into an icon.
#[derive(Clone, Copy, Debug, PartialEq, Eq, Structural)]
pub enum IconError {
    /// The bytes are not an image that the decoder understands.
    Undecodable,
    /// The number of bytes is not a multiple of four, so they cannot be read
    /// as RGBA pixels.
    ByteCountNotDivisibleBy4 { byte_count: usize },
    /// The number of pixels is not `width * height`.
    DimensionsVsPixelCount { width: u32, height: u32, pixel_count: usize },
}

/// What an icon stands for: its pixels, row by row, and its size.
pub struct IconData {
    pub rgba: Seq<u8>,
    pub width: u32,
    pub height: u32,
}

impl IconData {
    /// The pixels fill the icon exactly.
    pub open spec fn wf(self) -> bool {
        self.rgba.len() == PIXEL_SIZE * self.width * self.height
    }
}

/// The icon that `rgba`, read as rows of RGBA pixels, makes at the given
/// size.
pub open spec fn icon_from_rgba(rgba: Seq<u8>, width: u32, height: u32) -> Result<
    IconData,
    IconError,
> {
    if rgba.len() % (PIXEL_SIZE as nat) != 0 {
        Err(IconError::ByteCountNotDivisibleBy4 { byte_count: rgba.len() as usize })
    } else if rgba.len() / (PIXEL_SIZE as nat) != width * height {
        Err(
            IconError::DimensionsVsPixelCount {
                width,
                height,
                pixel_count: (rgba.len() / (PIXEL_SIZE as nat)) as usize,
            },
        )
    } else {
        Ok(IconData { rgba, width, height })
    }
}

/// A window icon.
#[derive(Debug)]
pub struct IconImage {
    rgba: Vec<u8>,
    width: u32,
    height: u32,
}

impl View for IconImage {
    type V = IconData;

    closed spec fn view(&self) -> IconData {
        IconData { rgba: self.rgba@, width: self.width, height: self.height }
    }
}

/// What an icon, or the reason why there is none, stands for.
pub open spec fn icon_view(icon: Result<IconImage, IconError>) -> Result<IconData, IconError> {
    match icon {
        Ok(icon) => Ok(icon@),
        Err(e) => Err(e),
    }
}

impl IconImage {
    /// An icon always holds exactly the pixels of its size.
    #[verifier::type_invariant]
    pub open spec fn inv(self) -> bool {
        self@.wf()
    }

    /// Makes an icon from 32-bit RGBA pixels.
    ///
    /// The length of `rgba` must be a multiple of four, and the number of
    /// pixels must be `width * height`.
    pub fn from_rgba(rgba: Vec<u8>, width: u32, height: u32) -> (r: Result<Self, IconError>)
        ensures
            icon_view(r) == icon_from_rgba(rgba@, width, height),
            r matches Ok(icon) ==> icon@.wf(),
    {
        let byte_count = rgba.len();
        if byte_count % PIXEL_SIZE != 0 {
            return Err(IconError::ByteCountNotDivisibleBy4 { byte_count });
        }
        let pixel_count = byte_count / PIXEL_SIZE;
        assert(width * height <= 0xffff_ffff * 0xffff_ffff) by (nonlinear_arith)
            requires
                0 <= width <= 0xffff_ffff,
                0 <= height <= 0xffff_ffff,
        ;
        let expected: u64 = (width as u64) * (height as u64);
        if pixel_count as u64 != expected {
            return Err(IconError::DimensionsVsPixelCount { width, height, pixel_count });
        }
        assert(rgba@.len() == PIXEL_SIZE * width * height) by (nonlinear_arith)
            requires
                rgba@.len() % 4 == 0,
                rgba@.len() / 4 == width * height,
                PIXEL_SIZE == 4,
        ;
        Ok(IconImage { rgba, width, height })
    }

    /// The pixels, row by row, four bytes each.
    pub fn rgba(&self) -> (p: &Vec<u8>)
        ensures
            p@ == self@.rgba,
            self@.wf(),
    {
        proof {
            use_type_invariant(self);
        }
        &self.rgba
    }

    /// The width in pixels.
    pub fn width(&self) -> (w: u32)
        ensures
            w == self@.width,
    {
        self.width
    }

    /// The height in pixels.
    pub fn height(&self) -> (h: u32)
        ensures
            h == self@.height,
    {
        self.height
    }
}

/// An image as the decoder hands it out: 8-bit RGBA samples and the size
/// that the image declares.
#[derive(Debug)]
pub struct DecodedImage {
    pub rgba: Vec<u8>,
    pub width: u32,
    pub height: u32,
}

/// The decoder's own error. Nothing is read from it.
#[verifier::external_type_specification]
#[verifier::external_body]
pub struct ExImageError(image::ImageError);

/// Calls `image::load_from_memory`, which guesses the format of `bytes` and
/// decodes them, and turns the image into 8-bit RGBA with
/// `DynamicImage::into_rgba8`. The samples are those of
/// `ImageBuffer::into_raw`, the size that of `ImageBuffer::dimensions`.
///
/// Nothing is claimed of the result: which formats are understood depends on
/// how the decoder was built and on the hooks registered with it.
#[verifier::external_body]
fn decode_rgba8(bytes: &[u8]) -> (r: Result<DecodedImage, image::ImageError>) {
    let pixels = image::load_from_memory(bytes)?.into_rgba8();
    let (width, height) = pixels.dimensions();
    Ok(DecodedImage { rgba: pixels.into_raw(), width, height })
}

/// The icon that the decoder's answer makes: none if nothing was decoded,
/// else the one that the samples make at the declared size.
pub open spec fn icon_of_decoded(decoded: Result<DecodedImage, image::ImageError>) -> Result<
    IconData,
    IconError,
> {
    match decoded {
        Ok(image) => icon_from_rgba(image.rgba@, image.width, image.height),
        Err(_) => Err(IconError::Undecodable),
    }
}

/// Makes an icon of what the decoder answered.
///
/// The decoder's word is not taken for the size: the samples are counted
/// against it as for any other pixels.
pub fn icon_from_decoded(decoded: Result<DecodedImage, image::ImageError>) -> (r: Result<
    IconImage,
    IconError,
>)
    ensures
        icon_view(r) == icon_of_decoded(decoded),
        r matches Ok(icon) ==> icon@.wf(),
{
    match decoded {
        Ok(image) => IconImage::from_rgba(image.rgba, image.width, image.height),
        Err(_) => Err(IconError::Undecodable),
    }
}

/// Decodes an embedded image into a window icon.
///
/// Whether `bytes` decode, and to which pixels, is the decoder's call. What
/// it hands out goes through [`icon_from_decoded`], so an icon that comes
/// back holds exactly `width * height` pixels.
pub fn load_icon(bytes: &[u8]) -> (r: Result<IconImage, IconError>)
    ensures
        r matches Ok(icon) ==> icon@.wf(),
{
    icon_from_decoded(decode_rgba8(bytes))
}

} // verus!
