//! Sniffing and validating uploaded assets, and rendering platform icons.
use crate::platform::Platform;
use vstd::prelude::*;

verus! {

/// An image format as recognised from the leading bytes of a buffer.
#[derive(Clone, Copy, Debug, PartialEq, Eq, Structural)]
pub enum SniffedFormat {
    Png,
    Jpeg,
    Other,
}

/// What kind of asset an accepted upload is.
#[derive(Clone, Copy, Debug, PartialEq, Eq, Structural)]
pub enum AssetKind {
    Image,
    Font,
}

/// Why an upload was refused.
#[derive(Clone, Copy, Debug, PartialEq, Eq, Structural)]
pub enum AssetError {
    /// Not a PNG or JPEG that decodes.
    UnreadableImage,
    /// A PNG or JPEG whose dimensions are out of range.
    InvalidImage,
    /// Not a font face that parses.
    InvalidFont,
}

/// The encoding of a rendered icon.
#[derive(Clone, Copy, Debug, PartialEq, Eq, Structural)]
pub enum IconFormat {
    Png,
    Jpeg,
}

#[verifier::external_type_specification]
#[verifier::external_body]
pub struct ExDynamicImage(image::DynamicImage);

/// The three bytes every JPEG file starts with: the start-of-image marker
/// and the first byte of the next marker.
pub open spec fn jpeg_magic() -> Seq<u8> {
    seq![0xFFu8, 0xD8u8, 0xFFu8]
}

/// The format recognised in the leading bytes of `b`: the PNG signature,
/// the JPEG magic, or anything else.
pub open spec fn sniffed_format(b: Seq<u8>) -> SniffedFormat {
    if b.len() >= 8 && b.take(8) == png_signature() {
        SniffedFormat::Png
    } else if b.len() >= 3 && b.take(3) == jpeg_magic() {
        SniffedFormat::Jpeg
    } else {
        SniffedFormat::Other
    }
}

/// Width and height of the image that `b` decodes to, if it decodes.
pub uninterp spec fn decoded_dimensions(b: Seq<u8>) -> Option<(u32, u32)>;

/// Whether `b` parses as the first face of a TrueType/OpenType font.
pub uninterp spec fn font_parses(b: Seq<u8>) -> bool;

/// Relies on `image::guess_format`: its table of magic bytes tries the PNG
/// signature first and the JPEG magic second, and names other formats only.
#[verifier::external_body]
fn sniff_format(b: &[u8]) -> (r: SniffedFormat)
    ensures
        r == sniffed_format(b@),
{
    match image::guess_format(b) {
        Ok(image::ImageFormat::Png) => SniffedFormat::Png,
        Ok(image::ImageFormat::Jpeg) => SniffedFormat::Jpeg,
        _ => SniffedFormat::Other,
    }
}

/// Relies on `image::load_from_memory`: decodes `b` with its guessed format;
/// the dimensions are those of the decoded image. Empty bytes have no
/// format and never decode.
#[verifier::external_body]
fn load_image(b: &[u8]) -> (r: Option<(image::DynamicImage, u32, u32)>)
    ensures
        r is None <==> decoded_dimensions(b@) is None,
        b@.len() == 0 ==> r is None,
        r matches Some(t) ==> decoded_dimensions(b@) == Some((t.1, t.2)),
{
    match image::load_from_memory(b) {
        Ok(img) => {
            let (w, h) = (img.width(), img.height());
            Some((img, w, h))
        },
        Err(_) => None,
    }
}

/// Relies on `image::DynamicImage::thumbnail`: scales the image to fit the
/// given box, keeping its aspect ratio. The scaled sides, as read back with
/// `width` and `height`, are at least one pixel (`resize_dimensions` never
/// rounds below 1) and, for a non-empty box, at most the box.
#[verifier::external_body]
fn thumbnail(img: &image::DynamicImage, width: u32, height: u32) -> (r: (image::DynamicImage, u32, u32))
    ensures
        1 <= r.1,
        1 <= r.2,
        width >= 1 ==> r.1 <= width,
        height >= 1 ==> r.2 <= height,
{
    let scaled = img.thumbnail(width, height);
    let (w, h) = (scaled.width(), scaled.height());
    (scaled, w, h)
}

/// The eight bytes every PNG file starts with.
pub open spec fn png_signature() -> Seq<u8> {
    seq![0x89u8, 0x50u8, 0x4Eu8, 0x47u8, 0x0Du8, 0x0Au8, 0x1Au8, 0x0Au8]
}

/// The start-of-image marker every JPEG file starts with.
pub open spec fn jpeg_signature() -> Seq<u8> {
    seq![0xFFu8, 0xD8u8]
}

/// Relies on `image::DynamicImage::write_to`: encodes the icon's picture in
/// memory, converting its colour type to one the encoder takes. An `Icon`
/// only ever holds a thumbnail whose sides are between 1 and 256 pixels
/// (its fields are private and `Icon::from_bytes` is its only maker), and
/// both encoders accept every such picture; each output starts with its
/// format's signature.
#[verifier::external_body]
fn encode_icon(icon: &Icon) -> (r: Option<Vec<u8>>)
    ensures
        r is Some,
        r matches Some(b) ==> (icon.format == IconFormat::Png ==> b@.len() >= 8 && b@.take(8) == png_signature()),
        r matches Some(b) ==> (icon.format == IconFormat::Jpeg ==> b@.len() >= 2 && b@.take(2) == jpeg_signature()),
{
    let format = match icon.format {
        IconFormat::Png => image::ImageFormat::Png,
        IconFormat::Jpeg => image::ImageFormat::Jpeg,
    };
    let mut out: Vec<u8> = Vec::new();
    match icon.image.write_to(std::io::Cursor::new(&mut out), format) {
        Ok(()) => Some(out),
        Err(_) => None,
    }
}

/// Relies on `ttf_parser::Face::parse` with face index 0; a buffer shorter
/// than the four-byte magic never parses.
#[verifier::external_body]
fn parse_font(b: &[u8]) -> (r: bool)
    ensures
        r == font_parses(b@),
        b@.len() < 4 ==> !r,
{
    ttf_parser::Face::parse(b, 0).is_ok()
}

/// Image dimensions that the converters accept.
pub open spec fn dimensions_in_range(width: u32, height: u32) -> bool {
    3 <= width <= 1024 && 3 <= height <= 1024
}

/// The format is one that image validation decodes.
pub open spec fn is_decodable_format(f: SniffedFormat) -> bool {
    f == SniffedFormat::Png || f == SniffedFormat::Jpeg
}

/// The outcome of image validation, from what the decoder found.
pub open spec fn image_verdict(format: SniffedFormat, dims: Option<(u32, u32)>) -> Result<(), AssetError> {
    if !is_decodable_format(format) {
        Err(AssetError::UnreadableImage)
    } else {
        match dims {
            None => Err(AssetError::UnreadableImage),
            Some(d) => if dimensions_in_range(d.0, d.1) {
                Ok(())
            } else {
                Err(AssetError::InvalidImage)
            },
        }
    }
}

/// The outcome of font validation, from what the parser found.
pub open spec fn font_verdict(parses: bool) -> Result<(), AssetError> {
    if parses {
        Ok(())
    } else {
        Err(AssetError::InvalidFont)
    }
}

/// Classification from what the decoder and the font parser found:
/// a decodable PNG/JPEG is an image (refused out of range), anything
/// else is tried as a font.
pub open spec fn classification(format: SniffedFormat, dims: Option<(u32, u32)>, parses: bool) -> Result<AssetKind, AssetError> {
    if is_decodable_format(format) && dims is Some {
        match image_verdict(format, dims) {
            Ok(()) => Ok(AssetKind::Image),
            Err(e) => Err(e),
        }
    } else if parses {
        Ok(AssetKind::Font)
    } else {
        Err(AssetError::InvalidFont)
    }
}

/// Classification of the bytes `b`.
pub open spec fn classify_bytes(b: Seq<u8>) -> Result<AssetKind, AssetError> {
    classification(sniffed_format(b), decoded_dimensions(b), font_parses(b))
}

/// Classifies an upload from what the decoder and the font parser found.
pub fn classify_probed(format: SniffedFormat, dims: Option<(u32, u32)>, parses: bool) -> (r: Result<AssetKind, AssetError>)
    ensures
        r == classification(format, dims, parses),
{
    match (format, dims) {
        (SniffedFormat::Png, Some((w, h))) | (SniffedFormat::Jpeg, Some((w, h))) => {
            if Image::validate(w, h) {
                Ok(AssetKind::Image)
            } else {
                Err(AssetError::InvalidImage)
            }
        },
        _ => if parses {
            Ok(AssetKind::Font)
        } else {
            Err(AssetError::InvalidFont)
        },
    }
}

/// Sniffs `bytes` as an image first and as a font second, and validates it.
pub fn classify_and_validate(bytes: &[u8]) -> (r: Result<AssetKind, AssetError>)
    ensures
        r == classify_bytes(bytes@),
        bytes@.len() == 0 ==> r == Err::<AssetKind, AssetError>(AssetError::InvalidFont),
{
    let format = sniff_format(bytes);
    let dims = match format {
        SniffedFormat::Png | SniffedFormat::Jpeg => match load_image(bytes) {
            Some((_, w, h)) => Some((w, h)),
            None => None,
        },
        SniffedFormat::Other => None,
    };
    let parses = if is_decodable_format_exec(format) && dims.is_some() {
        false
    } else {
        parse_font(bytes)
    };
    classify_probed(format, dims, parses)
}

fn is_decodable_format_exec(f: SniffedFormat) -> (r: bool)
    ensures
        r == is_decodable_format(f),
{
    match f {
        SniffedFormat::Png | SniffedFormat::Jpeg => true,
        SniffedFormat::Other => false,
    }
}

/// A decodable PNG or JPEG is an image exactly when both of its dimensions
/// lie in [3, 1024]; at any other size it is refused as an invalid image,
/// even though it decodes.
pub proof fn lemma_decodable_image_classification(b: Seq<u8>)
    requires
        is_decodable_format(sniffed_format(b)),
        decoded_dimensions(b) is Some,
    ensures
        ({
            let d = decoded_dimensions(b)->0;
            &&& dimensions_in_range(d.0, d.1) ==> classify_bytes(b) == Ok::<AssetKind, AssetError>(
                AssetKind::Image,
            )
            &&& !dimensions_in_range(d.0, d.1) ==> classify_bytes(b) == Err::<AssetKind, AssetError>(
                AssetError::InvalidImage,
            )
        }),
{
}

/// Bytes that are neither a decodable PNG/JPEG nor a parsable font face
/// are always refused.
pub proof fn lemma_unrecognised_bytes_rejected(b: Seq<u8>)
    requires
        !(is_decodable_format(sniffed_format(b)) && decoded_dimensions(b) is Some),
        !font_parses(b),
    ensures
        classify_bytes(b) is Err,
{
}

/// Raster images that convert to textures.
pub struct Image;

impl Image {
    /// Whether an image of this size is accepted.
    pub fn validate(width: u32, height: u32) -> (r: bool)
        ensures
            r == dimensions_in_range(width, height),
    {
        3 <= width && width <= 1024 && 3 <= height && height <= 1024
    }

    /// Accepts a PNG or JPEG that decodes to a size in range.
    pub fn is_valid(bytes: &[u8]) -> (r: Result<(), AssetError>)
        ensures
            r == image_verdict(sniffed_format(bytes@), decoded_dimensions(bytes@)),
        bytes@.len() == 0 ==> r == Err::<(), AssetError>(AssetError::UnreadableImage),
    {
        let format = sniff_format(bytes);
        if !is_decodable_format_exec(format) {
            return Err(AssetError::UnreadableImage);
        }
        match load_image(bytes) {
            Some((_, w, h)) => if Self::validate(w, h) {
                Ok(())
            } else {
                Err(AssetError::InvalidImage)
            },
            None => Err(AssetError::UnreadableImage),
        }
    }
}

/// Font faces that convert to bitmap fonts.
pub struct Font;

impl Font {
    /// Accepts a buffer whose first face parses.
    pub fn is_valid(bytes: &[u8]) -> (r: Result<(), AssetError>)
        ensures
            r == font_verdict(font_parses(bytes@)),
    {
        if parse_font(bytes) {
            Ok(())
        } else {
            Err(AssetError::InvalidFont)
        }
    }
}

/// The box an icon is scaled to on a platform.
pub open spec fn icon_size(p: Platform) -> (u32, u32) {
    match p {
        Platform::Ctr => (48, 48),
        Platform::Hac => (256, 256),
        Platform::Cafe => (128, 128),
    }
}

/// The encoding a platform expects its icon in.
pub open spec fn icon_format(p: Platform) -> IconFormat {
    match p {
        Platform::Hac => IconFormat::Jpeg,
        _ => IconFormat::Png,
    }
}

/// An icon scaled for one platform.
pub struct Icon {
    image: image::DynamicImage,
    format: IconFormat,
    width: u32,
    height: u32,
    scaled_width: u32,
    scaled_height: u32,
}

impl Icon {
    /// The encoding the icon is written in.
    pub closed spec fn encoding(&self) -> IconFormat {
        self.format
    }

    /// The box the picture was scaled to fit.
    pub closed spec fn fitted_box(&self) -> (u32, u32) {
        (self.width, self.height)
    }

    /// The size of the scaled picture.
    pub closed spec fn scaled(&self) -> (u32, u32) {
        (self.scaled_width, self.scaled_height)
    }

    /// Decodes `bytes` and scales the picture to fit `target`'s box.
    pub fn from_bytes(target: &Platform, bytes: &[u8]) -> (r: Option<Icon>)
        ensures
            r is Some <==> decoded_dimensions(bytes@) is Some,
            r matches Some(icon) ==> {
                &&& icon.encoding() == icon_format(*target)
                &&& icon.fitted_box() == icon_size(*target)
                &&& 1 <= icon.scaled().0 <= icon_size(*target).0
                &&& 1 <= icon.scaled().1 <= icon_size(*target).1
            },
    {
        let (width, height, format) = match target {
            Platform::Ctr => (48u32, 48u32, IconFormat::Png),
            Platform::Hac => (256u32, 256u32, IconFormat::Jpeg),
            Platform::Cafe => (128u32, 128u32, IconFormat::Png),
        };
        match load_image(bytes) {
            Some((img, _, _)) => {
                let (image, scaled_width, scaled_height) = thumbnail(&img, width, height);
                Some(Icon { image, format, width, height, scaled_width, scaled_height })
            },
            None => None,
        }
    }

    /// The encoding the icon is written in.
    pub fn format(&self) -> (r: IconFormat)
        ensures
            r == self.encoding(),
    {
        self.format
    }

    /// The box the picture was scaled to fit.
    pub fn box_size(&self) -> (r: (u32, u32))
        ensures
            r == self.fitted_box(),
    {
        (self.width, self.height)
    }

    /// The size of the scaled picture.
    pub fn scaled_size(&self) -> (r: (u32, u32))
        ensures
            r == self.scaled(),
    {
        (self.scaled_width, self.scaled_height)
    }

    /// The icon encoded in its platform's format.
    pub fn create(&self) -> (r: Vec<u8>)
        ensures
            self.encoding() == IconFormat::Png ==> r@.len() >= 8 && r@.take(8) == png_signature(),
            self.encoding() == IconFormat::Jpeg ==> r@.len() >= 2 && r@.take(2) == jpeg_signature(),
    {
        match encode_icon(self) {
            Some(bytes) => bytes,
            None => Vec::new(),
        }
    }
}

} // verus!
