//! Converting the source to another image format before it is mutated.
//!
//! Decoding and encoding are the `image` crate's work and are not proved
//! here. What the library settles is which file extensions name a format and
//! which step a failed conversion failed at.

use vstd::prelude::*;
use vstd::string::StringExecFns;

verus! {

/// `image::ImageFormat`, one of the formats the `image` crate knows.
#[verifier::external_type_specification]
#[verifier::external_body]
pub struct ExImageFormat(image::ImageFormat);

/// `image::DynamicImage`, a decoded image.
#[verifier::external_type_specification]
#[verifier::external_body]
pub struct ExDynamicImage(image::DynamicImage);

/// The character `c` with an ASCII capital turned into its small letter.
pub open spec fn lowered(c: char) -> char {
    if 'A' <= c <= 'Z' {
        ((c as int) + 32) as char
    } else {
        c
    }
}

/// `text` with every ASCII capital turned into its small letter.
pub open spec fn lowercase(text: Seq<char>) -> Seq<char> {
    Seq::new(text.len(), |i: int| lowered(text[i]))
}

/// Whether the file extension `extension` names an image format, whatever
/// the case of its letters.
pub open spec fn names_format(extension: Seq<char>) -> bool {
    let name = lowercase(extension);
    ||| name == "avif"@
    ||| name == "jpg"@
    ||| name == "jpeg"@
    ||| name == "jfif"@
    ||| name == "png"@
    ||| name == "apng"@
    ||| name == "gif"@
    ||| name == "webp"@
    ||| name == "tif"@
    ||| name == "tiff"@
    ||| name == "tga"@
    ||| name == "dds"@
    ||| name == "bmp"@
    ||| name == "ico"@
    ||| name == "hdr"@
    ||| name == "exr"@
    ||| name == "pbm"@
    ||| name == "pam"@
    ||| name == "ppm"@
    ||| name == "pgm"@
    ||| name == "pnm"@
    ||| name == "ff"@
    ||| name == "qoi"@
}

/// `ImageFormat::from_extension` of the `image` crate.
///
/// The crate turns the extension to ASCII lower case and looks it up in a
/// fixed table; the contract says for which extensions the table has a
/// format, not which format it is.
#[verifier::external_body]
fn format_for(extension: &str) -> (format: Option<image::ImageFormat>)
    ensures
        format is Some <==> names_format(extension@),
{
    image::ImageFormat::from_extension(extension)
}

/// `image::load_from_memory`: the image the bytes hold, if the crate can
/// read one from them. What it reads can depend on decoders registered
/// elsewhere in the process, so nothing is promised of the result.
#[verifier::external_body]
fn decode(bytes: &[u8]) -> Option<image::DynamicImage> {
    image::load_from_memory(bytes).ok()
}

/// `DynamicImage::write_to` into a buffer in memory: the bytes of the image
/// in `format`, if the crate can write it so. Nothing is promised of the
/// result.
#[verifier::external_body]
fn encode(image: &image::DynamicImage, format: image::ImageFormat) -> Option<Vec<u8>> {
    let mut file = Vec::new();
    image.write_to(&mut std::io::Cursor::new(&mut file), format).ok()?;
    Some(file)
}

/// The step at which a conversion failed.
#[derive(Debug, Clone, Copy, PartialEq, Eq, Structural)]
pub enum PreconvertFault {
    /// The extension names no image format.
    UnknownFormat,
    /// The bytes hold no image that can be read.
    Unreadable,
    /// The image cannot be written in the format.
    Unwritable,
}

/// Why a source could not be converted: the step that failed and the format
/// it was to be converted to.
#[derive(Debug)]
pub struct PreconvertError {
    pub fault: PreconvertFault,
    pub format: String,
}

/// The text that reports a failed conversion to `format`. Every report names
/// the format between square brackets.
pub open spec fn preconvert_report(fault: PreconvertFault, format: Seq<char>) -> Seq<char> {
    let named = "["@ + format + "]"@;
    match fault {
        PreconvertFault::UnknownFormat => named + " is not a valid format"@,
        PreconvertFault::Unreadable => "the source holds no image to convert to "@ + named,
        PreconvertFault::Unwritable => "the source cannot be written as "@ + named,
    }
}

impl PreconvertError {
    /// The report of this error, naming the format between square brackets.
    pub fn message(&self) -> (text: String)
        ensures
            text@ == preconvert_report(self.fault, self.format@),
    {
        let named = String::from_str("[").concat(self.format.as_str()).concat("]");
        match self.fault {
            PreconvertFault::UnknownFormat => named.concat(" is not a valid format"),
            PreconvertFault::Unreadable => String::from_str(
                "the source holds no image to convert to ",
            ).concat(named.as_str()),
            PreconvertFault::Unwritable => String::from_str(
                "the source cannot be written as ",
            ).concat(named.as_str()),
        }
    }
}

/// Converts the image in `bytes` to the format that goes by the file
/// extension `format`.
///
/// An extension that names no format is refused before anything is decoded.
/// Whether the bytes can then be read and written is for the `image` crate to
/// say; an error tells which of the two failed, and names the format.
pub fn generic_preconvert(bytes: &[u8], format: &str) -> (converted: Result<
    Vec<u8>,
    PreconvertError,
>)
    ensures
        !names_format(format@) ==> converted is Err,
        converted matches Err(error) ==> {
            &&& error.format@ == format@
            &&& error.fault == PreconvertFault::UnknownFormat <==> !names_format(format@)
        },
{
    let kind = match format_for(format) {
        Some(kind) => kind,
        None => {
            return Err(
                PreconvertError {
                    fault: PreconvertFault::UnknownFormat,
                    format: String::from_str(format),
                },
            );
        },
    };
    let image = match decode(bytes) {
        Some(image) => image,
        None => {
            return Err(
                PreconvertError {
                    fault: PreconvertFault::Unreadable,
                    format: String::from_str(format),
                },
            );
        },
    };
    match encode(&image, kind) {
        Some(file) => Ok(file),
        None => Err(
            PreconvertError {
                fault: PreconvertFault::Unwritable,
                format: String::from_str(format),
            },
        ),
    }
}

} // verus!
