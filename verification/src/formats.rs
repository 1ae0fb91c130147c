//! Output-format resolution.
//!
//! A source content-type maps to the output format of its variants; a
//! forced format, when configured, wins over the source type.  Anything
//! that is not one of the three known image types is a classified error:
//! the pipeline never guesses a format.

use vstd::prelude::*;
use vstd::string::*;

verus! {

/// An output image format for derived variants.
#[derive(Clone, Copy, Debug, PartialEq, Eq, Structural)]
pub enum OutputFormat {
    Jpeg,
    Png,
    Webp,
}

/// A classified format-resolution error.
#[derive(Clone, Copy, Debug, PartialEq, Eq, Structural)]
pub enum FormatError {
    /// The source content-type is not a supported image type.
    Unsupported,
}

/// The file extension used in derived keys for `f`.
pub open spec fn spec_extension(f: OutputFormat) -> Seq<char> {
    match f {
        OutputFormat::Jpeg => "jpg"@,
        OutputFormat::Png => "png"@,
        OutputFormat::Webp => "webp"@,
    }
}

/// The content-type stored on uploaded variants of format `f`.
pub open spec fn spec_mime(f: OutputFormat) -> Seq<char> {
    match f {
        OutputFormat::Jpeg => "image/jpeg"@,
        OutputFormat::Png => "image/png"@,
        OutputFormat::Webp => "image/webp"@,
    }
}

/// The resolved output format for a source content-type: a forced
/// format always wins; otherwise the three known image types map to
/// themselves and everything else is unsupported.
pub open spec fn spec_resolve_output(ct: Seq<char>, force: Option<OutputFormat>) -> Result<
    OutputFormat,
    FormatError,
> {
    match force {
        Some(f) => Ok(f),
        None => if ct == "image/jpeg"@ {
            Ok(OutputFormat::Jpeg)
        } else if ct == "image/png"@ {
            Ok(OutputFormat::Png)
        } else if ct == "image/webp"@ {
            Ok(OutputFormat::Webp)
        } else {
            Err(FormatError::Unsupported)
        },
    }
}

/// The file extension used in derived keys for `f`.
pub fn format_extension(f: OutputFormat) -> (r: &'static str)
    ensures
        r@ == spec_extension(f),
{
    match f {
        OutputFormat::Jpeg => "jpg",
        OutputFormat::Png => "png",
        OutputFormat::Webp => "webp",
    }
}

/// The content-type stored on uploaded variants of format `f`.
pub fn format_mime(f: OutputFormat) -> (r: &'static str)
    ensures
        r@ == spec_mime(f),
{
    match f {
        OutputFormat::Jpeg => "image/jpeg",
        OutputFormat::Png => "image/png",
        OutputFormat::Webp => "image/webp",
    }
}

/// Resolves the output format for a source content-type under an
/// optional forced format; total: every input yields either a format or
/// the classified unsupported-format error.
pub fn resolve_output(content_type: &String, force_format: Option<OutputFormat>) -> (r: Result<
    OutputFormat,
    FormatError,
>)
    ensures
        r == spec_resolve_output(content_type@, force_format),
{
    match force_format {
        Some(f) => Ok(f),
        None => {
            if *content_type == String::from_str("image/jpeg") {
                Ok(OutputFormat::Jpeg)
            } else if *content_type == String::from_str("image/png") {
                Ok(OutputFormat::Png)
            } else if *content_type == String::from_str("image/webp") {
                Ok(OutputFormat::Webp)
            } else {
                Err(FormatError::Unsupported)
            }
        },
    }
}

} // verus!
