//! The per-object derivation pipeline.
//!
//! One eligible source object fans out into one outcome per configured
//! target width: resolve the output format, compute the derived key,
//! skip a variant already present in the listing snapshot, plan the
//! dimensions, resample and encode into an in-memory buffer.  A failure
//! at one width never aborts its siblings; a decode failure abandons the
//! whole object before any width is attempted.

use vstd::prelude::*;
use vstd::string::*;
use crate::formats::{
    format_extension, format_mime, resolve_output, spec_extension, spec_mime, spec_resolve_output,
    OutputFormat,
};
use crate::imaging::{decode_image, decoded_dims, encode_image, resize_to, DecodedImage};
use crate::naming::{derive_key, spec_derive_key};
use crate::planner::{plan_width, spec_plan_width};

verus! {

/// The immutable process-wide output policy.
#[derive(Clone, Copy, Debug)]
pub struct OutputPolicy {
    /// When set, every variant is produced in this format, whatever the
    /// source content-type.
    pub force_format: Option<OutputFormat>,
    /// When set, a source no wider than the target keeps its dimensions.
    pub skip_upscaling: bool,
    /// Quality for JPEG encoding.
    pub jpeg_quality: u8,
}

/// One encoded variant, ready to be stored under its derived key.
#[derive(Debug)]
pub struct Upload {
    /// The derived key to store the variant under.
    pub key: String,
    /// The content-type to set on the stored object.
    pub content_type: String,
    /// The variant's width in pixels.
    pub width: u32,
    /// The variant's height in pixels.
    pub height: u32,
    /// The fully encoded image.
    pub bytes: Vec<u8>,
}

/// The outcome for one target width.
#[derive(Debug)]
pub enum SizeOutcome {
    /// The variant was produced and awaits upload.
    Ready { upload: Upload },
    /// The derived key is already present in the listing snapshot.
    AlreadyExists { key: String },
    /// No output format could be resolved for this object.
    UnsupportedFormat,
    /// The planned dimensions are unusable for resampling.
    ResizeFailed,
    /// The codec failed to encode this variant.
    EncodeFailed,
}

/// The outcome for one source object.
#[derive(Debug)]
pub enum ObjectOutcome {
    /// The bytes are not a usable image; no width was attempted.
    DecodeFailed,
    /// One outcome per configured width, in configuration order.
    Processed { results: Vec<SizeOutcome> },
}

/// Whether the bytes decode to a usable source image: the codec accepts
/// them and the width is positive.
pub open spec fn spec_decodable(bytes: Seq<u8>) -> bool {
    match decoded_dims(bytes) {
        Some(d) => d.0 >= 1,
        None => false,
    }
}

/// The decoded source width, for decodable bytes.
pub open spec fn spec_source_width(bytes: Seq<u8>) -> u32 {
    match decoded_dims(bytes) {
        Some(d) => d.0,
        None => 0,
    }
}

/// The decoded source height, for decodable bytes.
pub open spec fn spec_source_height(bytes: Seq<u8>) -> u32 {
    match decoded_dims(bytes) {
        Some(d) => d.1,
        None => 0,
    }
}

/// Whether `k` is among the listed keys.
pub open spec fn spec_key_listed(existing: Seq<String>, k: Seq<char>) -> bool {
    exists|j: int| 0 <= j < existing.len() && existing[j]@ == k
}

/// What the outcome for one target width must be, given the source key,
/// content-type, policy, listing snapshot and source dimensions: the
/// resolved format decides the derived key and stored content-type; a
/// listed key is skipped; degenerate planned dimensions fail the one
/// width; otherwise the variant is ready with the planned dimensions
/// under the derived key, unless the encoder refused it.
pub open spec fn spec_size_outcome_ok(
    out: SizeOutcome,
    key: Seq<char>,
    ct: Seq<char>,
    w: u32,
    policy: OutputPolicy,
    existing: Seq<String>,
    sw: u32,
    sh: u32,
) -> bool {
    match spec_resolve_output(ct, policy.force_format) {
        Err(_) => out is UnsupportedFormat,
        Ok(f) => {
            let dkey = spec_derive_key(key, w as nat, spec_extension(f));
            if spec_key_listed(existing, dkey) {
                out matches SizeOutcome::AlreadyExists { key: k } && k@ == dkey
            } else {
                match spec_plan_width(sw, sh, w, policy.skip_upscaling) {
                    None => out is ResizeFailed,
                    Some(d) => if d.1 == 0 {
                        out is ResizeFailed
                    } else {
                        (out matches SizeOutcome::Ready { upload } && upload.key@ == dkey
                            && upload.content_type@ == spec_mime(f) && upload.width == d.0
                            && upload.height == d.1) || out is EncodeFailed
                    },
                }
            }
        },
    }
}

/// Whether `k` is among the listed keys.
fn key_listed(existing: &Vec<String>, k: &String) -> (r: bool)
    ensures
        r == spec_key_listed(existing@, k@),
{
    let mut j: usize = 0;
    while j < existing.len()
        invariant
            j <= existing@.len(),
            forall|t: int| 0 <= t < j ==> existing@[t]@ != k@,
        decreases existing@.len() - j,
    {
        if existing[j] == *k {
            return true;
        }
        j += 1;
    }
    proof {
        if spec_key_listed(existing@, k@) {
            let t0 = choose|t: int| 0 <= t < existing@.len() && existing@[t]@ == k@;
            assert(existing@[t0]@ != k@);
        }
    }
    false
}

/// Produces the outcome for one target width of a decoded source.
fn derive_one_size(
    key: &String,
    content_type: &String,
    img: &DecodedImage,
    w: u32,
    policy: &OutputPolicy,
    existing: &Vec<String>,
) -> (r: SizeOutcome)
    requires
        img.width >= 1,
    ensures
        spec_size_outcome_ok(
            r,
            key@,
            content_type@,
            w,
            *policy,
            existing@,
            img.width,
            img.height,
        ),
{
    let f = match resolve_output(content_type, policy.force_format) {
        Err(_) => return SizeOutcome::UnsupportedFormat,
        Ok(f) => f,
    };
    let dkey = derive_key(key.as_str(), w, format_extension(f));
    if key_listed(existing, &dkey) {
        return SizeOutcome::AlreadyExists { key: dkey };
    }
    let (ow, oh) = match plan_width(img.width, img.height, w, policy.skip_upscaling) {
        None => return SizeOutcome::ResizeFailed,
        Some(d) => d,
    };
    if oh == 0 {
        return SizeOutcome::ResizeFailed;
    }
    proof {
        if !(policy.skip_upscaling && img.width <= w) && w == 0 {
            assert((img.height as int) * 0 / (img.width as int) == 0);
        }
    }
    let resized = resize_to(img, ow, oh);
    match encode_image(&resized, f, policy.jpeg_quality) {
        None => SizeOutcome::EncodeFailed,
        Some(bytes) => SizeOutcome::Ready {
            upload: Upload {
                key: dkey,
                content_type: String::from_str(format_mime(f)),
                width: ow,
                height: oh,
                bytes,
            },
        },
    }
}

/// Law: within one fan-out over a source object, the uploads prepared
/// for two distinct target widths never share a derived key; re-running
/// the pipeline on the unchanged object plans the same keys again, so a
/// variant is only ever overwritten, never duplicated.
pub proof fn lemma_fanout_no_duplicate_keys(
    out1: SizeOutcome,
    out2: SizeOutcome,
    key: Seq<char>,
    ct: Seq<char>,
    w1: u32,
    w2: u32,
    policy: OutputPolicy,
    existing: Seq<String>,
    sw: u32,
    sh: u32,
)
    requires
        w1 != w2,
        spec_size_outcome_ok(out1, key, ct, w1, policy, existing, sw, sh),
        spec_size_outcome_ok(out2, key, ct, w2, policy, existing, sw, sh),
        out1 is Ready,
        out2 is Ready,
    ensures
        out1->Ready_upload.key@ != out2->Ready_upload.key@,
{
    let f = spec_resolve_output(ct, policy.force_format)->Ok_0;
    crate::naming::lemma_derive_key_width_injective(key, w1 as nat, w2 as nat, spec_extension(f));
}

/// Derives every configured variant of one source object from its
/// fetched bytes: decodes once, then fans out over the target widths,
/// each width succeeding or failing on its own.  The caller stores each
/// ready upload; nothing is attempted for bytes that do not decode.
pub fn derive_variants(
    key: &String,
    content_type: &String,
    bytes: &Vec<u8>,
    widths: &Vec<u32>,
    policy: &OutputPolicy,
    existing: &Vec<String>,
) -> (r: ObjectOutcome)
    ensures
        r is DecodeFailed <==> !spec_decodable(bytes@),
        r matches ObjectOutcome::Processed { results } ==> results@.len() == widths@.len() && (
        forall|i: int|
            0 <= i < widths@.len() ==> spec_size_outcome_ok(
                #[trigger] results@[i],
                key@,
                content_type@,
                widths@[i],
                *policy,
                existing@,
                spec_source_width(bytes@),
                spec_source_height(bytes@),
            )),
{
    let img = match decode_image(bytes) {
        None => return ObjectOutcome::DecodeFailed,
        Some(img) => img,
    };
    if img.width == 0 {
        return ObjectOutcome::DecodeFailed;
    }
    let mut results: Vec<SizeOutcome> = Vec::new();
    let mut i: usize = 0;
    while i < widths.len()
        invariant
            img.width >= 1,
            img.width == spec_source_width(bytes@),
            img.height == spec_source_height(bytes@),
            i <= widths@.len(),
            results@.len() == i,
            forall|t: int|
                0 <= t < i ==> spec_size_outcome_ok(
                    #[trigger] results@[t],
                    key@,
                    content_type@,
                    widths@[t],
                    *policy,
                    existing@,
                    img.width,
                    img.height,
                ),
        decreases widths@.len() - i,
    {
        let out = derive_one_size(key, content_type, &img, widths[i], policy, existing);
        results.push(out);
        i += 1;
    }
    ObjectOutcome::Processed { results }
}

} // verus!
