//! Eligibility filtering for candidate objects.
//!
//! Per candidate the decision sequence short-circuits in order: metadata
//! must be retrievable (not-found and permission-denied are distinct
//! benign skips, any other failure a distinct skip of its own); the
//! content-type must be present and start with `image/`; and the key must
//! not itself be a derived key.  Only then is the object fetched and
//! processed.

use vstd::prelude::*;
use vstd::string::*;
use crate::naming::{is_derived_key, spec_contains, spec_is_derived};

verus! {

/// The outcome of the metadata (head) call for a candidate object, as
/// classified by the store driver.
pub enum HeadOutcome {
    /// Metadata was retrieved; the object may or may not declare a
    /// content-type.
    Found { content_type: Option<String> },
    /// The object does not exist (deleted or stale reference).
    NotFound,
    /// Access to the object's metadata was denied.
    Forbidden,
    /// The metadata call failed for any other reason.
    Failed,
}

/// The filter's decision for a candidate object.
pub enum FilterDecision {
    /// The object is eligible: fetch its bytes and derive variants,
    /// using this resolved source content-type.
    Fetch { content_type: String },
    /// Benign skip: the object was not found.
    SkipNotFound,
    /// Benign skip: permission to read the metadata was denied.
    SkipForbidden,
    /// Skip: the metadata call failed unexpectedly; the batch continues.
    SkipHeadError,
    /// Skip: the declared content-type is not an image type.
    SkipNotImage,
    /// Skip: the object declares no content-type, so no format can be
    /// inferred safely.
    SkipMissingContentType,
    /// Skip: the key is itself a derived key and is never reprocessed.
    SkipAlreadyDerived,
}

/// Whether a declared content-type is an image type: it starts with the
/// image media prefix.
pub open spec fn spec_is_image_type(ct: Seq<char>) -> bool {
    ct.len() >= 6 && ct.subrange(0, 6) == "image/"@
}

/// Whether the head outcome carries a content-type that passes the
/// image check.
pub open spec fn spec_head_image(head: HeadOutcome) -> bool {
    head matches HeadOutcome::Found { content_type } && content_type matches Some(ct)
        && spec_is_image_type(ct@)
}

/// Whether `ct` starts with the image media prefix.
pub fn is_image_type(ct: &String) -> (r: bool)
    ensures
        r == spec_is_image_type(ct@),
{
    let s = ct.as_str();
    let n = s.unicode_len();
    if n < 6 {
        return false;
    }
    let r = s.get_char(0) == 'i' && s.get_char(1) == 'm' && s.get_char(2) == 'a' && s.get_char(3)
        == 'g' && s.get_char(4) == 'e' && s.get_char(5) == '/';
    proof {
        reveal_strlit("image/");
        assert(ct@.subrange(0, 6)[0] == ct@[0]);
        assert(ct@.subrange(0, 6)[1] == ct@[1]);
        assert(ct@.subrange(0, 6)[2] == ct@[2]);
        assert(ct@.subrange(0, 6)[3] == ct@[3]);
        assert(ct@.subrange(0, 6)[4] == ct@[4]);
        assert(ct@.subrange(0, 6)[5] == ct@[5]);
        if r {
            assert(ct@.subrange(0, 6) =~= "image/"@);
        }
    }
    r
}

/// Decides whether a candidate object is eligible for derivation, in
/// the fixed order: head outcome, image content-type present, key not
/// already derived.
pub fn filter_object(key: &String, head: &HeadOutcome) -> (r: FilterDecision)
    ensures
        r is SkipNotFound <==> head is NotFound,
        r is SkipForbidden <==> head is Forbidden,
        r is SkipHeadError <==> head is Failed,
        r is SkipMissingContentType <==> (head matches HeadOutcome::Found { content_type }
            && content_type is None),
        r is SkipNotImage <==> (head matches HeadOutcome::Found { content_type } && content_type
            matches Some(ct) && !spec_is_image_type(ct@)),
        r is SkipAlreadyDerived <==> (spec_head_image(*head) && spec_is_derived(key@)),
        r is Fetch <==> (spec_head_image(*head) && !spec_is_derived(key@)),
        r matches FilterDecision::Fetch { content_type: out } ==> (head matches HeadOutcome::Found {
            content_type,
        } && content_type matches Some(ct) && out@ == ct@),
{
    match head {
        HeadOutcome::NotFound => FilterDecision::SkipNotFound,
        HeadOutcome::Forbidden => FilterDecision::SkipForbidden,
        HeadOutcome::Failed => FilterDecision::SkipHeadError,
        HeadOutcome::Found { content_type } => match content_type {
            None => FilterDecision::SkipMissingContentType,
            Some(ct) => {
                if !is_image_type(ct) {
                    FilterDecision::SkipNotImage
                } else if is_derived_key(key.as_str()) {
                    FilterDecision::SkipAlreadyDerived
                } else {
                    FilterDecision::Fetch { content_type: ct.clone() }
                }
            },
        },
    }
}

/// Whether a listed key is worth considering as a source in a backfill
/// scan: neither a legacy thumbnail key nor a derived key.
pub fn should_consider_listed_key(key: &String) -> (r: bool)
    ensures
        r == (!spec_contains(key@, "thumb"@) && !spec_is_derived(key@)),
{
    !crate::naming::contains_seq(key.as_str(), "thumb") && !is_derived_key(key.as_str())
}

/// Decodes an object key from an event notification, where `+` stands
/// for a space.
pub fn decode_event_key(raw: &str) -> (r: String)
    ensures
        r@ == Seq::new(raw@.len(), |i: int| if raw@[i] == '+' {
            ' '
        } else {
            raw@[i]
        }),
{
    let n = raw.unicode_len();
    let mut r = String::new();
    let mut i: usize = 0;
    while i < n
        invariant
            n == raw@.len(),
            i <= n,
            r@ =~= Seq::new(i as nat, |j: int| if raw@[j] == '+' {
                ' '
            } else {
                raw@[j]
            }),
        decreases n - i,
    {
        let c = raw.get_char(i);
        crate::naming::push_char(&mut r, if c == '+' {
            ' '
        } else {
            c
        });
        i += 1;
    }
    proof {
        assert(r@ =~= Seq::new(n as nat, |j: int| if raw@[j] == '+' {
            ' '
        } else {
            raw@[j]
        }));
    }
    r
}

} // verus!
