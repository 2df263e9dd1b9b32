//! Image generation: the request built from the caller's options, and the
//! number of images the bridge reports at the end.

use vstd::prelude::*;

use crate::bridge::{finish, finish_outcome, NativeCall};
use crate::error::{outcome, PluginError, PluginErrorView};
use crate::json::{json_u64_member, parse_u64_member};
use crate::session::CompletionPayload;

verus! {

/// One concept to draw from; `concept_type` is `"text"` for a text prompt.
pub struct ImageConcept {
    pub concept_type: String,
    pub value: String,
}

/// The caller's options for image generation.
pub struct ImageGenerationOptions {
    /// Style identifier from `img_availability`. Omit or pass `""` for the first available style.
    pub style_id: Option<String>,
    /// Number of images to generate (at most 4). Defaults to 1.
    pub limit: Option<u32>,
    /// `"high"` for more variety when generating multiple images.
    pub creation_variety: Option<String>,
    /// `"enabled"` or `"disabled"`.
    pub personalization: Option<String>,
}

/// An image style the device offers.
pub struct ImageStyle {
    pub id: String,
}

/// Whether image generation can be used, why not, and the styles on offer.
pub struct ImageAvailabilityStatus {
    pub available: bool,
    pub reason: Option<String>,
    pub styles: Vec<ImageStyle>,
}

/// What is handed to the bridge for one generation: the style (`""` for the
/// first available one), the number of images, and the options the bridge
/// forwards.
pub struct ImageRequest {
    pub style_id: String,
    pub limit: i32,
    pub creation_variety: Option<String>,
    pub personalization: Option<String>,
}

/// The most images one request may ask for.
pub const MAX_IMAGES: u32 = 4;

/// The number of images requested: the caller's limit, 1 when absent, capped
/// at [`MAX_IMAGES`].
pub open spec fn requested_limit(limit: Option<u32>) -> int {
    let asked: int = match limit {
        Some(n) => n as int,
        None => 1,
    };
    if asked < MAX_IMAGES as int {
        asked
    } else {
        MAX_IMAGES as int
    }
}

/// Builds the bridge request from the caller's options (all absent when
/// `options` is `None`).
pub fn image_request(options: Option<ImageGenerationOptions>) -> (r: ImageRequest)
    ensures
        r.limit as int == requested_limit(
            match options {
                Some(o) => o.limit,
                None => None,
            },
        ),
        match options {
            Some(o) => match o.limit {
                Some(n) => r.limit == if n <= 4 {
                    n as i32
                } else {
                    4i32
                },
                None => r.limit == 1,
            },
            None => r.limit == 1,
        },
        r.style_id@ == match options {
            Some(o) => match o.style_id {
                Some(s) => s@,
                None => Seq::<char>::empty(),
            },
            None => Seq::<char>::empty(),
        },
        r.creation_variety == match options {
            Some(o) => o.creation_variety,
            None => None,
        },
        r.personalization == match options {
            Some(o) => o.personalization,
            None => None,
        },
{
    let opts = match options {
        Some(o) => o,
        None => ImageGenerationOptions {
            style_id: None,
            limit: None,
            creation_variety: None,
            personalization: None,
        },
    };
    let style_id = match opts.style_id {
        Some(s) => s,
        None => String::new(),
    };
    let asked: u32 = match opts.limit {
        Some(n) => n,
        None => 1,
    };
    let capped: u32 = if asked < MAX_IMAGES {
        asked
    } else {
        MAX_IMAGES
    };
    ImageRequest {
        style_id,
        limit: capped as i32,
        creation_variety: opts.creation_variety,
        personalization: opts.personalization,
    }
}

/// The number of images reported: the `count` member cut to its low 32 bits,
/// or 0 when there is none.
pub open spec fn count_as_u32(count: Option<u64>) -> u32 {
    match count {
        Some(n) => (n % 0x1_0000_0000) as u32,
        None => 0,
    }
}

/// Converts the reported `count` member to the number of images.
pub fn image_count(count: Option<u64>) -> (n: u32)
    ensures
        n == count_as_u32(count),
        match count {
            Some(c) => n as int == c as int % 0x1_0000_0000,
            None => n == 0,
        },
{
    match count {
        Some(c) => {
            let n: u32 = (c & 0xffff_ffff) as u32;
            assert(c & 0xffff_ffff == c % 0x1_0000_0000) by (bit_vector);
            n
        },
        None => 0,
    }
}

/// The outcome of reading the number of images from the final JSON payload.
pub open spec fn count_outcome(text: Seq<char>) -> Result<u32, PluginErrorView> {
    match json_u64_member(text, "count"@) {
        None => Err(PluginErrorView::Json),
        Some(member) => Ok(count_as_u32(member)),
    }
}

/// Reads the number of images from the bridge's final JSON payload: a payload
/// that is no JSON document is a JSON error.
pub fn image_count_from_payload(text: &str) -> (r: Result<u32, PluginError>)
    ensures
        outcome(r) == count_outcome(text@),
        match json_u64_member(text@, "count"@) {
            Some(Some(c)) => r matches Ok(n) && n as int == c as int % 0x1_0000_0000,
            Some(None) => r matches Ok(n) && n == 0,
            None => r matches Err(PluginError::Json(_)),
        },
{
    match parse_u64_member(text, "count") {
        Err(e) => Err(PluginError::Json(e)),
        Ok(member) => Ok(image_count(member)),
    }
}

/// The outcome of an image generation once its completion has arrived (or
/// its channel has closed): the number of images on success.
pub open spec fn generation_outcome(received: Option<CompletionPayload>) -> Result<
    u32,
    PluginErrorView,
> {
    match finish_outcome(NativeCall::ImgGenerate, received) {
        Err(e) => Err(e),
        Ok(text) => count_outcome(text),
    }
}

/// Ends an image generation: the number of images the bridge reports, or the
/// error the failure names.
pub fn finish_image_generation(received: Option<CompletionPayload>) -> (r: Result<u32, PluginError>)
    ensures
        outcome(r) == generation_outcome(received),
{
    match finish(NativeCall::ImgGenerate, received) {
        Err(e) => Err(e),
        Ok(text) => image_count_from_payload(text.as_str()),
    }
}

/// The number of images requested never exceeds [`MAX_IMAGES`], is 1 when the
/// caller gives no limit, and is at least 1 unless the caller asks for none.
pub proof fn lemma_limit_in_range(limit: Option<u32>)
    ensures
        requested_limit(limit) <= MAX_IMAGES,
        limit is None ==> requested_limit(limit) == 1,
        limit != Some(0u32) ==> 1 <= requested_limit(limit),
{
}

/// The number of images requested is the caller's limit whenever it is at
/// most [`MAX_IMAGES`] (0 included), [`MAX_IMAGES`] for any larger limit, and
/// 1 without a limit.
pub proof fn lemma_limit_is_capped_not_changed(n: u32)
    ensures
        n <= MAX_IMAGES ==> requested_limit(Some(n)) == n,
        n > MAX_IMAGES ==> requested_limit(Some(n)) == MAX_IMAGES,
        requested_limit(None) == 1,
{
}

/// The number of images is the payload's `count` member, cut to its low 32
/// bits, for every value of it; a payload without such a member reports 0,
/// and one that is no JSON is a JSON error.
pub proof fn lemma_count_is_the_member(text: Seq<char>)
    ensures
        match json_u64_member(text, "count"@) {
            Some(Some(c)) => {
                &&& count_outcome(text) == Ok::<u32, PluginErrorView>(
                    (c as int % 0x1_0000_0000) as u32,
                )
                &&& c < 0x1_0000_0000 ==> count_outcome(text) == Ok::<u32, PluginErrorView>(
                    c as u32,
                )
            },
            Some(None) => count_outcome(text) == Ok::<u32, PluginErrorView>(0),
            None => count_outcome(text) == Err::<u32, PluginErrorView>(PluginErrorView::Json),
        },
{
}

/// An image generation that the bridge completes successfully reports the
/// `count` member of its final payload: a count that fits in 32 bits is
/// returned as it is.
pub proof fn lemma_generation_reports_the_count(p: CompletionPayload, c: u64)
    requires
        p.ok,
        json_u64_member(p.text@, "count"@) == Some(Some(c)),
        c < 0x1_0000_0000,
    ensures
        generation_outcome(Some(p)) == Ok::<u32, PluginErrorView>(c as u32),
{
}

/// A reported count that fits in 32 bits is returned unchanged.
pub proof fn lemma_small_count_kept(n: u64)
    requires
        n < 0x1_0000_0000,
    ensures
        count_as_u32(Some(n)) == n,
{
}

} // verus!
