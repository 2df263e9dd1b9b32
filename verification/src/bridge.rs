//! The decisions around each call into the native bridge: when a call has
//! failed, what error it becomes, and what a completion yields.

use vstd::prelude::*;

use crate::cstring::check_c_string;
use crate::decimal::{push_signed_decimal, signed_decimal};
use crate::error::{outcome, PluginError, PluginErrorView};
use crate::json::{json_text, lemma_written_json, written_json};
use crate::session::CompletionPayload;

verus! {

/// Whether Apple Intelligence can be used, and why not when it cannot.
pub struct AvailabilityStatus {
    pub available: bool,
    pub reason: Option<String>,
}

/// The native entry points that answer through a completion callback; a
/// response names the session it is asked of.
#[derive(Clone, Copy, Debug, PartialEq, Eq, Structural)]
pub enum NativeCall {
    Respond(u64),
    RespondStream(u64),
    ImgAvailability,
    ImgGenerate,
}

/// What a dispatch with `status` yields: success for 0. The bridge looks the
/// session up when it takes a response, and that lookup is what can refuse it
/// at dispatch time; so a refused response is reported as a session that is
/// closed or was never created ("session X not found"), whatever the nonzero
/// status. A refused image call is a native error.
pub open spec fn dispatch_outcome(call: NativeCall, status: i32) -> Result<(), PluginErrorView> {
    if status == 0 {
        Ok(())
    } else {
        Err(
            match call {
                NativeCall::Respond(id) => PluginErrorView::SessionNotFound(id),
                NativeCall::RespondStream(id) => PluginErrorView::SessionNotFound(id),
                NativeCall::ImgAvailability => PluginErrorView::Native(
                    "img_availability returned non-zero"@,
                ),
                NativeCall::ImgGenerate => PluginErrorView::Native(
                    "img_generate returned "@ + signed_decimal(status as int),
                ),
            },
        )
    }
}

/// The text of the error for a request whose completion never arrived.
pub open spec fn dropped_text(call: NativeCall) -> Seq<char> {
    match call {
        NativeCall::Respond(_) => "completion channel dropped"@,
        NativeCall::RespondStream(_) => "stream completion channel dropped"@,
        NativeCall::ImgAvailability => "img availability channel dropped"@,
        NativeCall::ImgGenerate => "img generation channel dropped"@,
    }
}

/// Whether a call belongs to image generation, whose errors have their own
/// names.
pub open spec fn is_image_call(call: NativeCall) -> bool {
    call is ImgAvailability || call is ImgGenerate
}

/// The error that a text-model failure message becomes.
pub open spec fn native_error_view(msg: Seq<char>) -> PluginErrorView {
    if msg == "exceededContextWindowSize"@ {
        PluginErrorView::ContextWindowExceeded
    } else if msg == "unsupportedLanguageOrLocale"@ {
        PluginErrorView::UnsupportedLanguageOrLocale
    } else {
        PluginErrorView::Native(msg)
    }
}

/// The error that an image-generation failure message becomes.
pub open spec fn img_error_view(msg: Seq<char>) -> PluginErrorView {
    if msg == "notSupported"@ {
        PluginErrorView::ImageNotSupported
    } else if msg == "backgroundCreationForbidden"@ {
        PluginErrorView::ImageBackgroundCreationForbidden
    } else if msg == "creationFailed"@ {
        PluginErrorView::ImageCreationFailed
    } else if msg == "creationCancelled"@ {
        PluginErrorView::ImageCreationCancelled
    } else if msg == "faceInImageTooSmall"@ {
        PluginErrorView::ImageFaceInImageTooSmall
    } else if msg == "unsupportedLanguage"@ {
        PluginErrorView::ImageUnsupportedLanguage
    } else if msg == "unsupportedInputImage"@ {
        PluginErrorView::ImageUnsupportedInputImage
    } else if msg == "noConceptsProvided"@ {
        PluginErrorView::InvalidInput("no concepts provided"@)
    } else if msg == "noStylesAvailable"@ {
        PluginErrorView::InvalidInput("no image styles available on this device"@)
    } else if msg == "styleNotFound"@ {
        PluginErrorView::InvalidInput("requested style id not found"@)
    } else {
        PluginErrorView::Native(msg)
    }
}

/// What a request yields once its completion has arrived (`Some`) or its
/// channel has closed without one (`None`): the final text on success, else
/// the error that the failure message names.
pub open spec fn finish_outcome(call: NativeCall, received: Option<CompletionPayload>) -> Result<
    Seq<char>,
    PluginErrorView,
> {
    match received {
        None => Err(PluginErrorView::Native(dropped_text(call))),
        Some(p) => if p.ok {
            Ok(p.text@)
        } else if is_image_call(call) {
            Err(img_error_view(p.text@))
        } else {
            Err(native_error_view(p.text@))
        },
    }
}

/// Every native call is under way exactly when the bridge answers its
/// dispatch with status 0; a refused response always names its session as
/// not found.
pub proof fn lemma_zero_status_is_success(call: NativeCall, status: i32)
    ensures
        dispatch_outcome(call, status) is Ok <==> status == 0,
        status != 0 ==> match call {
            NativeCall::Respond(id) => dispatch_outcome(call, status) == Err::<(), PluginErrorView>(
                PluginErrorView::SessionNotFound(id),
            ),
            NativeCall::RespondStream(id) => dispatch_outcome(call, status) == Err::<
                (),
                PluginErrorView,
            >(PluginErrorView::SessionNotFound(id)),
            _ => dispatch_outcome(call, status) matches Err(PluginErrorView::Native(_)),
        },
{
}

/// A request that the bridge completes successfully yields the bridge's final
/// text whole and unchanged, for every kind of call: the full answer of a
/// response, the full text of a streamed response, the availability report
/// with all it holds, the final payload of an image generation.
pub proof fn lemma_success_yields_the_whole_text(call: NativeCall, p: CompletionPayload)
    requires
        p.ok,
    ensures
        finish_outcome(call, Some(p)) == Ok::<Seq<char>, PluginErrorView>(p.text@),
{
}

/// A request that the bridge completes with a failure never succeeds; for a
/// response, a failure message that names no known error is kept verbatim as
/// a native error, and a request whose completion never arrived is a native
/// error.
pub proof fn lemma_failure_is_an_error(call: NativeCall, p: CompletionPayload)
    requires
        !p.ok,
    ensures
        finish_outcome(call, Some(p)) is Err,
        finish_outcome(call, None) matches Err(PluginErrorView::Native(_)),
        (call is Respond || call is RespondStream) && p.text@ != "exceededContextWindowSize"@
            && p.text@ != "unsupportedLanguageOrLocale"@ ==> finish_outcome(call, Some(p)) == Err::<
            Seq<char>,
            PluginErrorView,
        >(PluginErrorView::Native(p.text@)),
{
}

/// The text model's two named failures become their own errors, and any other
/// failure message is kept verbatim as a native error.
pub proof fn lemma_native_names_and_other_texts(msg: Seq<char>)
    ensures
        native_error_view("exceededContextWindowSize"@) == PluginErrorView::ContextWindowExceeded,
        native_error_view("unsupportedLanguageOrLocale"@)
            == PluginErrorView::UnsupportedLanguageOrLocale,
        msg != "exceededContextWindowSize"@ && msg != "unsupportedLanguageOrLocale"@
            ==> native_error_view(msg) == PluginErrorView::Native(msg),
{
    reveal_strlit("exceededContextWindowSize");
    reveal_strlit("unsupportedLanguageOrLocale");
    assert("exceededContextWindowSize"@.len() == 25);
    assert("unsupportedLanguageOrLocale"@.len() == 27);
}

/// An image failure message that names no known image failure is kept
/// verbatim as a native error, and a named one never is.
pub proof fn lemma_img_unknown_texts_kept(msg: Seq<char>)
    ensures
        img_error_view(msg) is Native ==> img_error_view(msg) == PluginErrorView::Native(msg),
        msg != "notSupported"@ && msg != "backgroundCreationForbidden"@ && msg
            != "creationFailed"@ && msg != "creationCancelled"@ && msg != "faceInImageTooSmall"@
            && msg != "unsupportedLanguage"@ && msg != "unsupportedInputImage"@ && msg
            != "noConceptsProvided"@ && msg != "noStylesAvailable"@ && msg != "styleNotFound"@
            ==> img_error_view(msg) == PluginErrorView::Native(msg),
        img_error_view("notSupported"@) == PluginErrorView::ImageNotSupported,
        img_error_view("creationFailed"@) == PluginErrorView::ImageCreationFailed,
        img_error_view("faceInImageTooSmall"@) == PluginErrorView::ImageFaceInImageTooSmall,
{
    reveal_strlit("notSupported");
    reveal_strlit("backgroundCreationForbidden");
    reveal_strlit("creationFailed");
    reveal_strlit("creationCancelled");
    reveal_strlit("faceInImageTooSmall");
    assert("notSupported"@.len() == 12);
    assert("backgroundCreationForbidden"@.len() == 27);
    assert("creationFailed"@.len() == 14);
    assert("creationCancelled"@.len() == 17);
    assert("faceInImageTooSmall"@.len() == 19);
}

fn equals_literal(msg: &String, lit: &str) -> (r: bool)
    ensures
        r == (msg@ == lit@),
{
    let lit = String::from_str(lit);
    *msg == lit
}

/// Maps a failure message of the text model to an error: the two messages
/// that the bridge names get their own variants, any other is kept as text.
pub fn map_native_error(msg: String) -> (e: PluginError)
    ensures
        e@ == native_error_view(msg@),
{
    if equals_literal(&msg, "exceededContextWindowSize") {
        PluginError::ContextWindowExceeded
    } else if equals_literal(&msg, "unsupportedLanguageOrLocale") {
        PluginError::UnsupportedLanguageOrLocale
    } else {
        PluginError::Native(msg)
    }
}

/// Maps a failure message of image generation to an error.
pub fn map_img_error(msg: String) -> (e: PluginError)
    ensures
        e@ == img_error_view(msg@),
{
    if equals_literal(&msg, "notSupported") {
        PluginError::ImageNotSupported
    } else if equals_literal(&msg, "backgroundCreationForbidden") {
        PluginError::ImageBackgroundCreationForbidden
    } else if equals_literal(&msg, "creationFailed") {
        PluginError::ImageCreationFailed
    } else if equals_literal(&msg, "creationCancelled") {
        PluginError::ImageCreationCancelled
    } else if equals_literal(&msg, "faceInImageTooSmall") {
        PluginError::ImageFaceInImageTooSmall
    } else if equals_literal(&msg, "unsupportedLanguage") {
        PluginError::ImageUnsupportedLanguage
    } else if equals_literal(&msg, "unsupportedInputImage") {
        PluginError::ImageUnsupportedInputImage
    } else if equals_literal(&msg, "noConceptsProvided") {
        PluginError::InvalidInput(String::from_str("no concepts provided"))
    } else if equals_literal(&msg, "noStylesAvailable") {
        PluginError::InvalidInput(String::from_str("no image styles available on this device"))
    } else if equals_literal(&msg, "styleNotFound") {
        PluginError::InvalidInput(String::from_str("requested style id not found"))
    } else {
        PluginError::Native(msg)
    }
}

/// Judges the status with which the bridge took a call: 0 means the call is
/// under way, anything else that it was refused.
pub fn dispatch_result(call: NativeCall, status: i32) -> (r: Result<(), PluginError>)
    ensures
        outcome(r) == dispatch_outcome(call, status),
{
    if status == 0 {
        Ok(())
    } else {
        match call {
            NativeCall::Respond(id) => Err(PluginError::SessionNotFound(id)),
            NativeCall::RespondStream(id) => Err(PluginError::SessionNotFound(id)),
            NativeCall::ImgAvailability => Err(
                PluginError::Native(String::from_str("img_availability returned non-zero")),
            ),
            NativeCall::ImgGenerate => {
                let mut m = String::from_str("img_generate returned ");
                push_signed_decimal(&mut m, status);
                Err(PluginError::Native(m))
            },
        }
    }
}

/// What a request yields once its completion has arrived or its channel has
/// closed without one.
pub fn finish(call: NativeCall, received: Option<CompletionPayload>) -> (r: Result<
    String,
    PluginError,
>)
    ensures
        outcome(r) == finish_outcome(call, received),
        match received {
            Some(p) => if p.ok {
                r matches Ok(text) && text@ == p.text@
            } else {
                r is Err
            },
            None => r matches Err(PluginError::Native(_)),
        },
{
    match received {
        None => {
            let m = match call {
                NativeCall::Respond(_) => String::from_str("completion channel dropped"),
                NativeCall::RespondStream(_) => String::from_str(
                    "stream completion channel dropped",
                ),
                NativeCall::ImgAvailability => String::from_str("img availability channel dropped"),
                NativeCall::ImgGenerate => String::from_str("img generation channel dropped"),
            };
            Err(PluginError::Native(m))
        },
        Some(p) => {
            if p.ok {
                Ok(p.text)
            } else {
                match call {
                    NativeCall::ImgAvailability | NativeCall::ImgGenerate => Err(
                        map_img_error(p.text),
                    ),
                    _ => Err(map_native_error(p.text)),
                }
            }
        },
    }
}

/// The JSON text of the availability report, or the error for a bridge that
/// returned none.
pub fn availability_outcome(raw: Option<String>) -> (r: Result<String, PluginError>)
    ensures
        outcome(r) == match raw {
            Some(t) => Ok(t@),
            None => Err(PluginErrorView::Native("ai_availability returned null"@)),
        },
{
    match raw {
        Some(t) => Ok(t),
        None => Err(PluginError::Native(String::from_str("ai_availability returned null"))),
    }
}

/// The session id of a session the bridge created with `status`, or the
/// error it reported (`"unknown"` when it gave no message).
pub fn create_session_outcome(status: i32, session_id: u64, error_text: Option<String>) -> (r:
    Result<u64, PluginError>)
    ensures
        outcome(r) == if status == 0 {
            Ok(session_id)
        } else {
            Err(
                PluginErrorView::Native(
                    match error_text {
                        Some(t) => t@,
                        None => "unknown"@,
                    },
                ),
            )
        },
{
    if status != 0 {
        let msg = match error_text {
            Some(t) => t,
            None => String::from_str("unknown"),
        };
        return Err(PluginError::Native(msg));
    }
    Ok(session_id)
}

/// The outcome of closing `session_id`: a nonzero status means the bridge
/// knew no such session.
pub fn close_session_outcome(session_id: u64, status: i32) -> (r: Result<(), PluginError>)
    ensures
        outcome(r) == if status == 0 {
            Ok(())
        } else {
            Err(PluginErrorView::SessionNotFound(session_id))
        },
{
    if status != 0 {
        return Err(PluginError::SessionNotFound(session_id));
    }
    Ok(())
}

/// Prepares the result of a tool call for the bridge: the JSON text that
/// `serde_json` writes for it, which can always cross the C ABI (a NUL inside
/// the value is escaped, so a result is never refused for one), and the error
/// flag, 1 for an error, else 0. Writing a JSON value never fails, so this
/// always succeeds.
pub fn tool_result_request(result: &serde_json::Value, is_error: bool) -> (r: Result<
    (String, i32),
    PluginError,
>)
    ensures
        r is Ok,
        r matches Ok((text, flag)) ==> {
            &&& written_json(*result, text)
            &&& !text@.contains('\0')
            &&& flag == if is_error {
                1i32
            } else {
                0i32
            }
        },
        r matches Err(e) ==> e@ is Json,
{
    let written = json_text(result);
    match written {
        Err(e) => Err(PluginError::Json(e)),
        Ok(text) => match check_c_string(text.as_str()) {
            Err(e) => Err(e),
            Ok(()) => {
                proof {
                    lemma_written_json(result, text);
                }
                Ok((text, if is_error { 1 } else { 0 }))
            },
        },
    }
}

/// The outcome of resolving a tool call with `status`.
pub fn tool_resolution_result(status: i32) -> (r: Result<(), PluginError>)
    ensures
        outcome(r) == if status == 0 {
            Ok(())
        } else {
            Err(PluginErrorView::Native("ai_resolve_tool_call returned "@ + signed_decimal(status as int)))
        },
{
    if status != 0 {
        let mut m = String::from_str("ai_resolve_tool_call returned ");
        push_signed_decimal(&mut m, status);
        return Err(PluginError::Native(m));
    }
    Ok(())
}

} // verus!
