//! The plugin's error type, its abstract view and the text each error shows.

use vstd::prelude::*;

use crate::decimal::{decimal_digits, push_decimal};

verus! {

/// Every failure the plugin reports to its callers.
#[derive(Debug)]
pub enum PluginError {
    SessionNotFound(u64),
    /// The session's context window was exceeded. Start a new session.
    ContextWindowExceeded,
    UnsupportedLanguageOrLocale,
    Native(String),
    ImageNotSupported,
    ImageBackgroundCreationForbidden,
    ImageCreationFailed,
    ImageCreationCancelled,
    ImageFaceInImageTooSmall,
    ImageUnsupportedLanguage,
    ImageUnsupportedInputImage,
    InvalidInput(String),
    Json(serde_json::Error),
}

/// The abstract value of a [`PluginError`]: texts as character sequences, and a
/// JSON error as its kind alone.
pub enum PluginErrorView {
    SessionNotFound(u64),
    ContextWindowExceeded,
    UnsupportedLanguageOrLocale,
    Native(Seq<char>),
    ImageNotSupported,
    ImageBackgroundCreationForbidden,
    ImageCreationFailed,
    ImageCreationCancelled,
    ImageFaceInImageTooSmall,
    ImageUnsupportedLanguage,
    ImageUnsupportedInputImage,
    InvalidInput(Seq<char>),
    Json,
}

impl View for PluginError {
    type V = PluginErrorView;

    open spec fn view(&self) -> PluginErrorView {
        match self {
            PluginError::SessionNotFound(id) => PluginErrorView::SessionNotFound(*id),
            PluginError::ContextWindowExceeded => PluginErrorView::ContextWindowExceeded,
            PluginError::UnsupportedLanguageOrLocale => PluginErrorView::UnsupportedLanguageOrLocale,
            PluginError::Native(m) => PluginErrorView::Native(m@),
            PluginError::ImageNotSupported => PluginErrorView::ImageNotSupported,
            PluginError::ImageBackgroundCreationForbidden => PluginErrorView::ImageBackgroundCreationForbidden,
            PluginError::ImageCreationFailed => PluginErrorView::ImageCreationFailed,
            PluginError::ImageCreationCancelled => PluginErrorView::ImageCreationCancelled,
            PluginError::ImageFaceInImageTooSmall => PluginErrorView::ImageFaceInImageTooSmall,
            PluginError::ImageUnsupportedLanguage => PluginErrorView::ImageUnsupportedLanguage,
            PluginError::ImageUnsupportedInputImage => PluginErrorView::ImageUnsupportedInputImage,
            PluginError::InvalidInput(m) => PluginErrorView::InvalidInput(m@),
            PluginError::Json(_) => PluginErrorView::Json,
        }
    }
}

/// The abstract value of an outcome: the success value by its view, the
/// error by [`PluginErrorView`].
pub open spec fn outcome<T: View>(r: Result<T, PluginError>) -> Result<T::V, PluginErrorView> {
    match r {
        Ok(t) => Ok(t@),
        Err(e) => Err(e@),
    }
}

impl PluginErrorView {
    /// The text shown for an error other than a JSON error; the bridge's own
    /// failure text is shown as it is.
    pub open spec fn message(self) -> Seq<char> {
        match self {
            PluginErrorView::SessionNotFound(id) => "session "@ + decimal_digits(id as nat)
                + " not found"@,
            PluginErrorView::ContextWindowExceeded => "context window exceeded"@,
            PluginErrorView::UnsupportedLanguageOrLocale => "unsupported language or locale"@,
            PluginErrorView::Native(m) => m,
            PluginErrorView::ImageNotSupported => "image generation is not supported on this device"@,
            PluginErrorView::ImageBackgroundCreationForbidden =>
                "image creation is not allowed while the app is in the background"@,
            PluginErrorView::ImageCreationFailed => "image creation failed"@,
            PluginErrorView::ImageCreationCancelled => "image creation was cancelled"@,
            PluginErrorView::ImageFaceInImageTooSmall => "face in source image is too small"@,
            PluginErrorView::ImageUnsupportedLanguage => "unsupported language for image generation"@,
            PluginErrorView::ImageUnsupportedInputImage => "unsupported input image"@,
            PluginErrorView::InvalidInput(m) => "invalid input: "@ + m,
            PluginErrorView::Json => Seq::empty(),
        }
    }
}

/// A native error shows the bridge's text exactly as it is, an invalid input
/// shows its explanation after a fixed prefix, and a missing session names
/// its id in decimal.
pub proof fn lemma_messages_keep_their_texts(m: Seq<char>, id: u64)
    ensures
        PluginErrorView::Native(m).message() == m,
        PluginErrorView::InvalidInput(m).message() == "invalid input: "@ + m,
        PluginErrorView::SessionNotFound(id).message() == "session "@ + crate::decimal::decimal_digits(
            id as nat,
        ) + " not found"@,
{
}

impl PluginError {
    /// The text of this error, as callers see it: a native error shows the
    /// bridge's own text, a JSON error the text `serde_json` displays for it.
    pub fn message(&self) -> (m: String)
        ensures
            !(self@ is Json) ==> m@ == self@.message(),
            match self {
                PluginError::Json(e) => vstd::string::to_string_from_display_ensures::<
                    serde_json::Error,
                >(e, m),
                _ => true,
            },
    {
        match self {
            PluginError::SessionNotFound(id) => {
                let mut m = String::from_str("session ");
                push_decimal(&mut m, *id);
                m.append(" not found");
                m
            },
            PluginError::ContextWindowExceeded => String::from_str("context window exceeded"),
            PluginError::UnsupportedLanguageOrLocale => String::from_str(
                "unsupported language or locale",
            ),
            PluginError::Native(msg) => msg.clone(),
            PluginError::ImageNotSupported => String::from_str(
                "image generation is not supported on this device",
            ),
            PluginError::ImageBackgroundCreationForbidden => String::from_str(
                "image creation is not allowed while the app is in the background",
            ),
            PluginError::ImageCreationFailed => String::from_str("image creation failed"),
            PluginError::ImageCreationCancelled => String::from_str("image creation was cancelled"),
            PluginError::ImageFaceInImageTooSmall => String::from_str(
                "face in source image is too small",
            ),
            PluginError::ImageUnsupportedLanguage => String::from_str(
                "unsupported language for image generation",
            ),
            PluginError::ImageUnsupportedInputImage => String::from_str("unsupported input image"),
            PluginError::InvalidInput(msg) => {
                let m = String::from_str("invalid input: ");
                m.concat(msg.as_str())
            },
            PluginError::Json(e) => e.to_string(),
        }
    }

}

} // verus!
