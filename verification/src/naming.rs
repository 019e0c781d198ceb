//! The name of the output file, from the clip and the video's mime type.

use vstd::prelude::*;
use vstd::string::StringExecFns;
use crate::error::PipelineError;

verus! {

/// The mime parser's error; only its presence is read.
#[verifier::external_type_specification]
#[verifier::external_body]
pub struct ExFromStrError(mime::FromStrError);

/// What the `mime` crate reads of a mime type's `+suffix`: `None` where the
/// text does not parse as a mime type, `Some(None)` where it parses and has
/// no suffix, `Some(Some(..))` with the suffix where it has one.
pub uninterp spec fn mime_suffix_of(text: Seq<char>) -> Option<Option<Seq<char>>>;

/// The extension of an output file whose video mime type has no suffix.
pub const DEFAULT_EXTENSION: &'static str = "mp4";

/// Parses the text as a `mime::Mime` and hands out the text of its
/// `suffix()`. Trusted: the outcome depends on the text alone, so it is the
/// one that `mime_suffix_of` names.
#[verifier::external_body]
fn parse_suffix(text: &str) -> (r: Result<Option<String>, mime::FromStrError>)
    ensures
        match r {
            Ok(Some(suffix)) => mime_suffix_of(text@) == Some(Some(suffix@)),
            Ok(None) => mime_suffix_of(text@) == Some(None::<Seq<char>>),
            Err(_) => mime_suffix_of(text@) is None,
        },
{
    let parsed: mime::Mime = text.parse()?;
    Ok(parsed.suffix().map(|name| name.as_str().to_owned()))
}

/// The text of an optional string.
pub open spec fn text_of(value: Option<String>) -> Option<Seq<char>> {
    match value {
        Some(s) => Some(s@),
        None => None,
    }
}

/// The suffix of a video mime type. Succeeds exactly when the text parses
/// as a mime type; `VideoMimeType` otherwise.
pub fn video_suffix(mime_type: &str) -> (r: Result<Option<String>, PipelineError>)
    ensures
        match r {
            Ok(suffix) => mime_suffix_of(mime_type@) == Some(text_of(suffix)),
            Err(e) => mime_suffix_of(mime_type@) is None && e == PipelineError::VideoMimeType,
        },
{
    match parse_suffix(mime_type) {
        Ok(suffix) => Ok(suffix),
        Err(_) => Err(PipelineError::VideoMimeType),
    }
}

/// The extension that goes with a suffix: the suffix itself, or
/// `DEFAULT_EXTENSION` where there is none.
pub open spec fn extension_for(suffix: Option<Seq<char>>) -> Seq<char> {
    match suffix {
        Some(s) => s,
        None => DEFAULT_EXTENSION@,
    }
}

/// The default name: the clip's id, a dot, the extension.
pub open spec fn default_name(clip_id: Seq<char>, suffix: Option<Seq<char>>) -> Seq<char> {
    clip_id + "."@ + extension_for(suffix)
}

/// The name the output gets: the requested one, or the default one where
/// none was requested.
pub open spec fn chosen_name(
    requested: Option<Seq<char>>,
    clip_id: Seq<char>,
    suffix: Option<Seq<char>>,
) -> Seq<char> {
    match requested {
        Some(name) => name,
        None => default_name(clip_id, suffix),
    }
}

/// Builds the default name of the output for a clip.
pub fn default_file_name(clip_id: &str, suffix: &Option<String>) -> (name: String)
    ensures
        name@ == default_name(clip_id@, text_of(*suffix)),
{
    let mut name = String::from_str(clip_id);
    name.append(".");
    match suffix {
        Some(s) => name.append(s.as_str()),
        None => name.append(DEFAULT_EXTENSION),
    }
    name
}

/// Chooses the name of the output: a requested name wins, unchanged.
pub fn output_file_name(requested: Option<String>, clip_id: &str, suffix: &Option<String>) -> (name:
    String)
    ensures
        name@ == chosen_name(text_of(requested), clip_id@, text_of(*suffix)),
{
    match requested {
        Some(name) => name,
        None => default_file_name(clip_id, suffix),
    }
}

} // verus!
