//! Absolute URLs from a base and a reference, by the `url` crate.
//!
//! URLs cross this library as text. A base is read with `Url::parse` each
//! time it is used; the crate serialises a URL so that reading the text
//! again gives the same URL.

use vstd::prelude::*;
use vstd::string::StringSliceAdditionalSpecFns;
use vstd::utf8::is_ascii_chars_encode_utf8;
use crate::error::PipelineError;

verus! {

/// The URL parser's error; only its presence is read.
#[verifier::external_type_specification]
#[verifier::external_body]
pub struct ExParseError(url::ParseError);

/// The text of the URL that `Url::join` gives for `reference` against the
/// URL that `Url::parse` reads from `base`; `None` where either reports an
/// error.
pub uninterp spec fn url_joined(base: Seq<char>, reference: Seq<char>) -> Option<Seq<char>>;

/// The text of the URL that `Url::parse` reads from `link`, once its query
/// was emptied and the one pair `name`, `value` appended to it through
/// `Url::query_pairs_mut`; `None` where `link` does not parse.
pub uninterp spec fn url_with_query(link: Seq<char>, name: Seq<char>, value: Seq<char>) -> Option<
    Seq<char>,
>;

/// The longest text, in bytes, that is handed to the query writer.
pub const MAX_LINK_BYTES: usize = 0x100_0000;

/// Calls `Url::parse` on `base`, then `Url::join` with `reference`, and
/// hands out the text of the result. Trusted: both are functions of their
/// text arguments alone, so the outcome is the one that `url_joined` names.
/// Both report an overlong URL as an error.
#[verifier::external_body]
fn join_parsed(base: &str, reference: &str) -> (r: Result<String, url::ParseError>)
    ensures
        match r {
            Ok(joined) => url_joined(base@, reference@) == Some(joined@),
            Err(_) => url_joined(base@, reference@) is None,
        },
{
    let parsed = url::Url::parse(base)?;
    let joined = parsed.join(reference)?;
    Ok(joined.into())
}

/// Calls `Url::parse` on `link`, then `clear` and `append_pair` on its
/// `query_pairs_mut`, and hands out the text of the result. Trusted: the
/// outcome depends on the three texts alone, so it is the one that
/// `url_with_query` names. The query writer stops the program where the URL
/// outgrows 32-bit offsets; the byte limits keep every text far below that.
#[verifier::external_body]
fn replace_query(link: &str, name: &str, value: &str) -> (r: Result<String, url::ParseError>)
    requires
        link.spec_bytes().len() <= MAX_LINK_BYTES,
        name.spec_bytes().len() <= MAX_LINK_BYTES,
        value.spec_bytes().len() <= MAX_LINK_BYTES,
    ensures
        match r {
            Ok(changed) => url_with_query(link@, name@, value@) == Some(changed@),
            Err(_) => url_with_query(link@, name@, value@) is None,
        },
{
    let mut parsed = url::Url::parse(link)?;
    parsed.query_pairs_mut().clear().append_pair(name, value);
    Ok(parsed.into())
}

/// Resolves `reference` against `base`. Succeeds exactly when the base is an
/// absolute URL and the reference resolves against it; `UrlResolution`
/// otherwise.
pub fn resolve(base: &str, reference: &str) -> (r: Result<String, PipelineError>)
    ensures
        match r {
            Ok(joined) => url_joined(base@, reference@) == Some(joined@),
            Err(e) => url_joined(base@, reference@) is None && e == PipelineError::UrlResolution,
        },
{
    match join_parsed(base, reference) {
        Ok(joined) => Ok(joined),
        Err(_) => Err(PipelineError::UrlResolution),
    }
}

/// Whether the three texts are short enough for the query writer.
pub open spec fn within_query_limits(link: &str, name: &str, value: &str) -> bool {
    &&& link.spec_bytes().len() <= MAX_LINK_BYTES
    &&& name.spec_bytes().len() <= MAX_LINK_BYTES
    &&& value.spec_bytes().len() <= MAX_LINK_BYTES
}

/// `link` with its query replaced by the one pair `name`, `value`. Succeeds
/// exactly when the texts are within the limits and `link` is an absolute
/// URL; `UrlResolution` otherwise.
pub fn with_only_query(link: &str, name: &str, value: &str) -> (r: Result<String, PipelineError>)
    ensures
        match r {
            Ok(changed) => within_query_limits(link, name, value) && url_with_query(
                link@,
                name@,
                value@,
            ) == Some(changed@),
            Err(e) => e == PipelineError::UrlResolution && (!within_query_limits(link, name, value)
                || url_with_query(link@, name@, value@) is None),
        },
{
    if link.as_bytes().len() > MAX_LINK_BYTES || name.as_bytes().len() > MAX_LINK_BYTES
        || value.as_bytes().len() > MAX_LINK_BYTES {
        return Err(PipelineError::UrlResolution);
    }
    match replace_query(link, name, value) {
        Ok(changed) => Ok(changed),
        Err(_) => Err(PipelineError::UrlResolution),
    }
}

/// The query parameter that asks for init segments as base64 text.
pub const INIT_SEGMENT_QUERY: &'static str = "base64_init";

/// The value that switches `INIT_SEGMENT_QUERY` on.
pub const INIT_SEGMENT_QUERY_ON: &'static str = "1";

/// The URL to request the manifest from: `link` with its whole query
/// replaced by the one parameter that asks for base64 init segments.
/// Succeeds exactly when `link` is an absolute URL of at most
/// `MAX_LINK_BYTES` bytes; `UrlResolution` otherwise.
pub fn manifest_request_url(link: &str) -> (r: Result<String, PipelineError>)
    ensures
        match r {
            Ok(request) => link.spec_bytes().len() <= MAX_LINK_BYTES && url_with_query(
                link@,
                INIT_SEGMENT_QUERY@,
                INIT_SEGMENT_QUERY_ON@,
            ) == Some(request@),
            Err(e) => e == PipelineError::UrlResolution && (link.spec_bytes().len() > MAX_LINK_BYTES
                || url_with_query(link@, INIT_SEGMENT_QUERY@, INIT_SEGMENT_QUERY_ON@) is None),
        },
{
    proof {
        reveal_strlit("base64_init");
        reveal_strlit("1");
        is_ascii_chars_encode_utf8(INIT_SEGMENT_QUERY@);
        is_ascii_chars_encode_utf8(INIT_SEGMENT_QUERY_ON@);
    }
    with_only_query(link, INIT_SEGMENT_QUERY, INIT_SEGMENT_QUERY_ON)
}

} // verus!
