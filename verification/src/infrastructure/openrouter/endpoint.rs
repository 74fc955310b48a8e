//! Endpoint URLs, built by the `url` crate.
use vstd::prelude::*;

verus! {

/// The serialization of the URL `base` once `segments` are appended to its
/// path, as `url::Url::parse` followed by `path_segments_mut().extend(..)`
/// gives it; `None` when `base` does not parse or cannot be a base.
pub uninterp spec fn url_with_path_segments(base: Seq<char>, segments: Seq<Seq<char>>) -> Option<
    Seq<char>,
>;

/// Most characters, base and segments together, that an endpoint URL is built
/// from. The `url` crate keeps offsets into the serialization as `u32` and
/// unwraps their conversion when the path is rewritten, so a serialization
/// past `u32::MAX` bytes panics; one character serializes to far fewer than
/// the 512 bytes per character this bound leaves room for (percent-encoding
/// takes at most 12, a host label's mapping and Punycode well under that).
pub const MAX_URL_CHARS: usize = 0x0080_0000usize;

/// Appends two path segments to the URL `base` (`Url::parse`, then
/// `Url::path_segments_mut` and `PathSegmentsMut::extend`).
///
/// Trusted: the result depends on the three texts alone, and is named by
/// `url_with_path_segments`; nothing more is claimed of it (the crate
/// percent-encodes the segments and keeps any query and fragment). The
/// texts are bounded by `MAX_URL_CHARS`, so that the serialization stays
/// within the `u32` offsets the crate unwraps.
#[verifier::external_body]
pub(crate) fn append_path_segments(base: &str, first: &str, second: &str) -> (r: Option<String>)
    requires
        base@.len() + first@.len() + second@.len() <= MAX_URL_CHARS,
    ensures
        match r {
            Some(u) => url_with_path_segments(base@, seq![first@, second@]) == Some(u@),
            None => url_with_path_segments(base@, seq![first@, second@]) is None,
        },
{
    let mut url = url::Url::parse(base).ok()?;
    url.path_segments_mut().ok()?.extend([first, second]);
    Some(url.as_str().to_string())
}

} // verus!
