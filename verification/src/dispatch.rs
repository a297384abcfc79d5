//! The CLI entry's decision: which channel to download, if any, from a
//! URL's path segments.

use vstd::prelude::*;
use vstd::string::StringExecFns;

verus! {

/// What the tool does with a URL: download a channel, or nothing.
pub enum Dispatch {
    /// The URL named a channel: download the videos of this id.
    Channel(String),
    /// Any other path shape: print `"Not supported"`, make no request,
    /// and exit normally.
    NotSupported,
}

/// The decision for given path segments: a channel id is the segment
/// following a first segment `"channels"`; any other shape, and a URL
/// without path segments, is unsupported.
pub open spec fn dispatch_view(segments: Option<Seq<Seq<char>>>) -> Option<Seq<char>> {
    match segments {
        Some(segs) => if segs.len() >= 2 && segs[0] == "channels"@ {
            Some(segs[1])
        } else {
            None
        },
        None => None,
    }
}

/// Decides from a URL's path segments which channel to download, if any.
pub fn dispatch_segments(segments: Option<Vec<String>>) -> (d: Dispatch)
    ensures
        match dispatch_view(segments.deep_view()) {
            Some(id) => d matches Dispatch::Channel(s) && s@ == id,
            None => d is NotSupported,
        },
{
    match segments {
        None => Dispatch::NotSupported,
        Some(segs) => {
            let mut segs = segs;
            let channels = String::from_str("channels");
            if segs.len() >= 2 && segs[0] == channels {
                let id = segs.remove(1);
                proof {
                    reveal_strlit("channels");
                }
                Dispatch::Channel(id)
            } else {
                Dispatch::NotSupported
            }
        },
    }
}

#[verifier::external_type_specification]
#[verifier::external_body]
pub struct ExUrl(url::Url);

/// What `url::Url::path_segments` yields for a URL: the URL's path
/// split on `/` when the URL can be a base, else nothing. The split is
/// a function of the URL value alone.
pub uninterp spec fn url_segments(u: url::Url) -> Option<Seq<Seq<char>>>;

/// Relies on `url::Url::path_segments`: `Some` exactly when the URL can
/// be a base, and then the URL's path split on `/`, holding at least one
/// segment. The strings are handed over unchanged.
#[verifier::external_body]
fn path_segments_vec(u: &url::Url) -> (r: Option<Vec<String>>)
    ensures
        r.deep_view() == url_segments(*u),
        r matches Some(v) ==> v@.len() >= 1,
{
    match u.path_segments() {
        Some(segments) => Some(segments.map(|s| s.to_string()).collect()),
        None => None,
    }
}

/// Resolves a parsed URL to the tool's decision by reading its path
/// segments: the channel id named by the URL's segments, or the
/// unsupported decision for every other path shape.
pub fn dispatch_url(u: &url::Url) -> (d: Dispatch)
    ensures
        match dispatch_view(url_segments(*u)) {
            Some(id) => d matches Dispatch::Channel(s) && s@ == id,
            None => d is NotSupported,
        },
{
    let segments = path_segments_vec(u);
    dispatch_segments(segments)
}

} // verus!
