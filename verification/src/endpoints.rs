//! Construction of the platform's endpoint URLs.
//!
//! Every request the tool makes goes against the fixed base
//! `https://tube.switch.ch`, with the path depending on what is fetched.

use vstd::prelude::*;
use vstd::string::StringExecFns;

verus! {

/// The base URL all requests go against.
pub open spec fn base_view() -> Seq<char> {
    "https://tube.switch.ch"@
}

/// The URL that lists the videos of channel `id`.
pub open spec fn channel_videos_url_view(id: Seq<char>) -> Seq<char> {
    base_view() + "/api/v1/browse/channels/"@ + id + "/videos"@
}

/// The URL that lists the media variants of video `id`.
pub open spec fn variants_url_view(id: Seq<char>) -> Seq<char> {
    base_view() + "/api/v1/browse/videos/"@ + id + "/video_variants"@
}

/// The URL of a media resource given its server-relative path.
pub open spec fn media_url_view(path: Seq<char>) -> Seq<char> {
    base_view() + path
}

/// Builds the channel-videos endpoint URL for channel `id`.
pub fn channel_videos_url(id: &str) -> (r: String)
    ensures
        r@ == channel_videos_url_view(id@),
{
    let mut r = String::from_str("https://tube.switch.ch");
    r.append("/api/v1/browse/channels/");
    r.append(id);
    r.append("/videos");
    proof {
        assert(r@ =~= channel_videos_url_view(id@));
    }
    r
}

/// Builds the variant-list endpoint URL for video `id`.
pub fn variants_url(id: &str) -> (r: String)
    ensures
        r@ == variants_url_view(id@),
{
    let mut r = String::from_str("https://tube.switch.ch");
    r.append("/api/v1/browse/videos/");
    r.append(id);
    r.append("/video_variants");
    proof {
        assert(r@ =~= variants_url_view(id@));
    }
    r
}

/// Builds the full URL of a media resource from its server-relative path.
pub fn media_url(path: &str) -> (r: String)
    ensures
        r@ == media_url_view(path@),
{
    let mut r = String::from_str("https://tube.switch.ch");
    r.append(path);
    r
}

} // verus!
