//! Domain model: videos, media variants, and the per-video error kinds.

use vstd::prelude::*;

verus! {

/// Mathematical view of a [`Video`]: its id and optional title as
/// character sequences.
pub ghost struct VideoView {
    pub id: Seq<char>,
    pub title: Option<Seq<char>>,
}

/// One video of a channel, as the server describes it: an opaque id and
/// an optional human-readable title.
pub struct Video {
    pub id: String,
    pub title: Option<String>,
}

impl View for Video {
    type V = VideoView;

    open spec fn view(&self) -> VideoView {
        VideoView {
            id: self.id@,
            title: match self.title {
                Some(t) => Some(t@),
                None => None,
            },
        }
    }
}

/// The name a video is shown under: its title when present, else its id.
pub open spec fn display_view(v: VideoView) -> Seq<char> {
    match v.title {
        Some(t) => t,
        None => v.id,
    }
}

impl Video {
    /// Returns the video's display title: the title when present,
    /// otherwise the id.
    pub fn display_title(&self) -> (r: String)
        ensures
            r@ == display_view(self@),
            self@.title is None ==> r@ == self@.id,
    {
        match &self.title {
            Some(t) => t.clone(),
            None => self.id.clone(),
        }
    }
}

/// Mathematical view of a [`VideoVariant`].
pub ghost struct VariantView {
    pub path: Seq<char>,
    pub media_type: Seq<char>,
}

/// One encoded rendition of a video's media: a server-relative path and
/// a MIME type of the form `type/subtype`.
pub struct VideoVariant {
    pub path: String,
    pub media_type: String,
}

impl View for VideoVariant {
    type V = VariantView;

    open spec fn view(&self) -> VariantView {
        VariantView { path: self.path@, media_type: self.media_type@ }
    }
}

/// Why a single video's download failed. Failures of one video never
/// abort the batch; the orchestrator records them and continues.
#[derive(Clone, Copy, Debug, PartialEq, Eq, Structural)]
pub enum DownloadError {
    /// The variant-list request failed or its body did not decode.
    VariantRequest,
    /// The variant list was empty.
    NoVariant,
    /// The media response declared no content length.
    UnknownSize,
    /// The variant's media type holds no `/`, so no extension exists.
    MalformedMediaType,
    /// The local file could not be created.
    FileCreate,
    /// Reading the body or writing the file failed mid-transfer.
    Transfer,
}

/// Builds the video list from plain `(id, title)` records, one video per
/// record, in the order given: the server's response order is preserved.
pub fn videos_from_records(records: Vec<(String, Option<String>)>) -> (vs: Vec<Video>)
    ensures
        vs@.len() == records@.len(),
        forall|i: int|
            0 <= i < records@.len() ==> vs@[i]@ == (VideoView {
                id: records@[i].0@,
                title: match records@[i].1 {
                    Some(t) => Some(t@),
                    None => None,
                },
            }),
{
    let mut vs: Vec<Video> = Vec::new();
    let n = records.len();
    let mut k: usize = 0;
    while k < n
        invariant
            records@.len() == n,
            vs@.len() == k,
            k <= n,
            forall|i: int|
                0 <= i < k ==> vs@[i]@ == (VideoView {
                    id: records@[i].0@,
                    title: match records@[i].1 {
                        Some(t) => Some(t@),
                        None => None,
                    },
                }),
        decreases n - k,
    {
        let record = &records[k];
        let id = record.0.clone();
        let title = match &record.1 {
            Some(t) => Some(t.clone()),
            None => None,
        };
        vs.push(Video { id, title });
        k = k + 1;
    }
    vs
}

} // verus!
