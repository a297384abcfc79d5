//! Per-video download planning: variant selection, file-name derivation,
//! and the running byte count of one transfer.
//!
//! The surrounding binary performs the network requests and file writes;
//! each decision between two of its steps is a verified function here.

use vstd::prelude::*;
use crate::model::{DownloadError, Video, VideoView, VideoVariant, display_view};
use crate::text::{
    chars_of, find_first_slash, first_slash, has_slash, sanitize_chars, sanitize_view,
    string_from_chars, lemma_sanitize_no_slash, lemma_sanitize_replaces_slash,
};

verus! {

/// The file extension a variant yields: everything of its MIME type
/// after the first `/`.
pub open spec fn extension_view(mt: Seq<char>) -> Seq<char> {
    mt.subrange(first_slash(mt) + 1, mt.len() as int)
}

/// The file name before sanitizing: display title, a dot, the extension.
pub open spec fn raw_name_view(v: VideoView, mt: Seq<char>) -> Seq<char> {
    display_view(v) + seq!['.'] + extension_view(mt)
}

/// The file name a download writes to: the raw name with every `/`
/// replaced by `" - "`.
pub open spec fn file_name_view(v: VideoView, mt: Seq<char>) -> Seq<char> {
    sanitize_view(raw_name_view(v, mt))
}

/// Selects the variant a download uses: the first of the server's list.
/// An empty list is the `NoVariant` failure.
pub fn select_variant(variants: Vec<VideoVariant>) -> (r: Result<VideoVariant, DownloadError>)
    ensures
        variants@.len() == 0 ==> (r matches Err(e) && e == DownloadError::NoVariant),
        variants@.len() > 0 ==> (r matches Ok(v) && v == variants@[0]),
{
    let mut variants = variants;
    if variants.len() == 0 {
        Err(DownloadError::NoVariant)
    } else {
        Ok(variants.remove(0))
    }
}

/// Derives the file extension from a MIME type: the part after the first
/// `/`, or the `MalformedMediaType` failure when no `/` exists.
pub fn extension_of(media_type: &str) -> (r: Result<String, DownloadError>)
    ensures
        has_slash(media_type@) <==> r is Ok,
        r matches Ok(e) ==> e@ == extension_view(media_type@),
        !has_slash(media_type@) ==> (r matches Err(e) && e == DownloadError::MalformedMediaType),
{
    let chars = chars_of(media_type);
    let i = find_first_slash(&chars);
    if i == chars.len() {
        return Err(DownloadError::MalformedMediaType);
    }
    let n = chars.len();
    let mut ext: Vec<char> = Vec::new();
    let mut j: usize = i + 1;
    while j < n
        invariant
            n == chars@.len(),
            i + 1 <= j <= n,
            ext@ == chars@.subrange(i as int + 1, j as int),
        decreases n - j,
    {
        ext.push(chars[j]);
        assert(ext@ =~= chars@.subrange(i as int + 1, j as int + 1));
        j = j + 1;
    }
    assert(ext@ == media_type@.subrange(i as int + 1, media_type@.len() as int));
    Ok(string_from_chars(&ext))
}

/// Derives the local file name for `video`'s download from the selected
/// variant's MIME type: `"{title-or-id}.{subtype}"`, with every `/`
/// replaced by `" - "`. Fails with `MalformedMediaType` when the MIME
/// type holds no `/`.
pub fn file_name_for(video: &Video, media_type: &str) -> (r: Result<String, DownloadError>)
    ensures
        has_slash(media_type@) <==> r is Ok,
        r matches Ok(name) ==> name@ == file_name_view(video@, media_type@),
        !has_slash(media_type@) ==> (r matches Err(e) && e == DownloadError::MalformedMediaType),
{
    let ext = match extension_of(media_type) {
        Ok(e) => e,
        Err(e) => {
            return Err(e);
        },
    };
    let display = video.display_title();
    let mut raw = chars_of(display.as_str());
    raw.push('.');
    let ext_chars = chars_of(ext.as_str());
    let mut k: usize = 0;
    let m = ext_chars.len();
    while k < m
        invariant
            m == ext_chars@.len(),
            k <= m,
            raw@ == display@ + seq!['.'] + ext_chars@.subrange(0, k as int),
        decreases m - k,
    {
        raw.push(ext_chars[k]);
        assert(raw@ =~= display@ + seq!['.'] + ext_chars@.subrange(0, k as int + 1));
        k = k + 1;
    }
    assert(ext_chars@.subrange(0, m as int) =~= ext_chars@);
    assert(raw@ == raw_name_view(video@, media_type@));
    let clean = sanitize_chars(&raw);
    Ok(string_from_chars(&clean))
}

/// The plan for writing one video's media to disk: the file name and the
/// declared size of the body.
pub struct FilePlan {
    pub file_name: String,
    pub total_size: u64,
}

/// Decides, once the media response's headers are in hand, whether and
/// where the body is written: a missing content length is the
/// `UnknownSize` failure, a MIME type without `/` the
/// `MalformedMediaType` failure; otherwise the plan names the file and
/// carries the declared size.
pub fn prepare_file(video: &Video, variant: &VideoVariant, content_length: Option<u64>) -> (r:
    Result<FilePlan, DownloadError>)
    ensures
        match content_length {
            None => r matches Err(e) && e == DownloadError::UnknownSize,
            Some(n) => {
                &&& !has_slash(variant@.media_type) ==> (r matches Err(e) && e
                    == DownloadError::MalformedMediaType)
                &&& has_slash(variant@.media_type) ==> (r matches Ok(p) && p.file_name@
                    == file_name_view(video@, variant@.media_type) && p.total_size == n)
            },
        },
{
    let total_size = match content_length {
        Some(n) => n,
        None => {
            return Err(DownloadError::UnknownSize);
        },
    };
    let file_name = match file_name_for(video, variant.media_type.as_str()) {
        Ok(name) => name,
        Err(e) => {
            return Err(e);
        },
    };
    Ok(FilePlan { file_name, total_size })
}

/// Law: a produced file name never holds a literal `/`, whatever the
/// video and MIME type were.
pub proof fn lemma_file_name_no_slash(v: VideoView, mt: Seq<char>)
    ensures
        forall|j: int|
            0 <= j < file_name_view(v, mt).len() ==> file_name_view(v, mt)[j] != '/',
{
    lemma_sanitize_no_slash(raw_name_view(v, mt));
}

/// Law: where the display title holds a `/` at index `i`, the produced
/// file name holds `" - "` in its place: the name decomposes around that
/// index into the sanitized prefix, `" - "`, and the sanitized rest.
pub proof fn lemma_file_name_replaces_slash(v: VideoView, mt: Seq<char>, i: int)
    requires
        0 <= i < display_view(v).len(),
        display_view(v)[i] == '/',
    ensures
        file_name_view(v, mt) == sanitize_view(raw_name_view(v, mt).subrange(0, i))
            + seq![' ', '-', ' ']
            + sanitize_view(
            raw_name_view(v, mt).subrange(i + 1, raw_name_view(v, mt).len() as int),
        ),
        exists|k: int|
            0 <= k && k + 3 <= file_name_view(v, mt).len() && #[trigger] file_name_view(
                v,
                mt,
            ).subrange(k, k + 3) == seq![' ', '-', ' '],
{
    let raw = raw_name_view(v, mt);
    assert(raw[i] == display_view(v)[i]);
    lemma_sanitize_replaces_slash(raw, i);
    let k = sanitize_view(raw.subrange(0, i)).len() as int;
    assert(file_name_view(v, mt).subrange(k, k + 3) =~= seq![' ', '-', ' ']);
}

/// The running state of one transfer: how many bytes reached the disk,
/// against the declared total.
pub struct Transfer {
    pub written: u64,
    pub total: u64,
}

/// Starts a transfer of `total` declared bytes with nothing written yet.
pub fn transfer_start(total: u64) -> (t: Transfer)
    ensures
        t.written == 0,
        t.total == total,
{
    Transfer { written: 0, total }
}

/// Records one chunk of `len` bytes written to disk.
pub fn record_chunk(t: &mut Transfer, len: u64)
    requires
        old(t).written + len <= u64::MAX,
    ensures
        final(t).written == old(t).written + len,
        final(t).total == old(t).total,
{
    t.written = t.written + len;
}

} // verus!
