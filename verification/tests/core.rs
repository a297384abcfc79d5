use tubedl::batch::{batch_new, exit_code, failed_display_names, record_result};
use tubedl::dispatch::{dispatch_segments, dispatch_url, Dispatch};
use tubedl::download::{
    extension_of, file_name_for, prepare_file, record_chunk, select_variant, transfer_start,
};
use tubedl::endpoints::{channel_videos_url, media_url, variants_url};
use tubedl::model::{videos_from_records, DownloadError, Video, VideoVariant};

fn video(id: &str, title: Option<&str>) -> Video {
    Video { id: id.to_string(), title: title.map(|t| t.to_string()) }
}

fn variant(path: &str, media_type: &str) -> VideoVariant {
    VideoVariant { path: path.to_string(), media_type: media_type.to_string() }
}

#[test]
fn display_title_prefers_title() {
    let v = video("abc123", Some("My Lecture"));
    assert_eq!(v.display_title(), "My Lecture");
}

#[test]
fn display_title_falls_back_to_id() {
    let v = video("abc123", None);
    assert_eq!(v.display_title(), "abc123");
}

#[test]
fn file_name_joins_title_and_subtype() {
    let v = video("abc123", Some("My Lecture"));
    assert_eq!(file_name_for(&v, "video/mp4"), Ok("My Lecture.mp4".to_string()));
}

#[test]
fn file_name_uses_id_without_title() {
    let v = video("abc123", None);
    assert_eq!(file_name_for(&v, "video/webm"), Ok("abc123.webm".to_string()));
}

#[test]
fn file_name_replaces_slashes_with_dash() {
    let v = video("abc123", Some("Intro/Part 1"));
    assert_eq!(file_name_for(&v, "video/mp4"), Ok("Intro - Part 1.mp4".to_string()));
}

#[test]
fn file_name_replaces_every_slash() {
    let v = video("abc123", Some("a/b/c"));
    let name = file_name_for(&v, "video/mp4").unwrap();
    assert_eq!(name, "a - b - c.mp4");
    assert!(!name.contains('/'));
    assert!(name.contains(" - "));
}

#[test]
fn file_name_sanitizes_the_extension_too() {
    let v = video("abc123", Some("t"));
    assert_eq!(file_name_for(&v, "video/x/y"), Ok("t.x - y".to_string()));
}

#[test]
fn file_name_fails_without_slash() {
    let v = video("abc123", Some("My Lecture"));
    assert_eq!(file_name_for(&v, "mp4"), Err(DownloadError::MalformedMediaType));
}

#[test]
fn extension_is_everything_after_first_slash() {
    assert_eq!(extension_of("video/mp4"), Ok("mp4".to_string()));
    assert_eq!(extension_of("a/b/c"), Ok("b/c".to_string()));
}

#[test]
fn extension_fails_without_slash() {
    assert_eq!(extension_of("mp4"), Err(DownloadError::MalformedMediaType));
    assert_eq!(extension_of(""), Err(DownloadError::MalformedMediaType));
}

#[test]
fn select_variant_takes_the_first() {
    let variants = vec![variant("/media/1.mp4", "video/mp4"), variant("/media/2.webm", "video/webm")];
    let chosen = select_variant(variants).unwrap();
    assert_eq!(chosen.path, "/media/1.mp4");
    assert_eq!(chosen.media_type, "video/mp4");
}

#[test]
fn select_variant_fails_on_empty_list() {
    assert!(matches!(select_variant(Vec::new()), Err(DownloadError::NoVariant)));
}

#[test]
fn prepare_file_needs_a_content_length() {
    let v = video("abc123", Some("t"));
    let var = variant("/media/1.mp4", "video/mp4");
    assert!(matches!(prepare_file(&v, &var, None), Err(DownloadError::UnknownSize)));
}

#[test]
fn prepare_file_rejects_malformed_media_type() {
    let v = video("abc123", Some("t"));
    let var = variant("/media/1.mp4", "mp4");
    assert!(matches!(prepare_file(&v, &var, Some(10)), Err(DownloadError::MalformedMediaType)));
}

#[test]
fn prepare_file_names_the_file_and_keeps_the_size() {
    let v = video("abc123", Some("Intro/Part 1"));
    let var = variant("/media/1.mp4", "video/mp4");
    let plan = prepare_file(&v, &var, Some(4096)).unwrap();
    assert_eq!(plan.file_name, "Intro - Part 1.mp4");
    assert_eq!(plan.total_size, 4096);
}

#[test]
fn transfer_counts_written_bytes() {
    let mut t = transfer_start(100);
    assert_eq!(t.written, 0);
    assert_eq!(t.total, 100);
    record_chunk(&mut t, 30);
    record_chunk(&mut t, 20);
    assert_eq!(t.written, 50);
    assert_eq!(t.total, 100);
}

#[test]
fn videos_keep_server_order() {
    let records = vec![
        ("id1".to_string(), Some("t1".to_string())),
        ("id2".to_string(), None),
        ("id3".to_string(), Some("t3".to_string())),
    ];
    let videos = videos_from_records(records);
    assert_eq!(videos.len(), 3);
    assert_eq!(videos[0].id, "id1");
    assert_eq!(videos[0].title, Some("t1".to_string()));
    assert_eq!(videos[1].id, "id2");
    assert_eq!(videos[1].title, None);
    assert_eq!(videos[2].id, "id3");
    assert_eq!(videos[2].title, Some("t3".to_string()));
}

#[test]
fn batch_reports_the_failing_video_and_exits_nonzero() {
    let a = video("a", Some("A"));
    let b = video("b", Some("B"));
    let c = video("c", Some("C"));
    let mut batch = batch_new(3);
    record_result(&mut batch, a, Ok(()));
    record_result(&mut batch, b, Err(DownloadError::NoVariant));
    record_result(&mut batch, c, Ok(()));
    assert_eq!(batch.completed, 3);
    assert_eq!(failed_display_names(&batch), vec!["B".to_string()]);
    assert_eq!(exit_code(&batch), 1);
}

#[test]
fn batch_with_all_successes_exits_zero() {
    let a = video("a", Some("A"));
    let b = video("b", None);
    let mut batch = batch_new(2);
    record_result(&mut batch, a, Ok(()));
    record_result(&mut batch, b, Ok(()));
    assert_eq!(batch.completed, 2);
    assert!(failed_display_names(&batch).is_empty());
    assert_eq!(exit_code(&batch), 0);
}

#[test]
fn batch_keeps_failure_order() {
    let mut batch = batch_new(3);
    record_result(&mut batch, video("a", Some("A")), Err(DownloadError::Transfer));
    record_result(&mut batch, video("b", None), Err(DownloadError::FileCreate));
    record_result(&mut batch, video("c", Some("C")), Ok(()));
    assert_eq!(failed_display_names(&batch), vec!["A".to_string(), "b".to_string()]);
    assert_eq!(exit_code(&batch), 1);
}

#[test]
fn endpoints_match_the_platform_api() {
    assert_eq!(
        channel_videos_url("chan9"),
        "https://tube.switch.ch/api/v1/browse/channels/chan9/videos"
    );
    assert_eq!(
        variants_url("vid7"),
        "https://tube.switch.ch/api/v1/browse/videos/vid7/video_variants"
    );
    assert_eq!(media_url("/media/file.mp4"), "https://tube.switch.ch/media/file.mp4");
}

#[test]
fn dispatch_finds_the_channel_id() {
    let segments = Some(vec!["channels".to_string(), "chan9".to_string()]);
    match dispatch_segments(segments) {
        Dispatch::Channel(id) => assert_eq!(id, "chan9"),
        Dispatch::NotSupported => panic!("expected a channel"),
    }
}

#[test]
fn dispatch_ignores_trailing_segments() {
    let segments = Some(vec!["channels".to_string(), "chan9".to_string(), "extra".to_string()]);
    match dispatch_segments(segments) {
        Dispatch::Channel(id) => assert_eq!(id, "chan9"),
        Dispatch::NotSupported => panic!("expected a channel"),
    }
}

#[test]
fn dispatch_rejects_other_first_segments() {
    let segments = Some(vec!["videos".to_string(), "vid7".to_string()]);
    assert!(matches!(dispatch_segments(segments), Dispatch::NotSupported));
}

#[test]
fn dispatch_rejects_a_lone_channels_segment() {
    let segments = Some(vec!["channels".to_string()]);
    assert!(matches!(dispatch_segments(segments), Dispatch::NotSupported));
    assert!(matches!(dispatch_segments(None), Dispatch::NotSupported));
}

#[test]
fn dispatch_url_reads_the_path() {
    let u = url::Url::parse("https://tube.switch.ch/channels/chan9").unwrap();
    match dispatch_url(&u) {
        Dispatch::Channel(id) => assert_eq!(id, "chan9"),
        Dispatch::NotSupported => panic!("expected a channel"),
    }
    let u = url::Url::parse("https://tube.switch.ch/videos/vid7").unwrap();
    assert!(matches!(dispatch_url(&u), Dispatch::NotSupported));
    let u = url::Url::parse("data:text/plain,HelloWorld").unwrap();
    assert!(matches!(dispatch_url(&u), Dispatch::NotSupported));
}
