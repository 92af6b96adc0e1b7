use channel_report::error::ReportError;
use channel_report::order::bytes_less;
use channel_report::video::{select_videos, VideoData};

fn video(id: &str, views: u64, published: &str) -> VideoData {
    VideoData {
        id: id.to_string(),
        view_count: views,
        published_at: published.to_string(),
        title: format!("title of {}", id),
    }
}

#[test]
fn most_viewed_has_the_greatest_view_count() {
    let details = vec![
        video("a", 10, "2024-01-03T00:00:00Z"),
        video("b", 500, "2024-01-02T00:00:00Z"),
        video("c", 42, "2024-01-01T00:00:00Z"),
    ];
    let chosen = select_videos(&details).unwrap();
    assert_eq!(chosen.most_viewed.id, "b");
    assert_eq!(chosen.most_viewed.view_count, 500);
    assert_eq!(chosen.most_viewed.title, "title of b");
    assert_eq!(chosen.most_viewed.published_at, "2024-01-02T00:00:00Z");
    for d in &details {
        assert!(chosen.most_viewed.view_count >= d.view_count);
    }
}

#[test]
fn most_viewed_tie_keeps_the_first() {
    let details = vec![
        video("a", 7, "2024-01-03T00:00:00Z"),
        video("b", 99, "2024-01-02T00:00:00Z"),
        video("c", 99, "2024-01-01T00:00:00Z"),
        video("d", 99, "2023-12-01T00:00:00Z"),
    ];
    let chosen = select_videos(&details).unwrap();
    assert_eq!(chosen.most_viewed.id, "b");
}

#[test]
fn latest_has_the_greatest_timestamp() {
    let details = vec![
        video("a", 1, "2023-11-30T23:59:59Z"),
        video("b", 2, "2024-02-01T00:00:00Z"),
        video("c", 3, "2024-01-31T12:00:00Z"),
    ];
    let chosen = select_videos(&details).unwrap();
    assert_eq!(chosen.latest.id, "b");
    assert_eq!(chosen.latest.published_at, "2024-02-01T00:00:00Z");
    for d in &details {
        assert!(chosen.latest.published_at >= d.published_at);
    }
}

#[test]
fn latest_tie_keeps_the_first() {
    let details = vec![
        video("a", 1, "2024-02-01T00:00:00Z"),
        video("b", 2, "2024-02-01T00:00:00Z"),
        video("c", 3, "2024-01-01T00:00:00Z"),
    ];
    let chosen = select_videos(&details).unwrap();
    assert_eq!(chosen.latest.id, "a");
    assert_eq!(chosen.most_viewed.id, "c");
}

#[test]
fn latest_and_most_viewed_may_differ() {
    let details = vec![
        video("new", 3, "2024-03-01T00:00:00Z"),
        video("old", 1000, "2020-03-01T00:00:00Z"),
    ];
    let chosen = select_videos(&details).unwrap();
    assert_eq!(chosen.latest.id, "new");
    assert_eq!(chosen.most_viewed.id, "old");
}

#[test]
fn single_video_is_both_selections() {
    let details = vec![video("only", 0, "2024-01-01T00:00:00Z")];
    let chosen = select_videos(&details).unwrap();
    assert_eq!(chosen.latest.id, "only");
    assert_eq!(chosen.most_viewed.id, "only");
    assert_eq!(chosen.most_viewed.view_count, 0);
}

#[test]
fn empty_list_has_no_selection() {
    let details: Vec<VideoData> = Vec::new();
    let outcome = select_videos(&details);
    assert_eq!(outcome.unwrap_err(), ReportError::NoVideosFound);
    assert_eq!(ReportError::NoVideosFound.message(), "No videos found");
}

#[test]
fn timestamps_compare_as_bytes() {
    let details = vec![
        video("short", 1, "2024-01-01T00:00:00"),
        video("long", 1, "2024-01-01T00:00:00Z"),
        video("accent", 1, "2024-01-01T00:00:00\u{e9}"),
    ];
    let chosen = select_videos(&details).unwrap();
    assert_eq!(chosen.latest.id, "accent");
}

#[test]
fn byte_order_is_lexicographic() {
    assert!(bytes_less(b"abc", b"abd"));
    assert!(bytes_less(b"ab", b"abc"));
    assert!(bytes_less(b"", b"a"));
    assert!(!bytes_less(b"abc", b"abc"));
    assert!(!bytes_less(b"abd", b"abc"));
    assert!(!bytes_less(b"b", b"abc"));
    assert!(!bytes_less(b"", b""));
    assert!(bytes_less(b"a", b"\xff"));
}

#[test]
fn detail_view_count_is_read_from_text() {
    let v = VideoData::from_detail(
        "id1".to_string(),
        "A title".to_string(),
        "2024-01-01T00:00:00Z".to_string(),
        "12345",
    );
    assert_eq!(v.id, "id1");
    assert_eq!(v.title, "A title");
    assert_eq!(v.published_at, "2024-01-01T00:00:00Z");
    assert_eq!(v.view_count, 12345);
}

#[test]
fn detail_view_count_defaults_to_zero() {
    for text in ["", "abc", "12a", "-1", " 5", "1_000", "18446744073709551616", "+"] {
        let v = VideoData::from_detail(String::new(), String::new(), String::new(), text);
        assert_eq!(v.view_count, 0, "text {:?}", text);
    }
}

#[test]
fn cloned_video_keeps_its_fields() {
    let v = video("a", 9, "2024-01-01T00:00:00Z");
    let w = v.clone();
    assert_eq!(w.id, v.id);
    assert_eq!(w.view_count, v.view_count);
    assert_eq!(w.published_at, v.published_at);
    assert_eq!(w.title, v.title);
}

#[test]
fn byte_order_agrees_with_string_order() {
    let words = ["", "a", "ab", "abc", "b", "2024-01-01T00:00:00Z", "2024-01-01T00:00:01Z",
        "2023-12-31T23:59:59Z", "\u{e9}", "z", "\u{10348}", "\u{ffff}"];
    for a in words {
        for b in words {
            assert_eq!(bytes_less(a.as_bytes(), b.as_bytes()), a < b, "{:?} {:?}", a, b);
        }
    }
}
