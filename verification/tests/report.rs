use channel_report::channel::ChannelStats;
use channel_report::error::ReportError;
use channel_report::report::{
    display_timestamp, log_entry, log_update, video_summary,
};
use channel_report::video::{Selection, VideoData};

fn video(id: &str, title: &str, views: u64, published: &str) -> VideoData {
    VideoData {
        id: id.to_string(),
        view_count: views,
        published_at: published.to_string(),
        title: title.to_string(),
    }
}

fn sample() -> (ChannelStats, Selection) {
    let stats = ChannelStats { view_count: Some(1000), subscriber_count: None, video_count: Some(3) };
    let selection = Selection {
        latest: video("n", "Newest", 12, "2024-03-04T05:06:07Z"),
        most_viewed: video("m", "Biggest", 900, "2021-01-01T00:00:00Z"),
    };
    (stats, selection)
}

const ENTRY: &str = "[2024-05-05 10:00:00]\nView count: 1000\nSubscriber count: N/A\nVideo count: 3\n Most Viewed Video: Biggest (900 views)\n Lastest Video: Newest (published: 2024-03-04 05:06:07)\n\n";

#[test]
fn timestamp_is_shown_as_date_and_time() {
    assert_eq!(display_timestamp("2023-05-06T07:08:09Z").unwrap(), "2023-05-06 07:08:09");
    assert_eq!(display_timestamp("2023-05-06T07:08:09.250Z").unwrap(), "2023-05-06 07:08:09");
}

#[test]
fn timestamp_keeps_its_own_offset() {
    assert_eq!(display_timestamp("1996-12-19T16:39:57-08:00").unwrap(), "1996-12-19 16:39:57");
}

#[test]
fn bad_timestamp_is_reported() {
    assert_eq!(display_timestamp("yesterday").unwrap_err(), ReportError::BadTimestamp);
    assert_eq!(display_timestamp("").unwrap_err(), ReportError::BadTimestamp);
    assert_eq!(display_timestamp("2023-05-06 07:08:09").unwrap_err(), ReportError::BadTimestamp);
    assert_eq!(ReportError::BadTimestamp.message(), "Invalid publish timestamp");
}

#[test]
fn video_line() {
    let v = video("m", "Biggest", 900, "2021-01-01T00:00:00Z");
    assert_eq!(
        video_summary("Most Viewed Video", &v, "2021-01-01 00:00:00"),
        "Most Viewed Video: Biggest, (Published: 2021-01-01 00:00:00, Views: 900)"
    );
}

#[test]
fn log_entry_format() {
    let (stats, selection) = sample();
    assert_eq!(log_entry("2024-05-05 10:00:00", &stats, &selection, "2024-03-04 05:06:07"), ENTRY);
}

#[test]
fn log_disabled_leaves_the_log_alone() {
    let (stats, selection) = sample();
    assert_eq!(log_update(false, "2024-05-05 10:00:00", &stats, &selection, "old"), Ok(None));
    let broken = Selection {
        latest: video("n", "Newest", 12, "not a time"),
        most_viewed: video("m", "Biggest", 900, "2021-01-01T00:00:00Z"),
    };
    assert_eq!(log_update(false, "2024-05-05 10:00:00", &stats, &broken, "old"), Ok(None));
}

#[test]
fn log_enabled_puts_the_entry_first() {
    let (stats, selection) = sample();
    let content = log_update(true, "2024-05-05 10:00:00", &stats, &selection, "older entries\n")
        .unwrap()
        .unwrap();
    assert_eq!(content, format!("{}older entries\n", ENTRY));
}

#[test]
fn log_enabled_with_bad_timestamp_fails() {
    let (stats, _) = sample();
    let broken = Selection {
        latest: video("n", "Newest", 12, "not a time"),
        most_viewed: video("m", "Biggest", 900, "2021-01-01T00:00:00Z"),
    };
    assert_eq!(
        log_update(true, "2024-05-05 10:00:00", &stats, &broken, "old"),
        Err(ReportError::BadTimestamp)
    );
}
