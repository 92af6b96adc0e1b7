//! The text of a report: the lines shown to the user and the entry that is
//! put at the head of the log.

use vstd::prelude::*;
use crate::channel::{counter_text, render_counter, ChannelStats};
use crate::decimal::{append_decimal, decimal_digits};
use crate::error::ReportError;
use crate::video::{Selection, VideoData, VideoView};

verus! {

/// `chrono::format::ParseError`, the error of `chrono`'s parsers. It is
/// carried from the parser to the caller and never looked into.
#[verifier::external_type_specification]
#[verifier::external_body]
pub struct ExParseError(chrono::format::ParseError);

/// The date and time of day that an RFC 3339 timestamp denotes, written as
/// `YYYY-MM-DD HH:MM:SS` in the timestamp's own offset, or `None` where
/// `chrono` does not read the text as an RFC 3339 timestamp.
pub uninterp spec fn rfc3339_display(timestamp: Seq<char>) -> Option<Seq<char>>;

/// `chrono::DateTime::parse_from_rfc3339`, followed on success by
/// `DateTime::format` with `%Y-%m-%d %H:%M:%S`. Trusted: the result is a
/// function of the text alone, named `rfc3339_display`; a parse error comes
/// back exactly where that name gives `None`.
#[verifier::external_body]
fn rfc3339_to_display(timestamp: &str) -> (r: Result<String, chrono::format::ParseError>)
    ensures
        match r {
            Ok(shown) => rfc3339_display(timestamp@) == Some(shown@),
            Err(_) => rfc3339_display(timestamp@) is None,
        },
{
    match chrono::DateTime::parse_from_rfc3339(timestamp) {
        Ok(moment) => Ok(moment.format("%Y-%m-%d %H:%M:%S").to_string()),
        Err(e) => Err(e),
    }
}

/// The three counter lines of a report.
pub open spec fn stats_text(stats: ChannelStats) -> Seq<char> {
    "View count: "@ + counter_text(stats.view_count) + "\nSubscriber count: "@ + counter_text(
        stats.subscriber_count,
    ) + "\nVideo count: "@ + counter_text(stats.video_count) + "\n"@
}

/// The line shown for one chosen video.
pub open spec fn video_summary_text(
    label: Seq<char>,
    video: VideoView,
    published: Seq<char>,
) -> Seq<char> {
    label + ": "@ + video.title + ", (Published: "@ + published + ", Views: "@ + decimal_digits(
        video.view_count,
    ) + ")"@
}

/// One log entry: the time it was written, the counters, the most-viewed
/// video with its views and the latest video with its publish time.
pub open spec fn log_entry_text(
    date: Seq<char>,
    stats: ChannelStats,
    most_viewed: VideoView,
    latest: VideoView,
    latest_published: Seq<char>,
) -> Seq<char> {
    "["@ + date + "]\n"@ + stats_text(stats) + " Most Viewed Video: "@ + most_viewed.title + " ("@
        + decimal_digits(most_viewed.view_count) + " views)\n Lastest Video: "@ + latest.title
        + " (published: "@ + latest_published + ")\n\n"@
}

/// Appends the three counter lines of a report to `out`.
fn append_stats(out: &mut String, stats: &ChannelStats)
    ensures
        final(out)@ == old(out)@ + stats_text(*stats),
{
    let views = render_counter(stats.view_count);
    let subscribers = render_counter(stats.subscriber_count);
    let videos = render_counter(stats.video_count);
    out.append("View count: ");
    out.append(views.as_str());
    out.append("\nSubscriber count: ");
    out.append(subscribers.as_str());
    out.append("\nVideo count: ");
    out.append(videos.as_str());
    out.append("\n");
    assert(final(out)@ =~= old(out)@ + stats_text(*stats));
}

/// The three counter lines of a report, `N/A` standing for an absent
/// counter.
pub fn stats_summary(stats: &ChannelStats) -> (r: String)
    ensures
        r@ == stats_text(*stats),
{
    let mut out = String::new();
    append_stats(&mut out, stats);
    assert(out@ =~= stats_text(*stats));
    out
}

/// The line shown for one chosen video, `published` being its publish time
/// as it is to be shown.
pub fn video_summary(label: &str, video: &VideoData, published: &str) -> (r: String)
    ensures
        r@ == video_summary_text(label@, video@, published@),
{
    let mut out = String::from_str(label);
    out.append(": ");
    out.append(video.title.as_str());
    out.append(", (Published: ");
    out.append(published);
    out.append(", Views: ");
    append_decimal(&mut out, video.view_count);
    out.append(")");
    assert(out@ =~= video_summary_text(label@, video@, published@));
    out
}

/// One log entry, written at `date`, `latest_published` being the publish
/// time of the latest video as it is to be shown.
pub fn log_entry(
    date: &str,
    stats: &ChannelStats,
    selection: &Selection,
    latest_published: &str,
) -> (r: String)
    ensures
        r@ == log_entry_text(
            date@,
            *stats,
            selection.most_viewed@,
            selection.latest@,
            latest_published@,
        ),
{
    let mut out = String::from_str("[");
    out.append(date);
    out.append("]\n");
    append_stats(&mut out, stats);
    out.append(" Most Viewed Video: ");
    out.append(selection.most_viewed.title.as_str());
    out.append(" (");
    append_decimal(&mut out, selection.most_viewed.view_count);
    out.append(" views)\n Lastest Video: ");
    out.append(selection.latest.title.as_str());
    out.append(" (published: ");
    out.append(latest_published);
    out.append(")\n\n");
    assert(out@ =~= log_entry_text(
        date@,
        *stats,
        selection.most_viewed@,
        selection.latest@,
        latest_published@,
    ));
    out
}

/// The publish time `timestamp`, an RFC 3339 timestamp, as it is shown in a
/// report. Text that is no such timestamp is a bad timestamp.
pub fn display_timestamp(timestamp: &str) -> (r: Result<String, ReportError>)
    ensures
        match rfc3339_display(timestamp@) {
            Some(shown) => r matches Ok(text) && text@ == shown,
            None => r == Err::<String, ReportError>(ReportError::BadTimestamp),
        },
{
    match rfc3339_to_display(timestamp) {
        Ok(text) => Ok(text),
        Err(_) => Err(ReportError::BadTimestamp),
    }
}

/// The log after a report written at `date`: the new entry, then all of
/// `existing`. With logging switched off the log is left alone and there is
/// no new content, whatever the report holds.
pub fn log_update(
    enabled: bool,
    date: &str,
    stats: &ChannelStats,
    selection: &Selection,
    existing: &str,
) -> (r: Result<Option<String>, ReportError>)
    ensures
        !enabled ==> r == Ok::<Option<String>, ReportError>(None),
        enabled ==> match rfc3339_display(selection.latest.published_at@) {
            Some(shown) => r matches Ok(Some(content)) && content@ == log_entry_text(
                date@,
                *stats,
                selection.most_viewed@,
                selection.latest@,
                shown,
            ) + existing@,
            None => r == Err::<Option<String>, ReportError>(ReportError::BadTimestamp),
        },
{
    if !enabled {
        return Ok(None);
    }
    match display_timestamp(selection.latest.published_at.as_str()) {
        Ok(shown) => {
            let mut content = log_entry(date, stats, selection, shown.as_str());
            content.append(existing);
            Ok(Some(content))
        },
        Err(e) => Err(e),
    }
}

} // verus!
