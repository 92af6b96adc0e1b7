//! The aggregate counters of a channel.

use vstd::prelude::*;
use crate::decimal::{
    decimal_digits, decimal_value, is_digit, lemma_decimal_digits_value, lemma_decimal_round_trip,
    parse_decimal, render_decimal, unsigned_part,
};
use crate::error::ReportError;

verus! {

/// The statistics of one channel as the service sends them: each counter is
/// decimal text, or missing.
#[derive(Debug)]
pub struct StatisticsBlock {
    pub view_count: Option<String>,
    pub subscriber_count: Option<String>,
    pub video_count: Option<String>,
}

/// The counters of one channel. A counter that the service did not send, or
/// whose text is no number, is absent.
#[derive(Clone, Copy, Debug)]
pub struct ChannelStats {
    pub view_count: Option<u64>,
    pub subscriber_count: Option<u64>,
    pub video_count: Option<u64>,
}

/// The counter that a field of a statistics block denotes.
pub open spec fn counter_value(field: Option<String>) -> Option<u64> {
    match field {
        Some(text) => decimal_value(text@),
        None => None,
    }
}

/// The text shown for a counter: its decimal digits, or `N/A` where it is
/// absent.
pub open spec fn counter_text(counter: Option<u64>) -> Seq<char> {
    match counter {
        Some(n) => decimal_digits(n as nat),
        None => "N/A"@,
    }
}

/// Reads one field of a statistics block.
pub fn read_counter(field: &Option<String>) -> (r: Option<u64>)
    ensures
        r == counter_value(*field),
{
    match field {
        Some(text) => parse_decimal(text.as_str()),
        None => None,
    }
}

/// The text shown for a counter.
pub fn render_counter(counter: Option<u64>) -> (r: String)
    ensures
        r@ == counter_text(counter),
{
    match counter {
        Some(n) => render_decimal(n),
        None => String::from_str("N/A"),
    }
}

impl ChannelStats {
    /// The counters that a statistics block denotes.
    pub open spec fn of_block(block: StatisticsBlock) -> ChannelStats {
        ChannelStats {
            view_count: counter_value(block.view_count),
            subscriber_count: counter_value(block.subscriber_count),
            video_count: counter_value(block.video_count),
        }
    }

    /// Decodes a statistics block. A missing counter does not fail the
    /// decoding: it is absent in the result.
    pub fn from_block(block: &StatisticsBlock) -> (r: ChannelStats)
        ensures
            r == ChannelStats::of_block(*block),
    {
        ChannelStats {
            view_count: read_counter(&block.view_count),
            subscriber_count: read_counter(&block.subscriber_count),
            video_count: read_counter(&block.video_count),
        }
    }
}

/// The counters of the first channel that a lookup matched. A lookup that
/// matched no channel has none.
pub fn first_channel_stats(items: &Vec<StatisticsBlock>) -> (r: Result<ChannelStats, ReportError>)
    ensures
        items@.len() == 0 <==> r is Err,
        r matches Err(e) ==> e == ReportError::NoChannelFound,
        r matches Ok(stats) ==> stats == ChannelStats::of_block(items@[0]),
{
    if items.len() == 0 {
        Err(ReportError::NoChannelFound)
    } else {
        Ok(ChannelStats::from_block(&items[0]))
    }
}

/// `N/A` is shown for an absent counter and for no other.
pub proof fn lemma_not_available_only_when_absent(counter: Option<u64>)
    ensures
        counter_text(counter) == "N/A"@ <==> counter is None,
{
    reveal_strlit("N/A");
    if let Some(n) = counter {
        lemma_decimal_digits_value(n as nat);
        let shown = decimal_digits(n as nat);
        assert(is_digit(shown[0]));
        assert("N/A"@[0] == 'N');
    }
}

/// Reading the text shown for a counter gives the counter again, whether it
/// is present or absent.
pub proof fn lemma_counter_round_trip(counter: Option<u64>)
    ensures
        decimal_value(counter_text(counter)) == counter,
{
    match counter {
        Some(n) => {
            lemma_decimal_round_trip(n);
        },
        None => {
            reveal_strlit("N/A");
            let shown = "N/A"@;
            assert(shown[0] == 'N');
            assert(unsigned_part(shown) == shown);
            assert(!is_digit(shown[0]));
        },
    }
}

/// Showing every counter of a channel and reading the three texts back
/// gives the same counters.
pub proof fn lemma_stats_round_trip(stats: ChannelStats)
    ensures
        decimal_value(counter_text(stats.view_count)) == stats.view_count,
        decimal_value(counter_text(stats.subscriber_count)) == stats.subscriber_count,
        decimal_value(counter_text(stats.video_count)) == stats.video_count,
{
    lemma_counter_round_trip(stats.view_count);
    lemma_counter_round_trip(stats.subscriber_count);
    lemma_counter_round_trip(stats.video_count);
}

} // verus!
