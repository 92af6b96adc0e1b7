//! Video records and the choice of the most-viewed and the latest one.

use vstd::prelude::*;
use vstd::utf8::encode_utf8;
use crate::decimal::{decimal_value, parse_decimal};
use crate::error::ReportError;
use crate::order::{
    bytes_less, lemma_lex_asymmetric, lemma_lex_connected, lemma_lex_irreflexive,
    lemma_lex_transitive, lex_less,
};

verus! {

/// One video of a channel.
#[derive(Debug)]
pub struct VideoData {
    pub id: String,
    pub view_count: u64,
    pub published_at: String,
    pub title: String,
}

/// What a video record stands for.
pub struct VideoView {
    pub id: Seq<char>,
    pub view_count: nat,
    pub published_at: Seq<char>,
    pub title: Seq<char>,
}

impl View for VideoData {
    type V = VideoView;

    open spec fn view(&self) -> VideoView {
        VideoView {
            id: self.id@,
            view_count: self.view_count as nat,
            published_at: self.published_at@,
            title: self.title@,
        }
    }
}

impl Clone for VideoData {
    fn clone(&self) -> (r: Self)
        ensures
            r == *self,
    {
        VideoData {
            id: self.id.clone(),
            view_count: self.view_count,
            published_at: self.published_at.clone(),
            title: self.title.clone(),
        }
    }
}

/// The view count that the text `shown` denotes: its decimal value, or zero
/// where the text is no number.
pub open spec fn view_count_value(shown: Seq<char>) -> nat {
    match decimal_value(shown) {
        Some(n) => n as nat,
        None => 0,
    }
}

impl VideoData {
    /// The record of one video from the fields of its details: the view
    /// count arrives as decimal text, and text that is no number counts as
    /// zero views.
    pub fn from_detail(
        id: String,
        title: String,
        published_at: String,
        view_count: &str,
    ) -> (r: VideoData)
        ensures
            r@ == (VideoView {
                id: id@,
                view_count: view_count_value(view_count@),
                published_at: published_at@,
                title: title@,
            }),
    {
        let views: u64 = match parse_decimal(view_count) {
            Some(n) => n,
            None => 0,
        };
        VideoData { id, view_count: views, published_at, title }
    }
}

/// The two videos chosen from a channel's recent uploads.
#[derive(Debug)]
pub struct Selection {
    pub latest: VideoData,
    pub most_viewed: VideoData,
}

/// The views of a list of records, in the same order.
pub open spec fn detail_views(details: Seq<VideoData>) -> Seq<VideoView> {
    details.map_values(|v: VideoData| v@)
}

/// `a` was published strictly before `b`: its timestamp comes first when the
/// two are compared byte by byte.
pub open spec fn published_before(a: VideoView, b: VideoView) -> bool {
    lex_less(encode_utf8(a.published_at), encode_utf8(b.published_at))
}

/// The position of the most-viewed record: scanning from the left, a record
/// replaces the running choice only when it has strictly more views.
pub open spec fn most_viewed_index(s: Seq<VideoView>) -> int
    decreases s.len(),
{
    if s.len() <= 1 {
        0
    } else {
        let p = most_viewed_index(s.drop_last());
        if s.last().view_count > s[p].view_count {
            s.len() - 1
        } else {
            p
        }
    }
}

/// The position of the latest record: scanning from the left, a record
/// replaces the running choice only when it was published strictly later.
pub open spec fn latest_index(s: Seq<VideoView>) -> int
    decreases s.len(),
{
    if s.len() <= 1 {
        0
    } else {
        let p = latest_index(s.drop_last());
        if published_before(s[p], s.last()) {
            s.len() - 1
        } else {
            p
        }
    }
}

/// Position `i` holds a record with at least as many views as every
/// record of `s`, and strictly more than every record that stands before it.
pub open spec fn is_first_most_viewed(s: Seq<VideoView>, i: int) -> bool {
    &&& 0 <= i < s.len()
    &&& forall|j: int| 0 <= j < s.len() ==> (#[trigger] s[j]).view_count <= s[i].view_count
    &&& forall|j: int| 0 <= j < i ==> (#[trigger] s[j]).view_count < s[i].view_count
}

/// Position `i` holds a record after which no record of `s` was published,
/// and every record that stands before it was published strictly earlier.
pub open spec fn is_first_latest(s: Seq<VideoView>, i: int) -> bool {
    &&& 0 <= i < s.len()
    &&& forall|j: int| 0 <= j < s.len() ==> !published_before(s[i], #[trigger] s[j])
    &&& forall|j: int| 0 <= j < i ==> published_before(#[trigger] s[j], s[i])
}

/// The most-viewed record has at least as many views as every record, and
/// where several records reach that count it is the first of them.
pub proof fn lemma_most_viewed_is_first_maximum(s: Seq<VideoView>)
    requires
        s.len() > 0,
    ensures
        is_first_most_viewed(s, most_viewed_index(s)),
    decreases s.len(),
{
    if s.len() > 1 {
        let t = s.drop_last();
        lemma_most_viewed_is_first_maximum(t);
        assert forall|j: int| 0 <= j < s.len() - 1 implies (#[trigger] s[j]) == t[j] by {}
    }
}

/// Only one position holds the first record with the greatest view count.
pub proof fn lemma_first_most_viewed_is_unique(s: Seq<VideoView>, i: int)
    requires
        is_first_most_viewed(s, i),
    ensures
        i == most_viewed_index(s),
{
    lemma_most_viewed_is_first_maximum(s);
    let k = most_viewed_index(s);
    if i < k {
        assert(s[i].view_count < s[k].view_count);
        assert(s[k].view_count <= s[i].view_count);
    } else if k < i {
        assert(s[k].view_count < s[i].view_count);
        assert(s[i].view_count <= s[k].view_count);
    }
}

/// No record was published after the latest record, and where several
/// records carry that timestamp it is the first of them.
pub proof fn lemma_latest_is_first_maximum(s: Seq<VideoView>)
    requires
        s.len() > 0,
    ensures
        is_first_latest(s, latest_index(s)),
    decreases s.len(),
{
    if s.len() > 1 {
        let t = s.drop_last();
        lemma_latest_is_first_maximum(t);
        let p = latest_index(t);
        let last = encode_utf8(s.last().published_at);
        let best = encode_utf8(s[p].published_at);
        assert forall|j: int| 0 <= j < s.len() - 1 implies (#[trigger] s[j]) == t[j] by {}
        if published_before(s[p], s.last()) {
            assert forall|j: int| 0 <= j < s.len() - 1 implies published_before(
                #[trigger] s[j],
                s.last(),
            ) && !published_before(s.last(), s[j]) by {
                let cur = encode_utf8(s[j].published_at);
                assert(s[j] == t[j]);
                assert(!lex_less(best, cur));
                lemma_lex_connected(cur, best);
                if cur != best {
                    lemma_lex_transitive(cur, best, last);
                }
                lemma_lex_asymmetric(cur, last);
            }
            lemma_lex_irreflexive(last);
        }
    } else {
        lemma_lex_irreflexive(encode_utf8(s[0].published_at));
    }
}

/// Only one position holds the first record with the greatest timestamp.
pub proof fn lemma_first_latest_is_unique(s: Seq<VideoView>, i: int)
    requires
        is_first_latest(s, i),
    ensures
        i == latest_index(s),
{
    lemma_latest_is_first_maximum(s);
    let k = latest_index(s);
    if i < k {
        assert(published_before(s[i], s[k]));
        assert(!published_before(s[i], s[k]));
    } else if k < i {
        assert(published_before(s[k], s[i]));
        assert(!published_before(s[k], s[i]));
    }
}

/// With a single record, that record is both the most-viewed and the latest.
pub proof fn lemma_single_record_is_both(s: Seq<VideoView>)
    requires
        s.len() == 1,
    ensures
        most_viewed_index(s) == 0,
        latest_index(s) == 0,
{
}

/// Chooses the most recently published and the most-viewed record of
/// `details` in one pass. Among records that tie, the one that stands first
/// is chosen. An empty list has no choice.
pub fn select_videos(details: &Vec<VideoData>) -> (r: Result<Selection, ReportError>)
    ensures
        details@.len() == 0 <==> r is Err,
        r matches Err(e) ==> e == ReportError::NoVideosFound,
        r matches Ok(sel) ==> {
            let views = detail_views(details@);
            &&& sel.most_viewed@ == views[most_viewed_index(views)]
            &&& sel.latest@ == views[latest_index(views)]
            &&& is_first_most_viewed(views, most_viewed_index(views))
            &&& is_first_latest(views, latest_index(views))
        },
{
    if details.len() == 0 {
        return Err(ReportError::NoVideosFound);
    }
    let ghost views = detail_views(details@);
    let mut most_viewed: usize = 0;
    let mut latest: usize = 0;
    let mut i: usize = 1;
    while i < details.len()
        invariant
            1 <= i <= details.len(),
            views == detail_views(details@),
            most_viewed == most_viewed_index(views.take(i as int)),
            latest == latest_index(views.take(i as int)),
            most_viewed < i,
            latest < i,
        decreases details.len() - i,
    {
        proof {
            assert(views.take(i + 1).drop_last() =~= views.take(i as int));
        }
        if details[i].view_count > details[most_viewed].view_count {
            most_viewed = i;
        }
        if bytes_less(
            details[latest].published_at.as_str().as_bytes(),
            details[i].published_at.as_str().as_bytes(),
        ) {
            latest = i;
        }
        i = i + 1;
    }
    proof {
        assert(views.take(i as int) =~= views);
        lemma_most_viewed_is_first_maximum(views);
        lemma_latest_is_first_maximum(views);
    }
    Ok(Selection { latest: details[latest].clone(), most_viewed: details[most_viewed].clone() })
}

} // verus!
