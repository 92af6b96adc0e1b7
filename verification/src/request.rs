//! The addresses of the three lookups and the list of video ids between
//! them.

use vstd::prelude::*;

verus! {

/// The name of the query parameter that carries the channel identifier:
/// `id` for a channel id, `forUsername` for a legacy user name.
pub open spec fn identifier_param_text(use_id: bool) -> Seq<char> {
    if use_id {
        "id"@
    } else {
        "forUsername"@
    }
}

/// The address of the channel statistics lookup.
pub open spec fn channel_stats_url_text(
    identifier: Seq<char>,
    api_key: Seq<char>,
    use_id: bool,
) -> Seq<char> {
    "https://www.googleapis.com/youtube/v3/channels?part=statistics&"@ + identifier_param_text(
        use_id,
    ) + "="@ + identifier + "&key="@ + api_key
}

/// The address of the search for a channel's twenty newest videos.
pub open spec fn search_url_text(identifier: Seq<char>, api_key: Seq<char>) -> Seq<char> {
    "https://www.googleapis.com/youtube/v3/search?key="@ + api_key + "&channelId="@ + identifier
        + "&part=snippet,id&order=date&maxResults=20"@
}

/// The address of the details lookup for the videos `joined_ids`.
pub open spec fn video_details_url_text(api_key: Seq<char>, joined_ids: Seq<char>) -> Seq<char> {
    "https://www.googleapis.com/youtube/v3/videos?key="@ + api_key + "&id="@ + joined_ids
        + "&part=statistics,snippet"@
}

/// The text of the id of a search hit, where it has one.
pub open spec fn hit_id(hit: Option<String>) -> Option<Seq<char>> {
    match hit {
        Some(id) => Some(id@),
        None => None,
    }
}

/// The ids that are present in `hits`, in the same order.
pub open spec fn present_ids(hits: Seq<Option<String>>) -> Seq<Seq<char>> {
    hits.filter_map(|hit: Option<String>| hit_id(hit))
}

/// The texts of `ids`, in the same order.
pub open spec fn id_texts(ids: Seq<String>) -> Seq<Seq<char>> {
    ids.map_values(|id: String| id@)
}

/// The ids written one after another with a comma between neighbours.
pub open spec fn comma_joined(ids: Seq<Seq<char>>) -> Seq<char>
    decreases ids.len(),
{
    if ids.len() == 0 {
        seq![]
    } else if ids.len() == 1 {
        ids[0]
    } else {
        comma_joined(ids.drop_last()) + ","@ + ids.last()
    }
}

/// The name of the query parameter that carries the channel identifier.
pub fn identifier_param(use_id: bool) -> (r: &'static str)
    ensures
        r@ == identifier_param_text(use_id),
{
    if use_id {
        "id"
    } else {
        "forUsername"
    }
}

/// The address of the channel statistics lookup for `identifier`, which is a
/// channel id where `use_id` holds and a legacy user name where it does not.
pub fn channel_stats_url(identifier: &str, api_key: &str, use_id: bool) -> (r: String)
    ensures
        r@ == channel_stats_url_text(identifier@, api_key@, use_id),
{
    let mut url = String::from_str(
        "https://www.googleapis.com/youtube/v3/channels?part=statistics&",
    );
    url.append(identifier_param(use_id));
    url.append("=");
    url.append(identifier);
    url.append("&key=");
    url.append(api_key);
    url
}

/// The address of the search for the twenty newest videos of the channel
/// with id `identifier`.
pub fn search_url(identifier: &str, api_key: &str) -> (r: String)
    ensures
        r@ == search_url_text(identifier@, api_key@),
{
    let mut url = String::from_str("https://www.googleapis.com/youtube/v3/search?key=");
    url.append(api_key);
    url.append("&channelId=");
    url.append(identifier);
    url.append("&part=snippet,id&order=date&maxResults=20");
    url
}

/// Keeps the video ids of the search hits that have one, in the order of
/// the hits.
pub fn collect_video_ids(hits: &Vec<Option<String>>) -> (r: Vec<String>)
    ensures
        id_texts(r@) == present_ids(hits@),
{
    let mut ids: Vec<String> = Vec::new();
    let mut i: usize = 0;
    proof {
        assert(hits@.take(0) =~= Seq::<Option<String>>::empty());
        assert(id_texts(ids@) =~= present_ids(hits@.take(0)));
    }
    while i < hits.len()
        invariant
            i <= hits.len(),
            id_texts(ids@) == present_ids(hits@.take(i as int)),
        decreases hits.len() - i,
    {
        let ghost before = ids@;
        proof {
            assert(hits@.take(i + 1).drop_last() =~= hits@.take(i as int));
            assert(hits@.take(i + 1).last() == hits@[i as int]);
        }
        match &hits[i] {
            Some(id) => {
                ids.push(id.clone());
                proof {
                    assert(id_texts(ids@) =~= id_texts(before) + seq![id@]);
                }
            },
            None => {},
        }
        i = i + 1;
    }
    proof {
        assert(hits@.take(i as int) =~= hits@);
    }
    ids
}

/// Writes `ids` one after another with a comma between neighbours.
pub fn join_ids(ids: &Vec<String>) -> (r: String)
    ensures
        r@ == comma_joined(id_texts(ids@)),
{
    let mut joined = String::new();
    let ghost texts = id_texts(ids@);
    let mut i: usize = 0;
    proof {
        assert(texts.take(0) =~= Seq::<Seq<char>>::empty());
    }
    while i < ids.len()
        invariant
            i <= ids.len(),
            texts == id_texts(ids@),
            joined@ == comma_joined(texts.take(i as int)),
        decreases ids.len() - i,
    {
        proof {
            assert(texts.take(i + 1).drop_last() =~= texts.take(i as int));
            assert(texts.take(i + 1).last() == ids@[i as int]@);
        }
        if i > 0 {
            joined.append(",");
        }
        joined.append(ids[i].as_str());
        proof {
            if i == 0 {
                assert(joined@ =~= texts.take(1)[0]);
            }
        }
        i = i + 1;
    }
    proof {
        assert(texts.take(i as int) =~= texts);
    }
    joined
}

/// The address of the details lookup for `ids`, all in one request. With no
/// id there is nothing to look up, and no address.
pub fn video_details_url(api_key: &str, ids: &Vec<String>) -> (r: Option<String>)
    ensures
        ids@.len() == 0 <==> r is None,
        r matches Some(url) ==> url@ == video_details_url_text(
            api_key@,
            comma_joined(id_texts(ids@)),
        ),
{
    if ids.len() == 0 {
        return None;
    }
    let joined = join_ids(ids);
    let mut url = String::from_str("https://www.googleapis.com/youtube/v3/videos?key=");
    url.append(api_key);
    url.append("&id=");
    url.append(joined.as_str());
    url.append("&part=statistics,snippet");
    Some(url)
}

} // verus!
