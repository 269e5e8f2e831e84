//! Reading channel ids and live status out of the platform's responses.

use crate::model::{Item, LiveVideo, UserRespItem, UserResponse, YoutubeSearchListResponse};
use vstd::prelude::*;

verus! {

/// Why a tick could not learn the channel's live status.
#[derive(Clone, Copy, Debug, PartialEq, Eq)]
pub enum DetectError {
    /// The channel lookup found no channel of that name.
    ChannelNotFound,
}

/// The channel id that a lookup's results give: the first result's id.
pub open spec fn channel_id_of(items: Seq<UserRespItem>) -> Option<String> {
    if items.len() == 0 {
        None
    } else {
        Some(items[0].id)
    }
}

/// What the logs and the recorder need of one search result.
pub open spec fn live_video_of_item(item: Item) -> LiveVideo {
    LiveVideo {
        video_id: item.id.video_id,
        title: item.snippet.title,
        channel_id: item.snippet.channel_id,
        channel_title: item.snippet.channel_title,
        published_at: item.snippet.published_at,
    }
}

/// The live broadcast that a search's results give: none for no results,
/// else the first result.
pub open spec fn live_video_of(items: Seq<Item>) -> Option<LiveVideo> {
    if items.len() == 0 {
        None
    } else {
        Some(live_video_of_item(items[0]))
    }
}

/// Resolves the channel id from the body of the channel lookup.
pub fn resolve_channel_id(user: &UserResponse) -> (r: Result<String, DetectError>)
    ensures
        r is Err <==> user.items@.len() == 0,
        r is Err ==> r == Err::<String, DetectError>(DetectError::ChannelNotFound),
        r is Ok ==> Some(r->Ok_0) == channel_id_of(user.items@),
{
    if user.items.len() == 0 {
        Err(DetectError::ChannelNotFound)
    } else {
        Ok(user.items[0].id.clone())
    }
}

/// Reads the live broadcast, if any, from the body of the live search.
pub fn live_video(search: &YoutubeSearchListResponse) -> (r: Option<LiveVideo>)
    ensures
        r == live_video_of(search.items@),
{
    if search.items.len() == 0 {
        None
    } else {
        let item = &search.items[0];
        Some(
            LiveVideo {
                video_id: item.id.video_id.clone(),
                title: item.snippet.title.clone(),
                channel_id: item.snippet.channel_id.clone(),
                channel_title: item.snippet.channel_title.clone(),
                published_at: item.snippet.published_at.clone(),
            },
        )
    }
}

/// Detecting twice on unchanged responses gives the same broadcast: what
/// detection returns depends on the lookup's and the search's results alone.
pub proof fn lemma_detection_repeatable(
    users1: Seq<UserRespItem>,
    users2: Seq<UserRespItem>,
    items1: Seq<Item>,
    items2: Seq<Item>,
)
    requires
        users1 == users2,
        items1 == items2,
    ensures
        channel_id_of(users1) == channel_id_of(users2),
        live_video_of(items1) == live_video_of(items2),
{
}

/// An empty search result means the channel is not live, which is no error.
pub proof fn lemma_empty_search_not_live(items: Seq<Item>)
    requires
        items.len() == 0,
    ensures
        live_video_of(items) == None::<LiveVideo>,
{
}

} // verus!
