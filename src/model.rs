//! The platform's responses, as the program hands them to the library.

use std::collections::HashMap;
use vstd::prelude::*;

verus! {

/// Paging figures of a response.
#[derive(Clone, Copy, Debug, PartialEq, Eq)]
pub struct PageInfo {
    pub total_results: i32,
    pub results_per_page: i32,
}

/// One channel found by the channel lookup.
#[derive(Clone, Debug)]
pub struct UserRespItem {
    pub kind: String,
    pub etag: String,
    pub id: String,
}

/// The body of the channel lookup.
#[derive(Clone, Debug)]
pub struct UserResponse {
    pub kind: String,
    pub etag: String,
    pub page_info: PageInfo,
    pub items: Vec<UserRespItem>,
}

/// A thumbnail image of a video.
#[derive(Clone, Debug)]
pub struct Thumbnail {
    pub url: String,
    pub width: i32,
    pub height: i32,
}

/// The descriptive part of a search result.
#[derive(Clone, Debug)]
pub struct Snippet {
    pub published_at: String,
    pub channel_id: String,
    pub title: String,
    pub description: String,
    pub thumbnails: HashMap<String, Thumbnail>,
    pub channel_title: String,
    pub live_broadcast_content: String,
    pub publish_time: String,
}

/// The identity of a search result.
#[derive(Clone, Debug)]
pub struct Id {
    pub kind: String,
    pub video_id: String,
}

/// One video found by the live search.
#[derive(Clone, Debug)]
pub struct Item {
    pub kind: String,
    pub etag: String,
    pub id: Id,
    pub snippet: Snippet,
}

/// The body of the live search.
#[derive(Clone, Debug)]
pub struct YoutubeSearchListResponse {
    pub kind: String,
    pub etag: String,
    pub page_info: PageInfo,
    pub items: Vec<Item>,
}

/// The broadcast a channel is airing, with what the logs show of it.
#[derive(Clone, Debug)]
pub struct LiveVideo {
    pub video_id: String,
    pub title: String,
    pub channel_id: String,
    pub channel_title: String,
    pub published_at: String,
}

} // verus!
