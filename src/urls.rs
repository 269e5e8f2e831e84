//! Request and watch URLs of the video platform.

use vstd::prelude::*;

verus! {

/// The address of the channel lookup, which maps a user name to channel ids.
pub open spec fn user_search_url(api_key: Seq<char>, channel: Seq<char>) -> Seq<char> {
    "https://www.googleapis.com/youtube/v3/channels?key="@ + api_key + "&forUsername="@ + channel
        + "&part=id"@
}

/// The address of the search for live videos of one channel.
pub open spec fn video_search_url(api_key: Seq<char>, user_id: Seq<char>) -> Seq<char> {
    "https://www.googleapis.com/youtube/v3/search?part=snippet&channelId="@ + user_id
        + "&type=video&eventType=live&key="@ + api_key
}

/// The watch address of a video, as handed to the recorder.
pub open spec fn watch_url(video_id: Seq<char>) -> Seq<char> {
    "https://www.youtube.com/watch?v="@ + video_id
}

/// Builds the channel lookup address for `channel`.
pub fn user_search(api_key: &String, channel: &String) -> (r: String)
    ensures
        r@ == user_search_url(api_key@, channel@),
{
    let mut s = String::from_str("https://www.googleapis.com/youtube/v3/channels?key=");
    s.append(api_key.as_str());
    s.append("&forUsername=");
    s.append(channel.as_str());
    s.append("&part=id");
    s
}

/// Builds the address of the live search within the channel `user_id`.
pub fn video_search(api_key: &String, user_id: &String) -> (r: String)
    ensures
        r@ == video_search_url(api_key@, user_id@),
{
    let mut s = String::from_str("https://www.googleapis.com/youtube/v3/search?part=snippet&channelId=");
    s.append(user_id.as_str());
    s.append("&type=video&eventType=live&key=");
    s.append(api_key.as_str());
    s
}

/// Builds the watch address of `video_id`.
pub fn youtube_live_link(video_id: &String) -> (r: String)
    ensures
        r@ == watch_url(video_id@),
{
    let mut s = String::from_str("https://www.youtube.com/watch?v=");
    s.append(video_id.as_str());
    s
}

} // verus!
