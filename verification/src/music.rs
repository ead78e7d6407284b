//! The rules of the music commands: telling single videos from playlists,
//! queueing announcements and the texts posted about songs.

use vstd::prelude::*;
use vstd::string::*;
use crate::pattern::{regex_finds, regex_finds_of};

verus! {

/// A video as the player queues it: its id, its title and its length
/// (whole seconds and the nanoseconds beyond them).
#[derive(Debug)]
pub struct Video {
    pub id: String,
    pub title: String,
    pub duration_secs: u64,
    pub duration_nanos: u32,
}

/// A page of results of the video search API.
#[allow(non_snake_case)]
#[derive(Debug)]
pub struct ResponseVideoApi {
    pub kind: String,
    pub etag: String,
    pub nextPageToken: String,
    pub regionCode: String,
    pub pageInfo: PageInfo,
    pub items: Vec<Item>,
}

/// How many results the search found and how many a page holds.
#[allow(non_snake_case)]
#[derive(Clone, Copy, Debug)]
pub struct PageInfo {
    pub totalResults: u32,
    pub resultsPerPage: u8,
}

/// One search result.
#[derive(Debug)]
pub struct Item {
    pub kind: String,
    pub etag: String,
    pub id: ItemId,
}

/// The id of one search result.
#[allow(non_snake_case)]
#[derive(Debug)]
pub struct ItemId {
    pub kind: String,
    pub videoId: String,
}

/// The pattern of a playlist id (or a mix) inside a URL.
pub const PLAYLIST_PATTERN: &'static str = r"(?:(?:PL|LL|EC|UU|FL|RD|UL|TL|PU|OLAK5uy_)[0-9A-Za-z-_]{10,}|RDMM)";

/// Whether looking for a playlist id in `url` can be done: the pattern compiles.
pub open spec fn playlist_pattern_usable(url: Seq<char>) -> bool {
    regex_finds_of(PLAYLIST_PATTERN@, url) is Some
}

/// Whether `url` names a single video: no playlist id occurs in it.
pub open spec fn single_video_url(url: Seq<char>) -> bool {
    !regex_finds_of(PLAYLIST_PATTERN@, url).unwrap()
}

/// A URL names a single video exactly when the playlist pattern finds no match
/// in it, whatever else the URL holds.
pub proof fn law_single_video_iff_no_playlist_match(url: Seq<char>)
    requires
        playlist_pattern_usable(url),
    ensures
        regex_finds_of(PLAYLIST_PATTERN@, url) == Some(true) ==> !single_video_url(url),
        regex_finds_of(PLAYLIST_PATTERN@, url) == Some(false) ==> single_video_url(url),
{
}

/// Whether `url` names a single video rather than a playlist.
pub fn is_single_video(url: &str) -> (b: bool)
    requires
        playlist_pattern_usable(url@),
    ensures
        b == single_video_url(url@),
{
    match regex_finds(PLAYLIST_PATTERN, url) {
        Some(found) => !found,
        None => true,
    }
}

/// Whether `url` names a single video, `None` when the pattern cannot be used.
pub fn checked_is_single_video(url: &str) -> (r: Option<bool>)
    ensures
        r == (if playlist_pattern_usable(url@) {
            Some(single_video_url(url@))
        } else {
            None
        }),
{
    match regex_finds(PLAYLIST_PATTERN, url) {
        Some(_) => Some(is_single_video(url)),
        None => None,
    }
}

/// The title of the answer to `play`: a single video that joins a queue of at
/// least two is "Queued", anything else is "Playing".
pub open spec fn queue_title_text(single_video: bool, queue_len: nat) -> Seq<char> {
    if single_video && queue_len >= 2 {
        "Queued"@
    } else {
        "Playing"@
    }
}

/// The title of the answer to `play`.
pub fn queue_title(single_video: bool, queue_len: usize) -> (s: &'static str)
    ensures
        s@ == queue_title_text(single_video, queue_len as nat),
{
    if single_video && queue_len >= 2 {
        "Queued"
    } else {
        "Playing"
    }
}

/// Whether the start of the track at `index` of the `track_count` just queued
/// is announced: every one but the first, when more than one was queued.
pub fn announces_start(track_count: usize, index: usize) -> (b: bool)
    ensures
        b == (track_count >= 2 && index >= 1),
{
    track_count >= 2 && index >= 1
}

/// How long before its end a track is preloaded, in seconds.
pub const PRELOAD_LEAD_SECS: u64 = 15;

/// When, into the track, preloading of the next one starts: the length of the
/// video less the lead, as whole seconds and nanoseconds.
pub fn preload_offset(video: &Video) -> (r: (u64, u32))
    requires
        video.duration_secs >= PRELOAD_LEAD_SECS,
    ensures
        r.0 == video.duration_secs - PRELOAD_LEAD_SECS,
        r.1 == video.duration_nanos,
{
    (video.duration_secs - PRELOAD_LEAD_SECS, video.duration_nanos)
}

/// The link to a video.
pub open spec fn video_link_text(id: Seq<char>) -> Seq<char> {
    "https://youtu.be/"@ + id
}

/// `[title](link)` for a video.
pub open spec fn video_markdown_text(v: Video) -> Seq<char> {
    "["@ + v.title@ + "]("@ + video_link_text(v.id@) + ")"@
}

fn push_video_markdown(s: &mut String, v: &Video)
    ensures
        final(s)@ == old(s)@ + video_markdown_text(*v),
{
    s.append("[");
    s.append(v.title.as_str());
    s.append("](");
    s.append("https://youtu.be/");
    s.append(v.id.as_str());
    s.append(")");
}

/// The answer to `play`: its title, then the first video as a link.
pub open spec fn song_information_text(title: Seq<char>, v: Video) -> Seq<char> {
    title + " "@ + video_markdown_text(v)
}

/// The answer to `play`: its title, then the first video as a link.
pub fn song_information(title: &str, v: &Video) -> (s: String)
    ensures
        s@ == song_information_text(title@, *v),
{
    let mut s = String::from_str(title);
    s.append(" ");
    push_video_markdown(&mut s, v);
    s
}

/// What is posted when a queued song starts.
pub open spec fn now_playing_text(v: Video) -> Seq<char> {
    "Playing "@ + video_markdown_text(v)
}

/// What is posted when a queued song starts.
pub fn now_playing(v: &Video) -> (s: String)
    ensures
        s@ == now_playing_text(*v),
{
    let mut s = String::from_str("Playing ");
    push_video_markdown(&mut s, v);
    s
}

/// What is posted when a song ends.
pub open spec fn finished_text(v: Video) -> Seq<char> {
    v.title@ + " has finished."@
}

/// What is posted when a song ends.
pub fn finished(v: &Video) -> (s: String)
    ensures
        s@ == finished_text(*v),
{
    let mut s = String::from_str(v.title.as_str());
    s.append(" has finished.");
    s
}

/// What the watcher of an idle voice connection does next.
#[derive(Clone, Copy, Debug, PartialEq, Eq, Structural)]
pub enum IdleStep {
    /// Look again after this many seconds.
    Wait(u64),
    /// Leave the voice channel.
    Leave,
}

/// How long the watcher waits before looking at the queue again.
pub const IDLE_CHECK_SECS: u64 = 600;

/// What the watcher does on finding the queue empty or not: it leaves once
/// nothing is queued, and waits otherwise.
pub fn idle_step(queue_empty: bool) -> (s: IdleStep)
    ensures
        s == (if queue_empty {
            IdleStep::Leave
        } else {
            IdleStep::Wait(IDLE_CHECK_SECS)
        }),
{
    if queue_empty {
        IdleStep::Leave
    } else {
        IdleStep::Wait(IDLE_CHECK_SECS)
    }
}

/// The title and text of the answer to `leave`, by whether the bot was in a
/// voice channel.
pub fn leave_reply(was_connected: bool) -> (r: (&'static str, &'static str))
    ensures
        was_connected ==> r.0@ == "Left the channel"@ && r.1@ == "Leaving the current channel."@,
        !was_connected ==> r.0@ == "Error"@ && r.1@
            == "I need to be in a voice channel to be able to leave."@,
{
    if was_connected {
        ("Left the channel", "Leaving the current channel.")
    } else {
        ("Error", "I need to be in a voice channel to be able to leave.")
    }
}

/// The text of the answer to `loop`, by whether a song is playing.
pub fn loop_reply(has_current: bool) -> (s: &'static str)
    ensures
        has_current ==> s@ == "Loop enabled"@,
        !has_current ==> s@ == "There is no songs in the queue."@,
{
    if has_current {
        "Loop enabled"
    } else {
        "There is no songs in the queue."
    }
}

} // verus!
