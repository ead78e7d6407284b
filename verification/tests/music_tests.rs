use valeriyya::bot::PURPLE_COLOR;
use valeriyya::music::{
    announces_start, checked_is_single_video, finished, idle_step, is_single_video, leave_reply,
    loop_reply, now_playing, preload_offset, queue_title, song_information, IdleStep, Video,
};

fn video() -> Video {
    Video { id: "abc123".to_string(), title: "Song".to_string(), duration_secs: 200, duration_nanos: 5 }
}

#[test]
fn single_videos_and_playlists() {
    assert!(is_single_video("https://youtu.be/dQw4w9WgXcQ"));
    assert!(!is_single_video("https://www.youtube.com/playlist?list=PLabcdefghij12"));
    assert!(!is_single_video("https://www.youtube.com/watch?v=x&list=RDMM"));
    assert!(is_single_video("https://www.youtube.com/playlist?list=PLshort"));
    assert_eq!(checked_is_single_video("https://youtu.be/x"), Some(true));
}

#[test]
fn queue_titles() {
    assert_eq!(queue_title(true, 2), "Queued");
    assert_eq!(queue_title(true, 1), "Playing");
    assert_eq!(queue_title(false, 5), "Playing");
}

#[test]
fn start_announcements() {
    assert!(!announces_start(1, 0));
    assert!(!announces_start(3, 0));
    assert!(announces_start(3, 1));
    assert!(announces_start(2, 1));
}

#[test]
fn preload_starts_fifteen_seconds_early() {
    assert_eq!(preload_offset(&video()), (185, 5));
}

#[test]
fn song_texts() {
    let v = video();
    assert_eq!(song_information("Queued", &v), "Queued [Song](https://youtu.be/abc123)");
    assert_eq!(now_playing(&v), "Playing [Song](https://youtu.be/abc123)");
    assert_eq!(finished(&v), "Song has finished.");
}

#[test]
fn idle_watcher() {
    assert_eq!(idle_step(true), IdleStep::Leave);
    assert_eq!(idle_step(false), IdleStep::Wait(600));
}

#[test]
fn command_replies() {
    assert_eq!(leave_reply(true), ("Left the channel", "Leaving the current channel."));
    assert_eq!(leave_reply(false), ("Error", "I need to be in a voice channel to be able to leave."));
    assert_eq!(loop_reply(true), "Loop enabled");
    assert_eq!(loop_reply(false), "There is no songs in the queue.");
    assert_eq!(PURPLE_COLOR, (82 << 16) | (66 << 8) | 100);
}
