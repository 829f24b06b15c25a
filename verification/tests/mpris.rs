use singularity::mpris::{
    cover_for, poll_result, search_result, title_for, MprisUpdate, PlaybackStatus, PlayerStatus, TrackMetadata,
};

fn s(v: &str) -> Option<String> {
    Some(v.to_string())
}

#[test]
fn title_falls_back_to_the_decoded_file_name() {
    assert_eq!(title_for(s("Song"), &s("file:///music/x.mp3")), s("Song"));
    assert_eq!(title_for(None, &s("file:///music/My%20Song.mp3")), s("My Song.mp3"));
    assert_eq!(title_for(None, &s("plain.ogg")), s("plain.ogg"));
    assert_eq!(title_for(None, &None), None);
    assert_eq!(title_for(None, &s("/")), None);
}

#[test]
fn cover_art_is_read_from_file_urls_only() {
    assert_eq!(cover_for(&s("file:///tmp/cover%20art.png")), Some(b"/tmp/cover art.png".to_vec()));
    assert_eq!(cover_for(&s("file:///tmp/%FF.png")), Some(b"/tmp/\xff.png".to_vec()));
    assert_eq!(cover_for(&s("https://example.com/cover.png")), None);
    assert_eq!(cover_for(&s("not a url")), None);
    assert_eq!(cover_for(&None), None);
}

#[test]
fn player_status_from_metadata() {
    let meta = TrackMetadata {
        url: s("file:///music/Track%201.flac"),
        title: None,
        artists: Some(vec!["Band".to_string()]),
        art_url: s("file:///art/a.jpg"),
    };
    let p = PlayerStatus::from_metadata(meta, Some(PlaybackStatus::Paused), Some(true), None, Some(false), Some(true));
    assert_eq!(p.title, s("Track 1.flac"));
    assert_eq!(p.icon, Some(b"/art/a.jpg".to_vec()));
    assert_eq!(p.artists, Some(vec!["Band".to_string()]));
    assert_eq!(p.status, PlaybackStatus::Paused);
    assert!(p.can_pause);
    assert!(!p.can_play);
    assert!(!p.can_go_previous);
    assert!(p.can_go_next);
    let q = PlayerStatus::from_metadata(
        TrackMetadata { url: None, title: s("T"), artists: None, art_url: None },
        None,
        None,
        None,
        None,
        None,
    );
    assert_eq!(q.status, PlaybackStatus::Stopped);
    assert_eq!(q.title, s("T"));
    assert_eq!(q.icon, None);
}

fn status(title: &str) -> PlayerStatus {
    PlayerStatus::from_metadata(
        TrackMetadata { url: None, title: s(title), artists: None, art_url: None },
        Some(PlaybackStatus::Playing),
        Some(true),
        Some(true),
        Some(true),
        Some(true),
    )
}

#[test]
fn player_search_announces_the_first_player_or_setup() {
    let (u, followed) = search_result(true, Some(status("a")));
    assert!(followed);
    assert!(matches!(u, Some(MprisUpdate::Player(p)) if p.title == s("a")));
    let (u, followed) = search_result(true, None);
    assert!(!followed);
    assert!(matches!(u, Some(MprisUpdate::Setup)));
    let (u, followed) = search_result(false, None);
    assert!(!followed);
    assert!(u.is_none());
    assert!(matches!(poll_result(Some(status("b"))), Some(MprisUpdate::Player(_))));
    assert!(poll_result(None).is_none());
}

#[test]
fn file_names_agree_with_std_paths() {
    let paths = [
        "", "/", "//", ".", "..", "./", "./.", "../", "a", "a/", "a//", "a/.", "a/./", "a/..", "a/../",
        "/a/b", "/a/b/", "a/./b", "a//b", "...", "a/...", ".hidden", "dir/.hidden", "file:///music/x.mp3",
        "https://host/path/", "x/./.", "/./", "a b/c d",
    ];
    for p in paths {
        let expected = std::path::Path::new(p).file_name().and_then(|f| f.to_str()).map(|f| f.to_string());
        assert_eq!(title_for(None, &s(p)), expected, "path {p:?}");
    }
}
