//! Media players (MPRIS): what the applet shows of the playing track.

use vstd::prelude::*;

use crate::text::{chars_of, slice_chars, str_eq, string_of};

verus! {

/// Playback state of a media player.
#[derive(Clone, Copy, Debug, PartialEq, Eq, Structural)]
pub enum PlaybackStatus {
    Playing,
    Paused,
    Stopped,
}

/// A control request for the active player.
#[derive(Clone, Copy, Debug, PartialEq, Eq, Structural)]
pub enum MprisRequest {
    Play,
    Pause,
    Next,
    Previous,
}

/// The metadata of the playing track, as the player reports it.
#[derive(Debug)]
pub struct TrackMetadata {
    pub url: Option<String>,
    pub title: Option<String>,
    pub artists: Option<Vec<String>>,
    pub art_url: Option<String>,
}

/// What the applet shows of a player.
#[derive(Clone, Debug)]
pub struct PlayerStatus {
    /// The bytes of the local path of the cover art, where the art URL is a
    /// `file` URL.
    pub icon: Option<Vec<u8>>,
    pub title: Option<String>,
    pub artists: Option<Vec<String>>,
    pub status: PlaybackStatus,
    pub can_pause: bool,
    pub can_play: bool,
    pub can_go_previous: bool,
    pub can_go_next: bool,
}

/// An update of the media player subscription.
#[derive(Clone, Debug)]
pub enum MprisUpdate {
    Setup,
    Player(PlayerStatus),
    Finished,
}

/// The position of the last `c` in `s`, or -1 when there is none.
pub open spec fn last_index_of(s: Seq<char>, c: char) -> int
    decreases s.len(),
{
    if s.len() == 0 {
        -1
    } else if s.last() == c {
        s.len() - 1
    } else {
        last_index_of(s.drop_last(), c)
    }
}

/// The last component of a path, as `Path::file_name` gives it: the last piece
/// between `/` separators, skipping empty pieces and `.` pieces (a trailing
/// separator, repeated separators and `.` components are normalized away);
/// nothing when no piece is left or the last one is `..`.
pub open spec fn path_file_name(p: Seq<char>) -> Option<Seq<char>>
    decreases p.len(),
{
    let k = last_index_of(p, '/');
    let piece = p.skip(k + 1);
    if piece.len() == 0 || piece == seq!['.'] {
        if k < 0 {
            None
        } else {
            proof {
                lemma_last_index_of(p, '/');
            }
            path_file_name(p.take(k))
        }
    } else if piece == seq!['.', '.'] {
        None
    } else {
        Some(piece)
    }
}

/// Where the last `c` of a sequence stands.
pub proof fn lemma_last_index_of(s: Seq<char>, c: char)
    ensures
        -1 <= last_index_of(s, c) < s.len(),
        last_index_of(s, c) >= 0 ==> s[last_index_of(s, c)] == c,
        forall|j: int| last_index_of(s, c) < j < s.len() ==> s[j] != c,
    decreases s.len(),
{
    if s.len() > 0 && s.last() != c {
        let init = s.drop_last();
        lemma_last_index_of(init, c);
        assert forall|j: int| last_index_of(s, c) < j < s.len() implies s[j] != c by {
            if j < s.len() - 1 {
                assert(s[j] == init[j]);
            }
        }
    }
}

/// The position of the last `/` in `v[..end]`.
fn last_slash(v: &Vec<char>, end: usize) -> (r: Option<usize>)
    requires
        end <= v.len(),
    ensures
        match r {
            Some(k) => last_index_of(v@.take(end as int), '/') == k,
            None => last_index_of(v@.take(end as int), '/') == -1,
        },
{
    let mut i: usize = end;
    while i > 0
        invariant
            i <= end <= v.len(),
            last_index_of(v@.take(end as int), '/') == last_index_of(v@.take(i as int), '/'),
        decreases i,
    {
        assert(v@.take(i as int).drop_last() =~= v@.take(i - 1));
        if v[i - 1] == '/' {
            return Some(i - 1);
        }
        i = i - 1;
    }
    None
}

/// The final component of a path.
fn file_name_of(path: &str) -> (r: Option<String>)
    ensures
        opt_chars(r) == path_file_name(path@),
{
    let v = chars_of(path);
    let mut end: usize = v.len();
    assert(v@.take(end as int) =~= v@);
    loop
        invariant
            end <= v.len(),
            v@ == path@,
            path_file_name(v@) == path_file_name(v@.take(end as int)),
        decreases end,
    {
        let ghost p = v@.take(end as int);
        let k = last_slash(&v, end);
        proof {
            lemma_last_index_of(p, '/');
        }
        let start: usize = match k {
            Some(k) => k + 1,
            None => 0,
        };
        let piece = slice_chars(&v, start, end);
        assert(piece@ =~= p.skip(start as int));
        if piece.len() == 0 || (piece.len() == 1 && piece[0] == '.') {
            proof {
                if piece.len() == 1 {
                    assert(piece@ =~= seq!['.']);
                }
            }
            match k {
                None => {
                    return None;
                },
                Some(k) => {
                    assert(p.take(k as int) =~= v@.take(k as int));
                    end = k;
                },
            }
        } else if piece.len() == 2 && piece[0] == '.' && piece[1] == '.' {
            assert(piece@ =~= seq!['.', '.']);
            return None;
        } else {
            proof {
                if piece.len() == 1 {
                    assert(piece@ != seq!['.']);
                }
                if piece.len() == 2 {
                    assert(piece@ != seq!['.', '.']);
                }
            }
            return Some(string_of(&piece));
        }
    }
}

/// What `urlencoding::decode` gives for a string: the percent-decoded text, or
/// nothing when the decoded bytes are not UTF-8.
pub uninterp spec fn percent_decoded(s: Seq<char>) -> Option<Seq<char>>;

/// Whether a string holds a `%`.
pub open spec fn has_percent(s: Seq<char>) -> bool {
    exists|i: int| 0 <= i < s.len() && s[i] == '%'
}

/// Percent-decodes a string.
///
/// Calls `urlencoding::decode`; the contract names its result `percent_decoded`
/// and states what its source shows: a string without `%` comes back unchanged.
#[verifier::external_body]
fn percent_decode(s: &str) -> (r: Option<String>)
    ensures
        r is Some <==> percent_decoded(s@) is Some,
        r matches Some(d) ==> percent_decoded(s@) == Some(d@),
        !has_percent(s@) ==> r is Some && r->0@ == s@,
{
    urlencoding::decode(s).ok().map(|d| d.into_owned())
}

/// What the applet reads of a parsed URL.
#[derive(Debug)]
pub struct ParsedUrl {
    /// The URL's scheme.
    pub scheme: String,
    /// The bytes of the local path the URL names, where `Url::to_file_path`
    /// gives one.
    pub file_path: Option<Vec<u8>>,
}

/// What `url::Url::parse` gives for a string, read as scheme and file path.
pub uninterp spec fn url_parts(s: Seq<char>) -> Option<(Seq<char>, Option<Seq<u8>>)>;

/// Parses a URL and reads its scheme and file path.
///
/// Calls `url::Url::parse`, then reads `Url::scheme` and the bytes of the path
/// that `Url::to_file_path` gives; the contract claims only that the result is a
/// function of the input, named `url_parts`.
#[verifier::external_body]
fn parse_url(s: &str) -> (r: Option<ParsedUrl>)
    ensures
        r is Some <==> url_parts(s@) is Some,
        r matches Some(p) ==> url_parts(s@) == Some((p.scheme@, opt_bytes(p.file_path))),
{
    url::Url::parse(s).ok().map(
        |u| ParsedUrl {
            scheme: u.scheme().to_string(),
            file_path: u.to_file_path().ok().map(|p| p.into_os_string().into_encoded_bytes()),
        },
    )
}

/// The title shown for a track: the metadata title, else the percent-decoded
/// file name of the track's URL.
pub open spec fn track_title(title: Option<Seq<char>>, url: Option<Seq<char>>) -> Option<Seq<char>> {
    match title {
        Some(t) => Some(t),
        None => match path_file_name(
            match url {
                Some(u) => u,
                None => Seq::<char>::empty(),
            },
        ) {
            Some(name) => percent_decoded(name),
            None => None,
        },
    }
}

/// The cover art path: the bytes of the file path of a `file` URL.
pub open spec fn cover_path(art_url: Option<Seq<char>>) -> Option<Seq<u8>> {
    match art_url {
        Some(u) => match url_parts(u) {
            Some((scheme, path)) => if scheme == "file"@ {
                path
            } else {
                None
            },
            None => None,
        },
        None => None,
    }
}

/// The view of an optional string.
pub open spec fn opt_chars(o: Option<String>) -> Option<Seq<char>> {
    match o {
        Some(s) => Some(s@),
        None => None,
    }
}

/// The view of optional bytes.
pub open spec fn opt_bytes(o: Option<Vec<u8>>) -> Option<Seq<u8>> {
    match o {
        Some(v) => Some(v@),
        None => None,
    }
}

/// The title of a track.
pub fn title_for(title: Option<String>, url: &Option<String>) -> (r: Option<String>)
    ensures
        opt_chars(r) == track_title(opt_chars(title), opt_chars(*url)),
{
    match title {
        Some(t) => Some(t),
        None => {
            let name = match url {
                Some(u) => file_name_of(u.as_str()),
                None => {
                    proof {
                        reveal_strlit("");
                    }
                    assert(""@ =~= Seq::<char>::empty());
                    file_name_of("")
                },
            };
            match name {
                Some(n) => percent_decode(n.as_str()),
                None => None,
            }
        },
    }
}

/// The local path of a cover art URL.
pub fn cover_for(art_url: &Option<String>) -> (r: Option<Vec<u8>>)
    ensures
        opt_bytes(r) == cover_path(opt_chars(*art_url)),
{
    match art_url {
        Some(u) => match parse_url(u.as_str()) {
            Some(p) => if str_eq(p.scheme.as_str(), "file") {
                p.file_path
            } else {
                None
            },
            None => None,
        },
        None => None,
    }
}

impl PlayerStatus {
    /// What the applet shows of a player, from its track metadata and the
    /// properties it reported; a property that could not be read counts as
    /// stopped or false.
    pub fn from_metadata(
        metadata: TrackMetadata,
        playback_status: Option<PlaybackStatus>,
        can_pause: Option<bool>,
        can_play: Option<bool>,
        can_go_previous: Option<bool>,
        can_go_next: Option<bool>,
    ) -> (r: PlayerStatus)
        ensures
            opt_chars(r.title) == track_title(opt_chars(metadata.title), opt_chars(metadata.url)),
            opt_bytes(r.icon) == cover_path(opt_chars(metadata.art_url)),
            r.artists == metadata.artists,
            r.status == (match playback_status {
                Some(s) => s,
                None => PlaybackStatus::Stopped,
            }),
            r.can_pause == (can_pause == Some(true)),
            r.can_play == (can_play == Some(true)),
            r.can_go_previous == (can_go_previous == Some(true)),
            r.can_go_next == (can_go_next == Some(true)),
    {
        let TrackMetadata { url, title, artists, art_url } = metadata;
        let title = title_for(title, &url);
        let icon = cover_for(&art_url);
        PlayerStatus {
            icon,
            title,
            artists,
            status: match playback_status {
                Some(s) => s,
                None => PlaybackStatus::Stopped,
            },
            can_pause: can_pause == Some(true),
            can_play: can_play == Some(true),
            can_go_previous: can_go_previous == Some(true),
            can_go_next: can_go_next == Some(true),
        }
    }
}

/// What a search for a player gives: the update to send, and whether a player is
/// followed from now on. The first player whose status could be read is
/// followed and announced; when none is found, the first search announces that
/// the subscription is set up, and later searches announce nothing.
pub fn search_result(first_search: bool, found: Option<PlayerStatus>) -> (r: (Option<MprisUpdate>, bool))
    ensures
        r.1 == found is Some,
        found matches Some(st) ==> r.0 == Some(MprisUpdate::Player(st)),
        found is None ==> r.0 == (if first_search { Some(MprisUpdate::Setup) } else { None }),
{
    match found {
        Some(st) => (Some(MprisUpdate::Player(st)), true),
        None => (if first_search { Some(MprisUpdate::Setup) } else { None }, false),
    }
}

/// What polling the followed player gives: its status, when it could be read.
pub fn poll_result(status: Option<PlayerStatus>) -> (r: Option<MprisUpdate>)
    ensures
        status matches Some(st) ==> r == Some(MprisUpdate::Player(st)),
        status is None ==> r is None,
{
    match status {
        Some(st) => Some(MprisUpdate::Player(st)),
        None => None,
    }
}

} // verus!
