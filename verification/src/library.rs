//! Recognising music files while scanning the library, and the cached
//! details kept for them.

use vstd::prelude::*;
use crate::text::text_is;
use crate::track::Track;
use crate::paths::{same_path, paths_equal, extension, extension_spec, file_stem, file_stem_spec};
use crate::command::{Options, PlayerCommand};
use crate::sort::{sort_by_title, sorted_by_title};

verus! {

/// The lowercase form of a text (`str::to_lowercase`, full Unicode mapping).
pub uninterp spec fn spec_to_lowercase(s: Seq<char>) -> Seq<char>;

/// `str::to_lowercase`: the text with every character mapped to lowercase,
/// named `spec_to_lowercase`.
#[verifier::external_body]
fn to_lowercase(s: &str) -> (r: String)
    ensures
        r@ == spec_to_lowercase(s@),
{
    s.to_lowercase()
}


/// The file extensions (in lowercase) of the audio formats the player reads.
pub open spec fn is_audio_ext(e: Seq<char>) -> bool {
    e == "mp3"@ || e == "mpa"@ || e == "wav"@ || e == "wave"@ || e == "aif"@ || e == "aiff"@
        || e == "aifc"@ || e == "flac"@ || e == "ogg"@ || e == "oga"@ || e == "vorbis"@
        || e == "mka"@ || e == "mkv"@ || e == "webm"@
}

/// Whether a path's extension, in lowercase, is one of the audio
/// extensions.
pub fn has_audio_extension(path: &str) -> (r: bool)
    ensures
        r == (match extension_spec(path@) {
            Some(e) => is_audio_ext(spec_to_lowercase(e)),
            None => false,
        }),
{
    let ext = match extension(path) {
        Some(e) => to_lowercase(e.as_str()),
        None => return false,
    };
    text_is(&ext, "mp3") || text_is(&ext, "mpa") || text_is(&ext, "wav") || text_is(&ext, "wave")
        || text_is(&ext, "aif") || text_is(&ext, "aiff") || text_is(&ext, "aifc")
        || text_is(&ext, "flac") || text_is(&ext, "ogg") || text_is(&ext, "oga")
        || text_is(&ext, "vorbis") || text_is(&ext, "mka") || text_is(&ext, "mkv")
        || text_is(&ext, "webm")
}

/// Container extensions used by animated (video) wallpapers.
pub open spec fn is_video_ext(e: Seq<char>) -> bool {
    e == "mp4"@ || e == "mkv"@ || e == "webm"@ || e == "mov"@ || e == "m4v"@ || e == "avi"@
        || e == "mpeg"@ || e == "mpg"@ || e == "ts"@
}

/// Whether a path names an animated (video) wallpaper, by its extension
/// as written.
pub fn is_video_path(path: &str) -> (r: bool)
    ensures
        r == (match extension_spec(path@) {
            Some(e) => is_video_ext(e),
            None => false,
        }),
{
    let ext = match extension(path) {
        Some(e) => e,
        None => return false,
    };
    text_is(&ext, "mp4") || text_is(&ext, "mkv") || text_is(&ext, "webm") || text_is(&ext, "mov")
        || text_is(&ext, "m4v") || text_is(&ext, "avi") || text_is(&ext, "mpeg")
        || text_is(&ext, "mpg") || text_is(&ext, "ts")
}

/// Whether `s` begins with `prefix`.
pub fn starts_with(s: &str, prefix: &str) -> (r: bool)
    ensures
        r == (prefix@.len() <= s@.len() && s@.take(prefix@.len() as int) == prefix@),
{
    let n = prefix.unicode_len();
    if n > s.unicode_len() {
        return false;
    }
    let mut i: usize = 0;
    while i < n
        invariant
            n == prefix@.len(),
            n <= s@.len(),
            i <= n,
            forall|j: int| 0 <= j < i ==> s@[j] == prefix@[j],
        decreases n - i,
    {
        if s.get_char(i) != prefix.get_char(i) {
            proof {
                assert(s@.take(n as int)[i as int] != prefix@[i as int]);
            }
            return false;
        }
        i = i + 1;
    }
    proof {
        assert(s@.take(n as int) =~= prefix@);
    }
    true
}

/// A file counts as audio when its sniffed type is audio (or an Ogg
/// container); otherwise, or when the type is unknown, its extension decides.
pub open spec fn is_audio_kind_spec(mime: Option<Seq<char>>, ext_known: bool) -> bool {
    match mime {
        Some(m) => (m.len() >= 6 && m.take(6) == "audio/"@) || m == "application/ogg"@ || ext_known,
        None => ext_known,
    }
}

/// Decides whether a file is audio from its sniffed MIME type (if any)
/// and whether its extension is a known audio one.
pub fn is_audio_kind(mime: Option<&str>, ext_known: bool) -> (r: bool)
    ensures
        r == is_audio_kind_spec(
            match mime {
                Some(m) => Some(m@),
                None => None,
            },
            ext_known,
        ),
{
    match mime {
        Some(m) => {
            proof { reveal_strlit("audio/"); }
            if starts_with(m, "audio/") {
                true
            } else if text_is(&String::from_str(m), "application/ogg") {
                true
            } else {
                ext_known
            }
        },
        None => ext_known,
    }
}

/// The title shown for a file without tags: its file name without the
/// extension, or the whole path when it has none.
pub fn fallback_title(path: &str) -> (t: String)
    ensures
        t@ == (match file_stem_spec(path@) {
            Some(s) => s,
            None => path@,
        }),
{
    match file_stem(path) {
        Some(s) => s,
        None => String::from_str(path),
    }
}

/// A track found on disk without tags: its fallback title, an unknown
/// artist and album, no duration.
pub fn fallback_track(path: &str) -> (t: Track)
    ensures
        t.path@ == path@,
        t.title@ == (match file_stem_spec(path@) {
            Some(s) => s,
            None => path@,
        }),
        t.artist@ == "Unknown"@,
        t.album@ == Seq::<char>::empty(),
        t.duration_ms == 0,
{
    Track {
        path: String::from_str(path),
        title: fallback_title(path),
        artist: String::from_str("Unknown"),
        album: String::new(),
        duration_ms: 0,
    }
}

/// Details remembered for a scanned file, with the file's modification time
/// and size at the time.
#[derive(Clone, Debug, PartialEq)]
pub struct CacheEntry {
    pub title: String,
    pub artist: String,
    pub album: String,
    /// Duration in milliseconds.
    pub duration_ms: u64,
    /// Modification time, in seconds since the Unix epoch.
    pub modified_time: u64,
    /// File size in bytes.
    pub file_size: u64,
}

impl CacheEntry {
    /// Whether the entry still describes the file: same modification time
    /// and same size.
    pub fn matches_file(&self, modified_time: u64, file_size: u64) -> (r: bool)
        ensures
            r == (self.modified_time == modified_time && self.file_size == file_size),
    {
        self.modified_time == modified_time && self.file_size == file_size
    }

    /// The track a valid entry stands for.
    pub fn to_track(&self, path: &str) -> (t: Track)
        ensures
            t.path@ == path@,
            t.title == self.title,
            t.artist == self.artist,
            t.album == self.album,
            t.duration_ms == self.duration_ms,
    {
        Track {
            path: String::from_str(path),
            title: self.title.clone(),
            artist: self.artist.clone(),
            album: self.album.clone(),
            duration_ms: self.duration_ms,
        }
    }
}

/// Some track of `s` has a path naming the same file as `path`.
pub open spec fn has_path(s: Seq<Track>, path: Seq<char>) -> bool {
    exists|i: int| 0 <= i < s.len() && same_path(s[i].path@, path)
}

/// `s` without the tracks whose path an earlier track already has.
pub open spec fn dedup_paths(s: Seq<Track>) -> Seq<Track>
    decreases s.len(),
{
    if s.len() == 0 {
        s
    } else {
        let d = dedup_paths(s.drop_last());
        if has_path(s.drop_last(), s.last().path@) {
            d
        } else {
            d.push(s.last())
        }
    }
}

/// `s` without the tracks whose path one of `other` has.
pub open spec fn without_paths_of(s: Seq<Track>, other: Seq<Track>) -> Seq<Track>
    decreases s.len(),
{
    if s.len() == 0 {
        s
    } else {
        let d = without_paths_of(s.drop_last(), other);
        if has_path(other, s.last().path@) {
            d
        } else {
            d.push(s.last())
        }
    }
}

/// Whether a track among `list[lo..hi]` has the path.
fn has_path_in(list: &Vec<Track>, lo: usize, hi: usize, path: &String) -> (r: bool)
    requires
        lo <= hi <= list@.len(),
    ensures
        r == has_path(list@.subrange(lo as int, hi as int), path@),
{
    let mut j = lo;
    while j < hi
        invariant
            lo <= j <= hi <= list@.len(),
            forall|k: int| lo <= k < j ==> !same_path(list@[k].path@, path@),
        decreases hi - j,
    {
        if paths_equal(&list[j].path, path) {
            proof {
                assert(list@.subrange(lo as int, hi as int)[j - lo] == list@[j as int]);
            }
            return true;
        }
        j = j + 1;
    }
    proof {
        let sub = list@.subrange(lo as int, hi as int);
        assert forall|i: int| 0 <= i < sub.len() implies !same_path(sub[i].path@, path@) by {
            assert(sub[i] == list@[lo + i]);
        }
    }
    false
}

/// Keeps the first track of each path, in order.
pub fn dedup_by_path(list: &Vec<Track>) -> (r: Vec<Track>)
    ensures
        r@ == dedup_paths(list@),
{
    let mut r: Vec<Track> = Vec::new();
    let mut i: usize = 0;
    while i < list.len()
        invariant
            i <= list@.len(),
            r@ == dedup_paths(list@.take(i as int)),
        decreases list@.len() - i,
    {
        proof {
            assert(list@.take(i + 1).drop_last() =~= list@.take(i as int));
            assert(list@.subrange(0, i as int) =~= list@.take(i as int));
        }
        if !has_path_in(list, 0, i, &list[i].path) {
            r.push(list[i].clone());
        }
        i = i + 1;
    }
    proof { assert(list@.take(list@.len() as int) =~= list@); }
    r
}

/// The tracks of `list` whose path none of `other` has, in order.
pub fn without_paths(list: &Vec<Track>, other: &Vec<Track>) -> (r: Vec<Track>)
    ensures
        r@ == without_paths_of(list@, other@),
{
    let mut r: Vec<Track> = Vec::new();
    let mut i: usize = 0;
    while i < list.len()
        invariant
            i <= list@.len(),
            r@ == without_paths_of(list@.take(i as int), other@),
        decreases list@.len() - i,
    {
        proof {
            assert(list@.take(i + 1).drop_last() =~= list@.take(i as int));
            assert(other@.subrange(0, other@.len() as int) =~= other@);
        }
        if !has_path_in(other, 0, other.len(), &list[i].path) {
            r.push(list[i].clone());
        }
        i = i + 1;
    }
    proof { assert(list@.take(list@.len() as int) =~= list@); }
    r
}

/// The playlist built at start-up: the files named on the command line,
/// then the scanned library (sorted by title when that order is chosen),
/// each path once (its first occurrence).
pub open spec fn library_playlist_spec(startup: Seq<Track>, library: Seq<Track>, sort: Options) -> Seq<Track> {
    dedup_paths(
        startup + match sort {
            Options::Normal => library,
            Options::Alphabetical => sorted_by_title(library),
        },
    )
}

/// Builds the start-up playlist and the command that installs it.
pub fn library_command(startup: &Vec<Track>, library: &Vec<Track>, sort: Options) -> (r: Option<PlayerCommand>)
    ensures
        match r {
            None => library_playlist_spec(startup@, library@, sort).len() == 0,
            Some(PlayerCommand::SetPlaylistAndPlayIndex(list, i)) => {
                &&& startup@.len() > 0
                &&& i == 0
                &&& list@ == library_playlist_spec(startup@, library@, sort)
                &&& list@.len() > 0
            },
            Some(PlayerCommand::SetPlaylist(list)) => {
                &&& startup@.len() == 0
                &&& list@ == library_playlist_spec(startup@, library@, sort)
                &&& list@.len() > 0
            },
            _ => false,
        },
{
    let ordered = match sort {
        Options::Normal => crate::track::clone_tracks(library),
        Options::Alphabetical => sort_by_title(library),
    };
    let mut all = crate::track::clone_tracks(startup);
    let mut k: usize = 0;
    while k < ordered.len()
        invariant
            k <= ordered@.len(),
            all@ == startup@ + ordered@.take(k as int),
        decreases ordered@.len() - k,
    {
        all.push(ordered[k].clone());
        k = k + 1;
        proof { assert(all@ =~= startup@ + ordered@.take(k as int)); }
    }
    proof { assert(ordered@.take(ordered@.len() as int) =~= ordered@); }
    let tracks = dedup_by_path(&all);
    if tracks.len() == 0 {
        None
    } else if startup.len() > 0 {
        Some(PlayerCommand::SetPlaylistAndPlayIndex(tracks, 0))
    } else {
        Some(PlayerCommand::SetPlaylist(tracks))
    }
}

/// Files opened while running go first, followed by the current playlist
/// without the tracks whose path an opened file has; playback starts at the
/// first opened file. Nothing happens when no opened file is a track.
pub fn open_command(opened: &Vec<Track>, existing: &Vec<Track>) -> (r: Option<PlayerCommand>)
    ensures
        match r {
            None => opened@.len() == 0,
            Some(PlayerCommand::SetPlaylistAndPlayIndex(list, i)) => {
                &&& opened@.len() > 0
                &&& i == 0
                &&& list@ == opened@ + without_paths_of(existing@, opened@)
            },
            _ => false,
        },
{
    if opened.len() == 0 {
        return None;
    }
    let rest = without_paths(existing, opened);
    let mut list = crate::track::clone_tracks(opened);
    let mut k: usize = 0;
    while k < rest.len()
        invariant
            k <= rest@.len(),
            list@ == opened@ + rest@.take(k as int),
        decreases rest@.len() - k,
    {
        list.push(rest[k].clone());
        k = k + 1;
        proof { assert(list@ =~= opened@ + rest@.take(k as int)); }
    }
    proof { assert(rest@.take(rest@.len() as int) =~= rest@); }
    Some(PlayerCommand::SetPlaylistAndPlayIndex(list, 0))
}

proof fn lemma_has_path_push(x: Seq<Track>, y: Track, path: Seq<char>)
    ensures
        has_path(x.push(y), path) == (has_path(x, path) || same_path(y.path@, path)),
{
    if has_path(x.push(y), path) {
        let i = choose|i: int| 0 <= i < x.push(y).len() && same_path(x.push(y)[i].path@, path);
        if i < x.len() {
            assert(x[i] == x.push(y)[i]);
        }
    }
    if has_path(x, path) {
        let i = choose|i: int| 0 <= i < x.len() && same_path(x[i].path@, path);
        assert(x.push(y)[i] == x[i]);
    }
    if same_path(y.path@, path) {
        assert(x.push(y)[x.len() as int] == y);
    }
}

proof fn lemma_dedup_has_path(s: Seq<Track>, path: Seq<char>)
    ensures
        has_path(dedup_paths(s), path) == has_path(s, path),
    decreases s.len(),
{
    if s.len() > 0 {
        let t = s.drop_last();
        let last = s.last();
        assert(t.push(last) =~= s);
        lemma_dedup_has_path(t, path);
        lemma_has_path_push(t, last, path);
        if !has_path(t, last.path@) {
            lemma_has_path_push(dedup_paths(t), last, path);
        }
    }
}

/// The start-up playlist (and any deduplicated list) names each file once.
pub proof fn lemma_dedup_paths_unique(s: Seq<Track>)
    ensures
        forall|i: int, j: int|
            0 <= i < j < dedup_paths(s).len() ==> !same_path(dedup_paths(s)[i].path@, dedup_paths(s)[j].path@),
    decreases s.len(),
{
    if s.len() > 0 {
        let t = s.drop_last();
        lemma_dedup_paths_unique(t);
        lemma_dedup_has_path(t, s.last().path@);
        let d = dedup_paths(t);
        if !has_path(t, s.last().path@) {
            let r = d.push(s.last());
            assert forall|i: int, j: int| 0 <= i < j < r.len() implies !same_path(r[i].path@, r[j].path@) by {
                if j == d.len() {
                    assert(r[i] == d[i]);
                    if same_path(d[i].path@, s.last().path@) {
                        assert(has_path(d, s.last().path@));
                    }
                } else {
                    assert(r[i] == d[i] && r[j] == d[j]);
                }
            }
        }
    }
}


/// The image files looked for beside a track, in order, when its tags hold
/// no cover.
pub open spec fn folder_cover_names_spec() -> Seq<Seq<char>> {
    seq![
        "folder.jpg"@,
        "Folder.jpg"@,
        "cover.jpg"@,
        "Cover.jpg"@,
        "front.jpg"@,
        "Front.jpg"@,
        "album.jpg"@,
        "Album.jpg"@,
        "folder.png"@,
        "Folder.png"@,
        "cover.png"@,
        "Cover.png"@,
    ]
}

/// The file names of folder covers, in the order they are tried.
pub fn folder_cover_names() -> (r: Vec<String>)
    ensures
        r@.len() == folder_cover_names_spec().len(),
        forall|i: int| 0 <= i < r@.len() ==> #[trigger] r@[i]@ == folder_cover_names_spec()[i],
{
    let mut r: Vec<String> = Vec::new();
    r.push(String::from_str("folder.jpg"));
    r.push(String::from_str("Folder.jpg"));
    r.push(String::from_str("cover.jpg"));
    r.push(String::from_str("Cover.jpg"));
    r.push(String::from_str("front.jpg"));
    r.push(String::from_str("Front.jpg"));
    r.push(String::from_str("album.jpg"));
    r.push(String::from_str("Album.jpg"));
    r.push(String::from_str("folder.png"));
    r.push(String::from_str("Folder.png"));
    r.push(String::from_str("cover.png"));
    r.push(String::from_str("Cover.png"));
    r
}

/// A read of a candidate cover file is used when it succeeded and gave more
/// than 100 bytes.
pub open spec fn usable_cover(read: Option<Vec<u8>>) -> bool {
    match read {
        Some(data) => data@.len() > 100,
        None => false,
    }
}

/// Which of the candidate reads (in the order of the candidate names) gives
/// the folder cover: the first usable one.
pub fn pick_folder_cover(reads: &Vec<Option<Vec<u8>>>) -> (r: Option<usize>)
    ensures
        match r {
            Some(k) => k < reads@.len() && usable_cover(reads@[k as int]) && forall|j: int|
                0 <= j < k ==> !usable_cover(#[trigger] reads@[j]),
            None => forall|j: int| 0 <= j < reads@.len() ==> !usable_cover(#[trigger] reads@[j]),
        },
{
    let mut k: usize = 0;
    while k < reads.len()
        invariant
            k <= reads@.len(),
            forall|j: int| 0 <= j < k ==> !usable_cover(#[trigger] reads@[j]),
        decreases reads@.len() - k,
    {
        let usable = match &reads[k] {
            Some(data) => data.len() > 100,
            None => false,
        };
        if usable {
            return Some(k);
        }
        k = k + 1;
    }
    None
}


/// What a file's tags give for the track list: title, artist and duration.
#[derive(Debug)]
pub struct TagInfo {
    pub title: String,
    pub artist: String,
    /// Duration in milliseconds.
    pub duration_ms: u64,
}

/// The track a scanned audio file becomes, and the cache entry to record
/// for it. A valid cache entry gives the track and nothing is recorded.
/// Otherwise the tags (or, without tags, the fallback title, an unknown
/// artist and no duration) give the track; the same details are recorded
/// when the file's modification time and size (`stamp`) could be read.
pub open spec fn scanned_spec(
    path: Seq<char>,
    cached: Option<CacheEntry>,
    tags: Option<TagInfo>,
    stamp: Option<(u64, u64)>,
    t: Track,
    entry: Option<CacheEntry>,
) -> bool {
    &&& t.path@ == path
    &&& match cached {
        Some(c) => {
            &&& t.title == c.title
            &&& t.artist == c.artist
            &&& t.album == c.album
            &&& t.duration_ms == c.duration_ms
            &&& entry is None
        },
        None => {
            &&& match tags {
                Some(g) => t.title == g.title && t.artist == g.artist && t.duration_ms == g.duration_ms,
                None => {
                    &&& t.title@ == (match file_stem_spec(path) {
                        Some(s) => s,
                        None => path,
                    })
                    &&& t.artist@ == "Unknown"@
                    &&& t.duration_ms == 0
                },
            }
            &&& t.album@ == Seq::<char>::empty()
            &&& match stamp {
                Some((m, size)) => entry matches Some(e) && e.title == t.title && e.artist == t.artist
                    && e.album@ == Seq::<char>::empty() && e.duration_ms == t.duration_ms
                    && e.modified_time == m && e.file_size == size,
                None => entry is None,
            }
        },
    }
}

/// The track for a scanned audio file at `path` (see [`scanned_spec`]);
/// `cached` is the cache entry for the file when it is still valid.
pub fn scanned_track(
    path: &str,
    cached: Option<&CacheEntry>,
    tags: Option<&TagInfo>,
    stamp: Option<(u64, u64)>,
) -> (r: (Track, Option<CacheEntry>))
    ensures
        scanned_spec(
            path@,
            match cached {
                Some(c) => Some(*c),
                None => None,
            },
            match tags {
                Some(g) => Some(*g),
                None => None,
            },
            stamp,
            r.0,
            r.1,
        ),
{
    match cached {
        Some(c) => (c.to_track(path), None),
        None => {
            let t = match tags {
                Some(g) => Track {
                    path: String::from_str(path),
                    title: g.title.clone(),
                    artist: g.artist.clone(),
                    album: String::new(),
                    duration_ms: g.duration_ms,
                },
                None => fallback_track(path),
            };
            let entry = match stamp {
                Some((m, size)) => Some(
                    CacheEntry {
                        title: t.title.clone(),
                        artist: t.artist.clone(),
                        album: String::new(),
                        duration_ms: t.duration_ms,
                        modified_time: m,
                        file_size: size,
                    },
                ),
                None => None,
            };
            (t, entry)
        },
    }
}


/// The extensions of the audio formats the player reads, as a list.
pub open spec fn audio_extension_list() -> Seq<Seq<char>> {
    seq![
        "mp3"@,
        "mpa"@,
        "wav"@,
        "wave"@,
        "aif"@,
        "aiff"@,
        "aifc"@,
        "flac"@,
        "ogg"@,
        "oga"@,
        "vorbis"@,
        "mka"@,
        "mkv"@,
        "webm"@,
    ]
}

/// A (lower-cased) extension counts as audio exactly when it is one of the
/// fourteen audio extensions: MPEG audio, WAVE, AIFF, FLAC, Ogg/Vorbis and
/// Matroska/WebM. `has_audio_extension` accepts a path exactly when its
/// extension, lower-cased, is on this list.
pub proof fn lemma_audio_extensions_are_the_list(e: Seq<char>)
    ensures
        is_audio_ext(e) <==> audio_extension_list().contains(e),
{
    let l = audio_extension_list();
    if is_audio_ext(e) {
        if e == "mp3"@ { assert(l[0] == e); }
        else if e == "mpa"@ { assert(l[1] == e); }
        else if e == "wav"@ { assert(l[2] == e); }
        else if e == "wave"@ { assert(l[3] == e); }
        else if e == "aif"@ { assert(l[4] == e); }
        else if e == "aiff"@ { assert(l[5] == e); }
        else if e == "aifc"@ { assert(l[6] == e); }
        else if e == "flac"@ { assert(l[7] == e); }
        else if e == "ogg"@ { assert(l[8] == e); }
        else if e == "oga"@ { assert(l[9] == e); }
        else if e == "vorbis"@ { assert(l[10] == e); }
        else if e == "mka"@ { assert(l[11] == e); }
        else if e == "mkv"@ { assert(l[12] == e); }
        else { assert(l[13] == e); }
    }
    if l.contains(e) {
        let i = choose|i: int| 0 <= i < l.len() && l[i] == e;
        assert(0 <= i < 14);
    }
}

} // verus!
