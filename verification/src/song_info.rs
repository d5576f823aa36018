//! Songs as the server lists them and as the cache keeps them.

use vstd::prelude::*;
use vstd::string::*;
use crate::text::{join, joined, texts_of};

verus! {

/// Identifier of a song within one generation of the queue.
#[derive(Clone, Copy, Debug, PartialEq, Eq, PartialOrd, Ord, Hash)]
pub struct SongId(pub u64);

/// One queue entry as the server reports it.
#[derive(Debug, Clone, PartialEq, Eq)]
pub struct QueueEntry {
    pub id: SongId,
    pub title: Option<String>,
    pub artists: Vec<String>,
    pub album: Option<String>,
    pub url: String,
}

/// Mathematical content of a [`QueueEntry`].
pub struct QueueEntryView {
    pub id: u64,
    pub title: Option<Seq<char>>,
    pub artists: Seq<Seq<char>>,
    pub album: Option<Seq<char>>,
    pub url: Seq<char>,
}

/// The characters of an optional string.
pub open spec fn text_of(s: Option<String>) -> Option<Seq<char>> {
    match s {
        Some(t) => Some(t@),
        None => None,
    }
}

/// The bytes of an optional buffer.
pub open spec fn bytes_of(b: Option<Vec<u8>>) -> Option<Seq<u8>> {
    match b {
        Some(v) => Some(v@),
        None => None,
    }
}

impl View for QueueEntry {
    type V = QueueEntryView;

    open spec fn view(&self) -> QueueEntryView {
        QueueEntryView {
            id: self.id.0,
            title: text_of(self.title),
            artists: texts_of(self.artists@),
            album: text_of(self.album),
            url: self.url@,
        }
    }
}

/// What the cache knows about one song.
///
/// `missing_cover` is true as long as no cover art fetch for the song has
/// come back.  Once it is false, `coverart` is final: either the image data
/// or `None` for a song that has no cover art on the server.
#[derive(Debug, PartialEq, Eq)]
pub struct SongInfo {
    pub id: SongId,
    pub album: String,
    pub artist: String,
    pub title: String,
    pub url: String,
    pub coverart: Option<Vec<u8>>,
    pub missing_cover: bool,
}

/// Mathematical content of a [`SongInfo`].
pub struct SongInfoView {
    pub id: u64,
    pub album: Seq<char>,
    pub artist: Seq<char>,
    pub title: Seq<char>,
    pub url: Seq<char>,
    pub coverart: Option<Seq<u8>>,
    pub missing_cover: bool,
}

impl View for SongInfo {
    type V = SongInfoView;

    open spec fn view(&self) -> SongInfoView {
        SongInfoView {
            id: self.id.0,
            album: self.album@,
            artist: self.artist@,
            title: self.title@,
            url: self.url@,
            coverart: bytes_of(self.coverart),
            missing_cover: self.missing_cover,
        }
    }
}

/// The view of an optional song.
pub open spec fn info_of(s: Option<SongInfo>) -> Option<SongInfoView> {
    match s {
        Some(i) => Some(i@),
        None => None,
    }
}

/// The text shown for a missing tag.
pub open spec fn or_empty(s: Option<Seq<char>>) -> Seq<char> {
    match s {
        Some(t) => t,
        None => Seq::empty(),
    }
}

/// The cache entry of a song that has just been listed: tags taken over,
/// several artists joined by `", "`, missing tags empty, no cover art yet.
pub open spec fn queued_info(e: QueueEntryView) -> SongInfoView {
    SongInfoView {
        id: e.id,
        album: or_empty(e.album),
        artist: joined(e.artists, ", "@),
        title: or_empty(e.title),
        url: e.url,
        coverart: None,
        missing_cover: true,
    }
}

/// As [`queued_info`], but with `title` in place of the entry's own.
pub open spec fn titled_info(e: QueueEntryView, title: Seq<char>) -> SongInfoView {
    SongInfoView { title, ..queued_info(e) }
}

/// The title given to an entry without a title tag whose file name stem is
/// `stem`.
pub open spec fn fallback_title(stem: Option<Seq<char>>) -> Seq<char> {
    match stem {
        Some(s) => s,
        None => "<unknown file>"@,
    }
}

/// The entry of a song whose title falls back to the stem of its file name.
pub open spec fn stemmed_info(e: QueueEntryView, stem: Option<Seq<char>>) -> SongInfoView {
    match e.title {
        Some(t) => queued_info(e),
        None => titled_info(e, fallback_title(stem)),
    }
}

/// A copy of an optional string, empty where there is none.
fn text_or_empty(s: &Option<String>) -> (r: String)
    ensures
        r@ == or_empty(text_of(*s)),
{
    match s {
        Some(t) => t.clone(),
        None => String::new(),
    }
}

/// A copy of an optional buffer.
pub fn copy_bytes(b: &Option<Vec<u8>>) -> (r: Option<Vec<u8>>)
    ensures
        bytes_of(r) == bytes_of(*b),
{
    match b {
        Some(v) => Some(v.clone()),
        None => None,
    }
}

/// The stem of the last component of `url` read as a file path, as
/// `std::path::Path::file_stem` finds it.  How a path splits into components
/// depends on the platform, so nothing is claimed of the result.
#[verifier::external_body]
fn file_stem(url: &str) -> (stem: Option<String>) {
    match std::path::Path::new(url).file_stem() {
        Some(stem) => Some(stem.to_string_lossy().into_owned()),
        None => None,
    }
}

/// Whether `stem` is the stem that a look at the path `path` has found:
/// the name of the file without what follows its last dot, or nothing
/// where the path names no file.  Nothing is known of this but what such a
/// look has shown.
pub closed spec fn stem_found(path: &str, stem: Option<String>) -> bool {
    call_ensures(file_stem, (path,), stem)
}

impl SongInfo {
    /// The cache entry for a song that has just been listed.
    pub fn queued(entry: &QueueEntry) -> (r: SongInfo)
        ensures
            r@ == queued_info(entry@),
    {
        SongInfo {
            id: entry.id,
            album: text_or_empty(&entry.album),
            artist: join(&entry.artists, ", "),
            title: text_or_empty(&entry.title),
            url: entry.url.clone(),
            coverart: None,
            missing_cover: true,
        }
    }

    /// The entry for a listed song, given the stem of its file name: a song
    /// without a title tag is shown under the stem, or as `<unknown file>`
    /// where its path has none.
    pub fn with_stem(entry: &QueueEntry, stem: Option<String>) -> (r: SongInfo)
        ensures
            r@ == stemmed_info(entry@, text_of(stem)),
    {
        let title = match &entry.title {
            Some(t) => t.clone(),
            None => match stem {
                Some(s) => s,
                None => String::from_str("<unknown file>"),
            },
        };
        SongInfo {
            id: entry.id,
            album: text_or_empty(&entry.album),
            artist: join(&entry.artists, ", "),
            title,
            url: entry.url.clone(),
            coverart: None,
            missing_cover: true,
        }
    }

    /// The entry for a listed song.  A song without a title tag is shown
    /// under the stem that a look at the path of its file finds, or as
    /// `<unknown file>` where the path names no file.
    pub fn from_entry(entry: &QueueEntry) -> (r: SongInfo)
        ensures
            entry@.title is Some ==> r@ == queued_info(entry@),
            entry@.title is None ==> exists|path: &str, stem: Option<String>|
                path@ == entry@.url && #[trigger] stem_found(path, stem) && r@ == stemmed_info(
                    entry@,
                    text_of(stem),
                ),
    {
        match &entry.title {
            Some(_) => SongInfo::with_stem(entry, None),
            None => {
                let path = entry.url.as_str();
                let stem = file_stem(path);
                let r = SongInfo::with_stem(entry, stem);
                assert(stem_found(path, stem));
                r
            },
        }
    }

    /// Whether no cover art fetch for this song has come back yet.
    pub fn is_cover_missing(&self) -> (r: bool)
        ensures
            r == self@.missing_cover,
    {
        self.missing_cover
    }

    /// Records the outcome of a cover art fetch: the image, or `None` for a
    /// song without cover art.  Either way the cover is no longer missing.
    pub fn update_coverart(&mut self, data: Option<Vec<u8>>)
        ensures
            final(self)@ == (SongInfoView {
                coverart: bytes_of(data),
                missing_cover: false,
                ..old(self)@
            }),
    {
        self.coverart = data;
        self.missing_cover = false;
    }

    /// Where the song's file is found on the server.
    pub fn get_url(&self) -> (r: &str)
        ensures
            r@ == self@.url,
    {
        self.url.as_str()
    }
}

impl Clone for SongInfo {
    fn clone(&self) -> (r: Self)
        ensures
            r@ == self@,
    {
        SongInfo {
            id: self.id,
            album: self.album.clone(),
            artist: self.artist.clone(),
            title: self.title.clone(),
            url: self.url.clone(),
            coverart: copy_bytes(&self.coverart),
            missing_cover: self.missing_cover,
        }
    }
}

} // verus!
