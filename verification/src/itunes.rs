//! The local playlist: an ordered collection of tracks, each under an id of
//! its own.

use crate::error::{Error, ErrorKind};
use crate::types::DisplayTrack;
use vstd::prelude::*;

verus! {

/// A track of a local playlist.
#[derive(Clone, Debug, PartialEq, Eq)]
pub struct Track {
    pub name: String,
    pub artist: String,
    pub album: Option<String>,
    pub year: Option<i16>,
    pub genre: Option<String>,
}

#[derive(Clone, Debug, PartialEq, Eq)]
struct Entry {
    id: String,
    track: Track,
}

/// A local playlist. Its tracks stand in the order in which they were put
/// in, and no two of them share an id.
#[derive(Debug, PartialEq, Eq)]
pub struct Playlist {
    major_version: i32,
    music_folder: String,
    entries: Vec<Entry>,
}

/// What a playlist holds: the ids and the tracks side by side, in order.
pub struct PlaylistView {
    pub major_version: i32,
    pub music_folder: Seq<char>,
    pub ids: Seq<Seq<char>>,
    pub tracks: Seq<Track>,
}

impl View for Playlist {
    type V = PlaylistView;

    closed spec fn view(&self) -> PlaylistView {
        PlaylistView {
            major_version: self.major_version,
            music_folder: self.music_folder@,
            ids: Seq::new(self.entries@.len(), |i: int| self.entries@[i].id@),
            tracks: Seq::new(self.entries@.len(), |i: int| self.entries@[i].track),
        }
    }
}

impl PlaylistView {
    /// As many ids as tracks, and no id twice.
    pub open spec fn well_formed(self) -> bool {
        &&& self.ids.len() == self.tracks.len()
        &&& self.ids.no_duplicates()
    }
}

fn copy_text(s: &Option<String>) -> (c: Option<String>)
    ensures
        c == *s,
{
    match s {
        Some(text) => Some(text.clone()),
        None => None,
    }
}

impl Track {
    /// A track with the same fields.
    pub fn duplicate(&self) -> (copy: Track)
        ensures
            copy == *self,
    {
        Track {
            name: self.name.clone(),
            artist: self.artist.clone(),
            album: copy_text(&self.album),
            year: self.year,
            genre: copy_text(&self.genre),
        }
    }
}

impl Playlist {
    #[verifier::type_invariant]
    spec fn ids_are_distinct(self) -> bool {
        forall|i: int, j: int|
            0 <= i < j < self.entries@.len() ==> self.entries@[i].id@ != self.entries@[j].id@
    }

    /// A playlist without tracks.
    pub fn new(major_version: i32, music_folder: String) -> (playlist: Playlist)
        ensures
            playlist@.major_version == major_version,
            playlist@.music_folder == music_folder@,
            playlist@.ids == Seq::<Seq<char>>::empty(),
            playlist@.tracks == Seq::<Track>::empty(),
            playlist@.well_formed(),
    {
        Playlist { major_version, music_folder, entries: Vec::new() }
    }

    pub fn major_version(&self) -> (v: i32)
        ensures
            v == self@.major_version,
    {
        self.major_version
    }

    pub fn music_folder(&self) -> (s: &str)
        ensures
            s@ == self@.music_folder,
    {
        self.music_folder.as_str()
    }

    /// The number of tracks.
    pub fn len(&self) -> (n: usize)
        ensures
            n == self@.tracks.len(),
            self@.well_formed(),
    {
        proof {
            use_type_invariant(self);
        }
        self.entries.len()
    }

    pub fn is_empty(&self) -> (b: bool)
        ensures
            b == (self@.tracks.len() == 0),
    {
        self.entries.len() == 0
    }

    /// The id of the track at `index`.
    pub fn id(&self, index: usize) -> (s: &str)
        requires
            index < self@.tracks.len(),
        ensures
            s@ == self@.ids[index as int],
    {
        self.entries[index].id.as_str()
    }

    /// The track at `index`.
    pub fn track(&self, index: usize) -> (t: &Track)
        requires
            index < self@.tracks.len(),
        ensures
            *t == self@.tracks[index as int],
    {
        &self.entries[index].track
    }

    /// The tracks, in order.
    pub fn tracks(&self) -> (list: Vec<Track>)
        ensures
            list@ == self@.tracks,
    {
        let mut list: Vec<Track> = Vec::new();
        let mut i: usize = 0;
        while i < self.entries.len()
            invariant
                i <= self.entries@.len(),
                list@ == self@.tracks.subrange(0, i as int),
            decreases self.entries@.len() - i,
        {
            list.push(self.entries[i].track.duplicate());
            assert(list@ =~= self@.tracks.subrange(0, i + 1));
            i += 1;
        }
        assert(list@ =~= self@.tracks);
        list
    }

    /// Puts `track` in under `id`. Where the playlist holds a track under
    /// that id, the new one takes its place and the old one is handed back;
    /// else the new one goes to the end.
    pub fn insert(&mut self, id: String, track: Track) -> (replaced: Option<Track>)
        ensures
            final(self)@.major_version == old(self)@.major_version,
            final(self)@.music_folder == old(self)@.music_folder,
            final(self)@.well_formed(),
            !old(self)@.ids.contains(id@) ==> replaced is None && final(self)@.ids == old(
                self,
            )@.ids.push(id@) && final(self)@.tracks == old(self)@.tracks.push(track),
            old(self)@.ids.contains(id@) ==> replaced is Some && final(self)@.ids == old(self)@.ids
                && exists|i: int|
                0 <= i < old(self)@.ids.len() && old(self)@.ids[i] == id@ && replaced == Some(
                    old(self)@.tracks[i],
                ) && final(self)@.tracks == old(self)@.tracks.update(i, track),
    {
        proof {
            use_type_invariant(&*self);
        }
        let mut entries: Vec<Entry> = Vec::new();
        core::mem::swap(&mut entries, &mut self.entries);
        let ghost before = entries@;
        let n: usize = entries.len();
        let mut i: usize = 0;
        while i < n && !(entries[i].id == id)
            invariant
                entries@ == before,
                n == before.len(),
                i <= n,
                forall|k: int| 0 <= k < i ==> before[k].id@ != id@,
            decreases n - i,
        {
            i += 1;
        }
        let replaced = if i < n {
            entries.push(Entry { id, track });
            let displaced = entries.swap_remove(i);
            assert(old(self)@.ids[i as int] == id@);
            assert(Seq::new(entries@.len(), |k: int| entries@[k].id@) =~= old(self)@.ids);
            assert(Seq::new(entries@.len(), |k: int| entries@[k].track) =~= old(
                self,
            )@.tracks.update(i as int, track));
            Some(displaced.track)
        } else {
            assert(!old(self)@.ids.contains(id@));
            entries.push(Entry { id, track });
            assert(Seq::new(entries@.len(), |k: int| entries@[k].id@) =~= old(self)@.ids.push(id@));
            assert(Seq::new(entries@.len(), |k: int| entries@[k].track) =~= old(
                self,
            )@.tracks.push(track));
            None
        };
        self.entries = entries;
        replaced
    }
}

/// Says whether a playlist can be read from a path: it must exist and name
/// a file.
pub fn check_playlist_path(exists: bool, is_file: bool) -> (r: Result<(), Error>)
    ensures
        exists && is_file <==> r is Ok,
        !exists ==> r is Err && r->Err_0.kind is FileNotFound && r->Err_0.kind->FileNotFound_0@
            == "Can't find playlist file"@,
        exists && !is_file ==> r is Err && r->Err_0.kind is NotAFile && r->Err_0.kind->NotAFile_0@
            == "Expected a playlist file, found a directory"@,
{
    if !exists {
        return Err(Error::new(ErrorKind::FileNotFound("Can't find playlist file".to_owned())));
    }
    if !is_file {
        return Err(
            Error::new(
                ErrorKind::NotAFile("Expected a playlist file, found a directory".to_owned()),
            ),
        );
    }
    Ok(())
}

/// Reads the end of the reading of a playlist file: the playlist where the
/// reader gave one; where it gave up, an error that says so, whatever its
/// reason was.
pub fn load_playlist(parsed: Option<Playlist>) -> (r: Result<Playlist, Error>)
    ensures
        parsed is Some ==> r == Ok::<Playlist, Error>(parsed->0),
        parsed is None ==> r is Err && r->Err_0.kind is PlistError && r->Err_0.kind->PlistError_0@
            == "Failed to load plist"@,
{
    match parsed {
        Some(playlist) => Ok(playlist),
        None => Err(Error::new(ErrorKind::PlistError("Failed to load plist".to_owned()))),
    }
}

impl DisplayTrack for Track {
    open spec fn name_text(&self) -> Seq<char> {
        self.name@
    }

    open spec fn artist_text(&self) -> Seq<char> {
        self.artist@
    }

    open spec fn album_text(&self) -> Option<Seq<char>> {
        match self.album {
            Some(album) => Some(album@),
            None => None,
        }
    }

    open spec fn uri_text(&self) -> Seq<char> {
        "n/a"@
    }

    fn name(&self) -> (s: &str) {
        self.name.as_str()
    }

    fn artist(&self) -> (s: String) {
        self.artist.clone()
    }

    fn album(&self) -> (s: Option<&String>) {
        self.album.as_ref()
    }

    fn spotify_uri(&self) -> (s: &str) {
        "n/a"
    }
}

} // verus!
