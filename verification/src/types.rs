//! What a track shows of itself, whether it comes from a local playlist or
//! from the remote catalog.

use vstd::prelude::*;

verus! {

/// A track that can be shown as a row of four texts: its name, its artist,
/// its album and the reference under which the remote catalog knows it.
pub trait DisplayTrack {
    /// The track's name.
    spec fn name_text(&self) -> Seq<char>;

    /// The track's artist, or artists, as one text.
    spec fn artist_text(&self) -> Seq<char>;

    /// The name of the album, where one is known.
    spec fn album_text(&self) -> Option<Seq<char>>;

    /// The reference of the track in the remote catalog.
    spec fn uri_text(&self) -> Seq<char>;

    fn name(&self) -> (s: &str)
        ensures
            s@ == self.name_text(),
    ;

    fn artist(&self) -> (s: String)
        ensures
            s@ == self.artist_text(),
    ;

    fn album(&self) -> (s: Option<&String>)
        ensures
            s is Some == self.album_text() is Some,
            s is Some ==> s->0@ == self.album_text()->0,
    ;

    fn spotify_uri(&self) -> (s: &str)
        ensures
            s@ == self.uri_text(),
    ;
}

} // verus!
