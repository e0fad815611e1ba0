//! Tables of tracks and playlists, ready to be printed.

use crate::spotify::RemotePlaylist;
use crate::types::DisplayTrack;
use prettytable::format::consts::FORMAT_NO_BORDER_LINE_SEPARATOR;
use prettytable::{Cell, Row, Table};
use vstd::prelude::*;
use vstd::string::*;

verus! {

/// A table of prettytable: rows of cells, with or without a row of titles.
#[verifier::external_type_specification]
#[verifier::external_body]
pub struct ExTable(Table);

/// A row of a table.
#[verifier::external_type_specification]
#[verifier::external_body]
pub struct ExRow(Row);

/// A cell of a row.
#[verifier::external_type_specification]
#[verifier::external_body]
pub struct ExCell(Cell);

/// The text that a cell holds: its lines, with a line feed between them.
pub uninterp spec fn cell_content(cell: Cell) -> Seq<char>;

/// The texts of the cells of a row, in order.
pub uninterp spec fn row_cells(row: Row) -> Seq<Seq<char>>;

/// The rows of a table below its titles, in order, each as the texts of its
/// cells.
pub uninterp spec fn table_rows(table: Table) -> Seq<Seq<Seq<char>>>;

/// The titles of a table, where it has any, as the texts of their cells.
pub uninterp spec fn table_titles(table: Table) -> Option<Seq<Seq<char>>>;

/// The text that a cell made from `text` holds.
pub uninterp spec fn cell_text(text: Seq<char>) -> Seq<char>;

/// Whether the format of a table is the plain one: no border, a `|` between
/// columns, and a line only below the titles.
pub uninterp spec fn table_is_plain(table: Table) -> bool;

/// Whether prettytable can measure `text`: it holds no escape character.
/// The width of a text is counted with the colour codes of a terminal
/// left out, and that count is only sound where no escape opens such a
/// code.
pub open spec fn is_measurable(text: Seq<char>) -> bool {
    !text.contains('\u{1b}')
}

/// Calls `Cell::new`, which cuts the text into its lines, keeps them and
/// measures the widest. The measuring gives up on some texts that hold an
/// escape character, so none of those is let in. The cell holds what the
/// text comes to by the cutting; a text without a line feed or a carriage
/// return is a single line, and is held as it is.
#[verifier::external_body]
fn new_cell(text: &str) -> (cell: Cell)
    requires
        is_measurable(text@),
    ensures
        cell_content(cell) == cell_text(text@),
        !text@.contains('\n') && !text@.contains('\r') ==> cell_content(cell) == text@,
{
    Cell::new(text)
}

/// Calls `Row::new`: the row holds the cells it is given, in their order.
#[verifier::external_body]
fn new_row(cells: Vec<Cell>) -> (row: Row)
    ensures
        row_cells(row) == Seq::new(cells@.len(), |i: int| cell_content(cells@[i])),
{
    Row::new(cells)
}

/// Calls `Table::new`: a table without rows and without titles, in the
/// default format, which draws borders and so is not the plain one.
#[verifier::external_body]
fn new_table() -> (table: Table)
    ensures
        table_rows(table) == Seq::<Seq<Seq<char>>>::empty(),
        table_titles(table) is None,
        !table_is_plain(table),
{
    Table::new()
}

/// Calls `Table::set_format` with the format that draws no border and
/// separates lines only below the titles: the table has that format from
/// then on. Rows and titles stay as they are.
#[verifier::external_body]
fn set_plain_format(table: &mut Table)
    ensures
        table_is_plain(*final(table)),
        table_rows(*final(table)) == table_rows(*old(table)),
        table_titles(*final(table)) == table_titles(*old(table)),
{
    table.set_format(*FORMAT_NO_BORDER_LINE_SEPARATOR);
}

/// Calls `Table::set_titles`: the row becomes the titles of the table,
/// in place of any it had. The rows and the format stay as they are.
#[verifier::external_body]
fn set_titles(table: &mut Table, titles: Row)
    ensures
        table_titles(*final(table)) == Some(row_cells(titles)),
        table_rows(*final(table)) == table_rows(*old(table)),
        table_is_plain(*final(table)) == table_is_plain(*old(table)),
{
    table.set_titles(titles);
}

/// Calls `Table::add_row`: the row goes below the rows of the table. The
/// titles and the format stay as they are.
#[verifier::external_body]
fn add_row(table: &mut Table, row: Row)
    ensures
        table_rows(*final(table)) == table_rows(*old(table)).push(row_cells(row)),
        table_titles(*final(table)) == table_titles(*old(table)),
        table_is_plain(*final(table)) == table_is_plain(*old(table)),
{
    table.add_row(row);
}

/// Whether `text` is a single line: it holds no line feed and no carriage
/// return.
pub open spec fn is_single_line(text: Seq<char>) -> bool {
    !text.contains('\n') && !text.contains('\r')
}

/// The text that a cell shows of `text`: the text itself where it is a
/// single line, else what the cell keeps of its lines.
pub open spec fn shown(text: Seq<char>) -> Seq<char> {
    if is_single_line(text) {
        text
    } else {
        cell_text(text)
    }
}

/// The texts that the cells made from `texts` show.
pub open spec fn cell_texts(texts: Seq<Seq<char>>) -> Seq<Seq<char>> {
    Seq::new(texts.len(), |i: int| shown(texts[i]))
}

/// Whether `text` can stand as a label: a single line that can be measured.
pub open spec fn is_label(text: Seq<char>) -> bool {
    is_single_line(text) && is_measurable(text)
}

/// The labels of the tables, and the empty text, are single lines without
/// an escape character: a cell can be made of each, and shows it as it is.
pub proof fn lemma_labels_are_shown_as_they_are()
    ensures
        is_label("Name"@) && shown("Name"@) == "Name"@,
        is_label("Arist"@) && shown("Arist"@) == "Arist"@,
        is_label("Artist"@) && shown("Artist"@) == "Artist"@,
        is_label("Album"@) && shown("Album"@) == "Album"@,
        is_label("Spotify URI"@) && shown("Spotify URI"@) == "Spotify URI"@,
        is_label(""@) && shown(""@) == ""@,
{
    reveal_strlit("Name");
    reveal_strlit("Arist");
    reveal_strlit("Artist");
    reveal_strlit("Album");
    reveal_strlit("Spotify URI");
    reveal_strlit("");
    assert(is_label("Name"@));
    assert(is_label("Arist"@));
    assert(is_label("Artist"@));
    assert(is_label("Album"@));
    assert(is_label("Spotify URI"@));
    assert(is_label(""@));
}

/// The four texts that a track is shown by: name, artist, album (empty
/// where the track has none) and reference.
pub open spec fn track_texts<T: DisplayTrack>(track: &T) -> Seq<Seq<char>> {
    seq![
        track.name_text(),
        track.artist_text(),
        match track.album_text() {
            Some(album) => album,
            None => Seq::empty(),
        },
        track.uri_text(),
    ]
}

/// The two texts that a playlist is shown by: name and reference.
pub open spec fn playlist_texts(playlist: RemotePlaylist) -> Seq<Seq<char>> {
    seq![playlist.name@, playlist.uri@]
}

/// Whether each text that a track is shown by can be measured.
pub open spec fn track_is_measurable<T: DisplayTrack>(track: &T) -> bool {
    &&& is_measurable(track.name_text())
    &&& is_measurable(track.artist_text())
    &&& track.album_text() is Some ==> is_measurable(track.album_text()->0)
    &&& is_measurable(track.uri_text())
}

/// Whether each text that a playlist is shown by can be measured.
pub open spec fn playlist_is_measurable(playlist: RemotePlaylist) -> bool {
    is_measurable(playlist.name@) && is_measurable(playlist.uri@)
}

/// The texts of `texts`, in order.
pub open spec fn texts_of(texts: Seq<&str>) -> Seq<Seq<char>> {
    Seq::new(texts.len(), |i: int| texts[i]@)
}

/// Says whether `text` can be measured.
pub fn is_measurable_text(text: &str) -> (b: bool)
    ensures
        b == is_measurable(text@),
{
    let n: usize = text.unicode_len();
    let mut i: usize = 0;
    while i < n
        invariant
            n == text@.len(),
            i <= n,
            forall|k: int| 0 <= k < i ==> text@[k] != '\u{1b}',
        decreases n - i,
    {
        if text.get_char(i) == '\u{1b}' {
            return false;
        }
        i += 1;
    }
    true
}

/// Says whether each text that `track` is shown by can be measured.
pub fn is_measurable_track<T: DisplayTrack>(track: &T) -> (b: bool)
    ensures
        b == track_is_measurable(track),
{
    let artist = track.artist();
    let album = match track.album() {
        Some(album) => is_measurable_text(album.as_str()),
        None => true,
    };
    is_measurable_text(track.name()) && is_measurable_text(artist.as_str()) && album
        && is_measurable_text(track.spotify_uri())
}

/// Says whether each text that `playlist` is shown by can be measured.
pub fn is_measurable_playlist(playlist: &RemotePlaylist) -> (b: bool)
    ensures
        b == playlist_is_measurable(*playlist),
{
    is_measurable_text(playlist.name.as_str()) && is_measurable_text(playlist.uri.as_str())
}

fn text_row(texts: Vec<&str>) -> (row: Row)
    requires
        forall|k: int| 0 <= k < texts@.len() ==> is_measurable(#[trigger] texts@[k]@),
    ensures
        row_cells(row) == cell_texts(texts_of(texts@)),
{
    let mut cells: Vec<Cell> = Vec::new();
    let mut i: usize = 0;
    while i < texts.len()
        invariant
            i <= texts@.len(),
            cells@.len() == i,
            forall|k: int| 0 <= k < texts@.len() ==> is_measurable(#[trigger] texts@[k]@),
            forall|k: int| 0 <= k < i ==> cell_content(#[trigger] cells@[k]) == shown(texts@[k]@),
        decreases texts@.len() - i,
    {
        cells.push(new_cell(texts[i]));
        i += 1;
    }
    let row = new_row(cells);
    assert(row_cells(row) =~= cell_texts(texts_of(texts@)));
    row
}

fn pair_row(first: &str, second: &str) -> (row: Row)
    requires
        is_measurable(first@),
        is_measurable(second@),
    ensures
        row_cells(row) == cell_texts(seq![first@, second@]),
        row_cells(row) == seq![shown(first@), shown(second@)],
{
    let mut texts: Vec<&str> = Vec::new();
    texts.push(first);
    texts.push(second);
    assert(texts_of(texts@) =~= seq![first@, second@]);
    assert(cell_texts(seq![first@, second@]) =~= seq![shown(first@), shown(second@)]);
    text_row(texts)
}

/// The album of a track as it is shown: empty where the track has none.
fn album_shown<'a, T: DisplayTrack>(track: &'a T) -> (album: &'a str)
    ensures
        album@ == track_texts(track)[2],
{
    proof {
        reveal_strlit("");
        assert(""@ =~= Seq::<char>::empty());
    }
    match track.album() {
        Some(album) => album.as_str(),
        None => "",
    }
}

fn track_row<T: DisplayTrack>(track: &T) -> (row: Row)
    requires
        track_is_measurable(track),
    ensures
        row_cells(row) == cell_texts(track_texts(track)),
{
    let artist = track.artist();
    let mut texts: Vec<&str> = Vec::new();
    texts.push(track.name());
    texts.push(artist.as_str());
    texts.push(album_shown(track));
    texts.push(track.spotify_uri());
    proof {
        lemma_labels_are_shown_as_they_are();
        assert(texts_of(texts@) =~= track_texts(track));
    }
    text_row(texts)
}

/// The table of one playlist, in the plain format: a row for its name and
/// a row for its reference, each behind its label, without titles.
pub fn tabulate_playlist(playlist: &RemotePlaylist) -> (table: Table)
    requires
        playlist_is_measurable(*playlist),
    ensures
        table_is_plain(table),
        table_titles(table) is None,
        table_rows(table) == seq![
            seq!["Name"@, shown(playlist.name@)],
            seq!["Spotify URI"@, shown(playlist.uri@)],
        ],
{
    proof {
        lemma_labels_are_shown_as_they_are();
    }
    let mut table = new_table();
    set_plain_format(&mut table);
    let name = pair_row("Name", playlist.name.as_str());
    add_row(&mut table, name);
    let uri = pair_row("Spotify URI", playlist.uri.as_str());
    add_row(&mut table, uri);
    assert(table_rows(table) =~= seq![
        seq!["Name"@, shown(playlist.name@)],
        seq!["Spotify URI"@, shown(playlist.uri@)],
    ]);
    table
}

/// The table of some playlists, in the plain format: the titles `Name` and
/// `Spotify URI`, and below them a row for each playlist, in order, with
/// its name and its reference.
pub fn tabulate_playlists(playlists: &[RemotePlaylist]) -> (table: Table)
    requires
        forall|i: int| 0 <= i < playlists@.len() ==> playlist_is_measurable(#[trigger] playlists@[i]),
    ensures
        table_is_plain(table),
        table_titles(table) == Some(seq!["Name"@, "Spotify URI"@]),
        table_rows(table) == Seq::new(
            playlists@.len(),
            |i: int| cell_texts(playlist_texts(playlists@[i])),
        ),
{
    proof {
        lemma_labels_are_shown_as_they_are();
    }
    let mut table = new_table();
    set_plain_format(&mut table);
    let titles = pair_row("Name", "Spotify URI");
    set_titles(&mut table, titles);
    let mut i: usize = 0;
    while i < playlists.len()
        invariant
            i <= playlists@.len(),
            forall|k: int|
                0 <= k < playlists@.len() ==> playlist_is_measurable(#[trigger] playlists@[k]),
            table_is_plain(table),
            table_titles(table) == Some(seq!["Name"@, "Spotify URI"@]),
            table_rows(table) == Seq::new(
                i as nat,
                |k: int| cell_texts(playlist_texts(playlists@[k])),
            ),
        decreases playlists@.len() - i,
    {
        let playlist = &playlists[i];
        let row = pair_row(playlist.name.as_str(), playlist.uri.as_str());
        add_row(&mut table, row);
        assert(table_rows(table) =~= Seq::new(
            (i + 1) as nat,
            |k: int| cell_texts(playlist_texts(playlists@[k])),
        ));
        i += 1;
    }
    table
}

/// The table of one track, in the plain format: a row each for its name,
/// its artist, its album and its reference, each behind its label, without
/// titles.
pub fn tabulate_track<T: DisplayTrack>(track: &T) -> (table: Table)
    requires
        track_is_measurable(track),
    ensures
        table_is_plain(table),
        table_titles(table) is None,
        table_rows(table) == seq![
            seq!["Name"@, shown(track_texts(track)[0])],
            seq!["Arist"@, shown(track_texts(track)[1])],
            seq!["Album"@, shown(track_texts(track)[2])],
            seq!["Spotify URI"@, shown(track_texts(track)[3])],
        ],
{
    proof {
        lemma_labels_are_shown_as_they_are();
    }
    let mut table = new_table();
    set_plain_format(&mut table);
    let name = pair_row("Name", track.name());
    add_row(&mut table, name);
    let artist = track.artist();
    let artist_row = pair_row("Arist", artist.as_str());
    add_row(&mut table, artist_row);
    let album_row = pair_row("Album", album_shown(track));
    add_row(&mut table, album_row);
    let uri = pair_row("Spotify URI", track.spotify_uri());
    add_row(&mut table, uri);
    assert(table_rows(table) =~= seq![
        seq!["Name"@, shown(track_texts(track)[0])],
        seq!["Arist"@, shown(track_texts(track)[1])],
        seq!["Album"@, shown(track_texts(track)[2])],
        seq!["Spotify URI"@, shown(track_texts(track)[3])],
    ]);
    table
}

/// The table of some tracks, in the plain format: the titles `Name`,
/// `Artist`, `Album` and `Spotify URI`, and below them a row for each
/// track, in order.
pub fn tabulate_tracks<T: DisplayTrack>(tracks: &[T]) -> (table: Table)
    requires
        forall|i: int| 0 <= i < tracks@.len() ==> track_is_measurable(#[trigger] &tracks@[i]),
    ensures
        table_is_plain(table),
        table_titles(table) == Some(seq!["Name"@, "Artist"@, "Album"@, "Spotify URI"@]),
        table_rows(table) == Seq::new(
            tracks@.len(),
            |i: int| cell_texts(track_texts(&tracks@[i])),
        ),
{
    proof {
        lemma_labels_are_shown_as_they_are();
    }
    let mut table = new_table();
    set_plain_format(&mut table);
    let mut titles: Vec<&str> = Vec::new();
    titles.push("Name");
    titles.push("Artist");
    titles.push("Album");
    titles.push("Spotify URI");
    proof {
        assert(texts_of(titles@) =~= seq!["Name"@, "Artist"@, "Album"@, "Spotify URI"@]);
        assert(cell_texts(seq!["Name"@, "Artist"@, "Album"@, "Spotify URI"@]) =~= seq![
            "Name"@,
            "Artist"@,
            "Album"@,
            "Spotify URI"@,
        ]);
    }
    let title_row = text_row(titles);
    set_titles(&mut table, title_row);
    let mut i: usize = 0;
    while i < tracks.len()
        invariant
            i <= tracks@.len(),
            forall|k: int| 0 <= k < tracks@.len() ==> track_is_measurable(#[trigger] &tracks@[k]),
            table_is_plain(table),
            table_titles(table) == Some(seq!["Name"@, "Artist"@, "Album"@, "Spotify URI"@]),
            table_rows(table) == Seq::new(
                i as nat,
                |k: int| cell_texts(track_texts(&tracks@[k])),
            ),
        decreases tracks@.len() - i,
    {
        let row = track_row(&tracks[i]);
        add_row(&mut table, row);
        assert(table_rows(table) =~= Seq::new(
            (i + 1) as nat,
            |k: int| cell_texts(track_texts(&tracks@[k])),
        ));
        i += 1;
    }
    table
}

} // verus!
