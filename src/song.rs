use vstd::prelude::*;
use crate::paths::{file_name_of, last_component, parent_prefix, with_file_name};
use crate::selection::{cursor_fits, next_index, previous_index, step_down, step_up, strings_equal};
use crate::tags::{empty_tag, is_vorbis_key, set_vorbis_values, vorbis_of, vorbis_values};
use crate::text::{artist_tokens, colon_joined, contains_text, decimal, decimal_text, holds_text, join_artists, split_artists, storable_name, lemma_tokens_of_joined};

verus! {

/// Where a record's metadata was last taken from.
#[derive(Clone, Copy, Debug, PartialEq, Eq, Structural)]
pub enum MetadataSource {
    File,
    Database,
}

/// What went wrong in an operation on a record or the browse listing.
#[derive(Clone, Copy, Debug, PartialEq, Eq, Structural)]
pub enum TrackError {
    TagReadError,
    TagWriteError,
    RenameError,
    ListError,
}

/// The editable fields, in the order the record lists them.
#[derive(Clone, Copy, Debug, PartialEq, Eq, Structural)]
pub enum Field {
    FileName,
    Title,
    Artists,
    Album,
}

/// A rename the caller is asked to carry out on disk.
#[derive(Clone, Debug)]
pub struct FileRename {
    pub from: String,
    pub to: String,
    pub name: String,
}

/// The scalar fields of a record as they are stored, artists joined with `:`.
#[derive(Clone, Debug)]
pub struct SongRecord {
    pub id: Option<usize>,
    pub path: String,
    pub file_name: String,
    pub title: Option<String>,
    pub artists: Option<String>,
    pub album: Option<String>,
    pub genre: Option<String>,
    pub youtube_id: Option<String>,
    pub thumbnail_url: Option<String>,
}

pub open spec fn opt_text(o: Option<String>) -> Option<Seq<char>> {
    match o {
        Some(s) => Some(s@),
        None => None,
    }
}

pub open spec fn opt_list(o: Option<Vec<String>>) -> Option<Seq<Seq<char>>> {
    match o {
        Some(v) => Some(v.deep_view()),
        None => None,
    }
}

pub open spec fn or_none(o: Option<Seq<char>>) -> Seq<char> {
    match o {
        Some(t) => t,
        None => "None"@,
    }
}

pub open spec fn artists_text(a: Option<Seq<Seq<char>>>) -> Seq<char> {
    match a {
        Some(l) => colon_joined(l),
        None => "None"@,
    }
}

/// The lines a record shows, in order: file name, title, artists, album.
pub open spec fn display_lines(
    name: Seq<char>,
    title: Option<Seq<char>>,
    artists: Option<Seq<Seq<char>>>,
    album: Option<Seq<char>>,
) -> Seq<Seq<char>> {
    seq![
        "File name: "@ + name,
        "Title: "@ + or_none(title),
        "Artists: "@ + artists_text(artists),
        "Album: "@ + or_none(album),
    ]
}

pub open spec fn lookup(m: Map<Seq<char>, Seq<Seq<char>>>, k: Seq<char>) -> Option<Seq<Seq<char>>> {
    if m.contains_key(k) {
        Some(m[k])
    } else {
        None
    }
}

pub open spec fn first_of(o: Option<Seq<Seq<char>>>) -> Option<Seq<char>> {
    match o {
        Some(v) => if v.len() > 0 {
            Some(v[0])
        } else {
            None
        },
        None => None,
    }
}

pub open spec fn tag_title(m: Map<Seq<char>, Seq<Seq<char>>>) -> Option<Seq<char>> {
    first_of(lookup(m, "TITLE"@))
}

pub open spec fn tag_artists(m: Map<Seq<char>, Seq<Seq<char>>>) -> Option<Seq<Seq<char>>> {
    lookup(m, "ARTIST"@)
}

pub open spec fn tag_album(m: Map<Seq<char>, Seq<Seq<char>>>) -> Option<Seq<char>> {
    first_of(lookup(m, "ALBUM"@))
}

/// One line describing a record: title, artists, id and album, `None` for what is
/// missing.
pub open spec fn summary_text(s: Song) -> Seq<char> {
    or_none(opt_text(s.title)) + " - "@ + artists_text(opt_list(s.artists)) + " [ID: "@ + match s.id {
        Some(n) => decimal(n as nat),
        None => "None"@,
    } + ", Album: "@ + or_none(opt_text(s.album)) + "]"@
}

/// A stored artist field decoded.
pub open spec fn decoded_artists(a: Option<Seq<char>>) -> Option<Seq<Seq<char>>> {
    match a {
        Some(s) => Some(artist_tokens(s)),
        None => None,
    }
}

/// Artists encoded for storage.
pub open spec fn encoded_artists(a: Option<Seq<Seq<char>>>) -> Option<Seq<char>> {
    match a {
        Some(l) => Some(colon_joined(l)),
        None => None,
    }
}

/// A file name given by the user, with `.flac` added unless it mentions `flac`.
pub open spec fn flac_name(v: Seq<char>) -> Seq<char> {
    if holds_text(v, "flac"@) {
        v
    } else {
        v + ".flac"@
    }
}

/// The field a line of the record edits.
pub open spec fn field_at(i: usize) -> Option<Field> {
    if i == 0 {
        Some(Field::FileName)
    } else if i == 1 {
        Some(Field::Title)
    } else if i == 2 {
        Some(Field::Artists)
    } else if i == 3 {
        Some(Field::Album)
    } else {
        None
    }
}

/// The user-visible fields of two records agree.
pub open spec fn same_fields(a: Song, b: Song) -> bool {
    &&& opt_text(a.title) == opt_text(b.title)
    &&& opt_list(a.artists) == opt_list(b.artists)
    &&& opt_text(a.album) == opt_text(b.album)
    &&& opt_text(a.genre) == opt_text(b.genre)
    &&& opt_text(a.youtube_id) == opt_text(b.youtube_id)
    &&& opt_text(a.thumbnail_url) == opt_text(b.thumbnail_url)
    &&& a.file_name@ == b.file_name@
    &&& a.file_path@ == b.file_path@
}

/// `rec` holds the scalar fields of `s`.
pub open spec fn persisted_as(s: Song, rec: SongRecord) -> bool {
    &&& rec.id == s.id
    &&& rec.path@ == s.file_path@
    &&& rec.file_name@ == s.file_name@
    &&& opt_text(rec.title) == opt_text(s.title)
    &&& opt_text(rec.artists) == encoded_artists(opt_list(s.artists))
    &&& opt_text(rec.album) == opt_text(s.album)
    &&& opt_text(rec.genre) == opt_text(s.genre)
    &&& opt_text(rec.youtube_id) == opt_text(s.youtube_id)
    &&& opt_text(rec.thumbnail_url) == opt_text(s.thumbnail_url)
}

/// `s` is the record rebuilt from the stored fields `rec`.
pub open spec fn loaded_from(rec: SongRecord, s: Song) -> bool {
    &&& s.id == rec.id
    &&& s.file_path@ == rec.path@
    &&& s.file_name@ == rec.file_name@
    &&& opt_text(s.title) == opt_text(rec.title)
    &&& opt_list(s.artists) == decoded_artists(opt_text(rec.artists))
    &&& opt_text(s.album) == opt_text(rec.album)
    &&& opt_text(s.genre) == opt_text(rec.genre)
    &&& opt_text(s.youtube_id) == opt_text(rec.youtube_id)
    &&& opt_text(s.thumbnail_url) == opt_text(rec.thumbnail_url)
    &&& s.selected is None
    &&& !s.initialized
    &&& s.metadata_source == MetadataSource::Database
    &&& s.wf()
}

/// Artists that every stored field can give back: each name storable.
pub open spec fn storable_artists(a: Option<Seq<Seq<char>>>) -> bool {
    match a {
        Some(l) => forall|i: int| 0 <= i < l.len() ==> storable_name(#[trigger] l[i]),
        None => true,
    }
}

/// The fields that no edit of title, artists or album touches.
pub open spec fn same_identity(a: Song, b: Song) -> bool {
    &&& a.id == b.id
    &&& a.file_path@ == b.file_path@
    &&& a.file_name@ == b.file_name@
    &&& opt_text(a.genre) == opt_text(b.genre)
    &&& opt_text(a.youtube_id) == opt_text(b.youtube_id)
    &&& opt_text(a.thumbnail_url) == opt_text(b.thumbnail_url)
    &&& a.selected == b.selected
    &&& a.initialized == b.initialized
    &&& a.metadata_source == b.metadata_source
}

/// The tag fields of `b` are those of `a`.
pub open spec fn same_tag_fields(a: Song, b: Song) -> bool {
    &&& opt_text(a.title) == opt_text(b.title)
    &&& opt_list(a.artists) == opt_list(b.artists)
    &&& opt_text(a.album) == opt_text(b.album)
    &&& a.tag == b.tag
}

/// What `set_field(field, value)` does, taking `old` to `new` and answering `r`.
pub open spec fn field_set(old: Song, new: Song, field: Field, value: Seq<char>, r: Option<FileRename>) -> bool {
    match field {
        Field::FileName => {
            &&& r matches Some(req) && {
                &&& req.from@ == old.file_path@
                &&& req.name@ == flac_name(value)
                &&& req.to@ == parent_prefix(old.file_path@) + flac_name(value)
            }
            &&& same_identity(old, new)
            &&& same_tag_fields(old, new)
        },
        Field::Title => {
            &&& r is None
            &&& same_identity(old, new)
            &&& opt_text(new.title) == Some(value)
            &&& opt_list(new.artists) == opt_list(old.artists)
            &&& opt_text(new.album) == opt_text(old.album)
            &&& vorbis_of(new.tag) == vorbis_of(old.tag).insert("TITLE"@, seq![value])
        },
        Field::Artists => {
            &&& r is None
            &&& same_identity(old, new)
            &&& opt_text(new.title) == opt_text(old.title)
            &&& opt_list(new.artists) == Some(artist_tokens(value))
            &&& opt_text(new.album) == opt_text(old.album)
            &&& vorbis_of(new.tag) == vorbis_of(old.tag).insert("ARTIST"@, artist_tokens(value))
        },
        Field::Album => {
            &&& r is None
            &&& same_identity(old, new)
            &&& opt_text(new.title) == opt_text(old.title)
            &&& opt_list(new.artists) == opt_list(old.artists)
            &&& opt_text(new.album) == Some(value)
            &&& vorbis_of(new.tag) == vorbis_of(old.tag).insert("ALBUM"@, seq![value])
        },
    }
}

/// What `edit(value)` does: the field under the cursor is set, or nothing changes.
pub open spec fn edited(old: Song, new: Song, value: Seq<char>, r: Option<FileRename>) -> bool {
    match old.selected {
        Some(i) => match field_at(i) {
            Some(f) => field_set(old, new, f, value, r),
            None => r is None && new == old,
        },
        None => r is None && new == old,
    }
}

pub(crate) proof fn lemma_tag_keys()
    ensures
        is_vorbis_key("TITLE"@),
        is_vorbis_key("ARTIST"@),
        is_vorbis_key("ALBUM"@),
{
    reveal_strlit("TITLE");
    reveal_strlit("ARTIST");
    reveal_strlit("ALBUM");
}

/// The lines of a record as text: `label` followed by the value or `None`.
fn labelled(label: &str, value: &Option<String>) -> (r: String)
    ensures
        r@ == label@ + or_none(opt_text(*value)),
{
    let mut r = label.to_owned();
    match value {
        Some(v) => r.append(v.as_str()),
        None => r.append("None"),
    }
    r
}

fn first_value(vals: Option<Vec<String>>) -> (r: Option<String>)
    ensures
        opt_text(r) == first_of(opt_list(vals)),
{
    match vals {
        Some(v) => if v.len() > 0 {
            let s = v[0].clone();
            Some(s)
        } else {
            None
        },
        None => None,
    }
}

fn same_text(a: &Option<String>, b: &Option<String>) -> (r: bool)
    ensures
        r == (opt_text(*a) == opt_text(*b)),
{
    match (a, b) {
        (Some(x), Some(y)) => x.eq(y),
        (None, None) => true,
        _ => false,
    }
}

fn same_list(a: &Option<Vec<String>>, b: &Option<Vec<String>>) -> (r: bool)
    ensures
        r == (opt_list(*a) == opt_list(*b)),
{
    match (a, b) {
        (Some(x), Some(y)) => strings_equal(x, y),
        (None, None) => true,
        _ => false,
    }
}

/// One track: its file, its tag block, the fields read from it, and the lines shown
/// for it with a cursor over them.
pub struct Song {
    pub id: Option<usize>,
    pub file_path: String,
    pub file_name: String,
    pub tag: metaflac::Tag,
    pub title: Option<String>,
    pub artists: Option<Vec<String>>,
    pub album: Option<String>,
    pub genre: Option<String>,
    pub youtube_id: Option<String>,
    pub thumbnail_url: Option<String>,
    pub items: Vec<String>,
    pub selected: Option<usize>,
    pub initialized: bool,
    pub metadata_source: MetadataSource,
}

impl Song {
    /// Every field but the cursor is as in `other`.
    pub open spec fn same_except_cursor(&self, other: Song) -> bool {
        &&& self.id == other.id
        &&& self.file_path == other.file_path
        &&& self.file_name == other.file_name
        &&& self.tag == other.tag
        &&& self.title == other.title
        &&& self.artists == other.artists
        &&& self.album == other.album
        &&& self.genre == other.genre
        &&& self.youtube_id == other.youtube_id
        &&& self.thumbnail_url == other.thumbnail_url
        &&& self.items == other.items
        &&& self.initialized == other.initialized
        &&& self.metadata_source == other.metadata_source
    }

    /// The lines this record shows, from its current fields.
    pub open spec fn lines(&self) -> Seq<Seq<char>> {
        display_lines(self.file_name@, opt_text(self.title), opt_list(self.artists), opt_text(self.album))
    }

    /// The shown lines follow the fields, and the cursor points into them.
    pub open spec fn wf(&self) -> bool {
        &&& self.items.deep_view() == self.lines()
        &&& cursor_fits(self.selected, 4)
    }

    /// Recomputes the shown lines from the fields.
    fn populate_list_items(&mut self)
        requires
            cursor_fits(old(self).selected, 4),
        ensures
            final(self).wf(),
            same_identity(*old(self), *final(self)),
            same_tag_fields(*old(self), *final(self)),
    {
        let mut name_line = "File name: ".to_owned();
        name_line.append(self.file_name.as_str());
        let title_line = labelled("Title: ", &self.title);
        let mut artist_line = "Artists: ".to_owned();
        match &self.artists {
            Some(a) => {
                let joined = join_artists(a);
                artist_line.append(joined.as_str());
            },
            None => artist_line.append("None"),
        }
        let album_line = labelled("Album: ", &self.album);
        let items = vec![name_line, title_line, artist_line, album_line];
        proof {
            assert(items.deep_view() =~= self.lines());
        }
        self.items = items;
    }

    /// Takes title, artists and album from the tag block.
    fn init(&mut self)
        ensures
            opt_text(final(self).title) == tag_title(vorbis_of(old(self).tag)),
            opt_list(final(self).artists) == tag_artists(vorbis_of(old(self).tag)),
            opt_text(final(self).album) == tag_album(vorbis_of(old(self).tag)),
            final(self).initialized,
            final(self).tag == old(self).tag,
            final(self).id == old(self).id,
            final(self).file_path@ == old(self).file_path@,
            final(self).file_name@ == old(self).file_name@,
            opt_text(final(self).genre) == opt_text(old(self).genre),
            opt_text(final(self).youtube_id) == opt_text(old(self).youtube_id),
            opt_text(final(self).thumbnail_url) == opt_text(old(self).thumbnail_url),
            final(self).selected == old(self).selected,
            final(self).metadata_source == old(self).metadata_source,
    {
        proof {
            lemma_tag_keys();
        }
        self.title = first_value(vorbis_values(&self.tag, "TITLE"));
        self.artists = vorbis_values(&self.tag, "ARTIST");
        self.album = first_value(vorbis_values(&self.tag, "ALBUM"));
        self.initialized = true;
    }

    /// The record of the file at `path`, whose tag block the caller has read.
    pub fn from_tag(path: String, tag: metaflac::Tag) -> (r: Song)
        ensures
            r.wf(),
            r.file_path@ == path@,
            r.file_name@ == last_component(path@),
            r.tag == tag,
            opt_text(r.title) == tag_title(vorbis_of(tag)),
            opt_list(r.artists) == tag_artists(vorbis_of(tag)),
            opt_text(r.album) == tag_album(vorbis_of(tag)),
            r.id is None,
            r.genre is None,
            r.youtube_id is None,
            r.thumbnail_url is None,
            r.selected is None,
            r.initialized,
            r.metadata_source == MetadataSource::File,
    {
        let file_name = file_name_of(path.as_str());
        let mut song = Song {
            id: None,
            file_path: path,
            file_name,
            tag,
            title: None,
            artists: None,
            album: None,
            genre: None,
            youtube_id: None,
            thumbnail_url: None,
            items: Vec::new(),
            selected: None,
            initialized: false,
            metadata_source: MetadataSource::File,
        };
        song.init();
        song.populate_list_items();
        song
    }

    /// Rebuilds a record from its stored fields: artists split on `:` with empty names
    /// dropped, and a fresh tag block holding title, artists and album.
    pub fn from_record(rec: SongRecord) -> (r: Song)
        ensures
            loaded_from(rec, r),
            tag_title(vorbis_of(r.tag)) == opt_text(rec.title),
            tag_artists(vorbis_of(r.tag)) == decoded_artists(opt_text(rec.artists)),
            tag_album(vorbis_of(r.tag)) == opt_text(rec.album),
    {
        proof {
            lemma_tag_keys();
            reveal_strlit("TITLE");
            reveal_strlit("ARTIST");
            reveal_strlit("ALBUM");
        }
        let artists = match &rec.artists {
            Some(a) => Some(split_artists(a.as_str())),
            None => None,
        };
        let mut tag = empty_tag();
        proof {
            assert("TITLE"@ != "ARTIST"@);
            assert("TITLE"@[0] != "ALBUM"@[0]);
            assert("ARTIST"@ != "ALBUM"@);
        }
        match &rec.title {
            Some(t) => {
                let values = vec![t.clone()];
                proof {
                    assert(values.deep_view() =~= seq![t@]);
                }
                set_vorbis_values(&mut tag, "TITLE", values);
            },
            None => {},
        }
        match &artists {
            Some(a) => set_vorbis_values(&mut tag, "ARTIST", a.clone()),
            None => {},
        }
        match &rec.album {
            Some(a) => {
                let values = vec![a.clone()];
                proof {
                    assert(values.deep_view() =~= seq![a@]);
                }
                set_vorbis_values(&mut tag, "ALBUM", values);
            },
            None => {},
        }
        let mut song = Song {
            id: rec.id,
            file_path: rec.path,
            file_name: rec.file_name,
            tag,
            title: rec.title,
            artists,
            album: rec.album,
            genre: rec.genre,
            youtube_id: rec.youtube_id,
            thumbnail_url: rec.thumbnail_url,
            items: Vec::new(),
            selected: None,
            initialized: false,
            metadata_source: MetadataSource::Database,
        };
        song.populate_list_items();
        song
    }

    /// Rebuilds a record from the fields of a stored row.
    pub fn from_database(
        id: Option<usize>,
        path: String,
        file_name: String,
        title: Option<String>,
        artists: Option<String>,
        album: Option<String>,
        genre: Option<String>,
        youtube_id: Option<String>,
        thumbnail_url: Option<String>,
    ) -> (r: Song)
        ensures
            r.id == id,
            r.file_path@ == path@,
            r.file_name@ == file_name@,
            opt_text(r.title) == opt_text(title),
            opt_list(r.artists) == decoded_artists(opt_text(artists)),
            opt_text(r.album) == opt_text(album),
            opt_text(r.genre) == opt_text(genre),
            opt_text(r.youtube_id) == opt_text(youtube_id),
            opt_text(r.thumbnail_url) == opt_text(thumbnail_url),
            r.selected is None,
            !r.initialized,
            r.metadata_source == MetadataSource::Database,
            r.wf(),
    {
        Song::from_record(SongRecord { id, path, file_name, title, artists, album, genre, youtube_id, thumbnail_url })
    }

    /// The scalar fields to store, artists joined with `:`.
    pub fn to_record(&self) -> (r: SongRecord)
        ensures
            persisted_as(*self, r),
    {
        let artists = match &self.artists {
            Some(a) => Some(join_artists(a)),
            None => None,
        };
        SongRecord {
            id: self.id,
            path: self.file_path.clone(),
            file_name: self.file_name.clone(),
            title: self.title.clone(),
            artists,
            album: self.album.clone(),
            genre: self.genre.clone(),
            youtube_id: self.youtube_id.clone(),
            thumbnail_url: self.thumbnail_url.clone(),
        }
    }

    /// One line describing the record, as `summary_text` gives it.
    pub fn summary(&self) -> (r: String)
        ensures
            r@ == summary_text(*self),
    {
        let mut r = labelled("", &self.title);
        r.append(" - ");
        match &self.artists {
            Some(a) => {
                let joined = join_artists(a);
                r.append(joined.as_str());
            },
            None => r.append("None"),
        }
        r.append(" [ID: ");
        match self.id {
            Some(n) => {
                let digits = decimal_text(n);
                r.append(digits.as_str());
            },
            None => r.append("None"),
        }
        r.append(", Album: ");
        let album = labelled("", &self.album);
        r.append(album.as_str());
        r.append("]");
        proof {
            reveal_strlit("");
            assert(r@ =~= summary_text(*self));
        }
        r
    }

    pub fn is_initialized(&self) -> (r: bool)
        ensures
            r == self.initialized,
    {
        self.initialized
    }

    /// Whether the user-visible fields of two records agree.
    pub fn equate(song_left: &Song, song_right: &Song) -> (r: bool)
        ensures
            r == same_fields(*song_left, *song_right),
    {
        same_text(&song_left.title, &song_right.title) && same_list(&song_left.artists, &song_right.artists)
            && same_text(&song_left.album, &song_right.album) && same_text(&song_left.genre, &song_right.genre)
            && same_text(&song_left.youtube_id, &song_right.youtube_id) && same_text(
            &song_left.thumbnail_url,
            &song_right.thumbnail_url,
        ) && song_left.file_name == song_right.file_name && song_left.file_path == song_right.file_path
    }

    /// Sets one field. Title, artists and album change in the record and its tag block
    /// at once; artists are split on `:` with empty names dropped. A new file name is
    /// not applied here: the rename it takes is handed back, `.flac` added to the name
    /// unless it mentions `flac`, for the caller to carry out and report through
    /// `apply_rename`.
    pub fn set_field(&mut self, field: Field, new_value: String) -> (r: Option<FileRename>)
        requires
            old(self).wf(),
        ensures
            final(self).wf(),
            field_set(*old(self), *final(self), field, new_value@, r),
    {
        proof {
            lemma_tag_keys();
        }
        match field {
            Field::FileName => {
                let mut name = new_value;
                if !contains_text(name.as_str(), "flac") {
                    name.append(".flac");
                }
                let to = with_file_name(self.file_path.as_str(), name.as_str());
                Some(FileRename { from: self.file_path.clone(), to, name })
            },
            Field::Title => {
                let values = vec![new_value.clone()];
                proof {
                    assert(values.deep_view() =~= seq![new_value@]);
                }
                set_vorbis_values(&mut self.tag, "TITLE", values);
                self.title = Some(new_value);
                self.populate_list_items();
                None
            },
            Field::Artists => {
                let artists = split_artists(new_value.as_str());
                set_vorbis_values(&mut self.tag, "ARTIST", artists.clone());
                self.artists = Some(artists);
                self.populate_list_items();
                None
            },
            Field::Album => {
                let values = vec![new_value.clone()];
                proof {
                    assert(values.deep_view() =~= seq![new_value@]);
                }
                set_vorbis_values(&mut self.tag, "ALBUM", values);
                self.album = Some(new_value);
                self.populate_list_items();
                None
            },
        }
    }
}


impl Song {
    /// Edits the field under the cursor, as `set_field` does. Without a cursor on a
    /// field nothing changes.
    pub fn edit(&mut self, new_value: String) -> (r: Option<FileRename>)
        requires
            old(self).wf(),
        ensures
            final(self).wf(),
            edited(*old(self), *final(self), new_value@, r),
    {
        match self.selected {
            Some(0) => self.set_field(Field::FileName, new_value),
            Some(1) => self.set_field(Field::Title, new_value),
            Some(2) => self.set_field(Field::Artists, new_value),
            Some(3) => self.set_field(Field::Album, new_value),
            _ => None,
        }
    }

    /// Takes on a rename that succeeded on disk, then the tag block read again from the
    /// new path. When that read failed (`None`) the name and path stay updated, the
    /// other fields keep what they held, and `TagReadError` is reported.
    pub fn apply_rename(&mut self, name: String, path: String, reread: Option<metaflac::Tag>) -> (r: Result<
        (),
        TrackError,
    >)
        requires
            old(self).wf(),
        ensures
            final(self).wf(),
            final(self).file_name@ == name@,
            final(self).file_path@ == path@,
            final(self).id == old(self).id,
            opt_text(final(self).genre) == opt_text(old(self).genre),
            opt_text(final(self).youtube_id) == opt_text(old(self).youtube_id),
            opt_text(final(self).thumbnail_url) == opt_text(old(self).thumbnail_url),
            final(self).selected == old(self).selected,
            final(self).metadata_source == old(self).metadata_source,
            reread matches Some(t) ==> {
                &&& r is Ok
                &&& final(self).tag == t
                &&& opt_text(final(self).title) == tag_title(vorbis_of(t))
                &&& opt_list(final(self).artists) == tag_artists(vorbis_of(t))
                &&& opt_text(final(self).album) == tag_album(vorbis_of(t))
                &&& final(self).initialized
            },
            reread is None ==> {
                &&& r == Err::<(), TrackError>(TrackError::TagReadError)
                &&& same_tag_fields(*old(self), *final(self))
                &&& final(self).initialized == old(self).initialized
            },
    {
        self.file_name = name;
        self.file_path = path;
        let r = match reread {
            Some(tag) => {
                self.tag = tag;
                self.init();
                Ok(())
            },
            None => Err(TrackError::TagReadError),
        };
        self.populate_list_items();
        r
    }

    /// Moves the cursor one line down, wrapping to the top.
    pub fn next(&mut self)
        requires
            old(self).wf(),
        ensures
            final(self).wf(),
            final(self).selected == next_index(old(self).selected, 4),
            final(self).same_except_cursor(*old(self)),
    {
        proof {
            assert(self.items.deep_view().len() == 4);
        }
        self.selected = step_down(self.selected, self.items.len());
    }

    /// Moves the cursor one line up, wrapping to the bottom.
    pub fn previous(&mut self)
        requires
            old(self).wf(),
        ensures
            final(self).wf(),
            final(self).selected == previous_index(old(self).selected, 4),
            final(self).same_except_cursor(*old(self)),
    {
        proof {
            assert(self.items.deep_view().len() == 4);
        }
        self.selected = step_up(self.selected, self.items.len());
    }

    pub fn unselect(&mut self)
        requires
            old(self).wf(),
        ensures
            final(self).wf(),
            final(self).selected is None,
            final(self).same_except_cursor(*old(self)),
    {
        self.selected = None;
    }
}

impl Default for Song {
    /// An empty record, not yet read from any file.
    fn default() -> (r: Song)
        ensures
            r.wf(),
            r.id is None,
            r.file_path@ == Seq::<char>::empty(),
            r.file_name@ == Seq::<char>::empty(),
            vorbis_of(r.tag).dom() == Set::<Seq<char>>::empty(),
            r.title is None,
            r.artists is None,
            r.album is None,
            r.genre is None,
            r.youtube_id is None,
            r.thumbnail_url is None,
            r.selected is None,
            !r.initialized,
            r.metadata_source == MetadataSource::File,
    {
        let mut song = Song {
            id: None,
            file_path: String::new(),
            file_name: String::new(),
            tag: empty_tag(),
            title: None,
            artists: None,
            album: None,
            genre: None,
            youtube_id: None,
            thumbnail_url: None,
            items: Vec::new(),
            selected: None,
            initialized: false,
            metadata_source: MetadataSource::File,
        };
        song.populate_list_items();
        song
    }
}

/// Record equality is reflexive and symmetric, and two records whose title,
/// artists, album, genre, video id, thumbnail, file name or path differ are not equal.
pub proof fn lemma_equate_laws(a: Song, b: Song)
    ensures
        same_fields(a, a),
        same_fields(a, b) == same_fields(b, a),
        opt_text(a.title) != opt_text(b.title) ==> !same_fields(a, b),
        opt_list(a.artists) != opt_list(b.artists) ==> !same_fields(a, b),
        opt_text(a.album) != opt_text(b.album) ==> !same_fields(a, b),
        opt_text(a.genre) != opt_text(b.genre) ==> !same_fields(a, b),
        opt_text(a.youtube_id) != opt_text(b.youtube_id) ==> !same_fields(a, b),
        opt_text(a.thumbnail_url) != opt_text(b.thumbnail_url) ==> !same_fields(a, b),
        a.file_name@ != b.file_name@ ==> !same_fields(a, b),
        a.file_path@ != b.file_path@ ==> !same_fields(a, b),
{
}

/// Storing a record's scalar fields and rebuilding a record from them gives a record
/// equal to the first, whenever every artist name is non-empty and free of `:`.
pub proof fn lemma_persist_round_trip(s: Song, rec: SongRecord, back: Song)
    requires
        storable_artists(opt_list(s.artists)),
        persisted_as(s, rec),
        loaded_from(rec, back),
    ensures
        same_fields(back, s),
{
    match opt_list(s.artists) {
        Some(l) => {
            lemma_tokens_of_joined(l);
        },
        None => {},
    }
}
} // verus!
