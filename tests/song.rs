use music_manager::{split_artists, join_artists, contains_text, file_name_of, with_file_name, Field, MetadataSource, Song, SongRecord, TrackError};

fn tag_with(title: &str, artists: &[&str], album: &str) -> metaflac::Tag {
    let mut tag = metaflac::Tag::new();
    tag.set_vorbis("TITLE", vec![title]);
    tag.set_vorbis("ARTIST", artists.to_vec());
    tag.set_vorbis("ALBUM", vec![album]);
    tag
}

fn values(tag: &metaflac::Tag, key: &str) -> Option<Vec<String>> {
    tag.get_vorbis(key).map(|v| v.map(|s| s.to_string()).collect())
}

#[test]
fn record_from_tag_reads_fields_and_lines() {
    let song = Song::from_tag("/music/a.flac".to_string(), tag_with("Song", &["X", "Y"], "LP"));
    assert_eq!(song.file_name, "a.flac");
    assert_eq!(song.title, Some("Song".to_string()));
    assert_eq!(song.artists, Some(vec!["X".to_string(), "Y".to_string()]));
    assert_eq!(song.album, Some("LP".to_string()));
    assert!(song.is_initialized());
    assert_eq!(song.metadata_source, MetadataSource::File);
    assert_eq!(song.items, vec!["File name: a.flac", "Title: Song", "Artists: X:Y", "Album: LP"]);
}

#[test]
fn missing_properties_show_none() {
    let song = Song::from_tag("b.flac".to_string(), metaflac::Tag::new());
    assert_eq!(song.file_name, "b.flac");
    assert_eq!(song.title, None);
    assert_eq!(song.artists, None);
    assert_eq!(song.items, vec!["File name: b.flac", "Title: None", "Artists: None", "Album: None"]);
}

#[test]
fn default_record_is_empty_and_uninitialized() {
    let song = Song::default();
    assert!(!song.is_initialized());
    assert_eq!(song.items, vec!["File name: ", "Title: None", "Artists: None", "Album: None"]);
}

#[test]
fn equate_is_reflexive_symmetric_and_field_sensitive() {
    let a = Song::from_tag("/m/a.flac".to_string(), tag_with("T", &["A"], "B"));
    let b = Song::from_tag("/m/a.flac".to_string(), tag_with("T", &["A"], "B"));
    let c = Song::from_tag("/m/a.flac".to_string(), tag_with("T", &["A"], "C"));
    let d = Song::from_tag("/m/d.flac".to_string(), tag_with("T", &["A"], "B"));
    assert!(Song::equate(&a, &a));
    assert!(Song::equate(&a, &b) && Song::equate(&b, &a));
    assert!(!Song::equate(&a, &c) && !Song::equate(&c, &a));
    assert!(!Song::equate(&a, &d));
    let mut e = Song::from_tag("/m/a.flac".to_string(), tag_with("T", &["A"], "B"));
    e.genre = Some("rock".to_string());
    assert!(!Song::equate(&a, &e));
}

#[test]
fn persisted_fields_round_trip() {
    let mut song = Song::from_tag("/m/a.flac".to_string(), tag_with("T", &["Ann", "Bob"], "LP"));
    song.id = Some(7);
    song.genre = Some("jazz".to_string());
    song.youtube_id = Some("abc".to_string());
    let rec = song.to_record();
    assert_eq!(rec.artists, Some("Ann:Bob".to_string()));
    let back = Song::from_record(rec);
    assert!(Song::equate(&back, &song));
    assert_eq!(back.id, Some(7));
    assert_eq!(back.metadata_source, MetadataSource::Database);
    assert!(!back.is_initialized());
    assert_eq!(values(&back.tag, "ARTIST"), Some(vec!["Ann".to_string(), "Bob".to_string()]));
    assert_eq!(values(&back.tag, "TITLE"), Some(vec!["T".to_string()]));
}

#[test]
fn from_database_splits_artists_dropping_empty_names() {
    let song = Song::from_database(
        Some(3),
        "/m/x.flac".to_string(),
        "x.flac".to_string(),
        Some("Title".to_string()),
        Some(":a::b:".to_string()),
        None,
        None,
        None,
        None,
    );
    assert_eq!(song.artists, Some(vec!["a".to_string(), "b".to_string()]));
    assert_eq!(song.items[2], "Artists: a:b");
    assert_eq!(song.items[3], "Album: None");
    assert_eq!(values(&song.tag, "ALBUM"), None);
    let rec = SongRecord {
        id: None,
        path: "p".to_string(),
        file_name: "p".to_string(),
        title: None,
        artists: None,
        album: None,
        genre: None,
        youtube_id: None,
        thumbnail_url: None,
    };
    let none = Song::from_record(rec);
    assert_eq!(none.artists, None);
    assert_eq!(values(&none.tag, "TITLE"), None);
}

#[test]
fn set_field_updates_record_and_tag() {
    let mut song = Song::from_tag("/m/a.flac".to_string(), tag_with("T", &["A"], "B"));
    assert!(song.set_field(Field::Title, "New".to_string()).is_none());
    assert_eq!(song.title, Some("New".to_string()));
    assert_eq!(values(&song.tag, "TITLE"), Some(vec!["New".to_string()]));
    song.set_field(Field::Artists, "P::Q".to_string());
    assert_eq!(song.artists, Some(vec!["P".to_string(), "Q".to_string()]));
    assert_eq!(values(&song.tag, "ARTIST"), Some(vec!["P".to_string(), "Q".to_string()]));
    song.set_field(Field::Album, "Greatest Hits".to_string());
    assert_eq!(song.album, Some("Greatest Hits".to_string()));
    assert_eq!(values(&song.tag, "ALBUM"), Some(vec!["Greatest Hits".to_string()]));
    assert_eq!(song.items, vec!["File name: a.flac", "Title: New", "Artists: P:Q", "Album: Greatest Hits"]);
}

#[test]
fn rename_then_failed_reread_reports_tag_read_error() {
    let mut song = Song::from_tag("/music/old.flac".to_string(), tag_with("T", &["A"], "B"));
    let req = song.set_field(Field::FileName, "newname.flac".to_string()).unwrap();
    assert_eq!(req.from, "/music/old.flac");
    assert_eq!(req.to, "/music/newname.flac");
    assert_eq!(req.name, "newname.flac");
    assert_eq!(song.file_name, "old.flac");
    let r = song.apply_rename(req.name, req.to, None);
    assert_eq!(r, Err(TrackError::TagReadError));
    assert_eq!(song.file_name, "newname.flac");
    assert_eq!(song.file_path, "/music/newname.flac");
    assert_eq!(song.title, Some("T".to_string()));
    assert_eq!(song.items[0], "File name: newname.flac");
}

#[test]
fn rename_then_reread_takes_new_tag() {
    let mut song = Song::from_tag("/music/old.flac".to_string(), tag_with("T", &["A"], "B"));
    let req = song.set_field(Field::FileName, "fresh".to_string()).unwrap();
    assert_eq!(req.name, "fresh.flac");
    assert_eq!(req.to, "/music/fresh.flac");
    let r = song.apply_rename(req.name, req.to, Some(tag_with("U", &["V"], "W")));
    assert_eq!(r, Ok(()));
    assert_eq!(song.title, Some("U".to_string()));
    assert_eq!(song.items, vec!["File name: fresh.flac", "Title: U", "Artists: V", "Album: W"]);
}

#[test]
fn edit_follows_the_cursor() {
    let mut song = Song::from_tag("/m/a.flac".to_string(), tag_with("T", &["A"], "B"));
    assert!(song.edit("ignored".to_string()).is_none());
    assert_eq!(song.title, Some("T".to_string()));
    song.next();
    song.next();
    assert_eq!(song.selected, Some(1));
    song.edit("Other".to_string());
    assert_eq!(song.title, Some("Other".to_string()));
    song.previous();
    song.previous();
    assert_eq!(song.selected, Some(3));
    song.unselect();
    assert_eq!(song.selected, None);
}

#[test]
fn text_helpers() {
    assert_eq!(split_artists("a:b::c"), vec!["a", "b", "c"]);
    assert!(split_artists("").is_empty());
    assert_eq!(join_artists(&vec!["a".to_string(), "b".to_string()]), "a:b");
    assert!(contains_text("song.flac", "flac"));
    assert!(!contains_text("song.fla", "flac"));
    assert_eq!(file_name_of("/a/b/c.flac"), "c.flac");
    assert_eq!(with_file_name("/a/b/c.flac", "d.flac"), "/a/b/d.flac");
    assert_eq!(with_file_name("c.flac", "d.flac"), "d.flac");
}

#[test]
fn summary_describes_record() {
    let mut song = Song::from_tag("/m/a.flac".to_string(), tag_with("T", &["A", "B"], "L"));
    song.id = Some(42);
    assert_eq!(song.summary(), "T - A:B [ID: 42, Album: L]");
    let empty = Song::from_tag("/m/b.flac".to_string(), metaflac::Tag::new());
    assert_eq!(empty.summary(), "None - None [ID: None, Album: None]");
    let mut big = Song::default();
    big.id = Some(1907);
    assert_eq!(big.summary(), "None - None [ID: 1907, Album: None]");
}
