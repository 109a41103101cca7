use music_manager::{App, AppActiveWidgetState, AppReturn, DirListState, Effect, Key, LogWidgetEvent, RenameOutcome, TrackError};

fn listing_paths() -> Vec<String> {
    ["a.flac", "b.flac", "c.flac", "d.flac", "e.flac"].iter().map(|n| format!("/music/{}", n)).collect()
}

fn listing() -> DirListState {
    DirListState::new("/music".to_string(), listing_paths())
}

fn tag() -> metaflac::Tag {
    let mut tag = metaflac::Tag::new();
    tag.set_vorbis("TITLE", vec!["Song"]);
    tag.set_vorbis("ALBUM", vec!["Old Album"]);
    tag
}

fn editing_app() -> App {
    let mut app = App::new(listing());
    app.initialized();
    for _ in 0..3 {
        app.do_action(Key::Char('j'));
    }
    let (_, effect) = app.do_action(Key::Enter);
    match effect {
        Effect::LoadTrack(path) => {
            assert_eq!(app.on_track_loaded(path, Some(tag())), Ok(()));
        }
        other => panic!("expected a load, got {:?}", other),
    }
    app
}

#[test]
fn enter_on_third_entry_loads_it_into_the_editor() {
    let mut app = App::new(listing());
    app.initialized();
    assert!(app.is_selected(AppActiveWidgetState::DirListing));
    for _ in 0..3 {
        assert_eq!(app.do_action(Key::Char('j')).0, AppReturn::Continue);
    }
    assert_eq!(app.dirlist.list.selected(), Some(2));
    let (ret, effect) = app.do_action(Key::Enter);
    assert_eq!(ret, AppReturn::Continue);
    let path = match effect {
        Effect::LoadTrack(p) => p,
        other => panic!("expected a load, got {:?}", other),
    };
    assert_eq!(path, "/music/c.flac");
    assert!(app.is_selected(AppActiveWidgetState::DirListing));
    assert_eq!(app.on_track_loaded(path, Some(tag())), Ok(()));
    assert!(app.is_selected(AppActiveWidgetState::MetadataEditor));
    assert_eq!(app.current_selected_song.items[0], "File name: c.flac");
    assert_eq!(app.current_selected_song.items[0], format!("File name: {}", app.dirlist.list.items()[2]));
}

#[test]
fn failed_load_keeps_browsing() {
    let mut app = App::new(listing());
    app.initialized();
    let (_, effect) = app.do_action(Key::Enter);
    let path = match effect {
        Effect::LoadTrack(p) => p,
        other => panic!("expected a load, got {:?}", other),
    };
    assert_eq!(path, "/music/a.flac");
    assert_eq!(app.on_track_loaded(path, None), Err(TrackError::TagReadError));
    assert!(app.is_selected(AppActiveWidgetState::DirListing));
}

fn start_album_input(app: &mut App, text: &str) {
    for _ in 0..4 {
        app.do_action(Key::Char('j'));
    }
    assert_eq!(app.current_selected_song.selected, Some(3));
    app.do_action(Key::Enter);
    assert!(app.is_input);
    assert!(app.is_selected(AppActiveWidgetState::InputBar));
    for c in text.chars() {
        app.do_action(Key::Char(c));
    }
    assert_eq!(app.input_buffer.get_buffer(), text);
}

#[test]
fn commit_sets_album_and_returns_to_editor() {
    let mut app = editing_app();
    start_album_input(&mut app, "Greatest Hits");
    let (ret, effect) = app.do_action(Key::Enter);
    assert_eq!(ret, AppReturn::Continue);
    assert!(matches!(effect, Effect::Nothing));
    assert!(app.is_selected(AppActiveWidgetState::MetadataEditor));
    assert!(!app.is_input);
    assert_eq!(app.current_selected_song.album, Some("Greatest Hits".to_string()));
    assert_eq!(app.input_buffer.get_buffer(), "");
}

#[test]
fn escape_leaves_album_unchanged() {
    let mut app = editing_app();
    start_album_input(&mut app, "Greatest Hits");
    app.do_action(Key::Esc);
    assert!(app.is_selected(AppActiveWidgetState::MetadataEditor));
    assert!(!app.is_input);
    assert_eq!(app.current_selected_song.album, Some("Old Album".to_string()));
    assert_eq!(app.input_buffer.get_buffer(), "");
}

#[test]
fn backspace_erases_while_typing() {
    let mut app = editing_app();
    start_album_input(&mut app, "ab");
    app.do_action(Key::Backspace);
    assert_eq!(app.input_buffer.get_buffer(), "a");
}

#[test]
fn file_name_commit_asks_for_rename() {
    let mut app = editing_app();
    app.do_action(Key::Char('j'));
    app.do_action(Key::Enter);
    for c in "newname".chars() {
        app.do_action(Key::Char(c));
    }
    let (_, effect) = app.do_action(Key::Enter);
    let req = match effect {
        Effect::Rename(r) => r,
        other => panic!("expected a rename, got {:?}", other),
    };
    assert_eq!(req.from, "/music/c.flac");
    assert_eq!(req.to, "/music/newname.flac");
    assert_eq!(
        app.on_file_renamed(req.name.clone(), req.to.clone(), RenameOutcome::Failed),
        Err(TrackError::RenameError)
    );
    assert_eq!(app.current_selected_song.file_name, "c.flac");
    assert_eq!(app.on_file_renamed(req.name, req.to, RenameOutcome::Renamed(None)), Err(TrackError::TagReadError));
    assert_eq!(app.current_selected_song.file_name, "newname.flac");
    assert_eq!(app.current_selected_song.file_path, "/music/newname.flac");
}

#[test]
fn log_view_and_back() {
    let mut app = editing_app();
    app.do_action(Key::Ctrl('l'));
    assert!(app.is_selected(AppActiveWidgetState::LogViewer));
    let (_, effect) = app.do_action(Key::Char('h'));
    assert!(matches!(effect, Effect::LogWidget(LogWidgetEvent::HideKey)));
    let (_, effect) = app.do_action(Key::Esc);
    assert!(matches!(effect, Effect::Nothing));
    assert!(app.is_selected(AppActiveWidgetState::MetadataEditor));
}

#[test]
fn save_quit_and_unbound_keys() {
    let mut app = editing_app();
    assert!(matches!(app.do_action(Key::Char('s')).1, Effect::WriteTags));
    assert!(matches!(app.do_action(Key::Char('z')).1, Effect::Nothing));
    let (_, effect) = app.do_action(Key::Char('d'));
    assert!(matches!(effect, Effect::ReloadListing));
    assert!(app.is_selected(AppActiveWidgetState::DirListing));
    assert_eq!(app.do_action(Key::Char('q')).0, AppReturn::Exit);
}

#[test]
fn tick_keeps_cursor_on_same_listing() {
    let mut app = App::new(listing());
    app.initialized();
    app.do_action(Key::Char('j'));
    let paths = listing_paths();
    assert_eq!(app.update_on_tick(paths.clone()), AppReturn::Continue);
    assert_eq!(app.dirlist.list.selected(), Some(0));
    app.update_on_tick(paths[..4].to_vec());
    assert_eq!(app.dirlist.list.selected(), None);
}

#[test]
fn log_view_returns_to_the_held_record_after_listing_changes() {
    let mut app = editing_app();
    app.do_action(Key::Ctrl('l'));
    assert!(app.is_selected(AppActiveWidgetState::LogViewer));
    let mut paths = listing_paths();
    paths.push("/music/f.flac".to_string());
    app.update_on_tick(paths);
    assert_eq!(app.dirlist.list.selected(), None);
    let (_, effect) = app.do_action(Key::Esc);
    assert!(matches!(effect, Effect::Nothing));
    assert!(app.is_selected(AppActiveWidgetState::MetadataEditor));
    assert_eq!(app.current_selected_song.file_path, "/music/c.flac");
}
