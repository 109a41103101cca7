use music_manager::{check_size, download_step, safe_file_stem, tag_download, DownloadStep, Rect};

#[test]
fn should_warn_on_small_terminal() {
    let rect = Rect {
        x: 1,
        y: 1,
        width: 15,
        height: 19,
    };

    assert!(!check_size(&rect));
}

#[test]
fn large_terminal_fits() {
    assert!(check_size(&Rect { x: 0, y: 0, width: 30, height: 15 }));
    assert!(!check_size(&Rect { x: 0, y: 0, width: 80, height: 14 }));
}

#[test]
fn download_steps() {
    assert_eq!(download_step(false, false), DownloadStep::DownloadAndConvert);
    assert_eq!(download_step(true, false), DownloadStep::ConvertOnly);
    assert_eq!(download_step(true, true), DownloadStep::AlreadyDownloaded);
    assert_eq!(download_step(false, true), DownloadStep::AlreadyDownloaded);
}

#[test]
fn titles_become_file_stems() {
    assert_eq!(safe_file_stem("AC/DC: Live"), "AC_DC - Live");
    assert_eq!(safe_file_stem("plain"), "plain");
}

#[test]
fn downloaded_track_gets_tags() {
    let mut tag = metaflac::Tag::new();
    tag_download(&mut tag, "T".to_string(), "A".to_string(), "B".to_string());
    let get = |k: &str| tag.get_vorbis(k).map(|v| v.map(|s| s.to_string()).collect::<Vec<_>>());
    assert_eq!(get("TITLE"), Some(vec!["T".to_string()]));
    assert_eq!(get("ARTIST"), Some(vec!["A".to_string()]));
    assert_eq!(get("ALBUM"), Some(vec!["B".to_string()]));
}
