use waken_reporter::platform::linux::app_icon::{
    best_icon_path, desktop_entry_candidates, desktop_file_dirs, detect_image_content_type,
    extension_to_content_type, icon_file_matches, icon_lookup_stem, icon_path_score,
    icon_theme_dirs, image_path_to_data_url, join_path_str, normalize_desktop_entry_candidates,
    push_candidate, read_desktop_entry_icon_name,
};

fn strings(items: &[&str]) -> Vec<String> {
    items.iter().map(|s| s.to_string()).collect()
}

#[test]
fn candidates_of_a_reverse_domain_name() {
    assert_eq!(
        normalize_desktop_entry_candidates("  org.mozilla.firefox.desktop "),
        strings(&["org.mozilla.firefox", "desktop"])
    );
}

#[test]
fn candidates_of_a_desktop_file_path() {
    assert_eq!(
        normalize_desktop_entry_candidates("/usr/share/applications/Spotify.desktop"),
        strings(&["/usr/share/applications/Spotify", "Spotify", "desktop"])
    );
    assert_eq!(
        normalize_desktop_entry_candidates("my-app_beta"),
        strings(&["my-app_beta", "app_beta", "beta"])
    );
    assert!(normalize_desktop_entry_candidates("   ").is_empty());
}

#[test]
fn push_candidate_ignores_case_and_blanks() {
    let mut candidates = strings(&["Spotify"]);
    push_candidate(&mut candidates, "spotify.desktop");
    push_candidate(&mut candidates, " .desktop.desktop ");
    assert_eq!(candidates, strings(&["Spotify"]));
    push_candidate(&mut candidates, "vlc.desktop.desktop");
    assert_eq!(candidates, strings(&["Spotify", "vlc"]));
}

#[test]
fn entry_candidates_keep_each_name_once() {
    assert_eq!(
        desktop_entry_candidates("spotify", Some("Spotify.desktop")),
        strings(&["Spotify", "desktop", "spotify"])
    );
    assert_eq!(desktop_entry_candidates("vlc", None), strings(&["vlc"]));
}

#[test]
fn icon_name_comes_from_the_desktop_entry_group() {
    let content = "[Other]\nIcon=bar\n\n[desktop entry]\n# comment\nName=Player\nIcon = \"baz\" \n";
    assert_eq!(read_desktop_entry_icon_name(content), Some("baz".to_string()));
    assert_eq!(read_desktop_entry_icon_name("[Desktop Entry]\nIcon=\n"), None);
    assert_eq!(read_desktop_entry_icon_name("Icon=early\n"), None);
    assert_eq!(
        read_desktop_entry_icon_name("[Desktop Entry]\r\nExec=x\r\nIcon=spotify-client\r\n"),
        Some("spotify-client".to_string())
    );
}

#[test]
fn lookup_stems() {
    assert_eq!(icon_lookup_stem("/usr/share/pixmaps/foo.png"), "foo");
    assert_eq!(icon_lookup_stem("firefox"), "firefox");
    assert_eq!(icon_lookup_stem(".hidden"), ".hidden");
    assert_eq!(icon_lookup_stem("org.gnome.Lollypop"), "org.gnome");
}

#[test]
fn icon_files_match_by_stem_and_type() {
    assert!(icon_file_matches("/x/hicolor/256x256/apps/Firefox.PNG", "firefox"));
    assert!(!icon_file_matches("/x/firefox.ico", "firefox"));
    assert!(!icon_file_matches("/x/firefox", "firefox"));
    assert!(!icon_file_matches("/x/chromium.png", "firefox"));
}

#[test]
fn icon_scores() {
    assert_eq!(icon_path_score("/usr/share/icons/hicolor/256x256/apps/firefox.png"), 256);
    assert_eq!(icon_path_score("/usr/share/icons/hicolor/scalable/apps/firefox.svg"), 513);
    assert_eq!(icon_path_score("/usr/share/pixmaps/firefox.png"), 1);
    assert_eq!(icon_path_score("/icons/Scalable/512X512/a.png"), 1024);
}

#[test]
fn best_icon_is_the_first_with_the_highest_score() {
    let paths = strings(&[
        "/i/48x48/apps/firefox.png",
        "/i/256x256/apps/firefox.png",
        "/i/256x256/apps/firefox.svg",
        "/i/512x512/apps/chromium.png",
    ]);
    assert_eq!(best_icon_path(&paths, "firefox"), Some("/i/256x256/apps/firefox.png".to_string()));
    assert_eq!(best_icon_path(&paths, "vlc"), None);
}

#[test]
fn content_types_of_icon_files() {
    assert_eq!(extension_to_content_type("SVG"), "image/svg+xml");
    assert_eq!(extension_to_content_type("jpeg"), "image/jpeg");
    assert_eq!(extension_to_content_type("xpm"), "image/x-xpixmap");
    assert_eq!(extension_to_content_type("bmp"), "image/png");
    assert_eq!(detect_image_content_type(&b"GIF89a....".to_vec()), "image/png");
    assert_eq!(detect_image_content_type(&vec![0xFF, 0xD8, 0xFF, 0]), "image/jpeg");
    assert_eq!(detect_image_content_type(&b"  <SVG xmlns".to_vec()), "image/svg+xml");
}

#[test]
fn icon_data_urls() {
    assert_eq!(
        image_path_to_data_url("/a/icon.svg", &b"<svg/>".to_vec()),
        Some("data:image/svg+xml;base64,PHN2Zy8+".to_string())
    );
    assert_eq!(image_path_to_data_url("/a/icon.png", &Vec::new()), None);
    assert_eq!(
        image_path_to_data_url("/a/icon.png", &vec![1, 2, 3]),
        Some("data:image/png;base64,AQID".to_string())
    );
}

#[test]
fn desktop_directories() {
    assert_eq!(join_path_str("/a/", "b"), "/a/b");
    assert_eq!(join_path_str("/a", "b"), "/a/b");
    assert_eq!(join_path_str("", "b"), "b");
    assert_eq!(
        desktop_file_dirs(Some(String::new()), Some("/home/u".to_string()), None),
        strings(&[
            "/home/u/.local/share/applications",
            "/home/u/.local/share/flatpak/exports/share/applications",
            "/usr/local/share/applications",
            "/usr/share/applications",
            "/var/lib/flatpak/exports/share/applications",
            "/var/lib/snapd/desktop/applications",
        ])
    );
}

#[test]
fn icon_directories() {
    assert_eq!(
        icon_theme_dirs(Some("/d/".to_string()), Some("/h".to_string()), Some(strings(&["/opt/share"]))),
        strings(&[
            "/d/icons",
            "/d/flatpak/exports/share/icons",
            "/h/.icons",
            "/opt/share/icons",
            "/usr/share/pixmaps",
            "/var/lib/flatpak/exports/share/icons",
            "/var/lib/snapd/desktop/icons",
        ])
    );
    assert_eq!(
        icon_theme_dirs(None, None, Some(Vec::new())),
        strings(&[
            "/usr/share/pixmaps",
            "/var/lib/flatpak/exports/share/icons",
            "/var/lib/snapd/desktop/icons",
        ])
    );
}
