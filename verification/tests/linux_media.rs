use waken_reporter::platform::linux::media::{
    parse_gdbus_string_variant, player_instance_from_output, playerctl_art_url,
};

#[test]
fn gdbus_string_variants() {
    assert_eq!(
        parse_gdbus_string_variant("(<'spotify'>,)\n"),
        Some("spotify".to_string())
    );
    assert_eq!(
        parse_gdbus_string_variant("(<' it\\'s here '>,)"),
        Some("it's here".to_string())
    );
    assert_eq!(parse_gdbus_string_variant("(<'   '>,)"), None);
    assert_eq!(parse_gdbus_string_variant("(<@s nothing>,)"), None);
    assert_eq!(parse_gdbus_string_variant("('unterminated"), Some("unterminated".to_string()));
}

#[test]
fn player_instances() {
    assert_eq!(
        player_instance_from_output("  spotify.instance123 \nother\n"),
        Some("spotify.instance123".to_string())
    );
    assert_eq!(player_instance_from_output("\n"), None);
    assert_eq!(player_instance_from_output(""), None);
}

#[test]
fn art_url_line() {
    let out = "Song\nArtist\nAlbum\nspotify\n  https://i.scdn.co/image/ab \nPlaying\n1000\n2000\n";
    assert_eq!(playerctl_art_url(out), "https://i.scdn.co/image/ab");
    assert_eq!(playerctl_art_url("only\ntwo"), "");
}
