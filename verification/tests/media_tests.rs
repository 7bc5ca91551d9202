use kdwm::media::{
    get_players, list_players_command, media, media_action, media_text, metadata_command,
    next_player, parse_selection, player_list, select_player_command, Media, MediaFeed, MediaMsg,
};

fn s(x: &str) -> Option<String> {
    Some(x.to_string())
}

#[test]
fn media_actions_are_playerctl_verbs() {
    assert_eq!(media_action(MediaMsg::PlayPause), "play-pause");
    assert_eq!(media_action(MediaMsg::Next), "next");
    assert_eq!(media_action(MediaMsg::Previous), "previous");
}

#[test]
fn media_keys_address_the_chosen_player() {
    let state = Media { player: s("spotify") };
    let c = media(&state, MediaMsg::Next);
    assert_eq!(c.program, "playerctl");
    assert_eq!(c.args, vec!["-p", "spotify", "next"]);
}

#[test]
fn media_keys_without_a_player_send_an_empty_name() {
    let state = Media::new();
    assert_eq!(state.player, None);
    let c = media(&state, MediaMsg::PlayPause);
    assert_eq!(c.args, vec!["-p", "", "play-pause"]);
}

#[test]
fn player_name_is_empty_without_a_player() {
    assert_eq!(Media::new().player_name(), "");
    assert_eq!(Media { player: s("vlc") }.player_name(), "vlc");
}

#[test]
fn players_are_listed_one_per_line() {
    assert_eq!(player_list(s("spotify\nfirefox.instance2\n")), vec!["spotify", "firefox.instance2"]);
    assert_eq!(player_list(s("  a \n b\n")), vec!["a", "b"]);
}

#[test]
fn no_output_lists_one_empty_player() {
    assert_eq!(player_list(s("")), vec![""]);
    assert_eq!(player_list(None), vec![""]);
}

#[test]
fn selection_is_a_trimmed_index() {
    assert_eq!(parse_selection(s("1\n")), Some(1));
    assert_eq!(parse_selection(s("0")), Some(0));
    assert_eq!(parse_selection(s("")), None);
    assert_eq!(parse_selection(s("x")), None);
    assert_eq!(parse_selection(None), None);
}

#[test]
fn choosing_a_player_is_what_media_keys_use() {
    let players = player_list(s("spotify\nvlc\n"));
    let mut state = Media::new();
    get_players(&mut state, &players, 1);
    assert_eq!(state.player, s("vlc"));
    assert_eq!(media(&state, MediaMsg::Previous).args, vec!["-p", "vlc", "previous"]);
}

#[test]
fn player_commands() {
    let c = list_players_command();
    assert_eq!(c.program, "playerctl");
    assert_eq!(c.args, vec!["-l"]);
    let c = select_player_command();
    assert_eq!(c.program, "sh");
    assert_eq!(c.args[0], "-c");
    assert!(c.args[1].ends_with("rofi -dmenu -only-match -format 'i'"));
    let c = metadata_command("spotify");
    assert_eq!(
        c.args,
        vec!["-p", "spotify", "metadata", "-f", "{{ artist }}: {{ title }} [{{ playerName }}]"]
    );
}

#[test]
fn media_text_shows_metadata_or_none() {
    assert_eq!(media_text(s("Artist: Song [spotify]\n")), "Artist: Song [spotify]");
    assert_eq!(media_text(s("\n")), "None");
    assert_eq!(media_text(None), "None");
}

#[test]
fn next_player_follows_new_names() {
    assert_eq!(next_player("a".to_string(), s("b")), "b");
    assert_eq!(next_player("a".to_string(), None), "a");
}

#[test]
fn feed_follows_arriving_names() {
    let mut feed = MediaFeed::new();
    assert_eq!((feed.player.as_str(), feed.text.as_str()), ("", ""));
    let q = feed.begin_round(s("spotify"));
    assert_eq!(feed.player, "spotify");
    assert_eq!(feed.text, "");
    assert_eq!(q.args, vec!["-p", "spotify", "metadata", "-f", "{{ artist }}: {{ title }} [{{ playerName }}]"]);
    feed.end_round(s("Artist: Song [spotify]\n"));
    assert_eq!(feed.text, "Artist: Song [spotify]");
    let q = feed.begin_round(None);
    assert_eq!(q.args[1], "spotify");
    assert_eq!(feed.text, "Artist: Song [spotify]");
    feed.end_round(None);
    assert_eq!(feed.text, "None");
    feed.begin_round(s("vlc"));
    feed.end_round(s("  "));
    assert_eq!((feed.player.as_str(), feed.text.as_str()), ("vlc", "None"));
}
