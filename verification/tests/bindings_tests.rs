use kdwm::bindings::{raw_key_bindings, KeyAction, RUNNER, TERM, WEB_BROWSER, WINDOWS};
use kdwm::media::MediaMsg;
use std::collections::HashSet;

fn action_of(key: &str) -> Option<KeyAction> {
    raw_key_bindings().into_iter().find(|(k, _)| k == key).map(|(_, a)| a)
}

#[test]
fn every_key_is_bound_once() {
    let b = raw_key_bindings();
    assert_eq!(b.len(), 45);
    let keys: HashSet<&str> = b.iter().map(|(k, _)| k.as_str()).collect();
    assert_eq!(keys.len(), 45);
}

#[test]
fn fixed_bindings() {
    assert_eq!(action_of("M-j"), Some(KeyAction::FocusDown));
    assert_eq!(action_of("M-S-q"), Some(KeyAction::KillFocused));
    assert_eq!(action_of("M-S-Up"), Some(KeyAction::IncMain(1)));
    assert_eq!(action_of("M-S-Down"), Some(KeyAction::IncMain(-1)));
    assert_eq!(action_of("M-semicolon"), Some(KeyAction::Spawn(RUNNER)));
    assert_eq!(action_of("M-Return"), Some(KeyAction::Spawn(TERM)));
    assert_eq!(action_of("M-apostrophe"), Some(KeyAction::Spawn(WEB_BROWSER)));
    assert_eq!(action_of("M-slash"), Some(KeyAction::Spawn(WINDOWS)));
    assert_eq!(action_of("M-S-Escape"), Some(KeyAction::Spawn("pkill -fi kdwm")));
    assert_eq!(action_of("M-p"), Some(KeyAction::GetPlayers));
    assert_eq!(action_of("M-backslash"), Some(KeyAction::Media(MediaMsg::PlayPause)));
    assert_eq!(action_of("M-bracketleft"), Some(KeyAction::Media(MediaMsg::Previous)));
    assert_eq!(action_of("M-bracketright"), Some(KeyAction::Media(MediaMsg::Next)));
    assert_eq!(action_of("M-r"), Some(KeyAction::Exit));
    assert_eq!(action_of("M-x"), None);
}

#[test]
fn workspace_bindings() {
    for t in ["1", "2", "3", "4", "5", "6", "7", "8", "9"] {
        assert_eq!(action_of(&format!("M-{t}")), Some(KeyAction::FocusTag(t)));
        assert_eq!(action_of(&format!("M-S-{t}")), Some(KeyAction::MoveFocusedToTag(t)));
    }
}

#[test]
fn programs() {
    assert_eq!(TERM, "alacritty");
    assert_eq!(RUNNER, "rofi -show run");
    assert_eq!(WINDOWS, "rofi -show window");
    assert_eq!(WEB_BROWSER, "firefox");
}
