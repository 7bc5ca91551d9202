//! The key bindings of the window manager: which key runs which action.

use vstd::prelude::*;
use crate::media::MediaMsg;

verus! {

/// The terminal.
pub const TERM: &'static str = "alacritty";

/// The program launcher.
pub const RUNNER: &'static str = "rofi -show run";

/// The window switcher.
pub const WINDOWS: &'static str = "rofi -show window";

/// The web browser.
pub const WEB_BROWSER: &'static str = "firefox";

/// What a key binding does.
#[derive(Clone, Copy, Debug, PartialEq, Eq)]
pub enum KeyAction {
    FocusDown,
    FocusUp,
    SwapDown,
    SwapUp,
    KillFocused,
    ToggleTag,
    NextScreen,
    PreviousScreen,
    NextLayout,
    PreviousLayout,
    ToggleFullscreen,
    /// Changes the number of windows in the main area by this much.
    IncMain(i8),
    ExpandMain,
    ShrinkMain,
    /// Runs this command line.
    Spawn(&'static str),
    Exit,
    /// Lets the user pick the media player.
    GetPlayers,
    /// Sends this message to the media player.
    Media(MediaMsg),
    SinkFocused,
    FloatFocused,
    /// Shows the workspace with this tag.
    FocusTag(&'static str),
    /// Moves the focused window to the workspace with this tag.
    MoveFocusedToTag(&'static str),
}

/// The tags of the workspaces.
pub open spec fn workspace_tags() -> Seq<&'static str> {
    seq!["1", "2", "3", "4", "5", "6", "7", "8", "9"]
}

/// The keys bound to fixed actions, in the order they are bound.
pub open spec fn fixed_keys() -> Seq<Seq<char>> {
    seq![
        "M-j"@,
        "M-k"@,
        "M-S-j"@,
        "M-S-k"@,
        "M-S-q"@,
        "M-Tab"@,
        "M-l"@,
        "M-h"@,
        "M-grave"@,
        "M-S-grave"@,
        "M-f"@,
        "M-S-Up"@,
        "M-S-Down"@,
        "M-S-Right"@,
        "M-S-Left"@,
        "M-semicolon"@,
        "M-Return"@,
        "M-apostrophe"@,
        "M-r"@,
        "M-S-Escape"@,
        "M-p"@,
        "M-backslash"@,
        "M-bracketleft"@,
        "M-bracketright"@,
        "M-i"@,
        "M-o"@,
        "M-slash"@,
    ]
}

/// The fixed actions, at the places of their keys in `fixed_keys`.
pub open spec fn fixed_actions() -> Seq<KeyAction> {
    seq![
        KeyAction::FocusDown,
        KeyAction::FocusUp,
        KeyAction::SwapDown,
        KeyAction::SwapUp,
        KeyAction::KillFocused,
        KeyAction::ToggleTag,
        KeyAction::NextScreen,
        KeyAction::PreviousScreen,
        KeyAction::NextLayout,
        KeyAction::PreviousLayout,
        KeyAction::ToggleFullscreen,
        KeyAction::IncMain(1i8),
        KeyAction::IncMain(-1i8),
        KeyAction::ExpandMain,
        KeyAction::ShrinkMain,
        KeyAction::Spawn(RUNNER),
        KeyAction::Spawn(TERM),
        KeyAction::Spawn(WEB_BROWSER),
        KeyAction::Exit,
        KeyAction::Spawn("pkill -fi kdwm"),
        KeyAction::GetPlayers,
        KeyAction::Media(MediaMsg::PlayPause),
        KeyAction::Media(MediaMsg::Previous),
        KeyAction::Media(MediaMsg::Next),
        KeyAction::SinkFocused,
        KeyAction::FloatFocused,
        KeyAction::Spawn(WINDOWS),
    ]
}

/// The keys bound to workspaces: for each tag, first the key that shows its
/// workspace, then the one that moves the focused window there.
pub open spec fn tag_keys() -> Seq<Seq<char>> {
    Seq::new(
        18,
        |k: int|
            if k % 2 == 0 {
                "M-"@ + workspace_tags()[k / 2]@
            } else {
                "M-S-"@ + workspace_tags()[k / 2]@
            },
    )
}

/// The workspace actions, at the places of their keys in `tag_keys`.
pub open spec fn tag_actions() -> Seq<KeyAction> {
    Seq::new(
        18,
        |k: int|
            if k % 2 == 0 {
                KeyAction::FocusTag(workspace_tags()[k / 2])
            } else {
                KeyAction::MoveFocusedToTag(workspace_tags()[k / 2])
            },
    )
}

/// All bound keys.
pub open spec fn binding_keys() -> Seq<Seq<char>> {
    fixed_keys() + tag_keys()
}

/// All bound actions, at the places of their keys in `binding_keys`.
pub open spec fn binding_actions() -> Seq<KeyAction> {
    fixed_actions() + tag_actions()
}

/// `prefix` followed by `tag`.
fn prefixed(prefix: &str, tag: &str) -> (r: String)
    ensures
        r@ == prefix@ + tag@,
{
    let mut r = String::from_str(prefix);
    r.append(tag);
    r
}

/// The key bindings: each key, written the way `xmodmap` names keys with
/// `M-` for the main modifier and `S-` for shift, with its action.
pub fn raw_key_bindings() -> (r: Vec<(String, KeyAction)>)
    ensures
        r.len() == binding_keys().len(),
        forall|i: int|
            0 <= i < r.len() ==> (#[trigger] r[i]).0@ == binding_keys()[i] && r[i].1
                == binding_actions()[i],
{
    let mut r: Vec<(String, KeyAction)> = Vec::new();
    r.push((String::from_str("M-j"), KeyAction::FocusDown));
    r.push((String::from_str("M-k"), KeyAction::FocusUp));
    r.push((String::from_str("M-S-j"), KeyAction::SwapDown));
    r.push((String::from_str("M-S-k"), KeyAction::SwapUp));
    r.push((String::from_str("M-S-q"), KeyAction::KillFocused));
    r.push((String::from_str("M-Tab"), KeyAction::ToggleTag));
    r.push((String::from_str("M-l"), KeyAction::NextScreen));
    r.push((String::from_str("M-h"), KeyAction::PreviousScreen));
    r.push((String::from_str("M-grave"), KeyAction::NextLayout));
    r.push((String::from_str("M-S-grave"), KeyAction::PreviousLayout));
    r.push((String::from_str("M-f"), KeyAction::ToggleFullscreen));
    r.push((String::from_str("M-S-Up"), KeyAction::IncMain(1i8)));
    r.push((String::from_str("M-S-Down"), KeyAction::IncMain(-1i8)));
    r.push((String::from_str("M-S-Right"), KeyAction::ExpandMain));
    r.push((String::from_str("M-S-Left"), KeyAction::ShrinkMain));
    r.push((String::from_str("M-semicolon"), KeyAction::Spawn(RUNNER)));
    r.push((String::from_str("M-Return"), KeyAction::Spawn(TERM)));
    r.push((String::from_str("M-apostrophe"), KeyAction::Spawn(WEB_BROWSER)));
    r.push((String::from_str("M-r"), KeyAction::Exit));
    r.push((String::from_str("M-S-Escape"), KeyAction::Spawn("pkill -fi kdwm")));
    r.push((String::from_str("M-p"), KeyAction::GetPlayers));
    r.push((String::from_str("M-backslash"), KeyAction::Media(MediaMsg::PlayPause)));
    r.push((String::from_str("M-bracketleft"), KeyAction::Media(MediaMsg::Previous)));
    r.push((String::from_str("M-bracketright"), KeyAction::Media(MediaMsg::Next)));
    r.push((String::from_str("M-i"), KeyAction::SinkFocused));
    r.push((String::from_str("M-o"), KeyAction::FloatFocused));
    r.push((String::from_str("M-slash"), KeyAction::Spawn(WINDOWS)));
    assert(r@.len() == fixed_keys().len());
    let tags: Vec<&'static str> = vec!["1", "2", "3", "4", "5", "6", "7", "8", "9"];
    assert(tags@ == workspace_tags());
    let mut t: usize = 0;
    while t < tags.len()
        invariant
            tags@ == workspace_tags(),
            t <= tags.len(),
            r.len() == fixed_keys().len() + 2 * t,
            forall|i: int|
                0 <= i < r.len() ==> (#[trigger] r[i]).0@ == binding_keys()[i] && r[i].1
                    == binding_actions()[i],
        decreases tags.len() - t,
    {
        let tag = tags[t];
        r.push((prefixed("M-", tag), KeyAction::FocusTag(tag)));
        r.push((prefixed("M-S-", tag), KeyAction::MoveFocusedToTag(tag)));
        t = t + 1;
    }
    r
}

/// The place of a bound key among the bindings, told by its length and its
/// third and fifth characters; -1 for a key that is not bound.
pub open spec fn key_place(k: Seq<char>) -> int {
    if k.len() == 3 && k[2] == 'j' {
        0
    } else if k.len() == 3 && k[2] == 'k' {
        1
    } else if k.len() == 5 && k[2] == 'S' && k[4] == 'j' {
        2
    } else if k.len() == 5 && k[2] == 'S' && k[4] == 'k' {
        3
    } else if k.len() == 5 && k[2] == 'S' && k[4] == 'q' {
        4
    } else if k.len() == 5 && k[2] == 'T' && k[4] == 'b' {
        5
    } else if k.len() == 3 && k[2] == 'l' {
        6
    } else if k.len() == 3 && k[2] == 'h' {
        7
    } else if k.len() == 7 && k[2] == 'g' && k[4] == 'a' {
        8
    } else if k.len() == 9 && k[2] == 'S' && k[4] == 'g' {
        9
    } else if k.len() == 3 && k[2] == 'f' {
        10
    } else if k.len() == 6 && k[2] == 'S' && k[4] == 'U' {
        11
    } else if k.len() == 8 && k[2] == 'S' && k[4] == 'D' {
        12
    } else if k.len() == 9 && k[2] == 'S' && k[4] == 'R' {
        13
    } else if k.len() == 8 && k[2] == 'S' && k[4] == 'L' {
        14
    } else if k.len() == 11 && k[2] == 's' && k[4] == 'm' {
        15
    } else if k.len() == 8 && k[2] == 'R' && k[4] == 't' {
        16
    } else if k.len() == 12 && k[2] == 'a' && k[4] == 'o' {
        17
    } else if k.len() == 3 && k[2] == 'r' {
        18
    } else if k.len() == 10 && k[2] == 'S' && k[4] == 'E' {
        19
    } else if k.len() == 3 && k[2] == 'p' {
        20
    } else if k.len() == 11 && k[2] == 'b' && k[4] == 'c' {
        21
    } else if k.len() == 13 && k[2] == 'b' && k[4] == 'a' {
        22
    } else if k.len() == 14 && k[2] == 'b' && k[4] == 'a' {
        23
    } else if k.len() == 3 && k[2] == 'i' {
        24
    } else if k.len() == 3 && k[2] == 'o' {
        25
    } else if k.len() == 7 && k[2] == 's' && k[4] == 'a' {
        26
    } else if k.len() == 3 && k[2] == '1' {
        27
    } else if k.len() == 5 && k[2] == 'S' && k[4] == '1' {
        28
    } else if k.len() == 3 && k[2] == '2' {
        29
    } else if k.len() == 5 && k[2] == 'S' && k[4] == '2' {
        30
    } else if k.len() == 3 && k[2] == '3' {
        31
    } else if k.len() == 5 && k[2] == 'S' && k[4] == '3' {
        32
    } else if k.len() == 3 && k[2] == '4' {
        33
    } else if k.len() == 5 && k[2] == 'S' && k[4] == '4' {
        34
    } else if k.len() == 3 && k[2] == '5' {
        35
    } else if k.len() == 5 && k[2] == 'S' && k[4] == '5' {
        36
    } else if k.len() == 3 && k[2] == '6' {
        37
    } else if k.len() == 5 && k[2] == 'S' && k[4] == '6' {
        38
    } else if k.len() == 3 && k[2] == '7' {
        39
    } else if k.len() == 5 && k[2] == 'S' && k[4] == '7' {
        40
    } else if k.len() == 3 && k[2] == '8' {
        41
    } else if k.len() == 5 && k[2] == 'S' && k[4] == '8' {
        42
    } else if k.len() == 3 && k[2] == '9' {
        43
    } else if k.len() == 5 && k[2] == 'S' && k[4] == '9' {
        44
    } else {
        -1
    }
}

/// Each bound key is told apart from all the others by `key_place`.
proof fn lemma_key_place(i: int)
    requires
        0 <= i < binding_keys().len(),
    ensures
        key_place(binding_keys()[i]) == i,
{
    reveal_strlit("M-j");
    reveal_strlit("M-k");
    reveal_strlit("M-S-j");
    reveal_strlit("M-S-k");
    reveal_strlit("M-S-q");
    reveal_strlit("M-Tab");
    reveal_strlit("M-l");
    reveal_strlit("M-h");
    reveal_strlit("M-grave");
    reveal_strlit("M-S-grave");
    reveal_strlit("M-f");
    reveal_strlit("M-S-Up");
    reveal_strlit("M-S-Down");
    reveal_strlit("M-S-Right");
    reveal_strlit("M-S-Left");
    reveal_strlit("M-semicolon");
    reveal_strlit("M-Return");
    reveal_strlit("M-apostrophe");
    reveal_strlit("M-r");
    reveal_strlit("M-S-Escape");
    reveal_strlit("M-p");
    reveal_strlit("M-backslash");
    reveal_strlit("M-bracketleft");
    reveal_strlit("M-bracketright");
    reveal_strlit("M-i");
    reveal_strlit("M-o");
    reveal_strlit("M-slash");
    reveal_strlit("1");
    reveal_strlit("2");
    reveal_strlit("3");
    reveal_strlit("4");
    reveal_strlit("5");
    reveal_strlit("6");
    reveal_strlit("7");
    reveal_strlit("8");
    reveal_strlit("9");
    reveal_strlit("M-");
    reveal_strlit("M-S-");
    if i == 0 {
        assert(key_place(binding_keys()[0]) == 0);
    } else if i == 1 {
        assert(key_place(binding_keys()[1]) == 1);
    } else if i == 2 {
        assert(key_place(binding_keys()[2]) == 2);
    } else if i == 3 {
        assert(key_place(binding_keys()[3]) == 3);
    } else if i == 4 {
        assert(key_place(binding_keys()[4]) == 4);
    } else if i == 5 {
        assert(key_place(binding_keys()[5]) == 5);
    } else if i == 6 {
        assert(key_place(binding_keys()[6]) == 6);
    } else if i == 7 {
        assert(key_place(binding_keys()[7]) == 7);
    } else if i == 8 {
        assert(key_place(binding_keys()[8]) == 8);
    } else if i == 9 {
        assert(key_place(binding_keys()[9]) == 9);
    } else if i == 10 {
        assert(key_place(binding_keys()[10]) == 10);
    } else if i == 11 {
        assert(key_place(binding_keys()[11]) == 11);
    } else if i == 12 {
        assert(key_place(binding_keys()[12]) == 12);
    } else if i == 13 {
        assert(key_place(binding_keys()[13]) == 13);
    } else if i == 14 {
        assert(key_place(binding_keys()[14]) == 14);
    } else if i == 15 {
        assert(key_place(binding_keys()[15]) == 15);
    } else if i == 16 {
        assert(key_place(binding_keys()[16]) == 16);
    } else if i == 17 {
        assert(key_place(binding_keys()[17]) == 17);
    } else if i == 18 {
        assert(key_place(binding_keys()[18]) == 18);
    } else if i == 19 {
        assert(key_place(binding_keys()[19]) == 19);
    } else if i == 20 {
        assert(key_place(binding_keys()[20]) == 20);
    } else if i == 21 {
        assert(key_place(binding_keys()[21]) == 21);
    } else if i == 22 {
        assert(key_place(binding_keys()[22]) == 22);
    } else if i == 23 {
        assert(key_place(binding_keys()[23]) == 23);
    } else if i == 24 {
        assert(key_place(binding_keys()[24]) == 24);
    } else if i == 25 {
        assert(key_place(binding_keys()[25]) == 25);
    } else if i == 26 {
        assert(key_place(binding_keys()[26]) == 26);
    } else if i == 27 {
        assert(key_place(binding_keys()[27]) == 27);
    } else if i == 28 {
        assert(key_place(binding_keys()[28]) == 28);
    } else if i == 29 {
        assert(key_place(binding_keys()[29]) == 29);
    } else if i == 30 {
        assert(key_place(binding_keys()[30]) == 30);
    } else if i == 31 {
        assert(key_place(binding_keys()[31]) == 31);
    } else if i == 32 {
        assert(key_place(binding_keys()[32]) == 32);
    } else if i == 33 {
        assert(key_place(binding_keys()[33]) == 33);
    } else if i == 34 {
        assert(key_place(binding_keys()[34]) == 34);
    } else if i == 35 {
        assert(key_place(binding_keys()[35]) == 35);
    } else if i == 36 {
        assert(key_place(binding_keys()[36]) == 36);
    } else if i == 37 {
        assert(key_place(binding_keys()[37]) == 37);
    } else if i == 38 {
        assert(key_place(binding_keys()[38]) == 38);
    } else if i == 39 {
        assert(key_place(binding_keys()[39]) == 39);
    } else if i == 40 {
        assert(key_place(binding_keys()[40]) == 40);
    } else if i == 41 {
        assert(key_place(binding_keys()[41]) == 41);
    } else if i == 42 {
        assert(key_place(binding_keys()[42]) == 42);
    } else if i == 43 {
        assert(key_place(binding_keys()[43]) == 43);
    } else if i == 44 {
        assert(key_place(binding_keys()[44]) == 44);
    } else {
    }
}

/// No key is bound twice, so each key names exactly one action.
pub proof fn lemma_binding_keys_distinct()
    ensures
        forall|i: int, j: int|
            0 <= i < j < binding_keys().len() ==> binding_keys()[i] != binding_keys()[j],
{
    assert forall|i: int, j: int|
        0 <= i < j < binding_keys().len() implies binding_keys()[i] != binding_keys()[j] by {
        lemma_key_place(i);
        lemma_key_place(j);
    }
}

/// Where each bound key stands among the bindings.
proof fn lemma_key_places()
    ensures
        key_place("M-j"@) == 0,
        key_place("M-k"@) == 1,
        key_place("M-S-j"@) == 2,
        key_place("M-S-k"@) == 3,
        key_place("M-S-q"@) == 4,
        key_place("M-Tab"@) == 5,
        key_place("M-l"@) == 6,
        key_place("M-h"@) == 7,
        key_place("M-grave"@) == 8,
        key_place("M-S-grave"@) == 9,
        key_place("M-f"@) == 10,
        key_place("M-S-Up"@) == 11,
        key_place("M-S-Down"@) == 12,
        key_place("M-S-Right"@) == 13,
        key_place("M-S-Left"@) == 14,
        key_place("M-semicolon"@) == 15,
        key_place("M-Return"@) == 16,
        key_place("M-apostrophe"@) == 17,
        key_place("M-r"@) == 18,
        key_place("M-S-Escape"@) == 19,
        key_place("M-p"@) == 20,
        key_place("M-backslash"@) == 21,
        key_place("M-bracketleft"@) == 22,
        key_place("M-bracketright"@) == 23,
        key_place("M-i"@) == 24,
        key_place("M-o"@) == 25,
        key_place("M-slash"@) == 26,
        key_place("M-1"@) == 27,
        key_place("M-S-1"@) == 28,
        key_place("M-2"@) == 29,
        key_place("M-S-2"@) == 30,
        key_place("M-3"@) == 31,
        key_place("M-S-3"@) == 32,
        key_place("M-4"@) == 33,
        key_place("M-S-4"@) == 34,
        key_place("M-5"@) == 35,
        key_place("M-S-5"@) == 36,
        key_place("M-6"@) == 37,
        key_place("M-S-6"@) == 38,
        key_place("M-7"@) == 39,
        key_place("M-S-7"@) == 40,
        key_place("M-8"@) == 41,
        key_place("M-S-8"@) == 42,
        key_place("M-9"@) == 43,
        key_place("M-S-9"@) == 44,
{
    reveal_strlit("M-j");
    reveal_strlit("M-k");
    reveal_strlit("M-S-j");
    reveal_strlit("M-S-k");
    reveal_strlit("M-S-q");
    reveal_strlit("M-Tab");
    reveal_strlit("M-l");
    reveal_strlit("M-h");
    reveal_strlit("M-grave");
    reveal_strlit("M-S-grave");
    reveal_strlit("M-f");
    reveal_strlit("M-S-Up");
    reveal_strlit("M-S-Down");
    reveal_strlit("M-S-Right");
    reveal_strlit("M-S-Left");
    reveal_strlit("M-semicolon");
    reveal_strlit("M-Return");
    reveal_strlit("M-apostrophe");
    reveal_strlit("M-r");
    reveal_strlit("M-S-Escape");
    reveal_strlit("M-p");
    reveal_strlit("M-backslash");
    reveal_strlit("M-bracketleft");
    reveal_strlit("M-bracketright");
    reveal_strlit("M-i");
    reveal_strlit("M-o");
    reveal_strlit("M-slash");
    reveal_strlit("M-1");
    reveal_strlit("M-S-1");
    reveal_strlit("M-2");
    reveal_strlit("M-S-2");
    reveal_strlit("M-3");
    reveal_strlit("M-S-3");
    reveal_strlit("M-4");
    reveal_strlit("M-S-4");
    reveal_strlit("M-5");
    reveal_strlit("M-S-5");
    reveal_strlit("M-6");
    reveal_strlit("M-S-6");
    reveal_strlit("M-7");
    reveal_strlit("M-S-7");
    reveal_strlit("M-8");
    reveal_strlit("M-S-8");
    reveal_strlit("M-9");
    reveal_strlit("M-S-9");
}

/// Which key runs which action: each key named here is bound to the action
/// named beside it, wherever it stands among the bindings.
pub proof fn lemma_key_actions()
    ensures
        forall|i: int|
            0 <= i < binding_keys().len() ==> {
                &&& binding_keys()[i] == "M-j"@ ==> binding_actions()[i] == KeyAction::FocusDown
                &&& binding_keys()[i] == "M-k"@ ==> binding_actions()[i] == KeyAction::FocusUp
                &&& binding_keys()[i] == "M-S-j"@ ==> binding_actions()[i] == KeyAction::SwapDown
                &&& binding_keys()[i] == "M-S-k"@ ==> binding_actions()[i] == KeyAction::SwapUp
                &&& binding_keys()[i] == "M-S-q"@ ==> binding_actions()[i] == KeyAction::KillFocused
                &&& binding_keys()[i] == "M-Tab"@ ==> binding_actions()[i] == KeyAction::ToggleTag
                &&& binding_keys()[i] == "M-l"@ ==> binding_actions()[i] == KeyAction::NextScreen
                &&& binding_keys()[i] == "M-h"@ ==> binding_actions()[i] == KeyAction::PreviousScreen
                &&& binding_keys()[i] == "M-grave"@ ==> binding_actions()[i] == KeyAction::NextLayout
                &&& binding_keys()[i] == "M-S-grave"@ ==> binding_actions()[i] == KeyAction::PreviousLayout
                &&& binding_keys()[i] == "M-f"@ ==> binding_actions()[i] == KeyAction::ToggleFullscreen
                &&& binding_keys()[i] == "M-S-Up"@ ==> binding_actions()[i] == KeyAction::IncMain(1i8)
                &&& binding_keys()[i] == "M-S-Down"@ ==> binding_actions()[i] == KeyAction::IncMain(-1i8)
                &&& binding_keys()[i] == "M-S-Right"@ ==> binding_actions()[i] == KeyAction::ExpandMain
                &&& binding_keys()[i] == "M-S-Left"@ ==> binding_actions()[i] == KeyAction::ShrinkMain
                &&& binding_keys()[i] == "M-semicolon"@ ==> binding_actions()[i] == KeyAction::Spawn(RUNNER)
                &&& binding_keys()[i] == "M-Return"@ ==> binding_actions()[i] == KeyAction::Spawn(TERM)
                &&& binding_keys()[i] == "M-apostrophe"@ ==> binding_actions()[i] == KeyAction::Spawn(WEB_BROWSER)
                &&& binding_keys()[i] == "M-r"@ ==> binding_actions()[i] == KeyAction::Exit
                &&& binding_keys()[i] == "M-S-Escape"@ ==> binding_actions()[i] == KeyAction::Spawn("pkill -fi kdwm")
                &&& binding_keys()[i] == "M-p"@ ==> binding_actions()[i] == KeyAction::GetPlayers
                &&& binding_keys()[i] == "M-backslash"@ ==> binding_actions()[i] == KeyAction::Media(MediaMsg::PlayPause)
                &&& binding_keys()[i] == "M-bracketleft"@ ==> binding_actions()[i] == KeyAction::Media(MediaMsg::Previous)
                &&& binding_keys()[i] == "M-bracketright"@ ==> binding_actions()[i] == KeyAction::Media(MediaMsg::Next)
                &&& binding_keys()[i] == "M-i"@ ==> binding_actions()[i] == KeyAction::SinkFocused
                &&& binding_keys()[i] == "M-o"@ ==> binding_actions()[i] == KeyAction::FloatFocused
                &&& binding_keys()[i] == "M-slash"@ ==> binding_actions()[i] == KeyAction::Spawn(WINDOWS)
                &&& binding_keys()[i] == "M-1"@ ==> binding_actions()[i] == KeyAction::FocusTag("1")
                &&& binding_keys()[i] == "M-S-1"@ ==> binding_actions()[i] == KeyAction::MoveFocusedToTag("1")
                &&& binding_keys()[i] == "M-2"@ ==> binding_actions()[i] == KeyAction::FocusTag("2")
                &&& binding_keys()[i] == "M-S-2"@ ==> binding_actions()[i] == KeyAction::MoveFocusedToTag("2")
                &&& binding_keys()[i] == "M-3"@ ==> binding_actions()[i] == KeyAction::FocusTag("3")
                &&& binding_keys()[i] == "M-S-3"@ ==> binding_actions()[i] == KeyAction::MoveFocusedToTag("3")
                &&& binding_keys()[i] == "M-4"@ ==> binding_actions()[i] == KeyAction::FocusTag("4")
                &&& binding_keys()[i] == "M-S-4"@ ==> binding_actions()[i] == KeyAction::MoveFocusedToTag("4")
                &&& binding_keys()[i] == "M-5"@ ==> binding_actions()[i] == KeyAction::FocusTag("5")
                &&& binding_keys()[i] == "M-S-5"@ ==> binding_actions()[i] == KeyAction::MoveFocusedToTag("5")
                &&& binding_keys()[i] == "M-6"@ ==> binding_actions()[i] == KeyAction::FocusTag("6")
                &&& binding_keys()[i] == "M-S-6"@ ==> binding_actions()[i] == KeyAction::MoveFocusedToTag("6")
                &&& binding_keys()[i] == "M-7"@ ==> binding_actions()[i] == KeyAction::FocusTag("7")
                &&& binding_keys()[i] == "M-S-7"@ ==> binding_actions()[i] == KeyAction::MoveFocusedToTag("7")
                &&& binding_keys()[i] == "M-8"@ ==> binding_actions()[i] == KeyAction::FocusTag("8")
                &&& binding_keys()[i] == "M-S-8"@ ==> binding_actions()[i] == KeyAction::MoveFocusedToTag("8")
                &&& binding_keys()[i] == "M-9"@ ==> binding_actions()[i] == KeyAction::FocusTag("9")
                &&& binding_keys()[i] == "M-S-9"@ ==> binding_actions()[i] == KeyAction::MoveFocusedToTag("9")
            },
{
    lemma_key_places();
    assert forall|i: int| 0 <= i < binding_keys().len() implies {
        &&& binding_keys()[i] == "M-j"@ ==> binding_actions()[i] == KeyAction::FocusDown
        &&& binding_keys()[i] == "M-k"@ ==> binding_actions()[i] == KeyAction::FocusUp
        &&& binding_keys()[i] == "M-S-j"@ ==> binding_actions()[i] == KeyAction::SwapDown
        &&& binding_keys()[i] == "M-S-k"@ ==> binding_actions()[i] == KeyAction::SwapUp
        &&& binding_keys()[i] == "M-S-q"@ ==> binding_actions()[i] == KeyAction::KillFocused
        &&& binding_keys()[i] == "M-Tab"@ ==> binding_actions()[i] == KeyAction::ToggleTag
        &&& binding_keys()[i] == "M-l"@ ==> binding_actions()[i] == KeyAction::NextScreen
        &&& binding_keys()[i] == "M-h"@ ==> binding_actions()[i] == KeyAction::PreviousScreen
        &&& binding_keys()[i] == "M-grave"@ ==> binding_actions()[i] == KeyAction::NextLayout
        &&& binding_keys()[i] == "M-S-grave"@ ==> binding_actions()[i] == KeyAction::PreviousLayout
        &&& binding_keys()[i] == "M-f"@ ==> binding_actions()[i] == KeyAction::ToggleFullscreen
        &&& binding_keys()[i] == "M-S-Up"@ ==> binding_actions()[i] == KeyAction::IncMain(1i8)
        &&& binding_keys()[i] == "M-S-Down"@ ==> binding_actions()[i] == KeyAction::IncMain(-1i8)
        &&& binding_keys()[i] == "M-S-Right"@ ==> binding_actions()[i] == KeyAction::ExpandMain
        &&& binding_keys()[i] == "M-S-Left"@ ==> binding_actions()[i] == KeyAction::ShrinkMain
        &&& binding_keys()[i] == "M-semicolon"@ ==> binding_actions()[i] == KeyAction::Spawn(RUNNER)
        &&& binding_keys()[i] == "M-Return"@ ==> binding_actions()[i] == KeyAction::Spawn(TERM)
        &&& binding_keys()[i] == "M-apostrophe"@ ==> binding_actions()[i] == KeyAction::Spawn(WEB_BROWSER)
        &&& binding_keys()[i] == "M-r"@ ==> binding_actions()[i] == KeyAction::Exit
        &&& binding_keys()[i] == "M-S-Escape"@ ==> binding_actions()[i] == KeyAction::Spawn("pkill -fi kdwm")
        &&& binding_keys()[i] == "M-p"@ ==> binding_actions()[i] == KeyAction::GetPlayers
        &&& binding_keys()[i] == "M-backslash"@ ==> binding_actions()[i] == KeyAction::Media(MediaMsg::PlayPause)
        &&& binding_keys()[i] == "M-bracketleft"@ ==> binding_actions()[i] == KeyAction::Media(MediaMsg::Previous)
        &&& binding_keys()[i] == "M-bracketright"@ ==> binding_actions()[i] == KeyAction::Media(MediaMsg::Next)
        &&& binding_keys()[i] == "M-i"@ ==> binding_actions()[i] == KeyAction::SinkFocused
        &&& binding_keys()[i] == "M-o"@ ==> binding_actions()[i] == KeyAction::FloatFocused
        &&& binding_keys()[i] == "M-slash"@ ==> binding_actions()[i] == KeyAction::Spawn(WINDOWS)
        &&& binding_keys()[i] == "M-1"@ ==> binding_actions()[i] == KeyAction::FocusTag("1")
        &&& binding_keys()[i] == "M-S-1"@ ==> binding_actions()[i] == KeyAction::MoveFocusedToTag("1")
        &&& binding_keys()[i] == "M-2"@ ==> binding_actions()[i] == KeyAction::FocusTag("2")
        &&& binding_keys()[i] == "M-S-2"@ ==> binding_actions()[i] == KeyAction::MoveFocusedToTag("2")
        &&& binding_keys()[i] == "M-3"@ ==> binding_actions()[i] == KeyAction::FocusTag("3")
        &&& binding_keys()[i] == "M-S-3"@ ==> binding_actions()[i] == KeyAction::MoveFocusedToTag("3")
        &&& binding_keys()[i] == "M-4"@ ==> binding_actions()[i] == KeyAction::FocusTag("4")
        &&& binding_keys()[i] == "M-S-4"@ ==> binding_actions()[i] == KeyAction::MoveFocusedToTag("4")
        &&& binding_keys()[i] == "M-5"@ ==> binding_actions()[i] == KeyAction::FocusTag("5")
        &&& binding_keys()[i] == "M-S-5"@ ==> binding_actions()[i] == KeyAction::MoveFocusedToTag("5")
        &&& binding_keys()[i] == "M-6"@ ==> binding_actions()[i] == KeyAction::FocusTag("6")
        &&& binding_keys()[i] == "M-S-6"@ ==> binding_actions()[i] == KeyAction::MoveFocusedToTag("6")
        &&& binding_keys()[i] == "M-7"@ ==> binding_actions()[i] == KeyAction::FocusTag("7")
        &&& binding_keys()[i] == "M-S-7"@ ==> binding_actions()[i] == KeyAction::MoveFocusedToTag("7")
        &&& binding_keys()[i] == "M-8"@ ==> binding_actions()[i] == KeyAction::FocusTag("8")
        &&& binding_keys()[i] == "M-S-8"@ ==> binding_actions()[i] == KeyAction::MoveFocusedToTag("8")
        &&& binding_keys()[i] == "M-9"@ ==> binding_actions()[i] == KeyAction::FocusTag("9")
        &&& binding_keys()[i] == "M-S-9"@ ==> binding_actions()[i] == KeyAction::MoveFocusedToTag("9")
    } by {
        lemma_key_place(i);
    }
}

} // verus!
