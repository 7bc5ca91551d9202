//! The media player that the bar and the media keys talk to through
//! `playerctl`: which player is chosen, the commands sent to it and the text
//! shown for what it plays.

use vstd::prelude::*;
use crate::command::{command, Command};
use crate::text::{
    chars_of, parse_decimal, parse_unsigned, split_chars, split_on, string_of, trim_chars,
    trimmed,
};
use crate::status::{output_chars, output_or_empty};

verus! {

/// The player chosen for the media keys and the media segment of the bar.
#[derive(Debug)]
pub struct Media {
    pub player: Option<String>,
}

/// What a media key asks of the player.
#[derive(Clone, Copy, Debug, PartialEq, Eq)]
pub enum MediaMsg {
    PlayPause,
    Next,
    Previous,
}

/// The `playerctl` action for a media key.
pub open spec fn action_name(msg: MediaMsg) -> Seq<char> {
    match msg {
        MediaMsg::PlayPause => "play-pause"@,
        MediaMsg::Next => "next"@,
        MediaMsg::Previous => "previous"@,
    }
}

/// The name of the chosen player: empty where none was chosen.
pub open spec fn chosen_name(media: Media) -> Seq<char> {
    match media.player {
        Some(p) => p@,
        None => Seq::<char>::empty(),
    }
}

/// The format in which `playerctl` is asked for what a player plays.
pub open spec fn metadata_format() -> Seq<char> {
    "{{ artist }}: {{ title }} [{{ playerName }}]"@
}

impl Media {
    /// No player chosen yet.
    pub fn new() -> (m: Media)
        ensures
            m.player is None,
    {
        Media { player: None }
    }

    /// The name of the chosen player: empty where none was chosen.
    pub fn player_name(&self) -> (r: String)
        ensures
            r@ == chosen_name(*self),
    {
        match &self.player {
            Some(p) => p.clone(),
            None => String::new(),
        }
    }
}

/// The `playerctl` action for a media key.
pub fn media_action(msg: MediaMsg) -> (r: String)
    ensures
        r@ == action_name(msg),
{
    match msg {
        MediaMsg::PlayPause => String::from_str("play-pause"),
        MediaMsg::Next => String::from_str("next"),
        MediaMsg::Previous => String::from_str("previous"),
    }
}

/// The command a media key runs: the action, sent to the chosen player.
pub fn media(state: &Media, msg: MediaMsg) -> (c: Command)
    ensures
        c.runs("playerctl"@, seq!["-p"@, chosen_name(*state), action_name(msg)]),
{
    let args = vec![String::from_str("-p"), state.player_name(), media_action(msg)];
    let c = command("playerctl", args);
    assert(c.arg_views() =~= seq!["-p"@, chosen_name(*state), action_name(msg)]);
    c
}

/// Once a player is chosen, the media keys address that player: the name
/// `media` sends them to is the chosen player's.
pub proof fn lemma_chosen_player_addressed(state: Media, player: String)
    requires
        state.player == Some(player),
    ensures
        chosen_name(state) == player@,
{
}

/// The command that asks `playerctl` what the player `player` plays.
pub fn metadata_command(player: &str) -> (c: Command)
    ensures
        c.runs("playerctl"@, seq!["-p"@, player@, "metadata"@, "-f"@, metadata_format()]),
{
    let args = vec![
        String::from_str("-p"),
        String::from_str(player),
        String::from_str("metadata"),
        String::from_str("-f"),
        String::from_str("{{ artist }}: {{ title }} [{{ playerName }}]"),
    ];
    let c = command("playerctl", args);
    assert(c.arg_views() =~= seq![
        "-p"@,
        player@,
        "metadata"@,
        "-f"@,
        metadata_format(),
    ]);
    c
}

/// The command that lists the running players, one per line.
pub fn list_players_command() -> (c: Command)
    ensures
        c.runs("playerctl"@, seq!["-l"@]),
{
    let c = command("playerctl", vec![String::from_str("-l")]);
    assert(c.arg_views() =~= seq!["-l"@]);
    c
}

/// The script the user picks a player with: it shows what each player plays
/// in a menu and prints the index of the line picked.
pub open spec fn select_script() -> Seq<char> {
    "playerctl -a metadata -f '{{ artist}}: {{ title }} [{{ playerName }}]' | rofi -dmenu -only-match -format 'i'"@
}

/// The command that lets the user pick a player (see `select_script`).
pub fn select_player_command() -> (c: Command)
    ensures
        c.runs("sh"@, seq!["-c"@, select_script()]),
{
    let args = vec![
        String::from_str("-c"),
        String::from_str(
            "playerctl -a metadata -f '{{ artist}}: {{ title }} [{{ playerName }}]' | rofi -dmenu -only-match -format 'i'",
        ),
    ];
    let c = command("sh", args);
    assert(c.arg_views() =~= seq!["-c"@, select_script()]);
    c
}

/// The players named in the output of `list_players_command`: the output
/// without surrounding whitespace, cut at each newline, each line without
/// surrounding whitespace. Empty output still names one, empty, player.
pub open spec fn listed_players(output: Seq<char>) -> Seq<Seq<char>> {
    split_on(trimmed(output), '\n').map_values(|line: Seq<char>| trimmed(line))
}

/// The players named in the output of `list_players_command` (empty where
/// the command failed); see `listed_players`.
pub fn player_list(output: Option<String>) -> (r: Vec<String>)
    ensures
        r.len() == listed_players(output_or_empty(output)).len(),
        forall|k: int|
            0 <= k < r.len() ==> (#[trigger] r[k])@ == listed_players(output_or_empty(output))[k],
{
    let ghost out = output_or_empty(output);
    let v = output_chars(output);
    let t = trim_chars(&v);
    let lines = split_chars(&t, '\n');
    let mut r: Vec<String> = Vec::new();
    let mut i: usize = 0;
    while i < lines.len()
        invariant
            i <= lines.len(),
            lines.len() == split_on(trimmed(out), '\n').len(),
            forall|k: int|
                0 <= k < lines.len() ==> (#[trigger] lines[k])@ == split_on(trimmed(out), '\n')[k],
            r.len() == i,
            forall|k: int| 0 <= k < i ==> (#[trigger] r[k])@ == listed_players(out)[k],
        decreases lines.len() - i,
    {
        let lc = chars_of(lines[i].as_str());
        let tc = trim_chars(&lc);
        r.push(string_of(&tc));
        i = i + 1;
    }
    r
}

/// The index the user picked, from the output of `select_player_command`:
/// the output without surrounding whitespace, parsed as a `usize`; `None`
/// where it holds no such number.
pub fn parse_selection(output: Option<String>) -> (r: Option<usize>)
    ensures
        match parse_unsigned(trimmed(output_or_empty(output)), usize::MAX as nat) {
            Some(n) => r == Some(n as usize),
            None => r is None,
        },
{
    let v = output_chars(output);
    let t = trim_chars(&v);
    let s = string_of(&t);
    match parse_decimal(s.as_str(), usize::MAX as u64) {
        Some(n) => Some(n as usize),
        None => None,
    }
}

/// Makes the player at `selection` in `players` the chosen one.
pub fn get_players(state: &mut Media, players: &Vec<String>, selection: usize)
    requires
        selection < players.len(),
    ensures
        final(state).player == Some(players[selection as int]),
{
    state.player = Some(players[selection].clone());
}

/// The text for the media segment: what the player plays, without
/// surrounding whitespace, or `None` where that leaves nothing.
pub open spec fn media_shown(output: Seq<char>) -> Seq<char> {
    if trimmed(output).len() > 0 {
        trimmed(output)
    } else {
        "None"@
    }
}

/// The text for the media segment, from the output of `metadata_command`
/// (`None` where it failed); see `media_shown`.
pub fn media_text(output: Option<String>) -> (r: String)
    ensures
        r@ == media_shown(output_or_empty(output)),
        r@.len() > 0,
{
    proof {
        reveal_strlit("None");
    }
    let v = output_chars(output);
    let t = trim_chars(&v);
    if t.len() > 0 {
        string_of(&t)
    } else {
        String::from_str("None")
    }
}

/// The player the media segment follows after one round of its update loop:
/// the name that arrived during the round, where one did, else the one it
/// followed before.
pub fn next_player(current: String, received: Option<String>) -> (r: String)
    ensures
        r == (match received {
            Some(p) => p,
            None => current,
        }),
{
    match received {
        Some(p) => p,
        None => current,
    }
}


/// The state of the media segment's update loop: the player it follows and
/// the text it shows. Each round takes the name that arrived, if any, asks
/// `playerctl` what that player plays and shows the answer.
#[derive(Debug)]
pub struct MediaFeed {
    pub player: String,
    pub text: String,
}

/// The player and text after one round that received `received` and got the
/// answer `output` to its query.
pub open spec fn feed_round(
    state: (Seq<char>, Seq<char>),
    received: Option<Seq<char>>,
    output: Seq<char>,
) -> (Seq<char>, Seq<char>) {
    let player = match received {
        Some(p) => p,
        None => state.0,
    };
    (player, media_shown(output))
}

/// The player and text after the rounds `rounds`, in order, from `state`;
/// each round is the name that arrived, if any, and the answer to its query.
pub open spec fn feed_after(
    state: (Seq<char>, Seq<char>),
    rounds: Seq<(Option<Seq<char>>, Seq<char>)>,
) -> (Seq<char>, Seq<char>)
    decreases rounds.len(),
{
    if rounds.len() == 0 {
        state
    } else {
        let before = feed_after(state, rounds.drop_last());
        feed_round(before, rounds.last().0, rounds.last().1)
    }
}

/// After any number of rounds, at least one, the segment shows the answer to
/// the last round's query, trimmed, or `None`: never an empty text.
pub proof fn lemma_feed_shows_last_answer(
    state: (Seq<char>, Seq<char>),
    rounds: Seq<(Option<Seq<char>>, Seq<char>)>,
)
    requires
        rounds.len() > 0,
    ensures
        feed_after(state, rounds).1 == media_shown(rounds.last().1),
        feed_after(state, rounds).1.len() > 0,
{
    reveal_strlit("None");
}

/// The segment follows the last name that arrived: after rounds in which no
/// name arrived, it follows the player it followed before them.
pub proof fn lemma_feed_keeps_player(
    state: (Seq<char>, Seq<char>),
    rounds: Seq<(Option<Seq<char>>, Seq<char>)>,
)
    requires
        forall|i: int| 0 <= i < rounds.len() ==> (#[trigger] rounds[i]).0 is None,
    ensures
        feed_after(state, rounds).0 == state.0,
    decreases rounds.len(),
{
    if rounds.len() > 0 {
        lemma_feed_keeps_player(state, rounds.drop_last());
        assert(rounds.last().0 is None);
    }
}

impl MediaFeed {
    /// Following no player yet, showing nothing yet.
    pub fn new() -> (f: MediaFeed)
        ensures
            f.player@ == Seq::<char>::empty(),
            f.text@ == Seq::<char>::empty(),
    {
        MediaFeed { player: String::new(), text: String::new() }
    }

    /// Begins a round: takes the name that arrived, if any, and gives the
    /// query to run for the player then followed. With `end_round` it makes
    /// the step that `feed_round` describes.
    pub fn begin_round(&mut self, received: Option<String>) -> (query: Command)
        ensures
            final(self).player@ == (match received {
                Some(p) => p@,
                None => old(self).player@,
            }),
            final(self).text == old(self).text,
            query.runs(
                "playerctl"@,
                seq!["-p"@, final(self).player@, "metadata"@, "-f"@, metadata_format()],
            ),
    {
        let current = self.player.clone();
        self.player = next_player(current, received);
        metadata_command(self.player.as_str())
    }

    /// Ends a round with the answer to its query (`None` where the query
    /// failed), which the segment then shows.
    pub fn end_round(&mut self, output: Option<String>)
        ensures
            final(self).player == old(self).player,
            (final(self).player@, final(self).text@) == feed_round(
                (old(self).player@, old(self).text@),
                None,
                output_or_empty(output),
            ),
            final(self).text@.len() > 0,
    {
        self.text = media_text(output);
    }
}

} // verus!
