//! The dispatcher: what each command does to the playback state.
//!
//! The functions here decide; they touch no audio device. A caller holds
//! the player by `&mut`, so one command is applied at a time, and carries
//! out the action that comes back before it lets go.

use vstd::prelude::*;
use crate::command::Command;
use vstd::arithmetic::div_mod::lemma_small_mod;
use vstd::seq_lib::to_multiset_build;
use crate::playlist::{lemma_cursor_successor, MusicPlayer, Playlist};
use crate::volume::Volume;

verus! {

/// What the audio sink reports of itself when a command arrives.
#[derive(Clone, Copy, Debug, PartialEq, Eq, Structural)]
pub struct SinkStatus {
    pub paused: bool,
    pub volume: Volume,
}

/// What the caller has to do to the sink, or to the process, for a command.
#[derive(Debug, PartialEq, Eq)]
pub enum Action {
    /// Stop what is playing, then load the file at this path and play it.
    Play(String),
    /// Go on playing.
    Resume,
    /// Hold the playback.
    Pause,
    /// Set the gain.
    SetVolume(Volume),
    /// End the process.
    Exit,
}

/// An action as a value.
pub enum ActionText {
    Play(Seq<char>),
    Resume,
    Pause,
    SetVolume(Volume),
    Exit,
}

impl View for Action {
    type V = ActionText;

    open spec fn view(&self) -> ActionText {
        match self {
            Action::Play(path) => ActionText::Play(path@),
            Action::Resume => ActionText::Resume,
            Action::Pause => ActionText::Pause,
            Action::SetVolume(volume) => ActionText::SetVolume(*volume),
            Action::Exit => ActionText::Exit,
        }
    }
}

/// The view of an optional action.
pub open spec fn option_action(action: Option<Action>) -> Option<ActionText> {
    match action {
        Some(action) => Some(action@),
        None => None,
    }
}

/// The playlist after a command: `Next` and `Prev` move the cursor, the
/// other commands leave the playlist alone.
pub open spec fn playlist_after(playlist: Playlist, command: Command) -> Playlist {
    match command {
        Command::Next => playlist.advanced(),
        Command::Prev => playlist.retreated(),
        _ => playlist,
    }
}

/// The playlist after a run of commands, applied one after the other.
pub open spec fn playlist_after_all(playlist: Playlist, commands: Seq<Command>) -> Playlist
    decreases commands.len(),
{
    if commands.len() == 0 {
        playlist
    } else {
        playlist_after(playlist_after_all(playlist, commands.drop_last()), commands.last())
    }
}

/// How far a run of commands moves the cursor: one track on for each
/// `Next`, one track back for each `Prev`.
pub open spec fn net_steps(commands: Seq<Command>) -> int
    decreases commands.len(),
{
    if commands.len() == 0 {
        0
    } else {
        net_steps(commands.drop_last()) + match commands.last() {
            Command::Next => 1int,
            Command::Prev => -1int,
            _ => 0int,
        }
    }
}

/// A run of commands leaves the tracks as they are and moves the cursor by
/// the net number of steps, counted round the list.
pub proof fn lemma_playlist_after_all(playlist: Playlist, commands: Seq<Command>)
    requires
        playlist.wf(),
    ensures
        playlist_after_all(playlist, commands).wf(),
        playlist_after_all(playlist, commands).tracks == playlist.tracks,
        playlist_after_all(playlist, commands).cursor == (playlist.cursor + net_steps(commands)) % (
        playlist.tracks.len() as int),
    decreases commands.len(),
{
    let len = playlist.tracks.len() as int;
    if commands.len() == 0 {
        lemma_small_mod(playlist.cursor as nat, len as nat);
    } else {
        let front = commands.drop_last();
        lemma_playlist_after_all(playlist, front);
        let before = playlist_after_all(playlist, front);
        match commands.last() {
            Command::Next => {
                lemma_cursor_successor(playlist.cursor + net_steps(front), len);
                lemma_cursor_successor(before.cursor, len);
                lemma_small_mod(before.cursor as nat, len as nat);
            },
            Command::Prev => {
                lemma_cursor_successor(playlist.cursor + net_steps(front) - 1, len);
            },
            _ => {},
        }
    }
}

/// The net number of steps of a run depends on how often each command
/// occurs in it, not on where.
pub proof fn lemma_net_steps_counts(commands: Seq<Command>)
    ensures
        net_steps(commands) == commands.to_multiset().count(Command::Next) - commands.to_multiset().count(
            Command::Prev,
        ),
    decreases commands.len(),
{
    broadcast use vstd::multiset::group_multiset_axioms;

    if commands.len() == 0 {
        commands.to_multiset_ensures();
        assert(commands.to_multiset().len() == 0);
    } else {
        let front = commands.drop_last();
        lemma_net_steps_counts(front);
        to_multiset_build(front, commands.last());
        assert(front.push(commands.last()) =~= commands);
    }
}

/// The order in which commands arrive does not show in the playlist they
/// leave: two runs that hold the same commands equally often, in whatever
/// order, lead from one playlist to the same playlist. So it does not matter
/// to the final position which of two producers got its command in first.
pub proof fn lemma_order_of_commands_is_immaterial(
    playlist: Playlist,
    a: Seq<Command>,
    b: Seq<Command>,
)
    requires
        playlist.wf(),
        a.to_multiset() == b.to_multiset(),
    ensures
        playlist_after_all(playlist, a) == playlist_after_all(playlist, b),
{
    lemma_playlist_after_all(playlist, a);
    lemma_playlist_after_all(playlist, b);
    lemma_net_steps_counts(a);
    lemma_net_steps_counts(b);
}

/// The action that a command calls for.
///
/// A move of the cursor is followed by playing the track that the cursor
/// came to stand on. `TogglePause` resumes a paused sink and pauses any
/// other. The volume commands set the gain one step from where the sink
/// has it. `Stop` ends the process.
pub open spec fn action_for(playlist: Playlist, command: Command, sink: SinkStatus) -> ActionText {
    match command {
        Command::Next => ActionText::Play(playlist.advanced().current()),
        Command::Prev => ActionText::Play(playlist.retreated().current()),
        Command::TogglePause => if sink.paused {
            ActionText::Resume
        } else {
            ActionText::Pause
        },
        Command::Stop => ActionText::Exit,
        Command::VolumeUp => ActionText::SetVolume(sink.volume.step_up()),
        Command::VolumeDown => ActionText::SetVolume(sink.volume.step_down()),
    }
}

/// Applies one command to the playback state and returns the action that
/// goes with it.
pub fn apply(player: &mut MusicPlayer, command: Command, sink: SinkStatus) -> (action: Action)
    ensures
        final(player)@ == playlist_after(old(player)@, command),
        action@ == action_for(old(player)@, command, sink),
{
    match command {
        Command::Next => {
            player.next();
            Action::Play(player.current_path().to_owned())
        },
        Command::Prev => {
            player.prev();
            Action::Play(player.current_path().to_owned())
        },
        Command::TogglePause => {
            if sink.paused {
                Action::Resume
            } else {
                Action::Pause
            }
        },
        Command::Stop => {
            Action::Exit
        },
        Command::VolumeUp => {
            Action::SetVolume(sink.volume.raised())
        },
        Command::VolumeDown => {
            Action::SetVolume(sink.volume.lowered())
        },
    }
}

/// Takes one request from the command channel: the token of a command is
/// applied as that command; any other text changes nothing and calls for no
/// action.
pub fn handle_request(player: &mut MusicPlayer, token: &str, sink: SinkStatus) -> (action: Option<
    Action,
>)
    ensures
        match Command::for_token(token@) {
            Some(command) => {
                &&& final(player)@ == playlist_after(old(player)@, command)
                &&& option_action(action) == Some(action_for(old(player)@, command, sink))
            },
            None => *final(player) == *old(player) && action is None,
        },
{
    match Command::parse(token) {
        Some(command) => Some(apply(player, command, sink)),
        None => None,
    }
}

/// The action that a player starts with: play the track that the cursor
/// stands on.
pub fn start(player: &MusicPlayer) -> (action: Action)
    ensures
        action@ == ActionText::Play(player@.current()),
{
    Action::Play(player.current_path().to_owned())
}

/// One look of the supervisor at the sink: where the sink has run empty,
/// the track has ended, and the player moves on as for `Next`; where it has
/// not, nothing happens.
pub fn supervise(player: &mut MusicPlayer, sink_empty: bool) -> (action: Option<Action>)
    ensures
        sink_empty ==> final(player)@ == old(player)@.advanced() && option_action(action) == Some(
            ActionText::Play(old(player)@.advanced().current()),
        ),
        !sink_empty ==> *final(player) == *old(player) && action is None,
{
    if sink_empty {
        player.next();
        Some(Action::Play(player.current_path().to_owned()))
    } else {
        None
    }
}

/// The time between two looks of the supervisor, in milliseconds.
pub const POLL_INTERVAL_MS: u64 = 100;

} // verus!
