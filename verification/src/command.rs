//! The commands, and the tokens that stand for them on the wire.

use vstd::prelude::*;
use crate::text::str_eq;

verus! {

/// What a listener can ask of the player. Both the hotkeys and the command
/// channel speak in these, and in nothing else.
#[derive(Clone, Copy, Debug, PartialEq, Eq, Hash, Structural)]
pub enum Command {
    Next,
    Prev,
    TogglePause,
    Stop,
    VolumeUp,
    VolumeDown,
}

impl Command {
    /// The token that stands for the command.
    pub open spec fn token_text(self) -> Seq<char> {
        match self {
            Command::Next => "next"@,
            Command::Prev => "prev"@,
            Command::TogglePause => "pause"@,
            Command::Stop => "stop"@,
            Command::VolumeUp => "volume_up"@,
            Command::VolumeDown => "volume_down"@,
        }
    }

    /// The command that a token stands for. Each command has one token,
    /// written in lower case with nothing round it; any other text stands
    /// for no command.
    pub open spec fn for_token(token: Seq<char>) -> Option<Command> {
        if token == "next"@ {
            Some(Command::Next)
        } else if token == "prev"@ {
            Some(Command::Prev)
        } else if token == "pause"@ {
            Some(Command::TogglePause)
        } else if token == "stop"@ {
            Some(Command::Stop)
        } else if token == "volume_up"@ {
            Some(Command::VolumeUp)
        } else if token == "volume_down"@ {
            Some(Command::VolumeDown)
        } else {
            None
        }
    }

    /// Reads a token.
    pub fn parse(token: &str) -> (command: Option<Command>)
        ensures
            command == Command::for_token(token@),
    {
        if str_eq(token, "next") {
            Some(Command::Next)
        } else if str_eq(token, "prev") {
            Some(Command::Prev)
        } else if str_eq(token, "pause") {
            Some(Command::TogglePause)
        } else if str_eq(token, "stop") {
            Some(Command::Stop)
        } else if str_eq(token, "volume_up") {
            Some(Command::VolumeUp)
        } else if str_eq(token, "volume_down") {
            Some(Command::VolumeDown)
        } else {
            None
        }
    }

    /// The token of the command.
    pub fn token(&self) -> (token: &'static str)
        ensures
            token@ == self.token_text(),
    {
        match self {
            Command::Next => "next",
            Command::Prev => "prev",
            Command::TogglePause => "pause",
            Command::Stop => "stop",
            Command::VolumeUp => "volume_up",
            Command::VolumeDown => "volume_down",
        }
    }
}

/// A command's token is read as that command and as no other.
pub proof fn lemma_token_reads_back(command: Command)
    ensures
        Command::for_token(command.token_text()) == Some(command),
{
    reveal_strlit("next");
    reveal_strlit("prev");
    reveal_strlit("pause");
    reveal_strlit("stop");
    reveal_strlit("volume_up");
    reveal_strlit("volume_down");
    assert("next"@[0] == 'n');
    assert("prev"@[1] == 'r');
    assert("pause"@[1] == 'a');
    assert("stop"@[0] == 's');
    assert("volume_down"@[7] == 'd');
}

/// A text that is read as a command is that command's token.
pub proof fn lemma_read_token_is_token(token: Seq<char>)
    ensures
        Command::for_token(token) matches Some(command) ==> command.token_text() == token,
{
}

} // verus!
