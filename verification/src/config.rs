//! The configuration of the player, and what it is when nothing is
//! configured.

use vstd::prelude::*;
use crate::bindings::{lemma_index_of_command, BindingText, Bindings};
use crate::text::option_text;
use crate::volume::{Volume, VOLUME_DEFAULT};

verus! {

/// The settings that the player runs with.
#[derive(Debug)]
pub struct Config {
    /// The hotkeys: for each command token, the combination that calls for
    /// it.
    pub hotkeys: Bindings,
    /// The directory to play from, if one is set.
    pub music_dir: Option<String>,
    /// The gain to start with.
    pub volume: Volume,
}

/// The hotkeys of a player for which none are configured: the four media
/// keys, bound to the commands they are named after.
pub open spec fn default_hotkeys() -> Seq<BindingText> {
    seq![
        (BindingText { command: "next"@, combination: "XF86AudioNext"@ }),
        (BindingText { command: "prev"@, combination: "XF86AudioPrev"@ }),
        (BindingText { command: "pause"@, combination: "XF86AudioPlay"@ }),
        (BindingText { command: "stop"@, combination: "XF86AudioStop"@ }),
    ]
}

/// The directory to play from where none is set: the current one.
pub open spec fn default_directory() -> Seq<char> {
    "."@
}

/// The four commands that have a hotkey by default have four different
/// tokens.
proof fn lemma_default_commands_differ()
    ensures
        "next"@ != "prev"@,
        "next"@ != "pause"@,
        "next"@ != "stop"@,
        "prev"@ != "pause"@,
        "prev"@ != "stop"@,
        "pause"@ != "stop"@,
{
    reveal_strlit("next");
    reveal_strlit("prev");
    reveal_strlit("pause");
    reveal_strlit("stop");
    assert("prev"@[0] == 'p' && "prev"@[1] == 'r');
    assert("pause"@[0] == 'p' && "pause"@[1] == 'a');
    assert("stop"@[0] == 's');
}

impl Config {
    /// The directory to play from: the one that is set, or else the current
    /// directory.
    pub fn directory(&self) -> (dir: &str)
        ensures
            dir@ == match self.music_dir {
                Some(set) => set@,
                None => default_directory(),
            },
    {
        match &self.music_dir {
            Some(set) => set.as_str(),
            None => ".",
        }
    }
}

impl Default for Config {
    fn default() -> (config: Config)
        ensures
            config.hotkeys@ == default_hotkeys(),
            config.music_dir is None,
            config.volume.millis == VOLUME_DEFAULT,
    {
        proof {
            lemma_default_commands_differ();
        }
        let mut hotkeys = Bindings::new();
        proof {
            lemma_index_of_command(hotkeys@, "next"@);
        }
        hotkeys.insert("next".to_owned(), "XF86AudioNext".to_owned());
        proof {
            lemma_index_of_command(hotkeys@, "prev"@);
        }
        hotkeys.insert("prev".to_owned(), "XF86AudioPrev".to_owned());
        proof {
            lemma_index_of_command(hotkeys@, "pause"@);
        }
        hotkeys.insert("pause".to_owned(), "XF86AudioPlay".to_owned());
        proof {
            lemma_index_of_command(hotkeys@, "stop"@);
        }
        hotkeys.insert("stop".to_owned(), "XF86AudioStop".to_owned());
        Config { hotkeys, music_dir: None, volume: Volume { millis: VOLUME_DEFAULT } }
    }
}

impl Clone for Config {
    fn clone(&self) -> (copy: Config)
        ensures
            copy.hotkeys@ == self.hotkeys@,
            option_text(copy.music_dir) == option_text(self.music_dir),
            copy.volume == self.volume,
    {
        Config {
            hotkeys: self.hotkeys.clone(),
            music_dir: match &self.music_dir {
                Some(dir) => Some(dir.clone()),
                None => None,
            },
            volume: self.volume,
        }
    }
}

} // verus!
