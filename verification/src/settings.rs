//! The settings that the plugin reads from the player's configuration store.

use vstd::prelude::*;

verus! {

/// The name of the setting that enables the plugin.
pub const ENABLE_KEY: &'static str = "now_playing_to_file.enable";

/// The value of the enable setting where the user has set none.
pub const ENABLE_DEFAULT: i32 = 0;

/// Whether a value of the enable setting switches exports on.
pub open spec fn enables(value: i32) -> bool {
    value == 1
}

/// The text settings that an export reads.
#[derive(Clone, Copy, Debug, PartialEq, Eq, Structural)]
pub enum TextSetting {
    /// The format expression.
    Format,
    /// The path of the output file.
    OutPath,
}

impl TextSetting {
    /// The name of the setting in the configuration store.
    pub open spec fn key_text(self) -> Seq<char> {
        match self {
            TextSetting::Format => "now_playing_to_file.format"@,
            TextSetting::OutPath => "now_playing_to_file.out_path"@,
        }
    }

    /// The value of the setting where the user has set none: for the format expression
    /// the title with a mark while paused, for the output path nothing.
    pub open spec fn default_text(self) -> Seq<char> {
        match self {
            TextSetting::Format => "%title%$if(%ispaused%,' ('paused')')"@,
            TextSetting::OutPath => ""@,
        }
    }

    /// The name of the setting in the configuration store.
    pub fn key(self) -> (name: &'static str)
        ensures
            name@ == self.key_text(),
    {
        match self {
            TextSetting::Format => "now_playing_to_file.format",
            TextSetting::OutPath => "now_playing_to_file.out_path",
        }
    }

    /// The value of the setting where the user has set none.
    pub fn default_value(self) -> (value: &'static str)
        ensures
            value@ == self.default_text(),
    {
        match self {
            TextSetting::Format => "%title%$if(%ispaused%,' ('paused')')",
            TextSetting::OutPath => "",
        }
    }
}

} // verus!
