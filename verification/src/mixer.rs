//! The calls that the mixer is run with.

use vstd::prelude::*;

use crate::token::{ascii_text, percent_text, spelled};

verus! {

/// Where the mixer's program lies.
pub const MIXER: &'static str = "/usr/bin/pactl";

/// The mixer's name for the default sink.
pub const SINK: &'static str = "@DEFAULT_SINK@";

/// One run of the mixer.
#[derive(Clone, Copy, Debug, PartialEq, Eq, Structural)]
pub enum MixerCall {
    /// Asks for the sink's volume.
    GetVolume,
    /// Sets the sink's volume, in percent.
    SetVolume(i64),
    /// Mutes the sink if it is not muted, and unmutes it if it is.
    ToggleMute,
    /// Asks whether the sink is muted.
    GetMute,
}

impl MixerCall {
    /// The arguments that the mixer is run with.
    pub open spec fn argument_list(self) -> Seq<Seq<char>> {
        match self {
            MixerCall::GetVolume => seq!["get-sink-volume"@, SINK@],
            MixerCall::SetVolume(volume) => seq![
                "set-sink-volume"@,
                SINK@,
                ascii_text(spelled(volume as int)),
            ],
            MixerCall::ToggleMute => seq!["set-sink-mute"@, SINK@, "toggle"@],
            MixerCall::GetMute => seq!["get-sink-mute"@, SINK@],
        }
    }

    /// Whether the call asks the mixer a question, whose answer is what
    /// the mixer prints.
    pub open spec fn asks(self) -> bool {
        self is GetVolume || self is GetMute
    }

    /// Whether what the mixer prints on this call is to be read.
    pub fn is_query(&self) -> (query: bool)
        ensures
            query == self.asks(),
    {
        match self {
            MixerCall::GetVolume => true,
            MixerCall::GetMute => true,
            MixerCall::SetVolume(_) => false,
            MixerCall::ToggleMute => false,
        }
    }

    /// The arguments to run the mixer with, in order.
    pub fn arguments(&self) -> (arguments: Vec<String>)
        ensures
            arguments@.len() == self.argument_list().len(),
            forall|i: int|
                0 <= i < arguments@.len() ==> (#[trigger] arguments@[i])@
                    == self.argument_list()[i],
    {
        let mut arguments: Vec<String> = Vec::new();
        match self {
            MixerCall::GetVolume => {
                arguments.push("get-sink-volume".to_owned());
                arguments.push(SINK.to_owned());
            },
            MixerCall::SetVolume(volume) => {
                arguments.push("set-sink-volume".to_owned());
                arguments.push(SINK.to_owned());
                arguments.push(percent_text(*volume));
            },
            MixerCall::ToggleMute => {
                arguments.push("set-sink-mute".to_owned());
                arguments.push(SINK.to_owned());
                arguments.push("toggle".to_owned());
            },
            MixerCall::GetMute => {
                arguments.push("get-sink-mute".to_owned());
                arguments.push(SINK.to_owned());
            },
        }
        arguments
    }
}

} // verus!
