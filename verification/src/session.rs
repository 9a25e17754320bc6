//! One run of the program, as the steps it takes.
//!
//! A run asks for one thing at a time: that the mixer be run, or that a
//! notification be shown. The caller does what is asked and reports how it
//! went; the run then says what comes next. Nothing is retried: the first
//! failure ends the run.

use vstd::prelude::*;

use crate::error::Failure;
use crate::indicator::{indicator_for, volume_indicator, Indicator};
use crate::mixer::MixerCall;
use crate::reading::{get_volume, is_unmuted, unmuted_reading, volume_reading};
use crate::volume::{adjust, adjusted, shown_for, Volume};

verus! {

/// What the program is started for.
#[derive(Clone, Copy, Debug, PartialEq, Eq, Structural)]
pub enum Command {
    /// Changes the volume by `percent` of the full volume, up or down.
    Adjust { percent: i32 },
    /// Mutes the sink, or unmutes it.
    Toggle,
}

/// Where a run stands: what was asked last and is not yet answered.
#[derive(Clone, Copy, Debug, PartialEq, Eq, Structural)]
pub enum Stage {
    /// The volume was asked for, to change it by `percent`.
    ReadingVolume { percent: i32 },
    /// The new volume is being written; `shown` is displayed after it.
    WritingVolume { shown: Volume },
    /// The mute switch is being flipped.
    TogglingMute,
    /// The mute switch was flipped, and its state was asked for.
    ReadingMute,
    /// The sink is unmuted, and its volume was asked for.
    ReadingUnmuted,
    /// The notification is being shown.
    Notifying,
}

/// What a run asks its caller to do.
#[derive(Clone, Copy, Debug, PartialEq, Eq)]
pub enum Request {
    /// Run the mixer, and report what it printed.
    Mixer(MixerCall),
    /// Show this notification.
    Notify(Indicator),
}

/// How a request went.
#[derive(Debug, PartialEq, Eq)]
pub enum Reply {
    /// It was carried out. For a run of the mixer, this is what the mixer
    /// wrote to its standard output, whatever its exit status; for a
    /// notification, nothing.
    Completed(Vec<u8>),
    /// It could not be carried out.
    Failed,
}

/// What follows a reply.
#[derive(Clone, Copy, Debug, PartialEq, Eq)]
pub enum Step {
    /// The run goes on with another request.
    Next(Stage, Request),
    /// The run is over: the notification was shown.
    Finished,
    /// The run is over: it failed.
    Aborted(Failure),
}

/// The first request of an adjustment: it begins by asking for the volume.
pub open spec fn set_volume_start(percent: i32) -> (Stage, Request) {
    (Stage::ReadingVolume { percent }, Request::Mixer(MixerCall::GetVolume))
}

/// The first request of a toggle: it begins by flipping the mute switch.
pub open spec fn toggle_audio_start() -> (Stage, Request) {
    (Stage::TogglingMute, Request::Mixer(MixerCall::ToggleMute))
}

/// The failure that a request's failing comes to.
pub open spec fn failure_at(stage: Stage) -> Failure {
    if stage is Notifying {
        Failure::Notification
    } else {
        Failure::Mixer
    }
}

/// What follows the mixer's answer to a volume query, when the volume is to
/// be changed by `percent`: the new volume is written.
pub open spec fn after_volume_read(percent: i32, output: Seq<u8>) -> Step {
    match volume_reading(output) {
        Ok(current) => Step::Next(
            Stage::WritingVolume { shown: shown_for(adjusted(current as int, percent as int)) },
            Request::Mixer(
                MixerCall::SetVolume(adjusted(current as int, percent as int) as i64),
            ),
        ),
        Err(error) => Step::Aborted(Failure::Output(error)),
    }
}

/// What follows the mixer's answer to a mute query: the muted sink is
/// displayed at once, the unmuted one after its volume has been read.
pub open spec fn after_mute_read(output: Seq<u8>) -> Step {
    match unmuted_reading(output) {
        Ok(unmuted) => if unmuted {
            Step::Next(Stage::ReadingUnmuted, Request::Mixer(MixerCall::GetVolume))
        } else {
            Step::Next(Stage::Notifying, Request::Notify(indicator_for(Volume::Muted)))
        },
        Err(error) => Step::Aborted(Failure::Output(error)),
    }
}

/// What follows the mixer's answer to a volume query after the sink was
/// unmuted: the volume is displayed as it was read.
pub open spec fn after_unmuted_read(output: Seq<u8>) -> Step {
    match volume_reading(output) {
        Ok(current) => Step::Next(
            Stage::Notifying,
            Request::Notify(indicator_for(Volume::Percent(current))),
        ),
        Err(error) => Step::Aborted(Failure::Output(error)),
    }
}

/// What follows a reply at a stage.
pub open spec fn next_step(stage: Stage, reply: Reply) -> Step {
    match reply {
        Reply::Failed => Step::Aborted(failure_at(stage)),
        Reply::Completed(output) => match stage {
            Stage::ReadingVolume { percent } => after_volume_read(percent, output@),
            Stage::WritingVolume { shown } => Step::Next(
                Stage::Notifying,
                Request::Notify(indicator_for(shown)),
            ),
            Stage::TogglingMute => Step::Next(
                Stage::ReadingMute,
                Request::Mixer(MixerCall::GetMute),
            ),
            Stage::ReadingMute => after_mute_read(output@),
            Stage::ReadingUnmuted => after_unmuted_read(output@),
            Stage::Notifying => Step::Finished,
        },
    }
}

/// Begins an adjustment of the volume by `percent`.
pub fn set_volume(percent: i32) -> (first: (Stage, Request))
    ensures
        first == set_volume_start(percent),
{
    (Stage::ReadingVolume { percent }, Request::Mixer(MixerCall::GetVolume))
}

/// Begins a toggle of the mute switch.
pub fn toggle_audio() -> (first: (Stage, Request))
    ensures
        first == toggle_audio_start(),
{
    (Stage::TogglingMute, Request::Mixer(MixerCall::ToggleMute))
}

/// Begins the run for a command.
pub fn start(command: Command) -> (first: (Stage, Request))
    ensures
        command matches Command::Adjust { percent } ==> first == set_volume_start(percent),
        command is Toggle ==> first == toggle_audio_start(),
{
    match command {
        Command::Adjust { percent } => set_volume(percent),
        Command::Toggle => toggle_audio(),
    }
}

/// Takes the reply to the request that was made at `stage`, and says what
/// comes next.
pub fn step(stage: Stage, reply: &Reply) -> (next: Step)
    ensures
        next == next_step(stage, *reply),
        *reply is Failed ==> next is Aborted,
{
    let output: &Vec<u8> = match reply {
        Reply::Completed(output) => output,
        Reply::Failed => {
            return match stage {
                Stage::Notifying => Step::Aborted(Failure::Notification),
                _ => Step::Aborted(Failure::Mixer),
            };
        },
    };
    match stage {
        Stage::ReadingVolume { percent } => match get_volume(output.as_slice()) {
            Ok(current) => {
                let adjustment = adjust(current, percent);
                Step::Next(
                    Stage::WritingVolume { shown: adjustment.shown },
                    Request::Mixer(MixerCall::SetVolume(adjustment.written)),
                )
            },
            Err(error) => Step::Aborted(Failure::Output(error)),
        },
        Stage::WritingVolume { shown } => Step::Next(
            Stage::Notifying,
            Request::Notify(volume_indicator(shown)),
        ),
        Stage::TogglingMute => Step::Next(Stage::ReadingMute, Request::Mixer(MixerCall::GetMute)),
        Stage::ReadingMute => match is_unmuted(output.as_slice()) {
            Ok(true) => Step::Next(Stage::ReadingUnmuted, Request::Mixer(MixerCall::GetVolume)),
            Ok(false) => Step::Next(
                Stage::Notifying,
                Request::Notify(volume_indicator(Volume::Muted)),
            ),
            Err(error) => Step::Aborted(Failure::Output(error)),
        },
        Stage::ReadingUnmuted => match get_volume(output.as_slice()) {
            Ok(current) => Step::Next(
                Stage::Notifying,
                Request::Notify(volume_indicator(Volume::Percent(current))),
            ),
            Err(error) => Step::Aborted(Failure::Output(error)),
        },
        Stage::Notifying => Step::Finished,
    }
}

/// An adjustment by `percent` at the volume `current` asks for the volume,
/// writes `current + percent` or 100, whichever is less, and then displays
/// what it wrote: a muted sink at 0 and below, else the volume. With the
/// notification shown, the run is over.
pub proof fn lemma_adjustment_run(
    percent: i32,
    current: i32,
    answer: Reply,
    written: Reply,
    shown: Reply,
)
    requires
        answer matches Reply::Completed(output) && volume_reading(output@) matches Ok(read)
            && read == current,
        written is Completed,
        shown is Completed,
    ensures
        ({
            let sum = current + percent;
            let target = if sum > 100 { 100 } else { sum };
            let display = if target <= 0 { Volume::Muted } else { Volume::Percent(target as i32) };
            let first = set_volume_start(percent);
            &&& first.1 == Request::Mixer(MixerCall::GetVolume)
            &&& next_step(first.0, answer) matches Step::Next(writing, write)
            &&& write == Request::Mixer(MixerCall::SetVolume(target as i64))
            &&& next_step(writing, written) matches Step::Next(notifying, notify)
            &&& notify == Request::Notify(indicator_for(display))
            &&& next_step(notifying, shown) == Step::Finished
        }),
{
}

/// A toggle flips the mute switch and asks for its state. Where the answer
/// holds no `no`, the sink is muted and is displayed so. Where it does, the
/// volume is asked for and displayed as it was read.
pub proof fn lemma_toggle_run(flipped: Reply, state: Reply, answer: Reply, shown: Reply)
    requires
        flipped is Completed,
        state matches Reply::Completed(output) && unmuted_reading(output@) is Ok,
        answer matches Reply::Completed(output) && volume_reading(output@) is Ok,
        shown is Completed,
    ensures
        ({
            let first = toggle_audio_start();
            let unmuted = unmuted_reading(state->Completed_0@)->Ok_0;
            let volume = volume_reading(answer->Completed_0@)->Ok_0;
            &&& first.1 == Request::Mixer(MixerCall::ToggleMute)
            &&& next_step(first.0, flipped) matches Step::Next(reading, read)
            &&& read == Request::Mixer(MixerCall::GetMute)
            &&& !unmuted ==> {
                &&& next_step(reading, state) matches Step::Next(notifying, notify)
                &&& notify == Request::Notify(indicator_for(Volume::Muted))
                &&& next_step(notifying, shown) == Step::Finished
            }
            &&& unmuted ==> {
                &&& next_step(reading, state) matches Step::Next(asking, ask)
                &&& ask == Request::Mixer(MixerCall::GetVolume)
                &&& next_step(asking, answer) matches Step::Next(notifying, notify)
                &&& notify == Request::Notify(indicator_for(Volume::Percent(volume)))
                &&& next_step(notifying, shown) == Step::Finished
            }
        }),
{
}

/// The stages that a toggle passes through.
pub open spec fn in_toggle(stage: Stage) -> bool {
    stage is TogglingMute || stage is ReadingMute || stage is ReadingUnmuted || stage is Notifying
}

/// A toggle changes the sink once. Its first request flips the mute
/// switch; every request after that asks the mixer a question or shows the
/// notification, whatever the replies are.
pub proof fn lemma_toggle_flips_once(stage: Stage, reply: Reply)
    requires
        in_toggle(stage),
    ensures
        toggle_audio_start().1 == Request::Mixer(MixerCall::ToggleMute),
        in_toggle(toggle_audio_start().0),
        next_step(stage, reply) matches Step::Next(next, request) ==> {
            &&& in_toggle(next)
            &&& request matches Request::Mixer(call) ==> call.asks()
        },
{
}

/// The mute switch of a mixer that does as it is asked: it flips when a
/// request to flip it was carried out, and stays as it is on any other
/// request and when nothing was carried out.
pub open spec fn switch_after(muted: bool, request: Request, reply: Reply) -> bool {
    if request == Request::Mixer(MixerCall::ToggleMute) && reply is Completed {
        !muted
    } else {
        muted
    }
}

/// The mute switch of such a mixer after a run: the run stands at `stage`
/// with `request` made, and `replies` are the replies that it gets from
/// there on, up to its end or as far as they go.
pub open spec fn switch_after_run(
    muted: bool,
    stage: Stage,
    request: Request,
    replies: Seq<Reply>,
) -> bool
    decreases replies.len(),
{
    if replies.len() == 0 {
        muted
    } else {
        match next_step(stage, replies[0]) {
            Step::Next(next, asked) => switch_after_run(
                switch_after(muted, request, replies[0]),
                next,
                asked,
                replies.drop_first(),
            ),
            _ => switch_after(muted, request, replies[0]),
        }
    }
}

/// Behind its first request a toggle leaves the mute switch alone.
proof fn lemma_switch_stays(muted: bool, stage: Stage, request: Request, replies: Seq<Reply>)
    requires
        in_toggle(stage),
        request != Request::Mixer(MixerCall::ToggleMute),
    ensures
        switch_after_run(muted, stage, request, replies) == muted,
    decreases replies.len(),
{
    if replies.len() > 0 {
        lemma_toggle_flips_once(stage, replies[0]);
        if let Step::Next(next, asked) = next_step(stage, replies[0]) {
            lemma_switch_stays(muted, next, asked, replies.drop_first());
        }
    }
}

/// A toggle whose first request is carried out flips the mute switch, and
/// a second such toggle flips it back: with a mixer that flips the switch
/// when it is asked to and at no other time, two toggles leave the sink
/// muted or unmuted as it was, however the runs go on.
pub proof fn lemma_toggle_twice(muted: bool, first: Seq<Reply>, second: Seq<Reply>)
    requires
        first.len() > 0 && first[0] is Completed,
        second.len() > 0 && second[0] is Completed,
    ensures
        ({
            let start = toggle_audio_start();
            let between = switch_after_run(muted, start.0, start.1, first);
            &&& between == !muted
            &&& switch_after_run(between, start.0, start.1, second) == muted
        }),
{
    let asked = Request::Mixer(MixerCall::GetMute);
    lemma_switch_stays(!muted, Stage::ReadingMute, asked, first.drop_first());
    lemma_switch_stays(muted, Stage::ReadingMute, asked, second.drop_first());
}

/// A request that fails ends the run, whatever the stage: nothing is tried
/// again, and nothing that was done is undone.
pub proof fn lemma_failure_ends_run(stage: Stage)
    ensures
        next_step(stage, Reply::Failed) == Step::Aborted(failure_at(stage)),
        stage is Notifying ==> failure_at(stage) == Failure::Notification,
        !(stage is Notifying) ==> failure_at(stage) == Failure::Mixer,
{
}

} // verus!
