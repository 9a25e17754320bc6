//! What can go wrong while the volume is changed.

use vstd::prelude::*;

verus! {

/// Output of the mixer that cannot be used.
#[derive(Clone, Copy, Debug, PartialEq, Eq, Structural)]
pub enum MixerError {
    /// The output is not UTF-8 text.
    InvalidText,
    /// The output holds no percentage.
    MissingPercent,
    /// The first percentage in the output does not fit the volume's type.
    OutOfRange,
}

/// Why a run ends before its notification was shown.
///
/// Nothing is retried and nothing is undone: a volume that was written
/// stays written when the notification fails afterwards.
#[derive(Clone, Copy, Debug, PartialEq, Eq, Structural)]
pub enum Failure {
    /// The mixer could not be run.
    Mixer,
    /// The mixer ran, and its output could not be used.
    Output(MixerError),
    /// The notification could not be shown.
    Notification,
}

} // verus!
