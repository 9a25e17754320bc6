//! Volume control for the default audio sink, with a desktop indicator.
//!
//! The library holds everything that is decided or computed when the volume
//! is adjusted or the sink is muted: how the mixer's output is read, what is
//! written back, which notification is shown, and in which order the mixer
//! and the notification service are asked. Running the mixer and showing
//! the notification is left to the caller, which performs each [`Request`]
//! and hands back a [`Reply`].
//!
//! Every function is verified against its contract, and none of them
//! panics. Two calls are taken on trust, both in [`reading`]: that of
//! `core::str::from_utf8`, which tells text from other bytes, and that of
//! the `regex` crate, which finds the first percentage in the mixer's
//! answer.

pub mod error;
pub mod indicator;
pub mod mixer;
pub mod reading;
pub mod session;
pub mod token;
pub mod volume;

pub use error::{Failure, MixerError};
pub use indicator::{volume_indicator, Indicator, Urgency};
pub use mixer::MixerCall;
pub use reading::{get_volume, is_unmuted};
pub use session::{set_volume, start, step, toggle_audio, Command, Reply, Request, Stage, Step};
pub use token::{parse_percent, percent_text};
pub use volume::{adjust, icon_tier, Adjustment, IconTier, Volume};
