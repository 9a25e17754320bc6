//! The state of the sink as it is displayed, and the icon that stands for it.

use vstd::prelude::*;

verus! {

/// What the indicator displays: a muted sink, or a volume in percent.
///
/// A volume that results from an adjustment lies in `1..=100`. One that was
/// read from the mixer is displayed as it was read.
#[derive(Clone, Copy, Debug, PartialEq, Eq, Structural)]
pub enum Volume {
    Muted,
    Percent(i32),
}

/// The four icons of the indicator.
#[derive(Clone, Copy, Debug, PartialEq, Eq, Structural)]
pub enum IconTier {
    Muted,
    Low,
    Medium,
    High,
}

/// What an adjustment comes to: the volume that is written to the mixer,
/// and the state that is displayed for it.
#[derive(Clone, Copy, Debug, PartialEq, Eq, Structural)]
pub struct Adjustment {
    pub written: i64,
    pub shown: Volume,
}

/// The volume that an adjustment writes: the current volume and the change,
/// held to 100 at most. Nothing holds it from below: a negative sum is
/// written as it is, and what becomes of it is the mixer's business.
pub open spec fn adjusted(current: int, percent: int) -> int {
    if current + percent > 100 {
        100
    } else {
        current + percent
    }
}

/// The state displayed for a written volume, which is 100 at most: muted at
/// 0 and below, else the volume itself.
pub open spec fn shown_for(written: int) -> Volume {
    if written <= 0 {
        Volume::Muted
    } else {
        Volume::Percent(written as i32)
    }
}

impl IconTier {
    /// The name under which the desktop's icon theme holds the icon.
    pub open spec fn icon_name(self) -> &'static str {
        match self {
            IconTier::Muted => "audio-volume-muted-symbolic",
            IconTier::Low => "audio-volume-low-symbolic",
            IconTier::Medium => "audio-volume-medium-symbolic",
            IconTier::High => "audio-volume-high-symbolic",
        }
    }

    /// The icon's name in the desktop's icon theme.
    pub fn name(self) -> (name: &'static str)
        ensures
            name == self.icon_name(),
    {
        match self {
            IconTier::Muted => "audio-volume-muted-symbolic",
            IconTier::Low => "audio-volume-low-symbolic",
            IconTier::Medium => "audio-volume-medium-symbolic",
            IconTier::High => "audio-volume-high-symbolic",
        }
    }
}

impl Volume {
    /// The number shown beside the icon: 0 for a muted sink, else the percentage.
    pub open spec fn level(self) -> int {
        match self {
            Volume::Muted => 0,
            Volume::Percent(p) => p as int,
        }
    }

    /// Whether the state lies on the scale of the indicator: a percentage
    /// does so from 0 to 100.
    pub open spec fn on_scale(self) -> bool {
        0 <= self.level() <= 100
    }

    /// The icon's thresholds, tried in order: silence, below a third, below
    /// two thirds, anything louder. A percentage below 0, which no scale
    /// holds, meets the second of them.
    pub open spec fn tier(self) -> IconTier {
        if self.level() == 0 {
            IconTier::Muted
        } else if self.level() < 33 {
            IconTier::Low
        } else if self.level() < 67 {
            IconTier::Medium
        } else {
            IconTier::High
        }
    }

    /// The number that accompanies the notification.
    pub fn value(self) -> (value: i32)
        ensures
            value == self.level(),
    {
        match self {
            Volume::Muted => 0,
            Volume::Percent(p) => p,
        }
    }
}

/// Picks the icon for a displayed state.
pub fn icon_tier(volume: Volume) -> (tier: IconTier)
    ensures
        tier == volume.tier(),
{
    match volume {
        Volume::Muted => IconTier::Muted,
        Volume::Percent(p) => {
            if p == 0 {
                IconTier::Muted
            } else if p < 33 {
                IconTier::Low
            } else if p < 67 {
                IconTier::Medium
            } else {
                IconTier::High
            }
        },
    }
}

/// Applies a change in percent to the current volume.
///
/// What is written never exceeds 100, and what is displayed lies on the
/// scale: a percentage from 1 to 100, or the muted sink.
pub fn adjust(current: i32, percent: i32) -> (adjustment: Adjustment)
    ensures
        adjustment.written == adjusted(current as int, percent as int),
        adjustment.shown == shown_for(adjustment.written as int),
        adjustment.written <= 100,
        adjustment.shown.on_scale(),
        adjustment.shown matches Volume::Percent(p) ==> p == adjustment.written >= 1,
{
    let sum: i64 = current as i64 + percent as i64;
    let written: i64 = if sum > 100 {
        100
    } else {
        sum
    };
    let shown = if written <= 0 {
        Volume::Muted
    } else {
        Volume::Percent(written as i32)
    };
    Adjustment { written, shown }
}

/// The icon follows the table: the muted icon for a muted sink and for 0,
/// the low one below 33, the medium one below 67, the high one from there.
pub proof fn lemma_icon_table(volume: Volume)
    ensures
        volume is Muted ==> volume.tier() == IconTier::Muted,
        volume == Volume::Percent(0) ==> volume.tier() == IconTier::Muted,
        volume matches Volume::Percent(p) && 0 < p < 33 ==> volume.tier() == IconTier::Low,
        volume matches Volume::Percent(p) && 33 <= p < 67 ==> volume.tier() == IconTier::Medium,
        volume matches Volume::Percent(p) && 67 <= p ==> volume.tier() == IconTier::High,
{
}

} // verus!
