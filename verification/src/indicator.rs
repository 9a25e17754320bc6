//! The notification that displays the sink's state.

use vstd::prelude::*;

use crate::volume::{icon_tier, Volume};

verus! {

/// The name under which the notifications are sent.
pub const APPNAME: &'static str = "myButler";

/// The headline of every notification.
pub const SUMMARY: &'static str = "Volume";

/// The hint by which the notification service replaces the last
/// notification of this sender, where it would else queue a new one.
pub const STACK_TAG: &'static str = "x-dunst-stack-tag";

/// The hint that carries the number for the service's progress bar.
pub const VALUE_HINT: &'static str = "value";

/// How pressing a notification is.
#[derive(Clone, Copy, Debug, PartialEq, Eq, Structural)]
pub enum Urgency {
    Low,
    Normal,
    Critical,
}

/// A notification in plain values: what the notification service is given
/// to display.
#[derive(Clone, Copy, Debug, PartialEq, Eq)]
pub struct Indicator {
    pub appname: &'static str,
    pub summary: &'static str,
    /// The icon's name in the desktop's icon theme.
    pub icon: &'static str,
    pub urgency: Urgency,
    /// Name of the text hint that makes notifications replace one another.
    pub tag_name: &'static str,
    /// Value of that hint.
    pub tag_value: &'static str,
    /// Name of the number hint.
    pub value_name: &'static str,
    /// The number shown: 0 for a muted sink, else the percentage.
    pub value: i32,
}

/// The notification for a displayed state.
pub open spec fn indicator_for(volume: Volume) -> Indicator {
    Indicator {
        appname: APPNAME,
        summary: SUMMARY,
        icon: volume.tier().icon_name(),
        urgency: Urgency::Low,
        tag_name: STACK_TAG,
        tag_value: APPNAME,
        value_name: VALUE_HINT,
        value: volume.level() as i32,
    }
}

/// Describes the notification that displays `volume`: its icon by the
/// volume's tier, its number, and the hints that never change.
pub fn volume_indicator(volume: Volume) -> (indicator: Indicator)
    ensures
        indicator == indicator_for(volume),
{
    Indicator {
        appname: APPNAME,
        summary: SUMMARY,
        icon: icon_tier(volume).name(),
        urgency: Urgency::Low,
        tag_name: STACK_TAG,
        tag_value: APPNAME,
        value_name: VALUE_HINT,
        value: volume.value(),
    }
}

} // verus!
