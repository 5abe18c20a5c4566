//! How active the user is, measured by how long nothing was typed or moved.
use vstd::prelude::*;

verus! {

/// Whether the user counts as away: more than a minute without input.
pub open spec fn is_away(idle_secs: u64) -> bool {
    idle_secs > 60
}

/// The activity of a user whose last input is that long ago, in percent.
pub open spec fn activity_level(idle_secs: u64) -> u32 {
    if idle_secs <= 5 {
        95
    } else if idle_secs <= 15 {
        75
    } else if idle_secs <= 60 {
        40
    } else if idle_secs <= 120 {
        15
    } else {
        0
    }
}

/// The productivity of a user whose last input is that long ago, in percent.
pub open spec fn productivity_level(idle_secs: u64) -> u32 {
    if is_away(idle_secs) {
        0
    } else if activity_level(idle_secs) > 0 {
        activity_level(idle_secs)
    } else {
        5
    }
}

/// A measurement.
#[derive(Clone, Copy, Debug, PartialEq, Eq, Structural)]
pub struct Activity {
    pub is_idle: bool,
    /// Of keyboard and mouse alike.
    pub level: u32,
    pub productivity: u32,
}

/// What is measured of a user whose last input is that long ago.
pub open spec fn activity_after(idle_secs: u64) -> Activity {
    Activity {
        is_idle: is_away(idle_secs),
        level: activity_level(idle_secs),
        productivity: productivity_level(idle_secs),
    }
}

/// Measures a user whose last input is that long ago.
pub fn measure(idle_secs: u64) -> (activity: Activity)
    ensures
        activity == activity_after(idle_secs),
{
    let is_idle = idle_secs > 60;
    let level: u32 = if idle_secs <= 5 {
        95
    } else if idle_secs <= 15 {
        75
    } else if idle_secs <= 60 {
        40
    } else if idle_secs <= 120 {
        15
    } else {
        0
    };
    let productivity: u32 = if is_idle {
        0
    } else if level > 0 {
        level
    } else {
        5
    };
    Activity { is_idle, level, productivity }
}

/// The longer the last input is ago, the lower are activity and productivity.
pub proof fn law_activity_falls(sooner: u64, later: u64)
    requires
        sooner <= later,
    ensures
        activity_level(later) <= activity_level(sooner),
        productivity_level(later) <= productivity_level(sooner),
        is_away(sooner) ==> is_away(later),
{
}

/// A user is productive exactly while not away, and then as much as active.
pub proof fn law_productivity(idle_secs: u64)
    ensures
        productivity_level(idle_secs) == 0 <==> is_away(idle_secs),
        !is_away(idle_secs) ==> productivity_level(idle_secs) == activity_level(idle_secs),
        productivity_level(idle_secs) <= activity_level(idle_secs) <= 95,
{
}

/// The idle times of each level: up to five seconds, a quarter of a minute, one
/// minute, two minutes, and beyond.
pub proof fn law_levels_have_their_times(idle_secs: u64)
    ensures
        activity_level(idle_secs) == 95 <==> idle_secs <= 5,
        activity_level(idle_secs) == 75 <==> 5 < idle_secs <= 15,
        activity_level(idle_secs) == 40 <==> 15 < idle_secs <= 60,
        activity_level(idle_secs) == 15 <==> 60 < idle_secs <= 120,
        activity_level(idle_secs) == 0 <==> 120 < idle_secs,
        is_away(idle_secs) <==> 60 < idle_secs,
{
}

/// A measurement takes all three from one idle time.
pub proof fn law_measurement_is_consistent(idle_secs: u64)
    ensures
        activity_after(idle_secs).is_idle == (idle_secs > 60),
        activity_after(idle_secs).level == activity_level(idle_secs),
        activity_after(idle_secs).productivity == (if idle_secs > 60 {
            0
        } else {
            activity_level(idle_secs)
        }),
{
}

} // verus!
