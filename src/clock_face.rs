use vstd::prelude::*;
use crate::timer::{Phase, TimerSnapshot};

verus! {

/// Positions of the three hands, each in sixtieths of a full turn measured
/// clockwise from twelve o'clock: a value `k` is an angle of `2π · k / 60`.
#[derive(Clone, Copy, Debug, PartialEq, Eq, Structural)]
pub struct ClockAngles {
    pub hour_sixtieths: u32,
    pub minute_sixtieths: u32,
    pub second_sixtieths: u32,
}

/// An opaque colour with eight bits per channel.
#[derive(Clone, Copy, Debug, PartialEq, Eq, Structural)]
pub struct Rgb8 {
    pub r: u8,
    pub g: u8,
    pub b: u8,
}

/// The hand positions for a time of day. The hour hand jumps from hour to
/// hour: it does not creep within the hour.
pub open spec fn angles_of(hour12: u32, minute: u32, second: u32) -> ClockAngles {
    ClockAngles {
        hour_sixtieths: ((hour12 % 12) * 5) as u32,
        minute_sixtieths: minute,
        second_sixtieths: second,
    }
}

/// The face colour: grey while paused, red for work, green for rest.
pub open spec fn color_of(phase: Phase, paused: bool) -> Rgb8 {
    if paused {
        Rgb8 { r: 0x77, g: 0x77, b: 0x77 }
    } else {
        match phase {
            Phase::Work => Rgb8 { r: 0xc2, g: 0x23, b: 0x30 },
            Phase::Rest => Rgb8 { r: 0x19, g: 0xa8, b: 0x5b },
        }
    }
}

/// Hand positions for `hour12:minute:second`; the hour is taken modulo twelve,
/// so that one turn of the hour hand is twelve hours and one turn of the
/// others is sixty units.
pub fn compute_angles(hour12: u32, minute: u32, second: u32) -> (r: ClockAngles)
    ensures
        r == angles_of(hour12, minute, second),
        r.hour_sixtieths * 12 == (hour12 % 12) * 60,
{
    ClockAngles { hour_sixtieths: (hour12 % 12) * 5, minute_sixtieths: minute, second_sixtieths: second }
}

/// The colour that tells the phases apart on the face.
pub fn phase_color(phase: Phase, paused: bool) -> (r: Rgb8)
    ensures
        r == color_of(phase, paused),
{
    if paused {
        Rgb8 { r: 0x77, g: 0x77, b: 0x77 }
    } else {
        match phase {
            Phase::Work => Rgb8 { r: 0xc2, g: 0x23, b: 0x30 },
            Phase::Rest => Rgb8 { r: 0x19, g: 0xa8, b: 0x5b },
        }
    }
}

/// Whole minutes and the seconds left over, for a `MM:SS` readout.
pub fn split_minutes(total_seconds: u32) -> (r: (u32, u32))
    ensures
        r.0 * 60 + r.1 == total_seconds,
        r.1 < 60,
{
    (total_seconds / 60, total_seconds % 60)
}

/// The word shown beside the readout.
pub open spec fn label_of(phase: Phase, paused: bool) -> Seq<char> {
    if paused {
        "STOP"@
    } else {
        match phase {
            Phase::Work => "work"@,
            Phase::Rest => "rest"@,
        }
    }
}

/// `STOP` while paused, else `work` or `rest`.
pub fn status_label(phase: Phase, paused: bool) -> (r: &'static str)
    ensures
        r@ == label_of(phase, paused),
{
    if paused {
        "STOP"
    } else {
        match phase {
            Phase::Work => "work",
            Phase::Rest => "rest",
        }
    }
}

impl TimerSnapshot {
    /// The face colour for this snapshot.
    pub fn color(&self) -> (r: Rgb8)
        ensures
            r == color_of(self.phase, self.paused),
    {
        phase_color(self.phase, self.paused)
    }

    /// The word shown beside the readout for this snapshot.
    pub fn label(&self) -> (r: &'static str)
        ensures
            r@ == label_of(self.phase, self.paused),
    {
        status_label(self.phase, self.paused)
    }
}

} // verus!
