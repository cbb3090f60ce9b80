//! The alarm: a latch that follows the temperature, and the tone that sounds
//! while the latch is set.

use crate::error::BusError;
use crate::tone::{lemma_supported_from_minimum, Tone};
use vstd::prelude::*;

verus! {

/// The boiling point of water, in sixteenths of a degree Celsius.
pub const BOILING_POINT: i32 = 1600;

/// Frequency of the alarm's tone, in hertz.
pub const ALARM_FREQUENCY: u16 = 500;

/// Length of the alarm's tone, in milliseconds.
pub const ALARM_DURATION: u32 = 1000;

/// Time from the start of one alarm tone to the next poll, in milliseconds.
pub const ALARM_PAUSE: u16 = 2000;

/// Whether the last temperature read was at or above the threshold.
#[derive(Clone, Copy, Debug, PartialEq, Eq, Structural)]
pub enum Latch {
    Idle,
    Hot,
}

/// The latch after a poll. A temperature sets it when it is at or above the
/// threshold and clears it when it is below; a failed reading leaves it as
/// it was.
pub open spec fn latch_after(before: Latch, threshold: i32, reading: Result<i32, BusError>) -> Latch {
    match reading {
        Ok(sixteenths) => if sixteenths >= threshold {
            Latch::Hot
        } else {
            Latch::Idle
        },
        Err(_) => before,
    }
}

/// Sounds the alarm once: asks for its tone, and returns the milliseconds
/// to wait before anything else is done.
pub fn play_alarm(tone: &mut Tone) -> (pause: u16)
    ensures
        final(tone)@ == old(tone)@.play(ALARM_FREQUENCY as int, ALARM_DURATION as int),
        final(tone)@.playing,
        final(tone)@.wf(),
        pause == ALARM_PAUSE,
{
    proof {
        lemma_supported_from_minimum(ALARM_FREQUENCY);
    }
    tone.play(ALARM_FREQUENCY, ALARM_DURATION);
    ALARM_PAUSE
}

/// The controller of the alarm.
#[derive(Clone, Copy, Debug, PartialEq, Eq)]
pub struct AlarmController {
    /// Temperature from which on the alarm sounds, in sixteenths of a degree
    /// Celsius.
    pub threshold: i32,
    /// Whether the alarm is set.
    pub latch: Latch,
}

impl AlarmController {
    /// A controller with the given threshold, its latch clear.
    pub fn new(threshold: i32) -> (controller: AlarmController)
        ensures
            controller == (AlarmController { threshold, latch: Latch::Idle }),
    {
        AlarmController { threshold, latch: Latch::Idle }
    }

    /// Whether the alarm is set.
    pub fn is_hot(&self) -> (hot: bool)
        ensures
            hot == (self.latch == Latch::Hot),
    {
        match self.latch {
            Latch::Hot => true,
            Latch::Idle => false,
        }
    }

    /// One round of the control loop, given the reading that the round
    /// began with. The latch follows the reading. While it is set the alarm
    /// is sounded once, and the milliseconds to wait before the next round
    /// are returned; while it is clear the generator is left alone and the
    /// next round follows at once.
    pub fn poll(&mut self, reading: Result<i32, BusError>, tone: &mut Tone) -> (pause: Option<u16>)
        ensures
            final(self).threshold == old(self).threshold,
            final(self).latch == latch_after(old(self).latch, old(self).threshold, reading),
            final(self).latch == Latch::Hot ==> {
                &&& final(tone)@ == old(tone)@.play(ALARM_FREQUENCY as int, ALARM_DURATION as int)
                &&& pause == Some(ALARM_PAUSE)
            },
            final(self).latch == Latch::Idle ==> {
                &&& final(tone)@ == old(tone)@
                &&& pause is None
            },
    {
        match reading {
            Ok(sixteenths) => {
                if sixteenths >= self.threshold {
                    self.latch = Latch::Hot;
                } else {
                    self.latch = Latch::Idle;
                }
            },
            Err(_) => {},
        }
        if self.is_hot() {
            Some(play_alarm(tone))
        } else {
            None
        }
    }
}

/// A temperature below the threshold clears the latch and one at or above
/// it sets the latch, whatever the latch was; a failed reading changes
/// nothing.
pub proof fn lemma_latch_follows_temperature(
    before: Latch,
    threshold: i32,
    sixteenths: i32,
    e: BusError,
)
    ensures
        sixteenths < threshold ==> latch_after(before, threshold, Ok(sixteenths)) == Latch::Idle,
        sixteenths >= threshold ==> latch_after(before, threshold, Ok(sixteenths)) == Latch::Hot,
        latch_after(before, threshold, Err(e)) == before,
{
}

} // verus!
