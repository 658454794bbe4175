//! The decisions of the frame loop.
//!
//! The loop itself runs outside this library: it drains the input queue,
//! hands the events to [`FrameDriver::begin_frame`], and does what the
//! returned action says.

use vstd::prelude::*;

use crate::events::{Control, Effect, InputEvent};
use crate::keys::{law_last_write_decides, KeyStatus, Keys};

verus! {

/// Frames per second that the loop aims at.
pub const TARGET_FRAME_RATE: u64 = 60;

/// Milliseconds to sleep at the end of each frame: a cap on the frame rate,
/// in whole milliseconds, whatever time the frame itself took.
pub const FRAME_INTERVAL_MILLIS: u64 = 1000 / TARGET_FRAME_RATE;

/// The state of the frame loop. `Quitting` is terminal.
#[derive(Clone, Copy, Debug, PartialEq, Eq, Structural)]
pub enum LoopState {
    Running,
    Quitting,
}

/// What the loop does with the rest of a frame.
#[derive(Clone, Copy, Debug, PartialEq, Eq, Structural)]
pub enum FrameAction {
    /// Leave the loop: no update, no render, no sleep.
    Stop,
    /// Measure the time since the last frame, step every entity with it and
    /// with these controls, render, present, then sleep `sleep_millis`.
    Advance { thrust: bool, left: bool, right: bool, sleep_millis: u64 },
}

/// The frame loop's state and the input state it keeps from frame to frame.
#[derive(Clone, Copy, Debug, PartialEq, Eq, Structural)]
pub struct FrameDriver {
    pub state: LoopState,
    pub keys: Keys,
}

impl FrameDriver {
    /// The driver at startup: running, every control up.
    pub open spec fn initial() -> FrameDriver {
        FrameDriver { state: LoopState::Running, keys: Keys::all_up() }
    }

    /// The driver after a frame that found `events` in the input queue.
    ///
    /// A running driver takes the frame's input and quits if the quit control
    /// is then active. A driver that quit reads no more input.
    pub open spec fn after_frame(self, events: Seq<InputEvent>) -> FrameDriver {
        match self.state {
            LoopState::Quitting => self,
            LoopState::Running => {
                let keys = self.keys.updated(events);
                FrameDriver {
                    state: if keys.quit.is_down() {
                        LoopState::Quitting
                    } else {
                        LoopState::Running
                    },
                    keys,
                }
            },
        }
    }

    /// The action of a frame that found `events` in the input queue.
    pub open spec fn action_for(self, events: Seq<InputEvent>) -> FrameAction {
        let after = self.after_frame(events);
        match after.state {
            LoopState::Quitting => FrameAction::Stop,
            LoopState::Running => FrameAction::Advance {
                thrust: after.keys.thrust.is_down(),
                left: after.keys.left.is_down(),
                right: after.keys.right.is_down(),
                sleep_millis: FRAME_INTERVAL_MILLIS,
            },
        }
    }

    /// A running driver with every control up.
    pub fn new() -> (r: FrameDriver)
        ensures
            r == FrameDriver::initial(),
    {
        FrameDriver { state: LoopState::Running, keys: Keys::new() }
    }

    /// Whether the loop goes on.
    pub fn is_running(&self) -> (r: bool)
        ensures
            r == (self.state is Running),
    {
        match self.state {
            LoopState::Running => true,
            LoopState::Quitting => false,
        }
    }

    /// Begins a frame with the events drained from the input queue, and says
    /// what the loop does with the rest of it.
    pub fn begin_frame(&mut self, events: &Vec<InputEvent>) -> (action: FrameAction)
        ensures
            *final(self) == old(self).after_frame(events@),
            action == old(self).action_for(events@),
    {
        match self.state {
            LoopState::Quitting => FrameAction::Stop,
            LoopState::Running => {
                self.keys.with_events(events);
                if self.keys.quit.down() {
                    self.state = LoopState::Quitting;
                    FrameAction::Stop
                } else {
                    FrameAction::Advance {
                        thrust: self.keys.thrust.down(),
                        left: self.keys.left.down(),
                        right: self.keys.right.down(),
                        sleep_millis: FRAME_INTERVAL_MILLIS,
                    }
                }
            },
        }
    }
}

/// A frame stops the loop exactly when it leaves the driver quitting, and a
/// frame that goes on always sleeps the same interval.
pub proof fn law_stop_iff_quitting(driver: FrameDriver, events: Seq<InputEvent>)
    ensures
        driver.action_for(events) is Stop <==> driver.after_frame(events).state is Quitting,
        driver.action_for(events) matches FrameAction::Advance { sleep_millis, .. }
            ==> sleep_millis == 16,
{
}

/// Quitting is terminal: a driver that quit stays as it is and stops every
/// later frame, whatever the input queue holds.
pub proof fn law_quitting_is_terminal(driver: FrameDriver, events: Seq<InputEvent>)
    requires
        driver.state is Quitting,
    ensures
        driver.after_frame(events) == driver,
        driver.action_for(events) is Stop,
{
}

/// A request to quit the application or to close the window stops the loop
/// in the frame that reads it, before any update, render or sleep, unless a
/// release of a quit key follows it in the same batch of events.
pub proof fn law_quit_request_stops(driver: FrameDriver, events: Seq<InputEvent>, i: int)
    requires
        driver.state is Running,
        0 <= i < events.len(),
        events[i] is Quit || events[i] is WindowClose,
        forall|j: int|
            i < j < events.len() ==> events[j].effect_of() != Some(
                Effect { control: Control::Quit, status: KeyStatus::Up },
            ),
    ensures
        driver.after_frame(events).state is Quitting,
        driver.action_for(events) is Stop,
{
    assert forall|j: int|
        i < j < events.len() && events[j].writes(Control::Quit) implies events[j].effect_of()
        == Some(Effect { control: Control::Quit, status: KeyStatus::Down }) by {
        let effect = events[j].effect_of()->0;
        assert(effect.status is Down || effect.status is Up);
    }
    law_last_write_decides(driver.keys, events, i, Control::Quit, KeyStatus::Down);
}

} // verus!
