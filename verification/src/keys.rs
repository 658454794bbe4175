//! The per-key tri-state and the state of the six controls.

use vstd::prelude::*;

use crate::events::{Control, Effect, InputEvent};

verus! {

/// The state of one key: not pressed, pressed in this frame, or still held
/// from an earlier frame.
#[derive(Clone, Copy, Debug, PartialEq, Eq, Structural)]
pub enum KeyStatus {
    Up,
    Held,
    Down,
}

impl KeyStatus {
    /// The status one frame later, with no event in between: a key that went
    /// down is then held, and nothing else changes.
    pub open spec fn stepped(self) -> KeyStatus {
        match self {
            KeyStatus::Down => KeyStatus::Held,
            KeyStatus::Held => KeyStatus::Held,
            KeyStatus::Up => KeyStatus::Up,
        }
    }

    /// Whether the key is active: down in this frame or held.
    pub open spec fn is_down(self) -> bool {
        self is Down || self is Held
    }

    /// Advances the status by one frame.
    pub fn step(&mut self)
        ensures
            *final(self) == old(self).stepped(),
    {
        match *self {
            KeyStatus::Down => *self = KeyStatus::Held,
            KeyStatus::Held => *self = KeyStatus::Held,
            KeyStatus::Up => *self = KeyStatus::Up,
        }
    }

    /// Whether the key is active.
    pub fn down(&self) -> (r: bool)
        ensures
            r == self.is_down(),
    {
        match *self {
            KeyStatus::Down => true,
            KeyStatus::Held => true,
            _ => false,
        }
    }
}

/// The state of the six controls.
#[derive(Clone, Copy, Debug, PartialEq, Eq, Structural)]
pub struct Keys {
    pub thrust: KeyStatus,
    pub left: KeyStatus,
    pub right: KeyStatus,
    pub fire: KeyStatus,
    pub pause: KeyStatus,
    pub quit: KeyStatus,
}

impl Keys {
    /// The state with every control up.
    pub open spec fn all_up() -> Keys {
        Keys {
            thrust: KeyStatus::Up,
            left: KeyStatus::Up,
            right: KeyStatus::Up,
            fire: KeyStatus::Up,
            pause: KeyStatus::Up,
            quit: KeyStatus::Up,
        }
    }

    /// The status of the control `c`.
    pub open spec fn status_of(self, c: Control) -> KeyStatus {
        match c {
            Control::Thrust => self.thrust,
            Control::Left => self.left,
            Control::Right => self.right,
            Control::Fire => self.fire,
            Control::Pause => self.pause,
            Control::Quit => self.quit,
        }
    }

    /// This state with the control `c` set to `v` and the other five as they
    /// were.
    pub open spec fn with_status(self, c: Control, v: KeyStatus) -> Keys {
        match c {
            Control::Thrust => Keys { thrust: v, ..self },
            Control::Left => Keys { left: v, ..self },
            Control::Right => Keys { right: v, ..self },
            Control::Fire => Keys { fire: v, ..self },
            Control::Pause => Keys { pause: v, ..self },
            Control::Quit => Keys { quit: v, ..self },
        }
    }

    /// This state after one event.
    pub open spec fn applied(self, event: InputEvent) -> Keys {
        match event.effect_of() {
            Some(effect) => self.with_status(effect.control, effect.status),
            None => self,
        }
    }

    /// This state after the events of `events`, first to last.
    pub open spec fn applied_all(self, events: Seq<InputEvent>) -> Keys
        decreases events.len(),
    {
        if events.len() == 0 {
            self
        } else {
            self.applied_all(events.drop_last()).applied(events.last())
        }
    }

    /// This state with every control advanced by one frame.
    pub open spec fn stepped(self) -> Keys {
        Keys {
            thrust: self.thrust.stepped(),
            left: self.left.stepped(),
            right: self.right.stepped(),
            fire: self.fire.stepped(),
            pause: self.pause.stepped(),
            quit: self.quit.stepped(),
        }
    }

    /// This state after one frame's input: the queued events first to last,
    /// then one step of every control.
    pub open spec fn updated(self, events: Seq<InputEvent>) -> Keys {
        self.applied_all(events).stepped()
    }

    /// A state with every control up.
    pub fn new() -> (r: Keys)
        ensures
            r == Keys::all_up(),
    {
        Keys {
            thrust: KeyStatus::Up,
            left: KeyStatus::Up,
            right: KeyStatus::Up,
            fire: KeyStatus::Up,
            pause: KeyStatus::Up,
            quit: KeyStatus::Up,
        }
    }

    /// The status of one control.
    pub fn status(&self, c: Control) -> (r: KeyStatus)
        ensures
            r == self.status_of(c),
    {
        match c {
            Control::Thrust => self.thrust,
            Control::Left => self.left,
            Control::Right => self.right,
            Control::Fire => self.fire,
            Control::Pause => self.pause,
            Control::Quit => self.quit,
        }
    }

    /// Sets one control and leaves the others.
    pub fn set_status(&mut self, c: Control, v: KeyStatus)
        ensures
            *final(self) == old(self).with_status(c, v),
    {
        match c {
            Control::Thrust => self.thrust = v,
            Control::Left => self.left = v,
            Control::Right => self.right = v,
            Control::Fire => self.fire = v,
            Control::Pause => self.pause = v,
            Control::Quit => self.quit = v,
        }
    }

    /// Applies one event: an edge that is no auto-repeat, on a key that
    /// drives a control, sets that control; a request to close or quit sets
    /// the quit control down; every other event changes nothing.
    pub fn apply(&mut self, event: &InputEvent)
        ensures
            *final(self) == old(self).applied(*event),
    {
        match event.effect() {
            Some(effect) => self.set_status(effect.control, effect.status),
            None => {},
        }
    }

    /// Applies the events, first to last, and steps nothing.
    pub fn apply_all(&mut self, events: &Vec<InputEvent>)
        ensures
            *final(self) == old(self).applied_all(events@),
    {
        let n: usize = events.len();
        let mut i: usize = 0;
        while i < n
            invariant
                n == events.len(),
                i <= n,
                *self == old(self).applied_all(events@.take(i as int)),
            decreases n - i,
        {
            proof {
                let next = events@.take(i + 1);
                assert(next.drop_last() =~= events@.take(i as int));
                assert(next.last() == events@[i as int]);
            }
            self.apply(&events[i]);
            i = i + 1;
        }
        proof {
            assert(events@.take(n as int) =~= events@);
        }
    }

    /// Advances every control by one frame.
    pub fn step(&mut self)
        ensures
            *final(self) == old(self).stepped(),
    {
        self.thrust.step();
        self.left.step();
        self.right.step();
        self.fire.step();
        self.pause.step();
        self.quit.step();
    }

    /// One frame's input: applies the queued events, first to last, then
    /// advances every control by one frame. To be called once per frame.
    pub fn with_events(&mut self, events: &Vec<InputEvent>)
        ensures
            *final(self) == old(self).updated(events@),
    {
        self.apply_all(events);
        self.step();
    }
}

/// Stepping a status twice gives what stepping it once gives; a stepped
/// status is never `Down`, and it is active exactly when the status was.
pub proof fn law_step_settles(status: KeyStatus)
    ensures
        status.stepped().stepped() == status.stepped(),
        !(status.stepped() is Down),
        status.stepped().is_down() == status.is_down(),
{
}

/// A control that no event of a batch writes has after the batch the status
/// it had before; so through a frame that does not write it, a control that
/// was active is held and one that was up stays up.
pub proof fn law_unwritten_control_is_kept(keys: Keys, events: Seq<InputEvent>, c: Control)
    requires
        forall|j: int| 0 <= j < events.len() ==> !events[j].writes(c),
    ensures
        keys.applied_all(events).status_of(c) == keys.status_of(c),
        keys.updated(events).status_of(c) == keys.status_of(c).stepped(),
    decreases events.len(),
{
    if events.len() > 0 {
        law_unwritten_control_is_kept(keys, events.drop_last(), c);
        assert(!events[events.len() - 1].writes(c));
    }
}

/// The last write decides: where an event of a batch writes `v` to the
/// control `c`, and every later event of the batch that writes `c` writes `v`
/// too, the control has the status `v` after the batch, whatever it had
/// before, and `v` stepped once after the frame.
pub proof fn law_last_write_decides(
    keys: Keys,
    events: Seq<InputEvent>,
    i: int,
    c: Control,
    v: KeyStatus,
)
    requires
        0 <= i < events.len(),
        events[i].effect_of() == Some(Effect { control: c, status: v }),
        forall|j: int|
            i < j < events.len() && events[j].writes(c) ==> events[j].effect_of() == Some(
                Effect { control: c, status: v },
            ),
    ensures
        keys.applied_all(events).status_of(c) == v,
        keys.updated(events).status_of(c) == v.stepped(),
    decreases events.len(),
{
    let last = events.len() - 1;
    if events[last].writes(c) {
        assert(events[last].effect_of() == Some(Effect { control: c, status: v }));
    } else {
        law_last_write_decides(keys, events.drop_last(), i, c, v);
    }
}

} // verus!
