//! Held-key state and the discrete events that mutate it.

use vstd::prelude::*;

verus! {

/// The keys the controller recognizes: four directional keys and one quit
/// key. The window system's other keys never reach the library; the driver
/// drops them, so an unrecognized key is a no-op by construction.
#[derive(Clone, Copy, PartialEq, Eq, Structural, Debug)]
pub enum ControlKey {
    Left,
    Right,
    Up,
    Down,
    Quit,
}

/// A discrete keyboard event delivered by the window system, already mapped
/// to a recognized key.
#[derive(Clone, Copy, PartialEq, Eq, Structural, Debug)]
pub enum KeyEvent {
    Press(ControlKey),
    Release(ControlKey),
}

/// Which directional keys are currently held, plus whether quitting was
/// requested. Created once with every flag false; mutated only by discrete
/// press and release events.
#[derive(Clone, Copy, PartialEq, Eq, Structural, Debug)]
pub struct InputState {
    pub left: bool,
    pub right: bool,
    pub up: bool,
    pub down: bool,
    pub exit_requested: bool,
}

impl InputState {
    /// The state after a press of `key`: the associated flag is set, the
    /// others are untouched. A repeated press leaves a set flag set.
    pub open spec fn spec_press(self, key: ControlKey) -> InputState {
        match key {
            ControlKey::Left => InputState { left: true, ..self },
            ControlKey::Right => InputState { right: true, ..self },
            ControlKey::Up => InputState { up: true, ..self },
            ControlKey::Down => InputState { down: true, ..self },
            ControlKey::Quit => InputState { exit_requested: true, ..self },
        }
    }

    /// The state after a release of `key`: the associated directional flag is
    /// cleared, the others are untouched. Releasing the quit key is a no-op:
    /// once requested, quitting stays requested.
    pub open spec fn spec_release(self, key: ControlKey) -> InputState {
        match key {
            ControlKey::Left => InputState { left: false, ..self },
            ControlKey::Right => InputState { right: false, ..self },
            ControlKey::Up => InputState { up: false, ..self },
            ControlKey::Down => InputState { down: false, ..self },
            ControlKey::Quit => self,
        }
    }

    /// The state after one event.
    pub open spec fn spec_apply(self, event: KeyEvent) -> InputState {
        match event {
            KeyEvent::Press(key) => self.spec_press(key),
            KeyEvent::Release(key) => self.spec_release(key),
        }
    }

    /// All flags false: the state at startup.
    pub fn new() -> (s: InputState)
        ensures
            s == (InputState {
                left: false,
                right: false,
                up: false,
                down: false,
                exit_requested: false,
            }),
    {
        InputState { left: false, right: false, up: false, down: false, exit_requested: false }
    }

    /// Sets the flag associated with `key`; no other field changes.
    pub fn on_key_press(&mut self, key: ControlKey)
        ensures
            *final(self) == old(self).spec_press(key),
    {
        match key {
            ControlKey::Left => self.left = true,
            ControlKey::Right => self.right = true,
            ControlKey::Up => self.up = true,
            ControlKey::Down => self.down = true,
            ControlKey::Quit => self.exit_requested = true,
        }
    }

    /// Clears the directional flag associated with `key`; no other field
    /// changes. Releasing the quit key changes nothing.
    pub fn on_key_release(&mut self, key: ControlKey)
        ensures
            *final(self) == old(self).spec_release(key),
    {
        match key {
            ControlKey::Left => self.left = false,
            ControlKey::Right => self.right = false,
            ControlKey::Up => self.up = false,
            ControlKey::Down => self.down = false,
            ControlKey::Quit => {},
        }
    }

    /// Dispatches one event to the press or release handler.
    pub fn apply_event(&mut self, event: KeyEvent)
        ensures
            *final(self) == old(self).spec_apply(event),
    {
        match event {
            KeyEvent::Press(key) => self.on_key_press(key),
            KeyEvent::Release(key) => self.on_key_release(key),
        }
    }

    /// Applies one tick's ordered event sequence, first event first.
    pub fn apply_events(&mut self, events: &Vec<KeyEvent>)
        ensures
            *final(self) == spec_apply_all(*old(self), events@),
    {
        proof {
            assert(events@.skip(0) =~= events@);
        }
        let mut i: usize = 0;
        while i < events.len()
            invariant
                i <= events@.len(),
                spec_apply_all(*self, events@.skip(i as int)) == spec_apply_all(
                    *old(self),
                    events@,
                ),
            decreases events@.len() - i,
        {
            proof {
                assert(events@.skip(i as int)[0] == events@[i as int]);
                assert(events@.skip(i as int).skip(1) =~= events@.skip(i as int + 1));
            }
            self.apply_event(events[i]);
            i = i + 1;
        }
        proof {
            assert(events@.skip(events@.len() as int) =~= Seq::<KeyEvent>::empty());
        }
    }
}

/// The state after an ordered sequence of events, first event first.
pub open spec fn spec_apply_all(s: InputState, events: Seq<KeyEvent>) -> InputState
    decreases events.len(),
{
    if events.len() == 0 {
        s
    } else {
        spec_apply_all(s.spec_apply(events[0]), events.skip(1))
    }
}

/// Pressing and then releasing the same key within one event sequence leaves
/// the key's directional flag false, whatever it was before.
pub proof fn lemma_press_release_clears(s: InputState, key: ControlKey)
    requires
        key != ControlKey::Quit,
    ensures
        key == ControlKey::Left ==> !s.spec_press(key).spec_release(key).left,
        key == ControlKey::Right ==> !s.spec_press(key).spec_release(key).right,
        key == ControlKey::Up ==> !s.spec_press(key).spec_release(key).up,
        key == ControlKey::Down ==> !s.spec_press(key).spec_release(key).down,
{
}

} // verus!
