//! The pause gate: a two-state toggle driven by a single key.
//!
//! While paused the movement controller is a no-op, the shared simulation
//! clock is frozen in lockstep, and the pointer is released for menu
//! interaction. No other system changes this state.

use vstd::prelude::*;

verus! {

/// Whether the simulation is running or halted at the pause menu.
#[derive(Clone, Copy, Debug, PartialEq, Eq, Structural)]
pub enum PauseState {
    Running,
    Paused,
}

/// The pause toggle's owner: the state together with the physics clock's
/// pause flag and the pointer visibility it drives.
#[derive(Clone, Copy, Debug, PartialEq, Eq, Structural)]
pub struct PauseGate {
    pub state: PauseState,
    /// Mirror of the simulation clock's pause flag: physics integration
    /// itself freezes, not just the controller.
    pub clock_paused: bool,
    /// Whether the pointer is released and visible for the menu.
    pub cursor_visible: bool,
}

impl PauseGate {
    /// The clock and the pointer follow the state in lockstep.
    pub open spec fn wf(self) -> bool {
        &&& self.clock_paused == (self.state is Paused)
        &&& self.cursor_visible == (self.state is Paused)
    }

    pub open spec fn is_paused(self) -> bool {
        self.state is Paused
    }

    /// A fresh toggle: running, clock live, pointer captured.
    pub fn new() -> (r: PauseGate)
        ensures
            r.wf(),
            r.state is Running,
    {
        PauseGate { state: PauseState::Running, clock_paused: false, cursor_visible: false }
    }

    /// Flips Running and Paused, pausing or unpausing the simulation clock
    /// in lockstep and toggling pointer visibility for the menu.
    pub fn toggle(&mut self)
        requires
            old(self).wf(),
        ensures
            final(self).wf(),
            final(self).state is Paused <==> old(self).state is Running,
            final(self).clock_paused == !old(self).clock_paused,
    {
        match self.state {
            PauseState::Running => {
                self.state = PauseState::Paused;
                self.clock_paused = true;
                self.cursor_visible = true;
            },
            PauseState::Paused => {
                self.state = PauseState::Running;
                self.clock_paused = false;
                self.cursor_visible = false;
            },
        }
    }

    /// Whether the pause menu is shown: exactly while paused.
    pub fn menu_visible(&self) -> (v: bool)
        ensures
            v == self.is_paused(),
    {
        match self.state {
            PauseState::Paused => true,
            PauseState::Running => false,
        }
    }
}

impl Default for PauseGate {
    /// Same as [`PauseGate::new`]: running.
    fn default() -> (r: PauseGate)
        ensures
            r.wf(),
            r.state is Running,
    {
        PauseGate { state: PauseState::Running, clock_paused: false, cursor_visible: false }
    }
}

} // verus!
