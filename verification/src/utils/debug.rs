use vstd::prelude::*;

verus! {

/// Whether the debug overlay is shown.
#[derive(Clone, Copy, Debug, PartialEq, Eq, Structural, Hash)]
pub enum DebugState {
    Off,
    On,
}

impl Default for DebugState {
    /// The overlay starts hidden.
    fn default() -> (s: DebugState)
        ensures
            s == DebugState::Off,
    {
        DebugState::Off
    }
}

impl DebugState {
    /// The other of the two states.
    pub open spec fn spec_inverse(self) -> DebugState {
        match self {
            DebugState::On => DebugState::Off,
            DebugState::Off => DebugState::On,
        }
    }

    /// Flips the state: `On` becomes `Off` and `Off` becomes `On`.
    pub fn inverse(&self) -> (r: DebugState)
        ensures
            r == self.spec_inverse(),
    {
        match self {
            DebugState::On => DebugState::Off,
            DebugState::Off => DebugState::On,
        }
    }
}


/// Which parts of the debug overlay are shown.
#[derive(Clone, Copy, Debug, PartialEq, Eq, Structural)]
pub struct DebugOptions {
    pub world_stats: bool,
    pub world_inspector: bool,
    pub show_lights: bool,
}

impl Default for DebugOptions {
    /// The world statistics and the world inspector are shown; the lights are not.
    fn default() -> (o: DebugOptions)
        ensures
            o == (DebugOptions { world_stats: true, world_inspector: true, show_lights: false }),
    {
        DebugOptions { world_stats: true, world_inspector: true, show_lights: false }
    }
}

/// Flipping the debug state twice gives it back, and a flip always changes it.
pub proof fn lemma_inverse_involution(s: DebugState)
    ensures
        s.spec_inverse().spec_inverse() == s,
        s.spec_inverse() != s,
{
}

} // verus!
