use vstd::prelude::*;

verus! {

/// Power source selected by the arbiter.
#[derive(Debug, Clone, Copy, PartialEq, Eq, Structural)]
pub enum PowerState {
    DCDC,
    ACDC,
    OFF,
}

/// Command for the LED controller.
#[derive(Debug, Clone, Copy, PartialEq, Eq, Structural)]
pub enum LedState {
    On,
    Off,
    Toggle,
}

/// Command for, and state of, the cooling controller.
#[derive(Debug, Clone, Copy, PartialEq, Eq, Structural)]
pub enum CoolingState {
    On,
    Off,
}

} // verus!
