//! Power-source arbitration: a pure decision from the override command and the
//! measured voltage, applied to two exclusive outputs only when it changes.

use vstd::prelude::*;

use crate::channel::CHANNEL_CAPACITY;
use crate::registry::Registry;
pub use crate::shared::PowerState;

verus! {

/// Readings strictly above this many millivolts select the AC/DC source.
pub const ACDC_THRESHOLD: u32 = 760;

/// Override code that forces the DC/DC source.
pub const FORCE_DCDC: u32 = 1;

/// Override code that forces the AC/DC source.
pub const FORCE_ACDC: u32 = 2;

/// Override code that switches both sources off.
pub const FORCE_OFF: u32 = 3;

/// The state chosen for an override code and a reading.
pub open spec fn decided_state(message: u32, voltage: u32) -> PowerState {
    if message == FORCE_DCDC {
        PowerState::DCDC
    } else if message == FORCE_ACDC {
        PowerState::ACDC
    } else if message == FORCE_OFF {
        PowerState::OFF
    } else if voltage > ACDC_THRESHOLD {
        PowerState::ACDC
    } else {
        PowerState::DCDC
    }
}

/// Blink half-period, in milliseconds, that signals a state.
pub open spec fn led_delay_of(s: PowerState) -> u64 {
    match s {
        PowerState::ACDC => 500,
        PowerState::DCDC => 100,
        PowerState::OFF => 1000,
    }
}

/// Override code that forces a state.
pub open spec fn override_code_of(s: PowerState) -> u32 {
    match s {
        PowerState::DCDC => FORCE_DCDC,
        PowerState::ACDC => FORCE_ACDC,
        PowerState::OFF => FORCE_OFF,
    }
}

/// Levels of the two source-select outputs.
#[derive(Debug, Clone, Copy, PartialEq, Eq, Structural)]
pub struct PinLevels {
    pub acdc_high: bool,
    pub dcdc_high: bool,
}

/// Output levels that select a state.
pub open spec fn pins_of(s: PowerState) -> PinLevels {
    match s {
        PowerState::ACDC => PinLevels { acdc_high: false, dcdc_high: true },
        PowerState::DCDC => PinLevels { acdc_high: true, dcdc_high: false },
        PowerState::OFF => PinLevels { acdc_high: false, dcdc_high: false },
    }
}

/// What a tick applies: the state when it differs from the one applied last,
/// nothing otherwise.
pub open spec fn on_change(previous: Option<PowerState>, s: PowerState) -> Option<PowerState> {
    if previous == Some(s) {
        None
    } else {
        Some(s)
    }
}

impl PowerState {
    /// Threshold rule used when no override is in force.
    pub fn from_voltage(voltage: u32) -> (r: Self)
        ensures
            r == (if voltage > ACDC_THRESHOLD { PowerState::ACDC } else { PowerState::DCDC }),
    {
        if voltage > ACDC_THRESHOLD {
            PowerState::ACDC
        } else {
            PowerState::DCDC
        }
    }

    /// The state selected by an override code and a reading in millivolts.
    pub fn determine_state(message: u32, voltage: u32) -> (r: Self)
        ensures
            r == decided_state(message, voltage),
            message == FORCE_DCDC ==> r == PowerState::DCDC,
            message == FORCE_ACDC ==> r == PowerState::ACDC,
            message == FORCE_OFF ==> r == PowerState::OFF,
            message != FORCE_DCDC && message != FORCE_ACDC && message != FORCE_OFF ==> (r
                == PowerState::ACDC <==> voltage > ACDC_THRESHOLD) && (r == PowerState::DCDC
                <==> voltage <= ACDC_THRESHOLD),
    {
        if message == FORCE_DCDC {
            PowerState::DCDC
        } else if message == FORCE_ACDC {
            PowerState::ACDC
        } else if message == FORCE_OFF {
            PowerState::OFF
        } else {
            Self::from_voltage(voltage)
        }
    }

    /// Blink half-period, in milliseconds, that signals this state.
    pub fn get_led_delay(&self) -> (r: u64)
        ensures
            r == led_delay_of(*self),
    {
        match self {
            PowerState::ACDC => 500,
            PowerState::DCDC => 100,
            PowerState::OFF => 1000,
        }
    }

    /// Override code that forces this state.
    pub fn override_code(&self) -> (r: u32)
        ensures
            r == override_code_of(*self),
    {
        match self {
            PowerState::DCDC => FORCE_DCDC,
            PowerState::ACDC => FORCE_ACDC,
            PowerState::OFF => FORCE_OFF,
        }
    }

    /// Drives the two outputs to the levels that select this state.
    pub fn set_pins(&self, pins: &mut PinLevels)
        ensures
            *final(pins) == pins_of(*self),
    {
        match self {
            PowerState::ACDC => {
                pins.acdc_high = false;
                pins.dcdc_high = true;
            },
            PowerState::DCDC => {
                pins.acdc_high = true;
                pins.dcdc_high = false;
            },
            PowerState::OFF => {
                pins.acdc_high = false;
                pins.dcdc_high = false;
            },
        }
    }
}

/// Memory of the power arbiter between ticks.
pub struct PowerArbiter {
    /// State applied last; none before the first decision.
    pub previous: Option<PowerState>,
    /// Override code last received; threshold mode when it forces nothing.
    pub override_code: u32,
    /// Reading last received; none before the first one.
    pub voltage: Option<u32>,
    /// Current levels of the two source-select outputs.
    pub pins: PinLevels,
}

impl PowerArbiter {
    /// Nothing applied yet, no override, no reading, both outputs low.
    pub fn new() -> (r: Self)
        ensures
            r.previous is None,
            r.override_code == 0,
            r.voltage is None,
            r.pins == (PinLevels { acdc_high: false, dcdc_high: false }),
    {
        PowerArbiter {
            previous: None,
            override_code: 0,
            voltage: None,
            pins: PinLevels { acdc_high: false, dcdc_high: false },
        }
    }
}

/// Reading in force after a tick has looked at the reading cell.
pub open spec fn next_voltage(a: PowerArbiter, reg: Registry) -> Option<u32> {
    if reg.millivolts@ is Some {
        reg.millivolts@
    } else {
        a.voltage
    }
}

/// Override code in force after a tick has emptied the override queue: that
/// of the newest queued override, if any.
pub open spec fn next_override(a: PowerArbiter, reg: Registry) -> u32 {
    if reg.power_cmds@.len() > 0 {
        override_code_of(reg.power_cmds@.last())
    } else {
        a.override_code
    }
}

/// One poll tick of the arbiter. It takes the latest reading, if one came,
/// and empties the override queue, keeping the newest override, if any. Once a reading is known it decides
/// the state; when that differs from the state applied last it drives the
/// outputs, queues the matching blink half-period (dropped if the queue is
/// full), publishes the state and returns it. Otherwise it returns `None` and
/// drives and publishes nothing.
pub fn change_power_source(arbiter: &mut PowerArbiter, reg: &mut Registry) -> (r: Option<PowerState>)
    ensures
        final(arbiter).voltage == next_voltage(*old(arbiter), *old(reg)),
        final(arbiter).override_code == next_override(*old(arbiter), *old(reg)),
        final(reg).millivolts@ is None,
        final(reg).power_cmds@.len() == 0,
        final(arbiter).voltage is None ==> r is None && final(arbiter).previous == old(arbiter).previous,
        final(arbiter).voltage is Some ==> final(arbiter).previous == Some(
            decided_state(final(arbiter).override_code, final(arbiter).voltage.unwrap()),
        ) && r == on_change(old(arbiter).previous, final(arbiter).previous.unwrap()),
        r is None ==> final(arbiter).pins == old(arbiter).pins && final(reg).delay@ == old(
            reg,
        ).delay@ && final(reg).power_status == old(reg).power_status,
        r matches Some(s) ==> final(arbiter).pins == pins_of(s) && final(reg).power_status@ == Some(s)
            && (old(reg).delay@.len() < CHANNEL_CAPACITY ==> final(reg).delay@ == old(reg).delay@.push(
            led_delay_of(s),
        )) && (old(reg).delay@.len() >= CHANNEL_CAPACITY ==> final(reg).delay@ == old(reg).delay@),
        *final(reg) == (Registry {
            millivolts: final(reg).millivolts,
            power_cmds: final(reg).power_cmds,
            delay: final(reg).delay,
            power_status: final(reg).power_status,
            ..*old(reg)
        }),
{
    if let Some(v) = reg.millivolts.try_take() {
        arbiter.voltage = Some(v);
    }
    let ghost queued = reg.power_cmds@;
    let ghost start = arbiter.override_code;
    let ghost mut taken: int = 0;
    while reg.power_cmds.len() > 0
        invariant
            0 <= taken <= queued.len(),
            reg.power_cmds@ == queued.skip(taken),
            taken == 0 ==> arbiter.override_code == start,
            taken > 0 ==> arbiter.override_code == override_code_of(queued[taken - 1]),
            arbiter.voltage == next_voltage(*old(arbiter), *old(reg)),
            arbiter.previous == old(arbiter).previous,
            arbiter.pins == old(arbiter).pins,
            reg.millivolts@ is None,
            *reg == (Registry {
                millivolts: reg.millivolts,
                power_cmds: reg.power_cmds,
                ..*old(reg)
            }),
        decreases reg.power_cmds@.len(),
    {
        if let Some(cmd) = reg.power_cmds.try_receive() {
            assert(queued.skip(taken).drop_first() =~= queued.skip(taken + 1));
            arbiter.override_code = cmd.override_code();
            proof {
                taken = taken + 1;
            }
        }
    }
    assert(taken == queued.len());
    match arbiter.voltage {
        None => None,
        Some(voltage) => {
            let state = PowerState::determine_state(arbiter.override_code, voltage);
            let changed = match arbiter.previous {
                Some(p) => p != state,
                None => true,
            };
            arbiter.previous = Some(state);
            if changed {
                state.set_pins(&mut arbiter.pins);
                let _ = reg.delay.try_send(state.get_led_delay());
                reg.power_status.signal(state);
                Some(state)
            } else {
                None
            }
        },
    }
}

/// Actuation happens on a change only: a tick that computes the state applied
/// by the tick before it applies nothing, so two consecutive ticks that compute
/// the same state drive the outputs and queue a blink period at most once.
pub proof fn lemma_same_state_actuates_once(previous: Option<PowerState>, s: PowerState)
    ensures
        on_change(Some(s), s) is None,
        on_change(previous, s) is Some <==> previous != Some(s),
        !(on_change(previous, s) is Some && on_change(Some(s), s) is Some),
{
}

} // verus!
