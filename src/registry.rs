//! The process-wide set of queues and latest-value cells, built once at start
//! and handed to every task.

use vstd::prelude::*;

use crate::channel::{Channel, Signal};
use crate::shared::{CoolingState, LedState, PowerState};

verus! {

/// Every queue and cell through which the tasks talk to one another.
pub struct Registry {
    /// Latest averaged reading in millivolts, for the power arbiter.
    pub millivolts: Signal<u32>,
    /// Latest averaged reading in millivolts, for status queries.
    pub voltage_status: Signal<u32>,
    /// Latest requested PWM duty.
    pub duty: Signal<u16>,
    /// Commands for the LED controller.
    pub led_cmds: Channel<LedState>,
    /// Power-source overrides for the power arbiter.
    pub power_cmds: Channel<PowerState>,
    /// On/off commands for the cooling controller.
    pub cooling_cmds: Channel<CoolingState>,
    /// Speed requests for the cooling controller.
    pub speed_cmds: Channel<u16>,
    /// Blink half-periods, in milliseconds, for the status LED.
    pub delay: Channel<u64>,
    /// Power state last applied by the arbiter.
    pub power_status: Signal<PowerState>,
    /// LED level last applied by the LED controller.
    pub led_status: Signal<bool>,
    /// Cooling state last applied by the cooling controller.
    pub cooling_status: Signal<CoolingState>,
    /// Cooling speed last applied by the cooling controller.
    pub current_speed: Signal<u16>,
    /// Framed responses waiting for the serial writer.
    pub responses: Channel<heapless::String<64>>,
}

impl Registry {
    /// All queues empty, all cells without a value.
    pub fn new() -> (r: Self)
        ensures
            r.millivolts@ is None,
            r.voltage_status@ is None,
            r.duty@ is None,
            r.led_cmds@.len() == 0,
            r.power_cmds@.len() == 0,
            r.cooling_cmds@.len() == 0,
            r.speed_cmds@.len() == 0,
            r.delay@.len() == 0,
            r.power_status@ is None,
            r.led_status@ is None,
            r.cooling_status@ is None,
            r.current_speed@ is None,
            r.responses@.len() == 0,
    {
        Registry {
            millivolts: Signal::new(),
            voltage_status: Signal::new(),
            duty: Signal::new(),
            led_cmds: Channel::new(),
            power_cmds: Channel::new(),
            cooling_cmds: Channel::new(),
            speed_cmds: Channel::new(),
            delay: Channel::new(),
            power_status: Signal::new(),
            led_status: Signal::new(),
            cooling_status: Signal::new(),
            current_speed: Signal::new(),
            responses: Channel::new(),
        }
    }
}

} // verus!
