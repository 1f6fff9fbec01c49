//! The actuator controllers: LED, cooling and PWM duty. Each tick applies at
//! most one pending command per queue, oldest first, and reports the output
//! level to drive.

use vstd::prelude::*;

use crate::registry::Registry;
use crate::shared::{CoolingState, LedState};

verus! {

/// LED level after a command.
pub open spec fn led_after(on: bool, cmd: LedState) -> bool {
    match cmd {
        LedState::On => true,
        LedState::Off => false,
        LedState::Toggle => !on,
    }
}

/// The LED controller's cached output level.
pub struct LedController {
    pub on: bool,
}

impl LedController {
    /// LED off.
    pub fn new() -> (r: Self)
        ensures
            !r.on,
    {
        LedController { on: false }
    }
}

/// One tick of the LED controller: applies the oldest queued command, if
/// any, publishes the new level and returns it for the output.
pub fn led_controller(ctrl: &mut LedController, reg: &mut Registry) -> (r: Option<bool>)
    ensures
        old(reg).led_cmds@.len() == 0 ==> r is None && final(ctrl).on == old(ctrl).on
            && final(reg).led_cmds@ == old(reg).led_cmds@ && final(reg).led_status == old(reg).led_status,
        old(reg).led_cmds@.len() > 0 ==> r == Some(led_after(old(ctrl).on, old(reg).led_cmds@[0]))
            && final(ctrl).on == led_after(old(ctrl).on, old(reg).led_cmds@[0])
            && final(reg).led_cmds@ == old(reg).led_cmds@.drop_first() && final(reg).led_status@
            == Some(final(ctrl).on),
        *final(reg) == (Registry {
            led_cmds: final(reg).led_cmds,
            led_status: final(reg).led_status,
            ..*old(reg)
        }),
{
    match reg.led_cmds.try_receive() {
        None => None,
        Some(cmd) => {
            let on = match cmd {
                LedState::On => true,
                LedState::Off => false,
                LedState::Toggle => !ctrl.on,
            };
            ctrl.on = on;
            reg.led_status.signal(on);
            Some(on)
        },
    }
}

/// The cooling controller's state: whether it is on, the speed applied and
/// the speed last requested.
#[derive(Debug, Clone, Copy, PartialEq, Eq, Structural)]
pub struct CoolingController {
    pub state: CoolingState,
    pub speed: u16,
    pub requested: u16,
}

impl CoolingController {
    /// Off, speed zero, nothing requested.
    pub fn new() -> (r: Self)
        ensures
            r == (CoolingController { state: CoolingState::Off, speed: 0, requested: 0 }),
    {
        CoolingController { state: CoolingState::Off, speed: 0, requested: 0 }
    }
}

/// Cooling state after an on/off command: on applies the requested speed,
/// off forces the speed to zero.
pub open spec fn cooling_after_switch(c: CoolingController, cmd: CoolingState) -> CoolingController {
    match cmd {
        CoolingState::On => CoolingController { state: CoolingState::On, speed: c.requested, ..c },
        CoolingState::Off => CoolingController { state: CoolingState::Off, speed: 0, ..c },
    }
}

/// Cooling state after a speed request: stored, and applied only while on.
pub open spec fn cooling_after_speed(c: CoolingController, v: u16) -> CoolingController {
    CoolingController {
        requested: v,
        speed: if c.state == CoolingState::On {
            v
        } else {
            c.speed
        },
        ..c
    }
}

/// One tick of the cooling controller. The oldest on/off command, if any, is
/// applied and its output level returned, publishing the state and the
/// applied speed; then the oldest speed request, if any, is stored, applied
/// only while on, and published as the current speed.
pub fn cooling_controller(ctrl: &mut CoolingController, reg: &mut Registry) -> (r: Option<bool>)
    ensures
        ({
            let mid = if old(reg).cooling_cmds@.len() > 0 {
                cooling_after_switch(*old(ctrl), old(reg).cooling_cmds@[0])
            } else {
                *old(ctrl)
            };
            &&& *final(ctrl) == (if old(reg).speed_cmds@.len() > 0 {
                cooling_after_speed(mid, old(reg).speed_cmds@[0])
            } else {
                mid
            })
            &&& old(reg).cooling_cmds@.len() > 0 ==> r == Some(mid.state == CoolingState::On)
                && final(reg).cooling_cmds@ == old(reg).cooling_cmds@.drop_first()
                && final(reg).cooling_status@ == Some(mid.state)
            &&& old(reg).cooling_cmds@.len() == 0 ==> r is None && final(reg).cooling_cmds@ == old(reg).cooling_cmds@ && final(reg).cooling_status == old(reg).cooling_status
        }),
        old(reg).speed_cmds@.len() > 0 ==> final(reg).speed_cmds@ == old(reg).speed_cmds@.drop_first(),
        old(reg).speed_cmds@.len() == 0 ==> final(reg).speed_cmds@ == old(reg).speed_cmds@,
        old(reg).cooling_cmds@.len() > 0 && old(reg).speed_cmds@.len() == 0 ==> final(reg).current_speed@
            == Some(final(ctrl).speed),
        old(reg).speed_cmds@.len() > 0 ==> final(reg).current_speed@ == Some(old(reg).speed_cmds@[0]),
        old(reg).cooling_cmds@.len() == 0 && old(reg).speed_cmds@.len() == 0 ==> final(reg).current_speed == old(reg).current_speed,
        *final(reg) == (Registry {
            cooling_cmds: final(reg).cooling_cmds,
            speed_cmds: final(reg).speed_cmds,
            cooling_status: final(reg).cooling_status,
            current_speed: final(reg).current_speed,
            ..*old(reg)
        }),
{
    let mut level: Option<bool> = None;
    if let Some(cmd) = reg.cooling_cmds.try_receive() {
        match cmd {
            CoolingState::On => {
                ctrl.state = CoolingState::On;
                ctrl.speed = ctrl.requested;
                level = Some(true);
            },
            CoolingState::Off => {
                ctrl.state = CoolingState::Off;
                ctrl.speed = 0;
                level = Some(false);
            },
        }
        reg.cooling_status.signal(ctrl.state);
        reg.current_speed.signal(ctrl.speed);
    }
    if let Some(v) = reg.speed_cmds.try_receive() {
        ctrl.requested = v;
        if ctrl.state == CoolingState::On {
            ctrl.speed = v;
        }
        reg.current_speed.signal(v);
    }
    level
}

/// One wake of the PWM task: the latest requested duty, if a new one came;
/// earlier requests that were overwritten are never seen.
pub fn change_duty_cycle(reg: &mut Registry) -> (r: Option<u16>)
    ensures
        r == old(reg).duty@,
        final(reg).duty@ is None,
        *final(reg) == (Registry { duty: final(reg).duty, ..*old(reg) }),
{
    reg.duty.try_take()
}

/// One period of the status LED: takes the oldest queued half-period, if
/// any, as the new one, and returns the half-period to blink with.
pub fn blinky(current_delay: &mut u64, reg: &mut Registry) -> (r: u64)
    ensures
        old(reg).delay@.len() > 0 ==> *final(current_delay) == old(reg).delay@[0]
            && final(reg).delay@ == old(reg).delay@.drop_first(),
        old(reg).delay@.len() == 0 ==> *final(current_delay) == *old(current_delay)
            && final(reg).delay@ == old(reg).delay@,
        r == *final(current_delay),
        *final(reg) == (Registry { delay: final(reg).delay, ..*old(reg) }),
{
    if let Some(d) = reg.delay.try_receive() {
        *current_delay = d;
    }
    *current_delay
}

} // verus!
