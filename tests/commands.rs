use power_module::channel::Channel;
use power_module::commands::{parse_command, parse_speed, split_segments, Request};
use power_module::plane::{dispatch, rx_task, tx_task, MyDevice, RxEvent, Status};
use power_module::registry::Registry;
use power_module::shared::{CoolingState, LedState, PowerState};

fn responses(reg: &mut Registry) -> Vec<String> {
    let mut out = Vec::new();
    while let Some(m) = tx_task(reg) {
        out.push(m.as_str().to_string());
    }
    out
}

fn drain<T>(q: &mut Channel<T>) -> Vec<T> {
    let mut out = Vec::new();
    while let Some(v) = q.try_receive() {
        out.push(v);
    }
    out
}

#[test]
fn idn_returns_identification() {
    let mut reg = Registry::new();
    let st = Status::new();
    assert_eq!(dispatch(b"*IDN?", &st, &mut reg), Some(Request::Identify));
    assert_eq!(responses(&mut reg), vec!["\"PowerModule version 0.1.0\"\n".to_string()]);
}

#[test]
fn led_on_enqueues_one_command() {
    let mut reg = Registry::new();
    let st = Status::new();
    assert_eq!(dispatch(b"LED:ON", &st, &mut reg), Some(Request::LedOn));
    assert_eq!(drain(&mut reg.led_cmds), vec![LedState::On]);
    assert_eq!(responses(&mut reg), vec!["\n".to_string()]);
    assert!(drain(&mut reg.power_cmds).is_empty());
    assert!(drain(&mut reg.cooling_cmds).is_empty());
}

#[test]
fn unknown_path_gives_err() {
    let mut reg = Registry::new();
    let st = Status::new();
    assert_eq!(dispatch(b"FOO:BAR", &st, &mut reg), None);
    assert_eq!(responses(&mut reg), vec!["ERR\r\n".to_string()]);
    assert!(drain(&mut reg.led_cmds).is_empty());
}

#[test]
fn short_long_and_case_forms() {
    assert_eq!(parse_command(b"led:togg"), Some(Request::LedToggle));
    assert_eq!(parse_command(b"LED:TOGGLE"), Some(Request::LedToggle));
    assert_eq!(parse_command(b"Led:Toggle"), Some(Request::LedToggle));
    assert_eq!(parse_command(b"LED:TOGGL"), None);
    assert_eq!(parse_command(b"LED:TOG"), None);
    assert_eq!(parse_command(b"powe:on"), Some(Request::PowerOn));
    assert_eq!(parse_command(b"POWER:OFF"), Some(Request::PowerOff));
    assert_eq!(parse_command(b"POW:OFF"), None);
    assert_eq!(parse_command(b"*idn?"), Some(Request::Identify));
    assert_eq!(parse_command(b"spee?"), Some(Request::SpeedQuery));
    assert_eq!(parse_command(b"SPEED:ON"), Some(Request::SpeedOn));
}

#[test]
fn numeric_suffix_one_is_the_plain_mnemonic() {
    assert_eq!(parse_command(b"LED1:ON"), Some(Request::LedOn));
    assert_eq!(parse_command(b"led:on1"), Some(Request::LedOn));
    assert_eq!(parse_command(b"POWEr1:DCDC1:VAL1?"), Some(Request::DcdcValue));
    assert_eq!(parse_command(b"LED2:ON"), None);
    assert_eq!(parse_command(b"LED:ON01"), None);
}

#[test]
fn every_leaf_of_the_tree() {
    let cases: Vec<(&[u8], Request)> = vec![
        (b"LED?", Request::LedQuery),
        (b"LED:OFF", Request::LedOff),
        (b"POWEr?", Request::PowerQuery),
        (b"POWEr:DCDC:ON", Request::DcdcOn),
        (b"POWEr:DCDC:OFF", Request::DcdcOff),
        (b"POWEr:DCDC?", Request::DcdcQuery),
        (b"POWEr:DCDC:VAL?", Request::DcdcValue),
        (b"POWEr:ACDC:ON", Request::AcdcOn),
        (b"POWEr:ACDC:OFF", Request::AcdcOff),
        (b"POWEr:ACDC?", Request::AcdcQuery),
        (b"POWEr:ACDC:VAL?", Request::AcdcValue),
        (b"SPEEd:OFF", Request::SpeedOff),
        (b"SPEEd 75", Request::SpeedSet(75)),
        (b"SPEED 65535", Request::SpeedSet(65535)),
    ];
    for (t, r) in cases {
        assert_eq!(parse_command(t), Some(r));
    }
}

#[test]
fn malformed_forms_are_refused() {
    for t in [
        &b"*IDN"[..],
        b"LED:ON?",
        b"LED",
        b"LED:ON 1",
        b"SPEEd",
        b"SPEEd 65536",
        b"SPEEd x",
        b"SPEEd ",
        b"SPEEd? 5",
        b":LED:ON",
        b"POWEr:DCDC:VAL",
        b"",
        b"?",
    ] {
        assert_eq!(parse_command(t), None);
    }
}

#[test]
fn speed_parameter_values() {
    assert_eq!(parse_speed(b"0"), Some(0));
    assert_eq!(parse_speed(b"00042"), Some(42));
    assert_eq!(parse_speed(b"65535"), Some(65535));
    assert_eq!(parse_speed(b"65536"), None);
    assert_eq!(parse_speed(b"100000"), None);
    assert_eq!(parse_speed(b""), None);
    assert_eq!(parse_speed(b"1a"), None);
}

#[test]
fn segments_split_at_colons() {
    let s = split_segments(b"A:BC::D");
    assert_eq!(s, vec![b"A".to_vec(), b"BC".to_vec(), vec![], b"D".to_vec()]);
    assert_eq!(split_segments(b""), vec![Vec::<u8>::new()]);
}

#[test]
fn power_commands_queue_overrides() {
    let mut reg = Registry::new();
    let st = Status::new();
    dispatch(b"POWEr:ON", &st, &mut reg);
    dispatch(b"POWEr:DCDC:ON", &st, &mut reg);
    dispatch(b"POWEr:ACDC:OFF", &st, &mut reg);
    assert_eq!(dispatch(b"POWEr:OFF", &st, &mut reg), Some(Request::PowerOff));
    assert_eq!(responses(&mut reg), vec!["\n", "\n", "\n", "\n"]);
    assert_eq!(
        drain(&mut reg.power_cmds),
        vec![PowerState::ACDC, PowerState::DCDC, PowerState::OFF, PowerState::OFF]
    );
}

#[test]
fn speed_value_queues_speed_and_on() {
    let mut reg = Registry::new();
    let st = Status::new();
    assert_eq!(dispatch(b"SPEEd 50", &st, &mut reg), Some(Request::SpeedSet(50)));
    assert_eq!(drain(&mut reg.speed_cmds), vec![50]);
    assert_eq!(drain(&mut reg.cooling_cmds), vec![CoolingState::On]);
}

#[test]
fn queries_report_status() {
    let mut reg = Registry::new();
    let st = Status {
        led_on: true,
        power: Some(PowerState::DCDC),
        cooling: CoolingState::On,
        speed: 50,
        millivolts: 812,
    };
    dispatch(b"LED?", &st, &mut reg);
    dispatch(b"POWEr?", &st, &mut reg);
    dispatch(b"POWEr:DCDC?", &st, &mut reg);
    dispatch(b"POWEr:ACDC?", &st, &mut reg);
    assert_eq!(
        responses(&mut reg),
        vec!["\"ON\"\n", "\"DCDC\"\n", "\"1\"\n", "\"0\"\n"]
    );
    dispatch(b"POWEr:ACDC:VAL?", &st, &mut reg);
    dispatch(b"SPEEd?", &st, &mut reg);
    assert_eq!(responses(&mut reg), vec!["\"812\"\n", "\"ON,50\"\n"]);
    let idle = Status::new();
    dispatch(b"LED?", &idle, &mut reg);
    dispatch(b"POWEr?", &idle, &mut reg);
    dispatch(b"SPEEd?", &idle, &mut reg);
    dispatch(b"POWEr:DCDC:VAL?", &idle, &mut reg);
    assert_eq!(
        responses(&mut reg),
        vec!["\"OFF\"\n", "\"OFF\"\n", "\"OFF,0\"\n", "\"0\"\n"]
    );
}

#[test]
fn full_response_queue_drops_response() {
    let mut reg = Registry::new();
    let st = Status::new();
    for _ in 0..4 {
        dispatch(b"*IDN?", &st, &mut reg);
    }
    assert_eq!(dispatch(b"LED:OFF", &st, &mut reg), Some(Request::LedOff));
    assert_eq!(reg.responses.len(), 4);
    assert_eq!(drain(&mut reg.led_cmds), vec![LedState::Off]);
}

#[test]
fn rx_bytes_to_dispatch() {
    let mut reg = Registry::new();
    let mut plane = MyDevice::new();
    reg.led_status.signal(true);
    let mut events = Vec::new();
    for &b in b"led?\r\n" {
        events.push(rx_task(&mut plane, &mut reg, b));
    }
    assert_eq!(
        events,
        vec![
            RxEvent::Pending,
            RxEvent::Pending,
            RxEvent::Pending,
            RxEvent::Pending,
            RxEvent::Dispatched(Some(Request::LedQuery)),
            RxEvent::Pending,
        ]
    );
    assert!(plane.status.led_on);
    assert_eq!(responses(&mut reg), vec!["\"ON\"\n".to_string()]);
}

#[test]
fn rx_line_led_on_dispatches_once() {
    let mut reg = Registry::new();
    let mut plane = MyDevice::new();
    let mut dispatched = Vec::new();
    for &b in b"led:on\r\n" {
        if let RxEvent::Dispatched(p) = rx_task(&mut plane, &mut reg, b) {
            dispatched.push(p);
        }
    }
    assert_eq!(dispatched, vec![Some(Request::LedOn)]);
    assert_eq!(drain(&mut reg.led_cmds), vec![LedState::On]);
}

#[test]
fn rx_overflow_then_recovery() {
    let mut reg = Registry::new();
    let mut plane = MyDevice::new();
    let mut overflow = 0;
    for _ in 0..65 {
        match rx_task(&mut plane, &mut reg, b'a') {
            RxEvent::Overflow => overflow += 1,
            RxEvent::Dispatched(_) => panic!("no line expected"),
            RxEvent::Pending => {}
        }
    }
    assert_eq!(overflow, 1);
    assert_eq!(reg.responses.len(), 0);
}

#[test]
fn rx_unknown_line_gets_err() {
    let mut reg = Registry::new();
    let mut plane = MyDevice::new();
    for &b in b"FOO:BAR\n" {
        rx_task(&mut plane, &mut reg, b);
    }
    assert_eq!(responses(&mut reg), vec!["ERR\r\n".to_string()]);
}
