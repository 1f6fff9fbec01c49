//! The command plane: turns received bytes into lines, runs each line against
//! the command tree, queues the commands it selects and one framed response.

use scpi::parser::response::ResponseData;
use vstd::prelude::*;

use crate::channel::{Channel, CHANNEL_CAPACITY};
use crate::commands::{parse, parse_command, Request};
use crate::lines::{is_terminator, LineAssembler, LineEvent};
use crate::registry::Registry;
use crate::shared::{CoolingState, LedState, PowerState};
use crate::text::{all_ascii, fill_line, line_as_bytes, line_bytes, line_of, LINE_CAPACITY};

verus! {

/// Double quote.
pub const QUOTE: u8 = 34;

/// What the command plane knows of the other tasks, from their status cells.
#[derive(Debug, Clone, Copy, PartialEq, Eq, Structural)]
pub struct Status {
    pub led_on: bool,
    pub power: Option<PowerState>,
    pub cooling: CoolingState,
    pub speed: u16,
    pub millivolts: u32,
}

impl Status {
    /// The state of the outputs at start: LED off, no power state applied,
    /// cooling off at speed zero, no reading.
    pub fn new() -> (r: Self)
        ensures
            r == (Status {
                led_on: false,
                power: None,
                cooling: CoolingState::Off,
                speed: 0,
                millivolts: 0,
            }),
    {
        Status { led_on: false, power: None, cooling: CoolingState::Off, speed: 0, millivolts: 0 }
    }
}

/// Decimal digits of `n`, most significant first, without leading zeros.
pub open spec fn decimal(n: nat) -> Seq<u8>
    decreases n,
{
    if n < 10 {
        seq![(48 + n) as u8]
    } else {
        decimal(n / 10).push((48 + n % 10) as u8)
    }
}

proof fn lemma_decimal_ascii(n: nat)
    ensures
        all_ascii(decimal(n)),
        decimal(n).len() >= 1,
    decreases n,
{
    if n >= 10 {
        lemma_decimal_ascii(n / 10);
    }
}

/// Appends the decimal digits of `n`.
fn push_decimal(n: u32, out: &mut Vec<u8>)
    ensures
        final(out)@ == old(out)@ + decimal(n as nat),
    decreases n,
{
    if n >= 10 {
        push_decimal(n / 10, out);
    }
    out.push(48 + (n % 10) as u8);
    assert(final(out)@ =~= old(out)@ + decimal(n as nat));
}

/// `s` with each double quote doubled.
pub open spec fn escape_quotes(s: Seq<u8>) -> Seq<u8>
    decreases s.len(),
{
    if s.len() == 0 {
        Seq::empty()
    } else {
        escape_quotes(s.drop_last()) + (if s.last() == QUOTE {
            seq![QUOTE, QUOTE]
        } else {
            seq![s.last()]
        })
    }
}

/// SCPI string response data: `s` in double quotes, inner quotes doubled.
pub open spec fn string_data(s: Seq<u8>) -> Seq<u8> {
    seq![QUOTE] + escape_quotes(s) + seq![QUOTE]
}

/// Relies on scpi's `ResponseData` for `&[u8]`, written into a `Vec<u8>`
/// formatter: ASCII data is written as SCPI string data, anything else is
/// refused.
#[verifier::external_body]
fn format_string_data(data: &[u8]) -> (r: Option<Vec<u8>>)
    ensures
        all_ascii(data@) ==> r.is_some() && r.unwrap()@ == string_data(data@),
        !all_ascii(data@) ==> r is None,
{
    let mut out: Vec<u8> = Vec::new();
    match data.format_response_data(&mut out) {
        Ok(()) => Some(out),
        Err(_) => None,
    }
}

/// Identification returned by `*IDN?`.
pub open spec fn identification() -> Seq<u8> {
    // PowerModule version 0.1.0
    seq![
        80u8, 111u8, 119u8, 101u8, 114u8, 77u8, 111u8, 100u8, 117u8, 108u8, 101u8, 32u8, 118u8,
        101u8, 114u8, 115u8, 105u8, 111u8, 110u8, 32u8, 48u8, 46u8, 49u8, 46u8, 48u8,
    ]
}

/// `ON`
pub open spec fn on_text() -> Seq<u8> {
    seq![79u8, 78u8]
}

/// `OFF`
pub open spec fn off_text() -> Seq<u8> {
    seq![79u8, 70u8, 70u8]
}

/// Name of a power state as status queries give it.
pub open spec fn power_text(p: Option<PowerState>) -> Seq<u8> {
    match p {
        // DCDC
        Some(PowerState::DCDC) => seq![68u8, 67u8, 68u8, 67u8],
        // ACDC
        Some(PowerState::ACDC) => seq![65u8, 67u8, 68u8, 67u8],
        _ => off_text(),
    }
}

/// `1` when `b` holds, `0` otherwise.
pub open spec fn flag_text(b: bool) -> Seq<u8> {
    if b {
        seq![49u8]
    } else {
        seq![48u8]
    }
}

/// Whether a command is a query, which answers with a payload.
pub open spec fn is_query_request(r: Request) -> bool {
    match r {
        Request::Identify | Request::LedQuery | Request::PowerQuery | Request::DcdcQuery
        | Request::DcdcValue | Request::AcdcQuery | Request::AcdcValue | Request::SpeedQuery => true,
        _ => false,
    }
}

/// The payload a query answers with, from the status known to the plane.
pub open spec fn payload_of(r: Request, st: Status) -> Seq<u8> {
    match r {
        Request::Identify => identification(),
        Request::LedQuery => if st.led_on {
            on_text()
        } else {
            off_text()
        },
        Request::PowerQuery => power_text(st.power),
        Request::DcdcQuery => flag_text(st.power == Some(PowerState::DCDC)),
        Request::AcdcQuery => flag_text(st.power == Some(PowerState::ACDC)),
        Request::DcdcValue | Request::AcdcValue => decimal(st.millivolts as nat),
        Request::SpeedQuery => (if st.cooling == CoolingState::On {
            on_text()
        } else {
            off_text()
        }) + seq![44u8] + decimal(st.speed as nat),
        _ => Seq::empty(),
    }
}

/// `ERR` with CR LF: the response to a line that selects no command.
pub open spec fn err_frame() -> Seq<u8> {
    seq![69u8, 82u8, 82u8, 13u8, 10u8]
}

/// The response a parsed line gets: the error frame when nothing matched,
/// the payload as string data ended by LF for a query, the LF alone for an
/// event.
pub open spec fn response_frame(p: Option<Request>, st: Status) -> Seq<u8> {
    match p {
        None => err_frame(),
        Some(r) => if is_query_request(r) {
            string_data(payload_of(r, st)).push(10u8)
        } else {
            seq![10u8]
        },
    }
}

/// The LED command a parsed line queues.
pub open spec fn led_command(p: Option<Request>) -> Option<LedState> {
    match p {
        Some(Request::LedToggle) => Some(LedState::Toggle),
        Some(Request::LedOn) => Some(LedState::On),
        Some(Request::LedOff) => Some(LedState::Off),
        _ => None,
    }
}

/// The power override a parsed line queues; `POWEr:ON` selects AC/DC.
pub open spec fn power_command(p: Option<Request>) -> Option<PowerState> {
    match p {
        Some(Request::PowerOn) => Some(PowerState::ACDC),
        Some(Request::PowerOff) => Some(PowerState::OFF),
        Some(Request::DcdcOn) => Some(PowerState::DCDC),
        Some(Request::DcdcOff) => Some(PowerState::OFF),
        Some(Request::AcdcOn) => Some(PowerState::ACDC),
        Some(Request::AcdcOff) => Some(PowerState::OFF),
        _ => None,
    }
}

/// The cooling command a parsed line queues; setting a speed switches on.
pub open spec fn cooling_command(p: Option<Request>) -> Option<CoolingState> {
    match p {
        Some(Request::SpeedOn) => Some(CoolingState::On),
        Some(Request::SpeedOff) => Some(CoolingState::Off),
        Some(Request::SpeedSet(_)) => Some(CoolingState::On),
        _ => None,
    }
}

/// The speed a parsed line queues.
pub open spec fn speed_command(p: Option<Request>) -> Option<u16> {
    match p {
        Some(Request::SpeedSet(v)) => Some(v),
        _ => None,
    }
}

/// A queue after a non-blocking send of `c`, when there is something to send.
pub open spec fn after_send<T>(q: Seq<T>, c: Option<T>) -> Seq<T> {
    match c {
        Some(x) => if q.len() < CHANNEL_CAPACITY {
            q.push(x)
        } else {
            q
        },
        None => q,
    }
}

/// The response queue after a non-blocking send of a line filled from `frame`.
pub open spec fn response_sent(
    before: Seq<heapless::String<64>>,
    after: Seq<heapless::String<64>>,
    frame: Seq<u8>,
) -> bool {
    &&& before.len() < CHANNEL_CAPACITY ==> after.len() == before.len() + 1 && after.drop_last()
        == before && line_bytes(after.last()) == line_of(frame)
    &&& before.len() >= CHANNEL_CAPACITY ==> after == before
}

/// What running a parsed line does to the registry: each command it selects
/// is offered to its queue, its response to the response queue, and nothing
/// else changes.
pub open spec fn dispatched(before: Registry, after: Registry, p: Option<Request>, st: Status) -> bool {
    &&& after.led_cmds@ == after_send(before.led_cmds@, led_command(p))
    &&& after.power_cmds@ == after_send(before.power_cmds@, power_command(p))
    &&& after.cooling_cmds@ == after_send(before.cooling_cmds@, cooling_command(p))
    &&& after.speed_cmds@ == after_send(before.speed_cmds@, speed_command(p))
    &&& response_sent(before.responses@, after.responses@, response_frame(p, st))
    &&& after == (Registry {
        led_cmds: after.led_cmds,
        power_cmds: after.power_cmds,
        cooling_cmds: after.cooling_cmds,
        speed_cmds: after.speed_cmds,
        responses: after.responses,
        ..before
    })
}


fn text_on_off(on: bool, out: &mut Vec<u8>)
    ensures
        final(out)@ == old(out)@ + (if on {
            on_text()
        } else {
            off_text()
        }),
{
    if on {
        out.push(79u8);
        out.push(78u8);
        assert(final(out)@ =~= old(out)@ + on_text());
    } else {
        out.push(79u8);
        out.push(70u8);
        out.push(70u8);
        assert(final(out)@ =~= old(out)@ + off_text());
    }
}

/// The payload a query answers with.
fn query_payload(r: Request, st: &Status) -> (p: Vec<u8>)
    requires
        is_query_request(r),
    ensures
        p@ == payload_of(r, *st),
        all_ascii(p@),
{
    let mut out: Vec<u8> = Vec::new();
    match r {
        Request::Identify => {
            out = vec![
                80u8, 111u8, 119u8, 101u8, 114u8, 77u8, 111u8, 100u8, 117u8, 108u8, 101u8, 32u8,
                118u8, 101u8, 114u8, 115u8, 105u8, 111u8, 110u8, 32u8, 48u8, 46u8, 49u8, 46u8, 48u8,
            ];
        },
        Request::LedQuery => {
            text_on_off(st.led_on, &mut out);
        },
        Request::PowerQuery => {
            match st.power {
                Some(PowerState::DCDC) => {
                    out = vec![68u8, 67u8, 68u8, 67u8];
                },
                Some(PowerState::ACDC) => {
                    out = vec![65u8, 67u8, 68u8, 67u8];
                },
                _ => {
                    text_on_off(false, &mut out);
                },
            }
        },
        Request::DcdcQuery => {
            let on = match st.power {
                Some(PowerState::DCDC) => true,
                _ => false,
            };
            out.push(if on { 49u8 } else { 48u8 });
        },
        Request::AcdcQuery => {
            let on = match st.power {
                Some(PowerState::ACDC) => true,
                _ => false,
            };
            out.push(if on { 49u8 } else { 48u8 });
        },
        Request::DcdcValue | Request::AcdcValue => {
            push_decimal(st.millivolts, &mut out);
        },
        _ => {
            let on = match st.cooling {
                CoolingState::On => true,
                CoolingState::Off => false,
            };
            text_on_off(on, &mut out);
            out.push(44u8);
            push_decimal(st.speed as u32, &mut out);
        },
    }
    proof {
        lemma_decimal_ascii(st.millivolts as nat);
        lemma_decimal_ascii(st.speed as nat);
        assert(out@ =~= payload_of(r, *st));
    }
    out
}

/// The framed response to a parsed line.
fn build_response(p: Option<Request>, st: &Status) -> (f: Vec<u8>)
    ensures
        f@ == response_frame(p, *st),
{
    match p {
        None => vec![69u8, 82u8, 82u8, 13u8, 10u8],
        Some(r) => {
            let is_query = match r {
                Request::Identify | Request::LedQuery | Request::PowerQuery | Request::DcdcQuery
                | Request::DcdcValue | Request::AcdcQuery | Request::AcdcValue
                | Request::SpeedQuery => true,
                _ => false,
            };
            if is_query {
                let payload = query_payload(r, st);
                match format_string_data(payload.as_slice()) {
                    Some(mut framed) => {
                        framed.push(10u8);
                        framed
                    },
                    None => Vec::new(),
                }
            } else {
                vec![10u8]
            }
        },
    }
}

fn send_if<T>(q: &mut Channel<T>, c: Option<T>)
    ensures
        final(q)@ == after_send(old(q)@, c),
{
    if let Some(x) = c {
        let _ = q.try_send(x);
    }
}

/// Runs one command line: parses it against the command tree, offers the
/// commands it selects to their queues and its framed response (or the error
/// frame) to the response queue. A send to a full queue is dropped.
pub fn dispatch(token: &[u8], status: &Status, reg: &mut Registry) -> (r: Option<Request>)
    ensures
        r == parse(token@),
        dispatched(*old(reg), *final(reg), r, *status),
{
    let p = parse_command(token);
    let led = match p {
        Some(Request::LedToggle) => Some(LedState::Toggle),
        Some(Request::LedOn) => Some(LedState::On),
        Some(Request::LedOff) => Some(LedState::Off),
        _ => None,
    };
    let power = match p {
        Some(Request::PowerOn) => Some(PowerState::ACDC),
        Some(Request::PowerOff) => Some(PowerState::OFF),
        Some(Request::DcdcOn) => Some(PowerState::DCDC),
        Some(Request::DcdcOff) => Some(PowerState::OFF),
        Some(Request::AcdcOn) => Some(PowerState::ACDC),
        Some(Request::AcdcOff) => Some(PowerState::OFF),
        _ => None,
    };
    let cooling = match p {
        Some(Request::SpeedOn) => Some(CoolingState::On),
        Some(Request::SpeedOff) => Some(CoolingState::Off),
        Some(Request::SpeedSet(_)) => Some(CoolingState::On),
        _ => None,
    };
    let speed = match p {
        Some(Request::SpeedSet(v)) => Some(v),
        _ => None,
    };
    send_if(&mut reg.led_cmds, led);
    send_if(&mut reg.power_cmds, power);
    send_if(&mut reg.speed_cmds, speed);
    send_if(&mut reg.cooling_cmds, cooling);
    let frame = build_response(p, status);
    let line = fill_line(frame.as_slice());
    let ghost before = reg.responses@;
    let _ = reg.responses.try_send(line);
    assert(before.len() < CHANNEL_CAPACITY ==> reg.responses@.drop_last() =~= before);
    p
}


/// The status after reading the status cells: each cell with a value
/// replaces what was known.
pub open spec fn refreshed(st: Status, reg: Registry) -> Status {
    Status {
        led_on: if reg.led_status@ is Some {
            reg.led_status@.unwrap()
        } else {
            st.led_on
        },
        power: if reg.power_status@ is Some {
            reg.power_status@
        } else {
            st.power
        },
        cooling: if reg.cooling_status@ is Some {
            reg.cooling_status@.unwrap()
        } else {
            st.cooling
        },
        speed: if reg.current_speed@ is Some {
            reg.current_speed@.unwrap()
        } else {
            st.speed
        },
        millivolts: if reg.voltage_status@ is Some {
            reg.voltage_status@.unwrap()
        } else {
            st.millivolts
        },
    }
}

/// `before` with the status cells as they are in `after`.
pub open spec fn with_status_of(before: Registry, after: Registry) -> Registry {
    Registry {
        led_status: after.led_status,
        power_status: after.power_status,
        cooling_status: after.cooling_status,
        current_speed: after.current_speed,
        voltage_status: after.voltage_status,
        ..before
    }
}

/// Whether all the status cells are empty.
pub open spec fn status_cells_empty(reg: Registry) -> bool {
    &&& reg.led_status@ is None
    &&& reg.power_status@ is None
    &&& reg.cooling_status@ is None
    &&& reg.current_speed@ is None
    &&& reg.voltage_status@ is None
}

/// Takes every value waiting in the status cells into `status`.
pub fn refresh_status(status: &mut Status, reg: &mut Registry)
    ensures
        *final(status) == refreshed(*old(status), *old(reg)),
        status_cells_empty(*final(reg)),
        *final(reg) == with_status_of(*old(reg), *final(reg)),
{
    if let Some(v) = reg.led_status.try_take() {
        status.led_on = v;
    }
    if let Some(v) = reg.power_status.try_take() {
        status.power = Some(v);
    }
    if let Some(v) = reg.cooling_status.try_take() {
        status.cooling = v;
    }
    if let Some(v) = reg.current_speed.try_take() {
        status.speed = v;
    }
    if let Some(v) = reg.voltage_status.try_take() {
        status.millivolts = v;
    }
}

/// The device that command lines run against: the line buffer and what is
/// known of the other tasks' status.
pub struct MyDevice {
    pub lines: LineAssembler,
    pub status: Status,
}

impl MyDevice {
    /// Empty line buffer, start-up status.
    pub fn new() -> (r: Self)
        ensures
            r.lines@.len() == 0,
            r.status == (Status {
                led_on: false,
                power: None,
                cooling: CoolingState::Off,
                speed: 0,
                millivolts: 0,
            }),
    {
        MyDevice { lines: LineAssembler::new(), status: Status::new() }
    }
}

/// What one received byte led to.
#[derive(Debug, Clone, Copy, PartialEq, Eq, Structural)]
pub enum RxEvent {
    /// Nothing to run yet.
    Pending,
    /// The line buffer was full and has been emptied; the byte was dropped.
    Overflow,
    /// A line was completed and run; the command it selected, if any.
    Dispatched(Option<Request>),
}

/// Handles one byte from the serial reader. The status cells are read first;
/// then the byte goes to the line buffer, and a completed line is run with
/// `dispatch`.
pub fn rx_task(plane: &mut MyDevice, reg: &mut Registry, b: u8) -> (r: RxEvent)
    ensures
        final(plane).status == refreshed(old(plane).status, *old(reg)),
        status_cells_empty(*final(reg)),
        old(plane).lines@.len() >= LINE_CAPACITY ==> r == RxEvent::Overflow && final(plane).lines@.len()
            == 0 && *final(reg) == with_status_of(*old(reg), *final(reg)),
        old(plane).lines@.len() < LINE_CAPACITY && is_terminator(b) && old(plane).lines@.len() == 0
            ==> r == RxEvent::Pending && final(plane).lines@.len() == 0 && *final(reg)
            == with_status_of(*old(reg), *final(reg)),
        old(plane).lines@.len() < LINE_CAPACITY && is_terminator(b) && old(plane).lines@.len() > 0
            ==> r == RxEvent::Dispatched(parse(line_of(old(plane).lines@))) && final(plane).lines@.len()
            == 0 && dispatched(
            with_status_of(*old(reg), *final(reg)),
            *final(reg),
            parse(line_of(old(plane).lines@)),
            final(plane).status,
        ),
        old(plane).lines@.len() < LINE_CAPACITY && !is_terminator(b) ==> r == RxEvent::Pending
            && final(plane).lines@ == old(plane).lines@.push(b) && *final(reg) == with_status_of(
            *old(reg),
            *final(reg),
        ),
{
    refresh_status(&mut plane.status, reg);
    let ghost mid = *reg;
    match plane.lines.push_byte(b) {
        LineEvent::Pending => RxEvent::Pending,
        LineEvent::Overflow => RxEvent::Overflow,
        LineEvent::Line(t) => {
            let p = dispatch(line_as_bytes(&t), &plane.status, reg);
            assert(with_status_of(*old(reg), *reg) == mid);
            RxEvent::Dispatched(p)
        },
    }
}

/// Takes the oldest framed response for the serial writer, if any.
pub fn tx_task(reg: &mut Registry) -> (r: Option<heapless::String<64>>)
    ensures
        old(reg).responses@.len() == 0 ==> r is None && final(reg).responses@ == old(reg).responses@,
        old(reg).responses@.len() > 0 ==> r == Some(old(reg).responses@[0]) && final(reg).responses@
            == old(reg).responses@.drop_first(),
        *final(reg) == (Registry { responses: final(reg).responses, ..*old(reg) }),
{
    reg.responses.try_receive()
}

} // verus!
