use vstd::prelude::*;

verus! {

// Bits of the machine's native joystick register, one per physical control.
pub const JOY_UP: u8 = 0x80;
pub const JOY_DOWN: u8 = 0x40;
pub const JOY_LEFT: u8 = 0x20;
pub const JOY_RIGHT: u8 = 0x10;
pub const JOY_OPTION_1: u8 = 0x08;
pub const JOY_OPTION_2: u8 = 0x04;
pub const JOY_INSIDE: u8 = 0x02;
pub const JOY_OUTSIDE: u8 = 0x01;

/// Bit of the machine's switch register that carries the pause control.
/// The other switch bits (cartridge strobes) are never touched by polling.
pub const SWITCH_PAUSE: u8 = 0x01;

/// One host-side reading of the fixed logical controller layout: directional
/// pad, two option buttons, two action buttons, and the system pause control.
#[derive(Clone, Copy, PartialEq, Eq, Structural, Debug)]
pub struct HostButtons {
    pub up: bool,
    pub down: bool,
    pub left: bool,
    pub right: bool,
    pub option_1: bool,
    pub option_2: bool,
    pub inside: bool,
    pub outside: bool,
    pub pause: bool,
}

/// The joystick register rebuilt from one host reading: every button bit is
/// derived from the reading alone, under the fixed no-rotation mapping table.
pub open spec fn spec_joystick_bits(b: HostButtons) -> u8 {
    (if b.up { JOY_UP } else { 0 })
        | (if b.down { JOY_DOWN } else { 0 })
        | (if b.left { JOY_LEFT } else { 0 })
        | (if b.right { JOY_RIGHT } else { 0 })
        | (if b.option_1 { JOY_OPTION_1 } else { 0 })
        | (if b.option_2 { JOY_OPTION_2 } else { 0 })
        | (if b.inside { JOY_INSIDE } else { 0 })
        | (if b.outside { JOY_OUTSIDE } else { 0 })
}

/// The switch register after one host reading: only the pause bit follows the
/// host, the remaining bits keep their current value.
pub open spec fn spec_switches_after(cur: u8, pause: bool) -> u8 {
    if pause {
        cur | SWITCH_PAUSE
    } else {
        cur & (!SWITCH_PAUSE)
    }
}

/// Both input registers after one poll rebuilt them from a host reading.
pub open spec fn spec_registers_after(b: HostButtons, cur_joystick: u8, cur_switches: u8) -> (u8, u8) {
    (spec_joystick_bits(b), spec_switches_after(cur_switches, b.pause))
}

pub fn joystick_bits(b: &HostButtons) -> (r: u8)
    ensures
        r == spec_joystick_bits(*b),
{
    (if b.up { JOY_UP } else { 0 })
        | (if b.down { JOY_DOWN } else { 0 })
        | (if b.left { JOY_LEFT } else { 0 })
        | (if b.right { JOY_RIGHT } else { 0 })
        | (if b.option_1 { JOY_OPTION_1 } else { 0 })
        | (if b.option_2 { JOY_OPTION_2 } else { 0 })
        | (if b.inside { JOY_INSIDE } else { 0 })
        | (if b.outside { JOY_OUTSIDE } else { 0 })
}

pub fn switches_after(cur: u8, pause: bool) -> (r: u8)
    ensures
        r == spec_switches_after(cur, pause),
{
    if pause {
        cur | SWITCH_PAUSE
    } else {
        cur & (!SWITCH_PAUSE)
    }
}

/// What one poll writes back into the engine: a register value where the
/// rebuilt value differs from the pre-poll snapshot, nothing where it is
/// identical (bit-for-bit), so that an unchanged poll has no engine-side
/// side effect.
pub struct InputWrites {
    pub joystick: Option<u8>,
    pub switches: Option<u8>,
}

pub fn poll_decision(pressed: &HostButtons, cur_joystick: u8, cur_switches: u8) -> (w: InputWrites)
    ensures
        w.joystick == (if spec_joystick_bits(*pressed) != cur_joystick {
            Some(spec_joystick_bits(*pressed))
        } else {
            None::<u8>
        }),
        w.switches == (if spec_switches_after(cur_switches, pressed.pause) != cur_switches {
            Some(spec_switches_after(cur_switches, pressed.pause))
        } else {
            None::<u8>
        }),
{
    let j = joystick_bits(pressed);
    let s = switches_after(cur_switches, pressed.pause);
    InputWrites {
        joystick: if j != cur_joystick { Some(j) } else { None },
        switches: if s != cur_switches { Some(s) } else { None },
    }
}

/// Polling is idempotent within one frame: after the registers took the values
/// of one poll, a second poll with an unchanged host reading rebuilds those
/// very values, so it writes nothing back into the engine.
pub proof fn lemma_second_poll_writes_nothing(pressed: HostButtons, cur_joystick: u8, cur_switches: u8)
    ensures
        ({
            let (j, s) = spec_registers_after(pressed, cur_joystick, cur_switches);
            spec_registers_after(pressed, j, s) == (j, s)
        }),
{
    let s = cur_switches;
    assert((s | SWITCH_PAUSE) | SWITCH_PAUSE == s | SWITCH_PAUSE) by (bit_vector);
    assert((s & (!SWITCH_PAUSE)) & (!SWITCH_PAUSE) == s & (!SWITCH_PAUSE)) by (bit_vector);
}

} // verus!
