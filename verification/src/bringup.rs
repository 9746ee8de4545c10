//! Bring-up: the requests that take the controller from power-on to a
//! configured pixel strip and an armed keypad.

use vstd::prelude::*;
use crate::key::{pack, Key, KEY_COUNT};
use crate::register::{
    be16, be_bytes, read_plan, read_register, write_register, write_step, Module, Request, Step,
    Tier, KEYPAD_EVENT, NEOPIXEL_BUF_LENGTH, NEOPIXEL_PIN, STATUS_HW_ID, STATUS_SWRST,
};

verus! {

/// The identity that the controller reports of itself.
pub const HW_ID_CODE: u8 = 0x55;

/// Written to the reset register, this restarts the controller.
pub const RESET_COMMAND: u8 = 0xFF;

/// Time the controller needs after a reset before it answers.
pub const RESET_SETTLE_MS: u32 = 500;

/// The controller's pin that drives the pixel strip.
pub const PIXEL_PIN: u8 = 3;

/// Bytes in the pixel buffer: 16 pixels of three channels.
pub const PIXEL_BUFFER_LENGTH: u16 = 48;

/// Event masks armed for every key.
pub const ARM_MASKS: usize = 4;

/// The `slot`-th event mask that bring-up arms for a key.
pub open spec fn arm_mask(slot: int) -> u8 {
    if slot == 0 {
        0x02
    } else if slot == 1 {
        0x04
    } else if slot == 2 {
        0x09
    } else {
        0x11
    }
}

/// The write that arms one event mask of one key.
pub open spec fn arm_step(address: u8, key: u8, slot: int) -> Step {
    write_step(address, Module::Keypad, KEYPAD_EVENT, seq![pack(key), arm_mask(slot)])
}

/// Reset and identification: the reset command, the reset settle time, then
/// a read of the one-byte hardware identity.
pub open spec fn soft_reset_plan(address: u8) -> Seq<Step> {
    seq![
        write_step(address, Module::Status, STATUS_SWRST, seq![RESET_COMMAND]),
        Step::Delay { ms: RESET_SETTLE_MS },
    ] + read_plan(Tier::Independent, address, Module::Status, STATUS_HW_ID, 1)
}

/// Pixel configuration: the output pin, then the buffer length, high byte
/// first.
pub open spec fn setup_neopixel_plan(address: u8) -> Seq<Step> {
    seq![
        write_step(address, Module::Neopixel, NEOPIXEL_PIN, seq![PIXEL_PIN]),
        write_step(address, Module::Neopixel, NEOPIXEL_BUF_LENGTH, be16(PIXEL_BUFFER_LENGTH)),
    ]
}

/// Keypad configuration: for each of the 16 keys in turn, one write per
/// event mask.
pub open spec fn setup_keypad_plan(address: u8) -> Seq<Step> {
    Seq::new(
        (KEY_COUNT * ARM_MASKS) as nat,
        |i: int| arm_step(address, (i / ARM_MASKS as int) as u8, i % ARM_MASKS as int),
    )
}

/// Everything bring-up asks of the host. With independent transfers the
/// controller is reset and identified, then pixels and keypad are set up;
/// with combined transfers only the pixels are set up.
pub open spec fn bring_up_plan(address: u8, tier: Tier) -> Seq<Step> {
    match tier {
        Tier::Independent => soft_reset_plan(address) + setup_neopixel_plan(address)
            + setup_keypad_plan(address),
        Tier::Atomic => setup_neopixel_plan(address),
    }
}

/// The requests that reset the controller and read its identity.
pub fn soft_reset(address: u8) -> (plan: Vec<Request>)
    ensures
        plan.deep_view() == soft_reset_plan(address),
{
    let command: [u8; 1] = [RESET_COMMAND];
    let reset = write_register(address, Module::Status, STATUS_SWRST, command.as_slice());
    let mut plan: Vec<Request> = Vec::new();
    plan.push(reset.unwrap());
    plan.push(Request::Delay { ms: RESET_SETTLE_MS });
    let mut identity = read_register(Tier::Independent, address, Module::Status, STATUS_HW_ID, 1);
    plan.append(&mut identity);
    assert(command@ =~= seq![RESET_COMMAND]);
    assert(plan.deep_view() =~= soft_reset_plan(address));
    plan
}

/// The requests that configure the pixel strip.
pub fn setup_neopixel(address: u8) -> (plan: Vec<Request>)
    ensures
        plan.deep_view() == setup_neopixel_plan(address),
{
    let pin: [u8; 1] = [PIXEL_PIN];
    let length: [u8; 2] = be_bytes(PIXEL_BUFFER_LENGTH);
    let set_pin = write_register(address, Module::Neopixel, NEOPIXEL_PIN, pin.as_slice());
    let set_length = write_register(
        address,
        Module::Neopixel,
        NEOPIXEL_BUF_LENGTH,
        length.as_slice(),
    );
    let mut plan: Vec<Request> = Vec::new();
    plan.push(set_pin.unwrap());
    plan.push(set_length.unwrap());
    assert(pin@ =~= seq![PIXEL_PIN]);
    assert(plan.deep_view() =~= setup_neopixel_plan(address));
    plan
}

/// The event mask that bring-up arms in position `slot` of a key's four.
fn mask_at(slot: usize) -> (mask: u8)
    ensures
        mask == arm_mask(slot as int),
{
    if slot == 0 {
        0x02
    } else if slot == 1 {
        0x04
    } else if slot == 2 {
        0x09
    } else {
        0x11
    }
}

/// The requests that arm the event masks of all keys.
pub fn setup_keypad(address: u8) -> (plan: Vec<Request>)
    ensures
        plan.deep_view() == setup_keypad_plan(address),
{
    let mut plan: Vec<Request> = Vec::new();
    let mut key: u8 = 0;
    while key < KEY_COUNT
        invariant
            key <= KEY_COUNT,
            plan@.len() == key * ARM_MASKS,
            forall|i: int|
                0 <= i < plan@.len() ==> plan@[i]@ == arm_step(
                    address,
                    (i / ARM_MASKS as int) as u8,
                    i % ARM_MASKS as int,
                ),
        decreases KEY_COUNT - key,
    {
        let keycode: u8 = Key::from_index(key).serialize();
        let mut slot: usize = 0;
        while slot < ARM_MASKS
            invariant
                key < KEY_COUNT,
                slot <= ARM_MASKS,
                keycode == pack(key),
                plan@.len() == key * ARM_MASKS + slot,
                forall|i: int|
                    0 <= i < plan@.len() ==> plan@[i]@ == arm_step(
                        address,
                        (i / ARM_MASKS as int) as u8,
                        i % ARM_MASKS as int,
                    ),
            decreases ARM_MASKS - slot,
        {
            let payload: [u8; 2] = [keycode, mask_at(slot)];
            assert(payload@ =~= seq![pack(key), arm_mask(slot as int)]);
            let arm = write_register(address, Module::Keypad, KEYPAD_EVENT, payload.as_slice());
            plan.push(arm.unwrap());
            slot += 1;
        }
        key += 1;
    }
    assert(plan.deep_view() =~= setup_keypad_plan(address));
    plan
}

/// All requests of bring-up, in the order in which they are made.
pub fn bring_up(address: u8, tier: Tier) -> (plan: Vec<Request>)
    ensures
        plan.deep_view() == bring_up_plan(address, tier),
{
    match tier {
        Tier::Independent => {
            let mut plan = soft_reset(address);
            let mut pixels = setup_neopixel(address);
            let mut keypad = setup_keypad(address);
            plan.append(&mut pixels);
            plan.append(&mut keypad);
            assert(plan.deep_view() =~= bring_up_plan(address, tier));
            plan
        },
        Tier::Atomic => setup_neopixel(address),
    }
}

} // verus!
