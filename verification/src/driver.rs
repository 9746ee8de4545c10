//! The driver: bring-up as a sequence of requests with one decision in it,
//! and the operations of a device that is ready.

use vstd::prelude::*;
use crate::bringup::{
    arm_mask, bring_up, bring_up_plan, setup_keypad_plan, setup_neopixel_plan, soft_reset_plan,
    HW_ID_CODE, PIXEL_BUFFER_LENGTH, PIXEL_PIN, RESET_COMMAND,
};
use crate::color::Color;
use crate::error::Error;
use crate::key::pack;
use crate::register::{
    be16, be_bytes, command_bytes, frame_bytes, read_plan, read_register, write_register,
    write_step, Module, Request, Step, Tier, KEYPAD_COUNT, KEYPAD_EVENT, KEYPAD_FIFO,
    NEOPIXEL_BUF, NEOPIXEL_BUF_LENGTH, NEOPIXEL_PIN, NEOPIXEL_SHOW, STATUS_HW_ID, STATUS_SWRST,
};
use crate::transaction::{Outcome, Reply, Run, Transaction};

verus! {

/// Time the controller needs to latch the pixel buffer to the strip.
pub const SHOW_SETTLE_MS: u32 = 8;

/// The event FIFO is read at most this many slots at a time.
pub const MAX_EVENT_SLOTS: usize = 32;

/// Position of the identity read among the requests of bring-up.
pub const IDENTITY_STEP: usize = 4;

/// Bring-up in progress, as a mathematical value.
pub struct BringUpState {
    pub address: u8,
    pub tier: Tier,
    /// How many requests of bring-up went through.
    pub cursor: nat,
    /// Whether bring-up has failed.
    pub failed: bool,
}

impl BringUpState {
    /// Bring-up of which nothing has been performed yet.
    pub open spec fn start(address: u8, tier: Tier) -> BringUpState {
        BringUpState { address, tier, cursor: 0, failed: false }
    }

    /// The requests of this bring-up.
    pub open spec fn plan(self) -> Seq<Step> {
        bring_up_plan(self.address, self.tier)
    }

    /// The request that the host has to perform now, if any.
    pub open spec fn pending(self) -> Option<Step> {
        if !self.failed && self.cursor < self.plan().len() {
            Some(self.plan()[self.cursor as int])
        } else {
            None
        }
    }

    /// Whether the device is ready: every request went through and the
    /// identity matched.
    pub open spec fn ready(self) -> bool {
        !self.failed && self.cursor >= self.plan().len()
    }

    /// Whether the pending request is the read of the hardware identity.
    pub open spec fn awaits_identity(self) -> bool {
        self.tier == Tier::Independent && self.cursor == IDENTITY_STEP
    }

    /// Whether `outcome` delivers a foreign identity to a bring-up that
    /// waits for the identity.
    pub open spec fn rejects(self, outcome: Outcome) -> bool {
        &&& self.awaits_identity()
        &&& outcome matches Outcome::Data(data) && data != seq![HW_ID_CODE]
    }

    /// The state after the host reported on the pending request. A failed
    /// transfer ends bring-up, and so does a foreign identity; anything else
    /// makes the next request pending.
    pub open spec fn resume(self, outcome: Outcome) -> BringUpState {
        match outcome {
            Outcome::Failed => BringUpState { failed: true, ..self },
            _ => BringUpState {
                cursor: self.cursor + 1,
                failed: self.failed || self.rejects(outcome),
                ..self
            },
        }
    }

    /// The state after the host reported `outcomes`, one after the other.
    pub open spec fn resume_all(self, outcomes: Seq<Outcome>) -> BringUpState
        decreases outcomes.len(),
    {
        if outcomes.len() == 0 {
            self
        } else {
            self.resume(outcomes[0]).resume_all(outcomes.skip(1))
        }
    }

    /// What bring-up reports for a reply: the bus's failure, a wrong
    /// identity, or nothing yet.
    pub open spec fn verdict<W, R>(self, reply: Reply<W, R>) -> Result<(), Error<W, R>> {
        if self.rejects(reply.outcome()) {
            Err(Error::WrongChipId)
        } else {
            reply.verdict()
        }
    }
}

/// A device on its way from power-on to ready.
pub struct BringUp {
    address: u8,
    tier: Tier,
    txn: Transaction,
}

impl View for BringUp {
    type V = BringUpState;

    closed spec fn view(&self) -> BringUpState {
        BringUpState {
            address: self.address,
            tier: self.tier,
            cursor: self.txn@.cursor,
            failed: self.txn@.failed,
        }
    }
}

impl BringUp {
    #[verifier::type_invariant]
    spec fn follows_the_plan(self) -> bool {
        self.txn@.plan == bring_up_plan(self.address, self.tier)
    }

    /// The request that the host has to perform now. `None` once the device
    /// is ready or bring-up has failed.
    pub fn pending(&self) -> (request: Option<&Request>)
        ensures
            request is Some <==> self@.pending() is Some,
            request matches Some(r) ==> self@.pending() == Some(r@),
    {
        proof {
            use_type_invariant(self);
        }
        self.txn.pending()
    }

    /// Takes the host's reply to the pending request. A failed transfer
    /// ends bring-up with the bus's error; an identity other than the
    /// expected one ends it with `WrongChipId`; after either nothing more is
    /// requested.
    pub fn resume<W, R>(&mut self, reply: Reply<W, R>) -> (result: Result<(), Error<W, R>>)
        requires
            old(self)@.pending() is Some,
            reply.answers(old(self)@.pending().unwrap()),
        ensures
            final(self)@ == old(self)@.resume(reply.outcome()),
            result == old(self)@.verdict(reply),
    {
        proof {
            use_type_invariant(&*self);
        }
        let identity_due: bool = matches!(self.tier, Tier::Independent) && self.txn.position()
            == IDENTITY_STEP;
        let result = self.txn.resume(reply);
        if identity_due && result.is_ok() {
            let data = self.txn.data();
            let matched: bool = data.len() == 1 && data[0] == HW_ID_CODE;
            assert(matched <==> data@ =~= seq![HW_ID_CODE]);
            if !matched {
                self.txn.abort();
                return Err(Error::WrongChipId);
            }
        }
        result
    }

    /// Whether the device is ready.
    pub fn is_ready(&self) -> (ready: bool)
        ensures
            ready == self@.ready(),
    {
        proof {
            use_type_invariant(self);
        }
        self.txn.is_complete()
    }

    /// The handle of the device, once it is ready; `None` while requests
    /// are outstanding and after a failure.
    pub fn finish(self) -> (handle: Option<NeoTrellis>)
        ensures
            handle is Some <==> self@.ready(),
            handle matches Some(device) ==> device.address() == self@.address && device.tier()
                == self@.tier,
    {
        proof {
            use_type_invariant(&self);
        }
        if self.txn.is_complete() {
            Some(NeoTrellis { address: self.address, tier: self.tier })
        } else {
            None
        }
    }
}

/// A device that is ready. Every operation on it is one transaction,
/// independent of all others.
pub struct NeoTrellis {
    address: u8,
    tier: Tier,
}

/// Offset of a pixel in the pixel buffer.
pub open spec fn pixel_offset(led: u8) -> u16 {
    (led * 3) as u16
}

/// Writing one pixel: the pixel's offset, high byte first, then its colour
/// as green, red, blue.
pub open spec fn set_led_color_plan(address: u8, led: u8, color: Color) -> Seq<Step> {
    seq![
        write_step(address, Module::Neopixel, NEOPIXEL_BUF, be16(pixel_offset(led)) + color.grb()),
    ]
}

/// Latching the pixel buffer: an empty write to the show register, and
/// where the host can wait, the latch time after it.
pub open spec fn show_led_plan(address: u8, tier: Tier) -> Seq<Step> {
    match tier {
        Tier::Independent => seq![
            write_step(address, Module::Neopixel, NEOPIXEL_SHOW, Seq::empty()),
            Step::Delay { ms: SHOW_SETTLE_MS },
        ],
        Tier::Atomic => seq![write_step(address, Module::Neopixel, NEOPIXEL_SHOW, Seq::empty())],
    }
}

impl NeoTrellis {
    /// The bus address of the device.
    pub closed spec fn spec_address(&self) -> u8 {
        self.address
    }

    /// What the bus of this device can do.
    pub closed spec fn spec_tier(&self) -> Tier {
        self.tier
    }

    /// The bus address of the device.
    #[verifier::when_used_as_spec(spec_address)]
    pub fn address(&self) -> (address: u8)
        ensures
            address == self.spec_address(),
    {
        self.address
    }

    /// What the bus of this device can do.
    #[verifier::when_used_as_spec(spec_tier)]
    pub fn tier(&self) -> (tier: Tier)
        ensures
            tier == self.spec_tier(),
    {
        self.tier
    }

    /// Starts the bring-up of the device at `address`. The handle comes out
    /// of the bring-up when it has gone through.
    pub fn new(address: u8, tier: Tier) -> (bring_up: BringUp)
        ensures
            bring_up@ == BringUpState::start(address, tier),
    {
        BringUp { address, tier, txn: Transaction::new(bring_up(address, tier)) }
    }

    /// The transaction that sets pixel `led` to `color` in the pixel buffer.
    pub fn set_led_color(&self, led: u8, color: Color) -> (txn: Transaction)
        ensures
            txn@ == Run::start(set_led_color_plan(self.address(), led, color)),
    {
        let offset: [u8; 2] = be_bytes((led as u16) * 3);
        let grb: [u8; 3] = color.as_grb_slice();
        let payload: [u8; 5] = [offset[0], offset[1], grb[0], grb[1], grb[2]];
        assert(payload@ =~= be16(pixel_offset(led)) + color.grb());
        let write = write_register(
            self.address,
            Module::Neopixel,
            NEOPIXEL_BUF,
            payload.as_slice(),
        );
        let mut plan: Vec<Request> = Vec::new();
        plan.push(write.unwrap());
        assert(plan.deep_view() =~= set_led_color_plan(self.address(), led, color));
        Transaction::new(plan)
    }

    /// The transaction that latches the pixel buffer to the strip.
    pub fn show_led(&self) -> (txn: Transaction)
        ensures
            txn@ == Run::start(show_led_plan(self.address(), self.tier())),
    {
        let payload: [u8; 0] = [];
        assert(payload@ =~= Seq::<u8>::empty());
        let write = write_register(
            self.address,
            Module::Neopixel,
            NEOPIXEL_SHOW,
            payload.as_slice(),
        );
        let mut plan: Vec<Request> = Vec::new();
        plan.push(write.unwrap());
        match self.tier {
            Tier::Independent => {
                plan.push(Request::Delay { ms: SHOW_SETTLE_MS });
            },
            Tier::Atomic => {},
        }
        assert(plan.deep_view() =~= show_led_plan(self.address(), self.tier()));
        Transaction::new(plan)
    }

    /// The transaction that reads `slots` slots of the event FIFO. What it
    /// delivers is decoded by `KeypadEvent::decode_all`.
    pub fn read_key_events(&self, slots: usize) -> (txn: Transaction)
        requires
            slots <= MAX_EVENT_SLOTS,
            self.tier() == Tier::Independent,
        ensures
            txn@ == Run::start(
                read_plan(self.tier(), self.address(), Module::Keypad, KEYPAD_FIFO, slots as nat),
            ),
    {
        Transaction::new(
            read_register(self.tier, self.address, Module::Keypad, KEYPAD_FIFO, slots),
        )
    }

    /// The transaction that reads the number of pending FIFO entries. What
    /// it delivers is decoded by `count_of`.
    pub fn keypad_count(&self) -> (txn: Transaction)
        requires
            self.tier() == Tier::Independent,
        ensures
            txn@ == Run::start(
                read_plan(self.tier(), self.address(), Module::Keypad, KEYPAD_COUNT, 1),
            ),
    {
        Transaction::new(read_register(self.tier, self.address, Module::Keypad, KEYPAD_COUNT, 1))
    }

    /// The count that a read of the count register delivered.
    pub fn count_of(data: &[u8]) -> (count: u8)
        requires
            data@.len() == 1,
        ensures
            count == data@[0],
    {
        data[0]
    }
}

/// Bring-up over independent transfers opens with the reset write, waits the
/// reset settle time and then reads the identity: the command, the read
/// settle time, the read of one byte. A foreign identity ends bring-up with
/// `WrongChipId`, and nothing more is requested; the expected identity makes
/// the first configuration write pending.
pub proof fn lemma_bring_up_identifies_first<W, R>(address: u8, identity: Reply<W, R>)
    requires
        identity is Data,
    ensures
        ({
            let s0 = BringUpState::start(address, Tier::Independent);
            let s1 = s0.resume(Outcome::Done);
            let s2 = s1.resume(Outcome::Done);
            let s3 = s2.resume(Outcome::Done);
            let s4 = s3.resume(Outcome::Done);
            let s5 = s4.resume(identity.outcome());
            let delivered = identity->Data_0@;
            &&& s0.pending() == Some(Step::Write { address, bytes: seq![0x00u8, 0x7F, 0xFF] })
            &&& s1.pending() == Some(Step::Delay { ms: 500 })
            &&& s2.pending() == Some(Step::Write { address, bytes: seq![0x00u8, 0x01] })
            &&& s3.pending() == Some(Step::Delay { ms: 6 })
            &&& s4.pending() == Some(Step::Read { address, len: 1 })
            &&& delivered != seq![0x55u8] ==> {
                &&& s4.verdict(identity) == Err::<(), Error<W, R>>(Error::WrongChipId)
                &&& s5.pending() is None
                &&& !s5.ready()
            }
            &&& delivered == seq![0x55u8] ==> {
                &&& s4.verdict(identity) == Ok::<(), Error<W, R>>(())
                &&& s5.pending() == Some(
                    Step::Write { address, bytes: seq![0x0Eu8, 0x01, 0x03] },
                )
            }
        }),
{
    let plan = bring_up_plan(address, Tier::Independent);
    assert(plan[0] == soft_reset_plan(address)[0]);
    assert(plan[1] == soft_reset_plan(address)[1]);
    assert(plan[2] == soft_reset_plan(address)[2]);
    assert(plan[3] == soft_reset_plan(address)[3]);
    assert(plan[4] == soft_reset_plan(address)[4]);
    assert(plan[5] == setup_neopixel_plan(address)[0]);
    assert(frame_bytes(Module::Status, STATUS_SWRST, seq![RESET_COMMAND]) =~= seq![
        0x00u8,
        0x7F,
        0xFF,
    ]);
    assert(command_bytes(Module::Status, STATUS_HW_ID) =~= seq![0x00u8, 0x01]);
    assert(frame_bytes(Module::Neopixel, NEOPIXEL_PIN, seq![PIXEL_PIN]) =~= seq![
        0x0Eu8,
        0x01,
        0x03,
    ]);
}

/// What configuration puts on the wire. With independent transfers bring-up
/// has 71 requests: five for reset and identification, the two pixel writes,
/// and four event-mask writes for each of the 16 keys in turn. With combined
/// transfers it is the two pixel writes alone.
pub proof fn lemma_bring_up_configuration(address: u8)
    ensures
        bring_up_plan(address, Tier::Independent).len() == 71,
        bring_up_plan(address, Tier::Independent)[5] == (Step::Write {
            address,
            bytes: seq![0x0Eu8, 0x01, 0x03],
        }),
        bring_up_plan(address, Tier::Independent)[6] == (Step::Write {
            address,
            bytes: seq![0x0Eu8, 0x03, 0x00, 0x30],
        }),
        forall|key: int, slot: int|
            0 <= key < 16 && 0 <= slot < 4 ==> #[trigger] bring_up_plan(
                address,
                Tier::Independent,
            )[7 + 4 * key + slot] == (Step::Write {
                address,
                bytes: seq![0x10u8, 0x01, pack(key as u8), arm_mask(slot)],
            }),
        bring_up_plan(address, Tier::Atomic) == seq![
            Step::Write { address, bytes: seq![0x0Eu8, 0x01, 0x03] },
            Step::Write { address, bytes: seq![0x0Eu8, 0x03, 0x00, 0x30] },
        ],
{
    let plan = bring_up_plan(address, Tier::Independent);
    assert(plan[5] == setup_neopixel_plan(address)[0]);
    assert(plan[6] == setup_neopixel_plan(address)[1]);
    assert(frame_bytes(Module::Neopixel, NEOPIXEL_PIN, seq![PIXEL_PIN]) =~= seq![
        0x0Eu8,
        0x01,
        0x03,
    ]);
    assert(frame_bytes(Module::Neopixel, NEOPIXEL_BUF_LENGTH, be16(PIXEL_BUFFER_LENGTH)) =~= seq![
        0x0Eu8,
        0x03,
        0x00,
        0x30,
    ]);
    assert forall|key: int, slot: int| 0 <= key < 16 && 0 <= slot < 4 implies #[trigger] plan[7 + 4
        * key + slot] == (Step::Write {
        address,
        bytes: seq![0x10u8, 0x01, pack(key as u8), arm_mask(slot)],
    }) by {
        let i = 4 * key + slot;
        assert(plan[7 + i] == setup_keypad_plan(address)[i]);
        assert(i / 4 == key && i % 4 == slot);
        assert(frame_bytes(
            Module::Keypad,
            KEYPAD_EVENT,
            seq![pack(key as u8), arm_mask(slot)],
        ) =~= seq![0x10u8, 0x01, pack(key as u8), arm_mask(slot)]);
    }
    assert(bring_up_plan(address, Tier::Atomic) =~= seq![
        Step::Write { address, bytes: seq![0x0Eu8, 0x01, 0x03] },
        Step::Write { address, bytes: seq![0x0Eu8, 0x03, 0x00, 0x30] },
    ]);
}

/// Bring-up goes through when every transfer does and the device reports
/// the expected identity: after as many such replies as bring-up has
/// requests the device is ready.
pub proof fn lemma_bring_up_goes_through(address: u8, tier: Tier, outcomes: Seq<Outcome>)
    requires
        outcomes.len() == bring_up_plan(address, tier).len(),
        forall|i: int| 0 <= i < outcomes.len() ==> !(outcomes[i] is Failed),
        tier == Tier::Independent ==> outcomes[IDENTITY_STEP as int] == Outcome::Data(
            seq![HW_ID_CODE],
        ),
    ensures
        BringUpState::start(address, tier).resume_all(outcomes).ready(),
{
    lemma_bring_up_configuration(address);
    lemma_accepted_replies_advance(BringUpState::start(address, tier), outcomes);
}

/// Every request of bring-up has to go through: the device is not ready
/// after fewer replies than bring-up has requests, and one failed transfer
/// among them leaves it failed for good.
pub proof fn lemma_ready_takes_every_request(
    address: u8,
    tier: Tier,
    outcomes: Seq<Outcome>,
    failure: int,
)
    ensures
        outcomes.len() < bring_up_plan(address, tier).len() ==> !BringUpState::start(
            address,
            tier,
        ).resume_all(outcomes).ready(),
        0 <= failure < outcomes.len() && outcomes[failure] is Failed ==> !BringUpState::start(
            address,
            tier,
        ).resume_all(outcomes).ready(),
{
    let start = BringUpState::start(address, tier);
    lemma_replies_advance_by_one(start, outcomes);
    if 0 <= failure < outcomes.len() && outcomes[failure] is Failed {
        lemma_failure_sticks(start, outcomes, failure);
    }
}

/// Bring-up that has failed stays failed: whatever is reported afterwards,
/// nothing is pending and the device does not become ready.
pub proof fn lemma_failed_bring_up_is_final(state: BringUpState, outcomes: Seq<Outcome>)
    requires
        state.failed,
    ensures
        state.resume_all(outcomes).failed,
        state.resume_all(outcomes).pending() is None,
        !state.resume_all(outcomes).ready(),
    decreases outcomes.len(),
{
    if outcomes.len() > 0 {
        lemma_failed_bring_up_is_final(state.resume(outcomes[0]), outcomes.skip(1));
    }
}

/// Nothing is asked of a bus that it cannot do: bring-up and every operation
/// of a ready device keep to what the device's kind of bus performs. A bus
/// with combined transfers is never asked to wait or to read alone, and a
/// bus with independent transfers is never asked for a combined transfer.
pub proof fn lemma_requests_fit_the_bus(address: u8, tier: Tier, led: u8, color: Color, len: nat)
    ensures
        tier.serves_all(bring_up_plan(address, tier)),
        tier.serves_all(set_led_color_plan(address, led, color)),
        tier.serves_all(show_led_plan(address, tier)),
        tier.serves_all(read_plan(tier, address, Module::Keypad, KEYPAD_FIFO, len)),
        tier.serves_all(read_plan(tier, address, Module::Keypad, KEYPAD_COUNT, 1)),
{
    let plan = bring_up_plan(address, tier);
    assert forall|i: int| 0 <= i < plan.len() implies tier.serves(#[trigger] plan[i]) by {
        if tier == Tier::Independent {
            if i < 5 {
                assert(plan[i] == soft_reset_plan(address)[i]);
            } else if i < 7 {
                assert(plan[i] == setup_neopixel_plan(address)[i - 5]);
            } else {
                assert(plan[i] == setup_keypad_plan(address)[i - 7]);
            }
        }
    }
}

/// What the operations of a ready device put on the wire: a pixel write of
/// seven bytes, the two-byte show command, and reads that name the FIFO and
/// the count register of the keypad.
pub proof fn lemma_operations_on_the_wire(address: u8, tier: Tier, led: u8, color: Color)
    ensures
        set_led_color_plan(address, led, color) == seq![
            Step::Write {
                address,
                bytes: seq![
                    0x0Eu8,
                    0x04,
                    ((led * 3) / 256) as u8,
                    ((led * 3) % 256) as u8,
                    color.g,
                    color.r,
                    color.b,
                ],
            },
        ],
        show_led_plan(address, tier)[0] == (Step::Write { address, bytes: seq![0x0Eu8, 0x05] }),
        tier == Tier::Independent ==> show_led_plan(address, tier).len() == 2 && show_led_plan(
            address,
            tier,
        )[1] == (Step::Delay { ms: 8 }),
        tier == Tier::Atomic ==> show_led_plan(address, tier).len() == 1,
        command_bytes(Module::Keypad, KEYPAD_FIFO) == seq![0x10u8, 0x10],
        command_bytes(Module::Keypad, KEYPAD_COUNT) == seq![0x10u8, 0x04],
{
    assert(frame_bytes(Module::Neopixel, NEOPIXEL_BUF, be16(pixel_offset(led)) + color.grb())
        =~= seq![
        0x0Eu8,
        0x04,
        ((led * 3) / 256) as u8,
        ((led * 3) % 256) as u8,
        color.g,
        color.r,
        color.b,
    ]);
    assert(frame_bytes(Module::Neopixel, NEOPIXEL_SHOW, Seq::empty()) =~= seq![0x0Eu8, 0x05]);
}

proof fn lemma_replies_advance_by_one(state: BringUpState, outcomes: Seq<Outcome>)
    ensures
        state.resume_all(outcomes).cursor <= state.cursor + outcomes.len(),
        state.resume_all(outcomes).address == state.address,
        state.resume_all(outcomes).tier == state.tier,
    decreases outcomes.len(),
{
    if outcomes.len() > 0 {
        lemma_replies_advance_by_one(state.resume(outcomes[0]), outcomes.skip(1));
    }
}

proof fn lemma_failure_sticks(state: BringUpState, outcomes: Seq<Outcome>, failure: int)
    requires
        0 <= failure < outcomes.len(),
        outcomes[failure] is Failed,
    ensures
        state.resume_all(outcomes).failed,
    decreases outcomes.len(),
{
    let next = state.resume(outcomes[0]);
    let rest = outcomes.skip(1);
    if failure == 0 {
        lemma_failed_bring_up_is_final(next, rest);
    } else {
        assert(rest[failure - 1] == outcomes[failure]);
        lemma_failure_sticks(next, rest, failure - 1);
    }
}

proof fn lemma_accepted_replies_advance(state: BringUpState, outcomes: Seq<Outcome>)
    requires
        !state.failed,
        forall|i: int| 0 <= i < outcomes.len() ==> !(outcomes[i] is Failed),
        forall|i: int|
            0 <= i < outcomes.len() && state.tier == Tier::Independent && state.cursor + i
                == IDENTITY_STEP ==> outcomes[i] == Outcome::Data(seq![HW_ID_CODE]),
    ensures
        state.resume_all(outcomes) == (BringUpState {
            cursor: state.cursor + outcomes.len(),
            ..state
        }),
    decreases outcomes.len(),
{
    if outcomes.len() > 0 {
        let next = state.resume(outcomes[0]);
        let rest = outcomes.skip(1);
        assert(!state.rejects(outcomes[0]));
        assert forall|i: int| 0 <= i < rest.len() implies !(rest[i] is Failed) by {
            assert(rest[i] == outcomes[i + 1]);
        }
        assert forall|i: int|
            0 <= i < rest.len() && next.tier == Tier::Independent && next.cursor + i
                == IDENTITY_STEP implies rest[i] == Outcome::Data(seq![HW_ID_CODE]) by {
            assert(rest[i] == outcomes[i + 1]);
        }
        lemma_accepted_replies_advance(next, rest);
    }
}

} // verus!
