//! The register protocol: how an operation on a (module, register) pair of
//! the controller becomes bytes and transfers on the bus.
//!
//! A write is one transfer that carries the module, the register and the
//! payload. A read names the module and register in a write and then fetches
//! the answer, either in a second transfer after a settle delay or in one
//! combined write-then-read transfer.

use vstd::prelude::*;

verus! {

/// A write frame carries fewer payload bytes than this.
pub const MAX_PAYLOAD: usize = 32;

/// Room for the longest frame: module, register and payload.
pub const FRAME_CAPACITY: usize = 34;

/// Time the controller needs between the command of a read and the read.
pub const READ_SETTLE_MS: u32 = 6;

/// Status module: hardware identity.
pub const STATUS_HW_ID: u8 = 0x01;

/// Status module: software reset.
pub const STATUS_SWRST: u8 = 0x7F;

/// Pixel module: output pin.
pub const NEOPIXEL_PIN: u8 = 0x01;

/// Pixel module: length of the pixel buffer in bytes.
pub const NEOPIXEL_BUF_LENGTH: u8 = 0x03;

/// Pixel module: the pixel buffer.
pub const NEOPIXEL_BUF: u8 = 0x04;

/// Pixel module: latch the buffer to the strip.
pub const NEOPIXEL_SHOW: u8 = 0x05;

/// Keypad module: event mask of a key.
pub const KEYPAD_EVENT: u8 = 0x01;

/// Keypad module: number of pending FIFO entries.
pub const KEYPAD_COUNT: u8 = 0x04;

/// Keypad module: the event FIFO.
pub const KEYPAD_FIFO: u8 = 0x10;

/// A group of registers of the controller.
#[derive(Clone, Copy, Debug, PartialEq, Eq)]
pub enum Module {
    Status,
    Neopixel,
    Keypad,
}

impl Module {
    /// The module's number on the wire.
    pub open spec fn spec_id(self) -> u8 {
        match self {
            Module::Status => 0x00,
            Module::Neopixel => 0x0E,
            Module::Keypad => 0x10,
        }
    }

    /// The module's number on the wire.
    #[verifier::when_used_as_spec(spec_id)]
    pub fn id(self) -> (id: u8)
        ensures
            id == self.spec_id(),
    {
        match self {
            Module::Status => 0x00,
            Module::Neopixel => 0x0E,
            Module::Keypad => 0x10,
        }
    }
}

/// What the bus can do.
#[derive(Clone, Copy, Debug, PartialEq, Eq)]
pub enum Tier {
    /// Writes and reads are separate transfers, and the host can wait. The
    /// controller is reset and identified at bring-up and the keypad is
    /// available.
    Independent,
    /// A read is one combined write-then-read transfer and needs no wait.
    /// Only the pixels are available.
    Atomic,
}

impl Tier {
    /// Whether a bus of this kind can perform `step`. Either kind writes.
    /// A bus with independent transfers also reads and waits; a bus with
    /// combined transfers also writes and reads in one.
    pub open spec fn serves(self, step: Step) -> bool {
        match self {
            Tier::Independent => !(step is WriteRead),
            Tier::Atomic => step is Write || step is WriteRead,
        }
    }

    /// Whether a bus of this kind can perform every step of `plan`.
    pub open spec fn serves_all(self, plan: Seq<Step>) -> bool {
        forall|i: int| 0 <= i < plan.len() ==> self.serves(#[trigger] plan[i])
    }
}

/// One thing that the host does for the driver.
#[derive(Debug, PartialEq, Eq)]
pub enum Request {
    /// Write `bytes` to the device at `address`, in one transfer.
    Write { address: u8, bytes: Vec<u8> },
    /// Read `len` bytes from the device at `address`.
    Read { address: u8, len: usize },
    /// Write `bytes` to the device at `address` and read `len` bytes back,
    /// in one transfer.
    WriteRead { address: u8, bytes: Vec<u8>, len: usize },
    /// Block for `ms` milliseconds.
    Delay { ms: u32 },
}

/// A `Request` as a mathematical value.
pub enum Step {
    Write { address: u8, bytes: Seq<u8> },
    Read { address: u8, len: nat },
    WriteRead { address: u8, bytes: Seq<u8>, len: nat },
    Delay { ms: u32 },
}

impl View for Request {
    type V = Step;

    open spec fn view(&self) -> Step {
        match *self {
            Request::Write { address, bytes } => Step::Write { address, bytes: bytes@ },
            Request::Read { address, len } => Step::Read { address, len: len as nat },
            Request::WriteRead { address, bytes, len } => Step::WriteRead {
                address,
                bytes: bytes@,
                len: len as nat,
            },
            Request::Delay { ms } => Step::Delay { ms },
        }
    }
}

impl DeepView for Request {
    type V = Step;

    open spec fn deep_view(&self) -> Step {
        self@
    }
}

/// The two bytes that name a register.
pub open spec fn command_bytes(module: Module, register: u8) -> Seq<u8> {
    seq![module.id(), register]
}

/// The bytes of a write: module, register, then the payload unchanged.
pub open spec fn frame_bytes(module: Module, register: u8, payload: Seq<u8>) -> Seq<u8> {
    command_bytes(module, register) + payload
}

/// A register write: one transfer that carries the whole frame.
pub open spec fn write_step(address: u8, module: Module, register: u8, payload: Seq<u8>) -> Step {
    Step::Write { address, bytes: frame_bytes(module, register, payload) }
}

/// A 16-bit value as it travels: high byte first.
pub open spec fn be16(value: u16) -> Seq<u8> {
    seq![(value / 256) as u8, (value % 256) as u8]
}

/// The transfers of a register read of `len` bytes.
pub open spec fn read_plan(tier: Tier, address: u8, module: Module, register: u8, len: nat) -> Seq<
    Step,
> {
    match tier {
        Tier::Independent => seq![
            Step::Write { address, bytes: command_bytes(module, register) },
            Step::Delay { ms: READ_SETTLE_MS },
            Step::Read { address, len },
        ],
        Tier::Atomic => seq![
            Step::WriteRead { address, bytes: command_bytes(module, register), len },
        ],
    }
}

/// The two bytes of a 16-bit value, high byte first.
pub fn be_bytes(value: u16) -> (bytes: [u8; 2])
    ensures
        bytes@ == be16(value),
{
    let high: u8 = (value >> 8) as u8;
    let low: u8 = (value & 0xFF) as u8;
    assert(high == value / 256 && low == value % 256) by (bit_vector)
        requires
            high == (value >> 8) as u8,
            low == (value & 0xFF) as u8,
    ;
    let bytes: [u8; 2] = [high, low];
    assert(bytes@ =~= be16(value));
    bytes
}

/// The two bytes that name a register.
pub fn read_command(module: Module, register: u8) -> (bytes: Vec<u8>)
    ensures
        bytes@ == command_bytes(module, register),
{
    let mut bytes: Vec<u8> = Vec::with_capacity(2);
    bytes.push(module.id());
    bytes.push(register);
    assert(bytes@ =~= command_bytes(module, register));
    bytes
}

/// Builds the frame of a register write. A payload of `MAX_PAYLOAD` bytes or
/// more does not fit the controller's buffer: it is refused and no frame is
/// built.
pub fn write_frame(module: Module, register: u8, payload: &[u8]) -> (frame: Option<Vec<u8>>)
    ensures
        frame is Some <==> payload@.len() < MAX_PAYLOAD,
        frame matches Some(bytes) ==> bytes@ == frame_bytes(module, register, payload@),
{
    if payload.len() >= MAX_PAYLOAD {
        return None;
    }
    let mut frame: Vec<u8> = Vec::with_capacity(FRAME_CAPACITY);
    frame.push(module.id());
    frame.push(register);
    let mut i: usize = 0;
    while i < payload.len()
        invariant
            i <= payload@.len(),
            frame@ == command_bytes(module, register) + payload@.take(i as int),
        decreases payload@.len() - i,
    {
        frame.push(payload[i]);
        i += 1;
        assert(frame@ =~= command_bytes(module, register) + payload@.take(i as int));
    }
    assert(payload@.take(i as int) =~= payload@);
    Some(frame)
}

/// The request that writes `payload` to a register of the device at
/// `address`: one write of the frame. A payload that does not fit a frame is
/// refused, and nothing is requested of the bus.
pub fn write_register(address: u8, module: Module, register: u8, payload: &[u8]) -> (request:
    Option<Request>)
    ensures
        request is Some <==> payload@.len() < MAX_PAYLOAD,
        request matches Some(write) ==> write@ == write_step(address, module, register, payload@),
{
    match write_frame(module, register, payload) {
        Some(bytes) => Some(Request::Write { address, bytes }),
        None => None,
    }
}

/// The requests that read `len` bytes from a register of the device at
/// `address`, in the order in which the host performs them.
pub fn read_register(tier: Tier, address: u8, module: Module, register: u8, len: usize) -> (plan:
    Vec<Request>)
    ensures
        plan.deep_view() == read_plan(tier, address, module, register, len as nat),
{
    let mut plan: Vec<Request> = Vec::new();
    match tier {
        Tier::Independent => {
            plan.push(Request::Write { address, bytes: read_command(module, register) });
            plan.push(Request::Delay { ms: READ_SETTLE_MS });
            plan.push(Request::Read { address, len });
        },
        Tier::Atomic => {
            plan.push(Request::WriteRead { address, bytes: read_command(module, register), len });
        },
    }
    assert(plan.deep_view() =~= read_plan(tier, address, module, register, len as nat));
    plan
}

/// Reading a register comes to the same on either kind of bus: the same two
/// bytes name the register and the same number of bytes is read. A bus with
/// combined transfers does it in one transfer and waits for nothing; a bus
/// with independent transfers waits the settle time between the command and
/// the read.
pub proof fn lemma_read_waits_only_between_transfers(
    address: u8,
    module: Module,
    register: u8,
    len: nat,
)
    ensures
        Tier::Atomic.serves_all(read_plan(Tier::Atomic, address, module, register, len)),
        Tier::Independent.serves_all(read_plan(Tier::Independent, address, module, register, len)),
        read_plan(Tier::Atomic, address, module, register, len) == seq![
            Step::WriteRead { address, bytes: seq![module.id(), register], len },
        ],
        forall|i: int|
            0 <= i < read_plan(Tier::Atomic, address, module, register, len).len() ==> !(read_plan(
                Tier::Atomic,
                address,
                module,
                register,
                len,
            )[i] is Delay),
        read_plan(Tier::Independent, address, module, register, len) == seq![
            Step::Write { address, bytes: seq![module.id(), register] },
            Step::Delay { ms: 6 },
            Step::Read { address, len },
        ],
{
}

} // verus!
