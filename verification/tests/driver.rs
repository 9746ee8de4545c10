use neotrellis::bringup::{bring_up, setup_keypad, setup_neopixel, soft_reset};
use neotrellis::register::{Request, Tier};
use neotrellis::transaction::{Reply, Transaction};
use neotrellis::{BringUp, Color, Error, Event, Key, KeypadEvent, NeoTrellis};

const ADDRESS: u8 = 0x2E;

/// What a host did, in the order in which it did it.
#[derive(Debug, PartialEq, Eq)]
enum Did {
    Write(u8, Vec<u8>),
    Read(u8, usize),
    WriteRead(u8, Vec<u8>, usize),
    Delay(u32),
}

/// A host with a scripted device behind it.
struct Host {
    log: Vec<Did>,
    /// What every read delivers, cut or padded with the empty marker.
    read_data: Vec<u8>,
    /// Number of the transfer that fails, counted from zero over writes and reads.
    fail_at: Option<usize>,
    transfers: usize,
}

impl Host {
    fn new(read_data: &[u8]) -> Host {
        Host { log: Vec::new(), read_data: read_data.to_vec(), fail_at: None, transfers: 0 }
    }

    fn failing_at(read_data: &[u8], transfer: usize) -> Host {
        Host { fail_at: Some(transfer), ..Host::new(read_data) }
    }

    fn deliver(&self, len: usize) -> Vec<u8> {
        let mut data = self.read_data.clone();
        data.resize(len, 0xFF);
        data
    }

    fn perform(&mut self, request: &Request) -> Reply<&'static str, &'static str> {
        let fails = match request {
            Request::Delay { .. } => false,
            _ => {
                self.transfers += 1;
                self.fail_at == Some(self.transfers - 1)
            }
        };
        match request {
            Request::Write { address, bytes } => {
                self.log.push(Did::Write(*address, bytes.clone()));
                if fails {
                    Reply::WriteFailed("write refused")
                } else {
                    Reply::Done
                }
            }
            Request::Read { address, len } => {
                self.log.push(Did::Read(*address, *len));
                if fails {
                    Reply::ReadFailed("read refused")
                } else {
                    Reply::Data(self.deliver(*len))
                }
            }
            Request::WriteRead { address, bytes, len } => {
                self.log.push(Did::WriteRead(*address, bytes.clone(), *len));
                if fails {
                    Reply::ReadFailed("read refused")
                } else {
                    Reply::Data(self.deliver(*len))
                }
            }
            Request::Delay { ms } => {
                self.log.push(Did::Delay(*ms));
                Reply::Done
            }
        }
    }

    fn bring_up(&mut self, tier: Tier) -> Result<NeoTrellis, Error<&'static str, &'static str>> {
        let mut bring_up: BringUp = NeoTrellis::new(ADDRESS, tier);
        loop {
            let reply = match bring_up.pending() {
                Some(request) => self.perform(request),
                None => break,
            };
            bring_up.resume(reply)?;
        }
        assert!(bring_up.is_ready());
        Ok(bring_up.finish().expect("a ready device has a handle"))
    }

    fn run(&mut self, mut txn: Transaction) -> Result<Vec<u8>, Error<&'static str, &'static str>> {
        loop {
            let reply = match txn.pending() {
                Some(request) => self.perform(request),
                None => break,
            };
            txn.resume(reply)?;
        }
        assert!(txn.is_complete());
        Ok(txn.data().to_vec())
    }
}

fn ready(tier: Tier) -> NeoTrellis {
    Host::new(&[0x55]).bring_up(tier).expect("bring-up goes through")
}

fn reset_and_identify() -> Vec<Did> {
    vec![
        Did::Write(ADDRESS, vec![0x00, 0x7F, 0xFF]),
        Did::Delay(500),
        Did::Write(ADDRESS, vec![0x00, 0x01]),
        Did::Delay(6),
        Did::Read(ADDRESS, 1),
    ]
}

#[test]
fn bring_up_resets_waits_and_identifies_first() {
    let mut host = Host::new(&[0x55]);
    host.bring_up(Tier::Independent).expect("bring-up goes through");
    assert_eq!(&host.log[..5], &reset_and_identify()[..]);
}

#[test]
fn bring_up_stops_at_a_foreign_identity() {
    for identity in [0x00u8, 0x54, 0x56, 0xFF] {
        let mut host = Host::new(&[identity]);
        let result = host.bring_up(Tier::Independent);
        assert!(matches!(result, Err(Error::WrongChipId)));
        assert_eq!(host.log, reset_and_identify());
    }
}

#[test]
fn bring_up_after_a_foreign_identity_requests_nothing_more() {
    let mut host = Host::new(&[0x54]);
    let mut bring_up = NeoTrellis::new(ADDRESS, Tier::Independent);
    for _ in 0..4 {
        let reply = host.perform(bring_up.pending().expect("a request is pending"));
        assert_eq!(bring_up.resume(reply), Ok(()));
    }
    let reply = host.perform(bring_up.pending().expect("the identity read is pending"));
    assert_eq!(bring_up.resume(reply), Err(Error::WrongChipId));
    assert_eq!(bring_up.pending(), None);
    assert!(!bring_up.is_ready());
    assert!(bring_up.finish().is_none());
}

#[test]
fn bring_up_configures_pixels_then_keypad() {
    let mut host = Host::new(&[0x55]);
    let device = host.bring_up(Tier::Independent).expect("bring-up goes through");
    assert_eq!(device.address(), ADDRESS);
    assert_eq!(device.tier(), Tier::Independent);
    assert_eq!(host.log.len(), 71);
    assert_eq!(host.log[5], Did::Write(ADDRESS, vec![0x0E, 0x01, 0x03]));
    assert_eq!(host.log[6], Did::Write(ADDRESS, vec![0x0E, 0x03, 0x00, 0x30]));
    let masks = [0x02u8, 0x04, 0x09, 0x11];
    for key in 0..16usize {
        let keycode = Key::from_index(key as u8).serialize();
        for slot in 0..4usize {
            assert_eq!(
                host.log[7 + 4 * key + slot],
                Did::Write(ADDRESS, vec![0x10, 0x01, keycode, masks[slot]])
            );
        }
    }
    assert_eq!(host.log[7 + 4 * 5], Did::Write(ADDRESS, vec![0x10, 0x01, 0x09, 0x02]));
    assert_eq!(host.log[70], Did::Write(ADDRESS, vec![0x10, 0x01, 0x1B, 0x11]));
}

#[test]
fn bring_up_with_combined_transfers_configures_pixels_only() {
    let mut host = Host::new(&[]);
    let device = host.bring_up(Tier::Atomic).expect("bring-up goes through");
    assert_eq!(device.tier(), Tier::Atomic);
    assert_eq!(
        host.log,
        vec![
            Did::Write(ADDRESS, vec![0x0E, 0x01, 0x03]),
            Did::Write(ADDRESS, vec![0x0E, 0x03, 0x00, 0x30]),
        ]
    );
}

#[test]
fn bring_up_is_not_ready_before_the_last_request() {
    let mut host = Host::new(&[0x55]);
    let mut bring_up = NeoTrellis::new(ADDRESS, Tier::Independent);
    for _ in 0..70 {
        assert!(!bring_up.is_ready());
        let reply = host.perform(bring_up.pending().expect("a request is pending"));
        assert_eq!(bring_up.resume(reply), Ok(()));
    }
    assert!(!bring_up.is_ready());
    let reply = host.perform(bring_up.pending().expect("the last request is pending"));
    assert_eq!(bring_up.resume(reply), Ok(()));
    assert!(bring_up.is_ready());
    assert_eq!(bring_up.pending(), None);
}

#[test]
fn unfinished_bring_up_gives_no_handle() {
    let bring_up = NeoTrellis::new(ADDRESS, Tier::Independent);
    assert!(bring_up.finish().is_none());
}

#[test]
fn bring_up_fails_with_the_first_failed_write() {
    // transfers: 0 reset, 1 identity command, 2 identity read, 3 pin, 4 length, 5.. keypad
    for (transfer, requests_made) in [(0usize, 1usize), (1, 3), (3, 6), (4, 7), (5, 8), (68, 71)] {
        let mut host = Host::failing_at(&[0x55], transfer);
        let result = host.bring_up(Tier::Independent);
        assert!(matches!(result, Err(Error::WriteError("write refused"))));
        assert_eq!(host.log.len(), requests_made);
    }
}

#[test]
fn bring_up_fails_with_a_failed_identity_read() {
    let mut host = Host::failing_at(&[0x55], 2);
    let result = host.bring_up(Tier::Independent);
    assert!(matches!(result, Err(Error::ReadError("read refused"))));
    assert_eq!(host.log, reset_and_identify());
}

#[test]
fn bring_up_plans_piece_by_piece() {
    assert_eq!(
        soft_reset(ADDRESS),
        vec![
            Request::Write { address: ADDRESS, bytes: vec![0x00, 0x7F, 0xFF] },
            Request::Delay { ms: 500 },
            Request::Write { address: ADDRESS, bytes: vec![0x00, 0x01] },
            Request::Delay { ms: 6 },
            Request::Read { address: ADDRESS, len: 1 },
        ]
    );
    assert_eq!(
        setup_neopixel(ADDRESS),
        vec![
            Request::Write { address: ADDRESS, bytes: vec![0x0E, 0x01, 0x03] },
            Request::Write { address: ADDRESS, bytes: vec![0x0E, 0x03, 0x00, 0x30] },
        ]
    );
    let keypad = setup_keypad(ADDRESS);
    assert_eq!(keypad.len(), 64);
    let arm = |key: u8, mask: u8| Request::Write {
        address: ADDRESS,
        bytes: vec![0x10, 0x01, key, mask],
    };
    assert_eq!(keypad[0], arm(0x00, 0x02));
    assert_eq!(keypad[1], arm(0x00, 0x04));
    assert_eq!(keypad[2], arm(0x00, 0x09));
    assert_eq!(keypad[3], arm(0x00, 0x11));
    assert_eq!(keypad[16], arm(0x08, 0x02));
    assert_eq!(keypad[63], arm(0x1B, 0x11));

    let mut whole = soft_reset(ADDRESS);
    whole.extend(setup_neopixel(ADDRESS));
    whole.extend(setup_keypad(ADDRESS));
    assert_eq!(bring_up(ADDRESS, Tier::Independent), whole);
    assert_eq!(bring_up(ADDRESS, Tier::Atomic), setup_neopixel(ADDRESS));
}

#[test]
fn set_led_color_writes_offset_then_green_red_blue() {
    let device = ready(Tier::Independent);
    let mut host = Host::new(&[]);
    host.run(device.set_led_color(2, Color::rgb(1, 2, 3))).expect("the write goes through");
    assert_eq!(host.log, vec![Did::Write(ADDRESS, vec![0x0E, 0x04, 0x00, 0x06, 2, 1, 3])]);
}

#[test]
fn set_led_color_offsets_are_three_bytes_apart_and_big_endian() {
    let device = ready(Tier::Atomic);
    let cases: [(u8, u8, u8); 6] = [
        (0, 0x00, 0x00),
        (1, 0x00, 0x03),
        (15, 0x00, 0x2D),
        (85, 0x00, 0xFF),
        (86, 0x01, 0x02),
        (255, 0x02, 0xFD),
    ];
    for (led, high, low) in cases {
        let mut host = Host::new(&[]);
        host.run(device.set_led_color(led, Color::rgb(0xA0, 0xB0, 0xC0)))
            .expect("the write goes through");
        assert_eq!(
            host.log,
            vec![Did::Write(ADDRESS, vec![0x0E, 0x04, high, low, 0xB0, 0xA0, 0xC0])]
        );
    }
}

#[test]
fn set_led_color_reports_a_failed_write() {
    let device = ready(Tier::Independent);
    let mut host = Host::failing_at(&[], 0);
    let result = host.run(device.set_led_color(0, Color::rgb(0, 0, 0)));
    assert_eq!(result, Err(Error::WriteError("write refused")));
}

#[test]
fn show_led_writes_nothing_to_the_show_register_and_waits() {
    let device = ready(Tier::Independent);
    let mut host = Host::new(&[]);
    host.run(device.show_led()).expect("the write goes through");
    assert_eq!(host.log, vec![Did::Write(ADDRESS, vec![0x0E, 0x05]), Did::Delay(8)]);
}

#[test]
fn show_led_with_combined_transfers_does_not_wait() {
    let device = ready(Tier::Atomic);
    let mut host = Host::new(&[]);
    host.run(device.show_led()).expect("the write goes through");
    assert_eq!(host.log, vec![Did::Write(ADDRESS, vec![0x0E, 0x05])]);
}

#[test]
fn show_led_does_not_wait_after_a_failed_write() {
    let device = ready(Tier::Independent);
    let mut host = Host::failing_at(&[], 0);
    let result = host.run(device.show_led());
    assert_eq!(result, Err(Error::WriteError("write refused")));
    assert_eq!(host.log, vec![Did::Write(ADDRESS, vec![0x0E, 0x05])]);
}

#[test]
fn read_key_events_reads_the_fifo_once_and_decodes_in_order() {
    let device = ready(Tier::Independent);
    let mut host = Host::new(&[0x02, 0x27, 0x6F]);
    let data = host.run(device.read_key_events(5)).expect("the read goes through");
    assert_eq!(
        host.log,
        vec![Did::Write(ADDRESS, vec![0x10, 0x10]), Did::Delay(6), Did::Read(ADDRESS, 5)]
    );
    let mut events = [None; 5];
    KeypadEvent::decode_all(&data, &mut events);
    assert_eq!(
        events,
        [
            Some(KeypadEvent { key: 0, event: Event::Falling }),
            Some(KeypadEvent { key: 5, event: Event::Rising }),
            Some(KeypadEvent { key: 15, event: Event::Rising }),
            None,
            None,
        ]
    );
}

#[test]
fn read_key_events_takes_up_to_32_slots() {
    let device = ready(Tier::Independent);
    for slots in [0usize, 1, 32] {
        let mut host = Host::new(&[]);
        let data = host.run(device.read_key_events(slots)).expect("the read goes through");
        assert_eq!(host.log[2], Did::Read(ADDRESS, slots));
        assert_eq!(data.len(), slots);
    }
}

#[test]
fn read_key_events_reports_failures_by_their_half() {
    let device = ready(Tier::Independent);
    let mut host = Host::failing_at(&[], 0);
    assert_eq!(host.run(device.read_key_events(4)), Err(Error::WriteError("write refused")));
    assert_eq!(host.log.len(), 1);
    let mut host = Host::failing_at(&[], 1);
    assert_eq!(host.run(device.read_key_events(4)), Err(Error::ReadError("read refused")));
    assert_eq!(host.log.len(), 3);
}

#[test]
fn keypad_count_reads_one_byte() {
    let device = ready(Tier::Independent);
    let mut host = Host::new(&[7]);
    let data = host.run(device.keypad_count()).expect("the read goes through");
    assert_eq!(
        host.log,
        vec![Did::Write(ADDRESS, vec![0x10, 0x04]), Did::Delay(6), Did::Read(ADDRESS, 1)]
    );
    assert_eq!(NeoTrellis::count_of(&data), 7);
    assert_eq!(NeoTrellis::count_of(&[0]), 0);
    assert_eq!(NeoTrellis::count_of(&[255]), 255);
}

#[test]
fn error_kinds_are_told_apart() {
    let write: Error<u8, u8> = Error::WriteError(1);
    let read: Error<u8, u8> = Error::ReadError(1);
    let identity: Error<u8, u8> = Error::WrongChipId;
    assert_ne!(write, read);
    assert_ne!(write, identity);
    assert_ne!(read, identity);
    assert_eq!(format!("{:?}", write), "WriteError(1)");
    assert_eq!(format!("{:?}", read), "ReadError(1)");
    assert_eq!(format!("{:?}", identity), "WrongChipId");
}
