use eeprom_programmer::error::Error;
use eeprom_programmer::serial_io::{Event, Exchange};
use eeprom_programmer::transfer::{Action, Completion, Phase, Step, Transfer};
use eeprom_programmer::variant::EepromVariant;

/// A programmer with a chip behind it, as the protocol has it, and with a
/// few faults that can be switched on.
struct Bench {
    memory: Vec<u8>,
    /// Every frame that was sent, in order.
    frames: Vec<Vec<u8>>,
    /// The link fails at the exchange with this number, counted from 0.
    fail_at: Option<usize>,
    /// The write of this page is answered with this byte.
    nack: Option<(u8, u8)>,
    /// After any write, the byte at this address is set to this value.
    spoil: Option<(usize, u8)>,
    exchanges: usize,
}

impl Bench {
    fn new(memory: Vec<u8>) -> Bench {
        Bench { memory, frames: Vec::new(), fail_at: None, nack: None, spoil: None, exchanges: 0 }
    }

    fn blank(variant: EepromVariant) -> Bench {
        Bench::new(vec![0xFF; variant.get_capacity()])
    }

    fn exchange(&mut self, exchange: &Exchange) -> Event {
        let number = self.exchanges;
        self.exchanges += 1;
        self.frames.push(exchange.frame.clone());
        if self.fail_at == Some(number) {
            return Event::Failed;
        }
        let frame = &exchange.frame;
        let reply = match frame[0] {
            b'd' => {
                assert_eq!(frame.len(), 2);
                Vec::new()
            }
            b'r' => {
                assert_eq!(frame.len(), 2);
                let start = 256 * frame[1] as usize;
                self.memory[start..start + 256].to_vec()
            }
            b'w' => {
                assert_eq!(frame.len(), 258);
                match self.nack {
                    Some((page, byte)) if page == frame[1] => vec![byte],
                    _ => {
                        let start = 256 * frame[1] as usize;
                        self.memory[start..start + 256].copy_from_slice(&frame[2..]);
                        if let Some((at, value)) = self.spoil {
                            self.memory[at] = value;
                        }
                        vec![0xA5]
                    }
                }
            }
            other => panic!("no such command: {}", other),
        };
        assert_eq!(reply.len(), exchange.reply_len);
        Event::Reply(reply)
    }

    /// Carries a transfer through to its end, the farewell included.
    fn drive(&mut self, transfer: Transfer, first: Exchange) -> Result<Vec<u8>, Error> {
        let mut transfer = transfer;
        let mut exchange = first;
        loop {
            let event = self.exchange(&exchange);
            match transfer.step(event) {
                Step::Continue(next, request) => {
                    transfer = next;
                    exchange = request;
                }
                Step::Finish(Completion { farewell, outcome }) => {
                    if let Some(frame) = farewell {
                        self.frames.push(frame);
                    }
                    return outcome;
                }
            }
        }
    }

    fn write(&mut self, variant: EepromVariant, rom: &[u8]) -> Result<Vec<u8>, Error> {
        let (transfer, first) = Transfer::write_rom(variant, rom.to_vec())?;
        self.drive(transfer, first)
    }

    fn read(&mut self, variant: EepromVariant) -> Result<Vec<u8>, Error> {
        let (transfer, first) = Transfer::read_rom(variant);
        self.drive(transfer, first)
    }

    fn closes(&self) -> usize {
        self.frames.iter().filter(|frame| frame[..] == [b'q']).count()
    }
}

fn pattern(len: usize) -> Vec<u8> {
    (0..len).map(|i| (i * 7 % 253) as u8 + 1).collect()
}

const AT28C64: EepromVariant = EepromVariant::Atmel_AT28C64;
const LC32: EepromVariant = EepromVariant::Microchip_24LC32;

#[test]
fn write_300_bytes_sends_two_pages() {
    let rom = pattern(300);
    let mut bench = Bench::blank(AT28C64);
    assert_eq!(bench.write(AT28C64, &rom), Ok(rom.clone()));

    assert_eq!(bench.frames.len(), 6);
    assert_eq!(bench.frames[0], vec![b'd', 0]);

    assert_eq!(bench.frames[1].len(), 258);
    assert_eq!(&bench.frames[1][..2], &[b'w', 0]);
    assert_eq!(&bench.frames[1][2..], &rom[0..256]);

    assert_eq!(bench.frames[2].len(), 258);
    assert_eq!(&bench.frames[2][..2], &[b'w', 1]);
    assert_eq!(&bench.frames[2][2..46], &rom[256..300]);
    assert_eq!(&bench.frames[2][46..], &[0u8; 212][..]);

    assert_eq!(bench.frames[3], vec![b'r', 0]);
    assert_eq!(bench.frames[4], vec![b'r', 1]);
    assert_eq!(bench.frames[5], vec![b'q']);
}

#[test]
fn write_300_bytes_verifies_44_bytes_of_the_last_page() {
    let rom = pattern(300);

    let mut bench = Bench::blank(AT28C64);
    bench.spoil = Some((300, 0x5A));
    assert_eq!(bench.write(AT28C64, &rom), Ok(rom.clone()));
    assert_eq!(bench.memory[300], 0x5A);

    let mut bench = Bench::blank(AT28C64);
    bench.spoil = Some((511, 0x5A));
    assert_eq!(bench.write(AT28C64, &rom), Ok(rom.clone()));

    let mut bench = Bench::blank(AT28C64);
    bench.spoil = Some((299, rom[299] ^ 0x80));
    assert_eq!(bench.write(AT28C64, &rom), Err(Error::VerifyFailed));

    let mut bench = Bench::blank(AT28C64);
    bench.spoil = Some((255, rom[255] ^ 0x01));
    assert_eq!(bench.write(AT28C64, &rom), Err(Error::VerifyFailed));
}

#[test]
fn read_8192_bytes_asks_for_32_pages_in_order() {
    let memory = pattern(8192);
    let mut bench = Bench::new(memory.clone());
    let image = bench.read(AT28C64).unwrap();
    assert_eq!(image.len(), 8192);
    assert_eq!(image, memory);

    assert_eq!(bench.frames.len(), 1 + 32 + 32 + 1);
    assert_eq!(bench.frames[0], vec![b'd', 0]);
    for page in 0..32 {
        assert_eq!(bench.frames[1 + page], vec![b'r', page as u8]);
    }
    for page in 0..32 {
        assert_eq!(bench.frames[33 + page], vec![b'r', page as u8]);
    }
    assert_eq!(bench.frames[65], vec![b'q']);
}

#[test]
fn read_of_the_smaller_chip() {
    let memory = pattern(4096);
    let mut bench = Bench::new(memory.clone());
    assert_eq!(bench.read(LC32), Ok(memory));
    assert_eq!(bench.frames.len(), 1 + 16 + 16 + 1);
    assert_eq!(bench.frames[0], vec![b'd', 1]);
    assert_eq!(bench.frames[16], vec![b'r', 15]);
    assert_eq!(bench.frames[17], vec![b'r', 0]);
}

#[test]
fn round_trip_gives_the_image_back() {
    for len in [0usize, 1, 255, 256, 257, 300, 4095, 4096] {
        let rom = pattern(len);
        let mut bench = Bench::blank(LC32);
        assert_eq!(bench.write(LC32, &rom), Ok(rom.clone()));
        let image = bench.read(LC32).unwrap();
        assert_eq!(image.len(), 4096);
        assert_eq!(&image[..len], &rom[..]);
        let padded = (len + 255) / 256 * 256;
        assert!(image[len..padded].iter().all(|byte| *byte == 0));
        assert!(image[padded..].iter().all(|byte| *byte == 0xFF));
    }
}

#[test]
fn round_trip_of_a_full_chip() {
    let rom = pattern(8192);
    let mut bench = Bench::blank(AT28C64);
    assert_eq!(bench.write(AT28C64, &rom), Ok(rom.clone()));
    assert_eq!(bench.read(AT28C64), Ok(rom));
}

#[test]
fn empty_image_opens_and_closes_the_session() {
    let mut bench = Bench::blank(AT28C64);
    assert_eq!(bench.write(AT28C64, &[]), Ok(Vec::new()));
    assert_eq!(bench.frames, vec![vec![b'd', 0], vec![b'q']]);
    assert!(bench.memory.iter().all(|byte| *byte == 0xFF));
}

#[test]
fn oversized_image_is_refused_before_any_exchange() {
    let rom = pattern(8193);
    let started = Transfer::write_rom(AT28C64, rom);
    assert!(matches!(started, Err(Error::RomTooBig)));

    let started = Transfer::write_rom(LC32, pattern(4097));
    assert!(matches!(started, Err(Error::RomTooBig)));

    let mut bench = Bench::blank(LC32);
    assert_eq!(bench.write(LC32, &pattern(8192)), Err(Error::RomTooBig));
    assert!(bench.frames.is_empty());
    assert_eq!(bench.exchanges, 0);
}

#[test]
fn image_of_exactly_the_capacity_is_taken() {
    assert!(Transfer::write_rom(LC32, pattern(4096)).is_ok());
    assert!(Transfer::write_rom(AT28C64, pattern(8192)).is_ok());
}

#[test]
fn bad_acknowledgement_stops_the_write() {
    let rom = pattern(1000);
    let mut bench = Bench::blank(AT28C64);
    bench.nack = Some((1, 0x00));
    assert_eq!(bench.write(AT28C64, &rom), Err(Error::NoWriteAck));

    assert_eq!(bench.frames.len(), 4);
    assert_eq!(bench.frames[0], vec![b'd', 0]);
    assert_eq!(&bench.frames[1][..2], &[b'w', 0]);
    assert_eq!(&bench.frames[2][..2], &[b'w', 1]);
    assert_eq!(bench.frames[3], vec![b'q']);
    assert_eq!(&bench.memory[..256], &rom[..256]);
    assert!(bench.memory[256..].iter().all(|byte| *byte == 0xFF));
}

#[test]
fn every_other_acknowledgement_byte_is_a_failure() {
    let rom = pattern(10);
    for byte in [0x00u8, 0x5A, 0xA4, 0xA6, 0xFF] {
        let mut bench = Bench::blank(AT28C64);
        bench.nack = Some((0, byte));
        assert_eq!(bench.write(AT28C64, &rom), Err(Error::NoWriteAck));
        assert_eq!(bench.frames.len(), 3);
    }
}

#[test]
fn verify_sees_a_flipped_byte_anywhere_in_the_image() {
    let rom = pattern(700);
    for at in [0usize, 1, 255, 256, 511, 512, 698, 699] {
        let mut bench = Bench::blank(AT28C64);
        bench.spoil = Some((at, rom[at] ^ 0x10));
        assert_eq!(bench.write(AT28C64, &rom), Err(Error::VerifyFailed));
        assert_eq!(bench.closes(), 1);
    }
}

#[test]
fn verify_stops_at_the_first_page_that_differs() {
    let rom = pattern(1024);
    let mut bench = Bench::blank(AT28C64);
    bench.spoil = Some((300, rom[300] ^ 0xFF));
    assert_eq!(bench.write(AT28C64, &rom), Err(Error::VerifyFailed));
    let reads: Vec<&Vec<u8>> = bench.frames.iter().filter(|frame| frame[0] == b'r').collect();
    assert_eq!(reads, vec![&vec![b'r', 0], &vec![b'r', 1]]);
    assert_eq!(bench.frames.last().unwrap(), &vec![b'q']);
}

#[test]
fn verify_ignores_the_padding_of_the_last_page() {
    let rom = pattern(700);
    for at in [700usize, 701, 767] {
        let mut bench = Bench::blank(AT28C64);
        bench.spoil = Some((at, 0x99));
        assert_eq!(bench.write(AT28C64, &rom), Ok(rom.clone()));
    }
}

#[test]
fn close_is_sent_once_when_a_read_fails_midway() {
    let mut bench = Bench::new(pattern(8192));
    bench.fail_at = Some(6);
    assert_eq!(bench.read(AT28C64), Err(Error::Transport));
    assert_eq!(bench.frames.len(), 8);
    assert_eq!(bench.frames[6], vec![b'r', 5]);
    assert_eq!(bench.frames[7], vec![b'q']);
    assert_eq!(bench.closes(), 1);
}

#[test]
fn close_is_sent_once_on_every_path() {
    for fail_at in 1..70 {
        let mut bench = Bench::new(pattern(8192));
        bench.fail_at = Some(fail_at);
        let outcome = bench.read(AT28C64);
        assert_eq!(outcome.is_ok(), fail_at >= 65);
        assert_eq!(bench.closes(), 1);
        assert_eq!(bench.frames.last().unwrap(), &vec![b'q']);
    }
    for fail_at in 1..10 {
        let rom = pattern(600);
        let mut bench = Bench::blank(LC32);
        bench.fail_at = Some(fail_at);
        let outcome = bench.write(LC32, &rom);
        assert_eq!(outcome.is_ok(), fail_at >= 7);
        assert_eq!(bench.closes(), 1);
        assert_eq!(bench.frames.last().unwrap(), &vec![b'q']);
    }
}

#[test]
fn failed_select_ends_without_a_close() {
    let mut bench = Bench::new(pattern(8192));
    bench.fail_at = Some(0);
    assert_eq!(bench.read(AT28C64), Err(Error::Transport));
    assert_eq!(bench.frames, vec![vec![b'd', 0]]);
    assert_eq!(bench.closes(), 0);
}

#[test]
fn failed_write_exchange_is_a_transport_error() {
    let rom = pattern(600);
    let mut bench = Bench::blank(AT28C64);
    bench.fail_at = Some(2);
    assert_eq!(bench.write(AT28C64, &rom), Err(Error::Transport));
    assert_eq!(bench.frames.len(), 4);
    assert_eq!(bench.frames[3], vec![b'q']);
}

#[test]
fn short_page_reply_is_a_transport_error() {
    let (transfer, _) = Transfer::read_rom(AT28C64);
    let Step::Continue(transfer, exchange) = transfer.step(Event::Reply(Vec::new())) else {
        panic!("the transfer ended after the select frame");
    };
    assert_eq!(exchange.frame, vec![b'r', 0]);
    assert_eq!(exchange.reply_len, 256);
    let Step::Finish(end) = transfer.step(Event::Reply(vec![0; 100])) else {
        panic!("the transfer went on after a short page");
    };
    assert_eq!(end.outcome, Err(Error::Transport));
    assert_eq!(end.farewell, Some(vec![b'q']));
}

#[test]
fn read_reports_a_chip_that_changes_under_verification() {
    let (transfer, _) = Transfer::read_rom(LC32);
    let mut step = transfer.step(Event::Reply(Vec::new()));
    for _ in 0..16 {
        let Step::Continue(transfer, _) = step else {
            panic!("the transfer ended while reading");
        };
        step = transfer.step(Event::Reply(vec![0x11; 256]));
    }
    let Step::Continue(transfer, exchange) = step else {
        panic!("the transfer ended before verification");
    };
    assert_eq!(exchange.frame, vec![b'r', 0]);
    let mut page = vec![0x11; 256];
    page[200] = 0x12;
    let Step::Finish(end) = transfer.step(Event::Reply(page)) else {
        panic!("the transfer went on after a page that differs");
    };
    assert_eq!(end.outcome, Err(Error::VerifyFailed));
    assert_eq!(end.farewell, Some(vec![b'q']));
}

#[test]
fn a_transfer_tells_where_it_stands() {
    let (transfer, _) = Transfer::write_rom(AT28C64, pattern(600)).unwrap();
    assert_eq!(transfer.action(), Action::WriteRom);
    assert_eq!(transfer.phase(), Phase::Opening);
    assert_eq!(transfer.page(), 0);
    assert_eq!(transfer.pages(), 3);

    let mut step = transfer.step(Event::Reply(Vec::new()));
    for page in 0..3 {
        let Step::Continue(transfer, _) = step else {
            panic!("the transfer ended while writing");
        };
        assert_eq!(transfer.phase(), Phase::Moving);
        assert_eq!(transfer.page(), page);
        assert_eq!(transfer.pages(), 3);
        step = transfer.step(Event::Reply(vec![0xA5]));
    }
    let Step::Continue(transfer, _) = step else {
        panic!("the transfer ended before verification");
    };
    assert_eq!(transfer.action(), Action::WriteRom);
    assert_eq!(transfer.phase(), Phase::Verifying);
    assert_eq!(transfer.page(), 0);
    assert_eq!(transfer.pages(), 3);
}

#[test]
fn a_read_covers_the_pages_of_the_chip() {
    let (transfer, _) = Transfer::read_rom(LC32);
    assert_eq!(transfer.action(), Action::ReadRom);
    assert_eq!(transfer.phase(), Phase::Opening);
    assert_eq!(transfer.pages(), 16);
    let Step::Continue(transfer, _) = transfer.step(Event::Reply(Vec::new())) else {
        panic!("the transfer ended after the select frame");
    };
    assert_eq!(transfer.phase(), Phase::Moving);
    assert_eq!(transfer.page(), 0);
    assert_eq!(transfer.pages(), 16);

    let (transfer, _) = Transfer::read_rom(AT28C64);
    assert_eq!(transfer.pages(), 32);
}
