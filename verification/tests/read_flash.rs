use beslink::handshake::{
    get_flash_id_query, get_flash_unique_id_query, get_programmer_preamble_message,
    get_programmer_start_message, get_stay_in_programmer_message,
};
use beslink::message::{BesMessage, MessageTypes, BES_SYNC};
use beslink::read_flash::{
    fit_to_length, get_read_request, read_flash_chunk, read_flash_data, ChunkRead, FlashReader,
    FLASH_BASE_ADDRESS, FLASH_BUFFER_SIZE, MAX_READ_BEFORE_RESET, READ_CHUNK_SIZE, READ_FILL,
    READ_RETRY_LIMIT, READ_SETTLE_MILLIS,
};
use beslink::reboot::get_device_reboot_message;
use beslink::transport::{Action, Event, Step};
use beslink::BESLinkError;
use std::collections::VecDeque;

fn frame(type1: MessageTypes, payload: &[u8]) -> Vec<u8> {
    let mut msg = BesMessage { sync: BES_SYNC, type1, payload: payload.to_vec(), checksum: 0 };
    msg.set_checksum();
    msg.to_vec()
}

/// What the flash of the fake device holds at `address`.
fn flash_byte(address: u32) -> u8 {
    (address % 251) as u8
}

fn flash_range(address: u32, len: usize) -> Vec<u8> {
    (0..len as u32).map(|i| flash_byte(address + i)).collect()
}

/// A device with a programmer that serves memory reads, and a transport that
/// hands out at most `read_cap` bytes per read.
struct Rig {
    rx: VecDeque<u8>,
    sent: Vec<Vec<u8>>,
    pauses: Vec<u64>,
    largest_read_asked: usize,
    read_cap: usize,
    idle: usize,
    headers_to_spoil: usize,
    answer_reads: bool,
}

impl Rig {
    fn new() -> Rig {
        Rig {
            rx: VecDeque::new(),
            sent: Vec::new(),
            pauses: Vec::new(),
            largest_read_asked: 0,
            read_cap: 5000,
            idle: 0,
            headers_to_spoil: 0,
            answer_reads: true,
        }
    }

    fn count(&self, write: &[u8]) -> usize {
        self.sent.iter().filter(|w| w.as_slice() == write).count()
    }

    fn read_requests(&self) -> Vec<(u32, u32)> {
        self.sent
            .iter()
            .filter(|w| w.len() == 13 && w[1] == 0x03)
            .map(|w| {
                (
                    u32::from_le_bytes([w[4], w[5], w[6], w[7]]),
                    u32::from_le_bytes([w[8], w[9], w[10], w[11]]),
                )
            })
            .collect()
    }

    fn answer(&mut self, write: &[u8]) {
        if write == get_stay_in_programmer_message().to_vec() {
            self.rx.extend(frame(MessageTypes::Sync, &[0x00, 0x03, 0x02, 0x00, 0x01]));
        } else if write == get_programmer_preamble_message().to_vec() {
            self.rx.extend(frame(MessageTypes::StartProgrammer, &[0x00, 0x01, 0x00]));
        } else if write == get_programmer_start_message().to_vec() {
            self.rx.extend(frame(
                MessageTypes::ProgrammerInit,
                &[0x00, 0x06, 0x03, 0x01, 0x00, 0x90, 0x00, 0x00],
            ));
        } else if write == get_flash_id_query().to_vec() {
            self.rx.extend(frame(MessageTypes::FlashCommand, &[0x02, 0x04, 0x00, 0xC8, 0x40, 0x15]));
        } else if write == get_flash_unique_id_query().to_vec() {
            self.rx.extend(frame(MessageTypes::FlashCommand, &[0x03; 19]));
        } else if write == get_device_reboot_message().to_vec() {
            self.rx.extend([0xBE, 0x00, 0x41]);
        } else if write.len() == 13 && write[1] == 0x03 && self.answer_reads {
            let address = u32::from_le_bytes([write[4], write[5], write[6], write[7]]);
            let length = u32::from_le_bytes([write[8], write[9], write[10], write[11]]);
            if self.headers_to_spoil > 0 {
                self.headers_to_spoil -= 1;
                self.rx.extend([0xBE, 0x03, 0x05, 0x01, 0x00, 0x00]);
            } else {
                self.rx.extend(frame(MessageTypes::FlashRead, &[0x05, 0x01, 0x00]));
                self.rx.extend(flash_range(address, length as usize));
            }
        }
    }

    fn perform(&mut self, action: Action) -> Event {
        match action {
            Action::Send(bytes) => {
                self.answer(&bytes);
                self.sent.push(bytes);
                Event::Done
            }
            Action::Receive(limit) => {
                self.largest_read_asked = self.largest_read_asked.max(limit);
                if self.rx.is_empty() {
                    self.idle += 1;
                    if self.idle > 3 {
                        return Event::Failed(std::io::Error::new(
                            std::io::ErrorKind::BrokenPipe,
                            "unplugged",
                        ));
                    }
                    return Event::TimedOut;
                }
                self.idle = 0;
                let mut data = Vec::new();
                while data.len() < limit && data.len() < self.read_cap {
                    match self.rx.pop_front() {
                        Some(b) => data.push(b),
                        None => break,
                    }
                }
                Event::Data(data)
            }
            Action::Pause(millis) => {
                self.pauses.push(millis);
                Event::Done
            }
        }
    }
}

fn run_read(rig: &mut Rig, reader: &mut FlashReader, first: Step<Vec<u8>>) -> Result<Vec<u8>, BESLinkError> {
    let mut next = first;
    loop {
        match next {
            Step::Next(action) => {
                let event = rig.perform(action);
                next = reader.step(event);
            }
            Step::Finished(result) => return result,
        }
    }
}

fn run_chunk(rig: &mut Rig, chunk: &mut ChunkRead, first: Action) -> Result<Vec<u8>, BESLinkError> {
    let mut next = Step::Next(first);
    loop {
        match next {
            Step::Next(action) => {
                let event = rig.perform(action);
                next = chunk.step(event);
            }
            Step::Finished(result) => return result,
        }
    }
}

#[test]
fn constants_have_their_documented_values() {
    assert_eq!(FLASH_BASE_ADDRESS, 0x3C00_0000);
    assert_eq!(MAX_READ_BEFORE_RESET, 1024 * 1024);
    assert_eq!(FLASH_BUFFER_SIZE, 0x8000);
    assert_eq!(READ_CHUNK_SIZE, FLASH_BUFFER_SIZE / 2);
    assert_eq!(READ_RETRY_LIMIT, 10);
    assert_eq!(READ_SETTLE_MILLIS, 10);
    assert_eq!(READ_FILL, 0xFF);
}

#[test]
fn read_request_has_its_known_frame() {
    assert_eq!(
        get_read_request(0x3C0F_E000, 0x1000).to_vec(),
        vec![0xBE, 0x03, 0x05, 0x08, 0x00, 0xE0, 0x0F, 0x3C, 0x00, 0x10, 0x00, 0x00, 0xF6]
    );
    assert_eq!(
        get_read_request(0x3C00_1000, 0x4000).to_vec(),
        vec![0xBE, 0x03, 0x05, 0x08, 0x00, 0x10, 0x00, 0x3C, 0x00, 0x40, 0x00, 0x00, 0xA5]
    );
}

#[test]
fn fit_cuts_what_is_too_long() {
    assert_eq!(fit_to_length(vec![1, 2, 3, 4, 5], 3), vec![1, 2, 3]);
    assert_eq!(fit_to_length(vec![1, 2, 3], 3), vec![1, 2, 3]);
    assert_eq!(fit_to_length(vec![1, 2, 3], 0), Vec::<u8>::new());
}

#[test]
fn fit_fills_a_short_tail_with_ff() {
    assert_eq!(fit_to_length(vec![1, 2, 3], 6), vec![1, 2, 3, 0xFF, 0xFF, 0xFF]);
    assert_eq!(fit_to_length(vec![], 2), vec![0xFF, 0xFF]);
}

#[test]
fn chunk_read_takes_the_header_and_then_the_raw_bytes() {
    let mut rig = Rig::new();
    let (mut chunk, first) = read_flash_chunk(0x3C00_1000);
    match &first {
        Action::Send(bytes) => assert_eq!(
            *bytes,
            vec![0xBE, 0x03, 0x05, 0x08, 0x00, 0x10, 0x00, 0x3C, 0x00, 0x40, 0x00, 0x00, 0xA5]
        ),
        other => panic!("unexpected {:?}", other),
    }
    let data = run_chunk(&mut rig, &mut chunk, first).unwrap();
    assert_eq!(data, flash_range(0x3C00_1000, 0x4000));
    assert_eq!(rig.largest_read_asked, 0x4000);
    assert!(rig.rx.is_empty());
}

#[test]
fn chunk_read_asks_only_for_what_is_missing() {
    let (mut chunk, _) = read_flash_chunk(0x3C00_0000);
    assert!(matches!(chunk.step(Event::Done), Step::Next(Action::Receive(1))));
    let mut step = Step::Next(Action::Receive(1));
    for b in frame(MessageTypes::FlashRead, &[0x05, 0x01, 0x00]) {
        assert!(matches!(step, Step::Next(Action::Receive(1))));
        step = chunk.step(Event::Data(vec![b]));
    }
    assert!(matches!(step, Step::Next(Action::Receive(0x4000))));
    assert!(matches!(chunk.step(Event::Data(vec![7; 0x1000])), Step::Next(Action::Receive(0x3000))));
    assert!(matches!(chunk.step(Event::TimedOut), Step::Next(Action::Receive(0x3000))));
    assert!(matches!(chunk.step(Event::Data(vec![])), Step::Next(Action::Receive(0x3000))));
    assert!(matches!(chunk.step(Event::Data(vec![8; 0x2FFF])), Step::Next(Action::Receive(1))));
    match chunk.step(Event::Data(vec![9])) {
        Step::Finished(Ok(data)) => {
            assert_eq!(data.len(), 0x4000);
            assert!(data[..0x1000].iter().all(|b| *b == 7));
            assert!(data[0x1000..0x3FFF].iter().all(|b| *b == 8));
            assert_eq!(data[0x3FFF], 9);
        }
        other => panic!("unexpected {:?}", other),
    }
}

#[test]
fn chunk_read_rejects_more_bytes_than_it_asked_for() {
    let (mut chunk, _) = read_flash_chunk(0x3C00_0000);
    assert!(matches!(chunk.step(Event::Done), Step::Next(Action::Receive(1))));
    let mut step = Step::Next(Action::Receive(1));
    for b in frame(MessageTypes::FlashRead, &[0x05, 0x01, 0x00]) {
        step = chunk.step(Event::Data(vec![b]));
    }
    assert!(matches!(step, Step::Next(Action::Receive(0x4000))));
    assert!(matches!(
        chunk.step(Event::Data(vec![0; 0x4001])),
        Step::Finished(Err(BESLinkError::InvalidArgs))
    ));
}

#[test]
fn chunk_read_takes_a_header_of_another_type_as_a_bad_response() {
    let (mut chunk, _) = read_flash_chunk(0x3C00_0000);
    assert!(matches!(chunk.step(Event::Done), Step::Next(Action::Receive(1))));
    let reply = frame(MessageTypes::StartProgrammer, &[0x00, 0x01, 0x00]);
    let mut step = Step::Next(Action::Receive(1));
    for b in &reply {
        step = chunk.step(Event::Data(vec![*b]));
    }
    match step {
        Step::Finished(Err(BESLinkError::BadResponseCode { failed_packet, got, wanted })) => {
            assert_eq!(failed_packet, reply);
            assert_eq!(got, 0x53);
            assert_eq!(wanted, 0x03);
        }
        other => panic!("unexpected {:?}", other),
    }
}

#[test]
fn chunk_read_does_not_pass_over_a_wrong_checksum() {
    let (mut chunk, _) = read_flash_chunk(0x3C00_0000);
    assert!(matches!(chunk.step(Event::Done), Step::Next(Action::Receive(1))));
    let mut step = Step::Next(Action::Receive(1));
    for b in [0xBE, 0x03, 0x05, 0x01, 0x00, 0x00] {
        step = chunk.step(Event::Data(vec![b]));
    }
    match step {
        Step::Finished(Err(BESLinkError::BadChecksumError { failed_packet, got, wanted })) => {
            assert_eq!(failed_packet, vec![0xBE, 0x03, 0x05, 0x01, 0x00, 0x00]);
            assert_eq!(got, 0x00);
            assert_eq!(wanted, 0x38);
        }
        other => panic!("unexpected {:?}", other),
    }
}

#[test]
fn read_takes_one_burst_per_mebibyte() {
    let length = MAX_READ_BEFORE_RESET + 100;
    let mut rig = Rig::new();
    let (mut reader, first) = read_flash_data(vec![0xAA; 64], 0x1000, length);
    let content = run_read(&mut rig, &mut reader, first).unwrap();
    assert_eq!(content.len(), length);
    assert_eq!(content, flash_range(0x3C00_1000, length));
    assert_eq!(reader.bursts_completed(), 2);
    assert_eq!(rig.count(&get_stay_in_programmer_message().to_vec()), 2);
    assert_eq!(rig.count(&vec![0xAA; 64]), 2);
    assert_eq!(rig.count(&get_device_reboot_message().to_vec()), 2);
    let requests = rig.read_requests();
    assert_eq!(requests.len(), 65);
    for (i, (address, asked)) in requests.iter().enumerate() {
        assert_eq!(*address, 0x3C00_1000 + (i as u32) * 0x4000);
        assert_eq!(*asked, 0x4000);
    }
    assert_eq!(rig.pauses, vec![READ_SETTLE_MILLIS; 65]);
    // the last write of each burst is the reboot
    assert_eq!(*rig.sent.last().unwrap(), get_device_reboot_message().to_vec());
}

#[test]
fn read_of_less_than_a_chunk_is_cut_to_what_was_asked_for() {
    let mut rig = Rig::new();
    let (mut reader, first) = read_flash_data(vec![0xAA; 64], 0, 10);
    let content = run_read(&mut rig, &mut reader, first).unwrap();
    assert_eq!(content, flash_range(0x3C00_0000, 10));
    assert_eq!(reader.bursts_completed(), 1);
    assert_eq!(rig.read_requests(), vec![(0x3C00_0000, 0x4000)]);
}

#[test]
fn read_of_whole_mebibytes_takes_no_extra_burst() {
    let mut rig = Rig::new();
    rig.read_cap = 0x8000;
    let (mut reader, first) = read_flash_data(Vec::new(), 0, 2 * MAX_READ_BEFORE_RESET);
    let content = run_read(&mut rig, &mut reader, first).unwrap();
    assert_eq!(content.len(), 2 * MAX_READ_BEFORE_RESET);
    assert_eq!(reader.bursts_completed(), 2);
    assert_eq!(rig.read_requests().len(), 128);
    assert_eq!(content[MAX_READ_BEFORE_RESET], flash_byte(0x3C10_0000));
}

#[test]
fn read_of_nothing_is_over_at_once() {
    let (reader, first) = read_flash_data(vec![0xAA; 64], 0x1000, 0);
    match first {
        Step::Finished(Ok(content)) => assert!(content.is_empty()),
        other => panic!("unexpected {:?}", other),
    }
    assert_eq!(reader.bursts_completed(), 0);
}

#[test]
fn read_rejects_a_range_beyond_the_address_space() {
    let (_, first) = read_flash_data(Vec::new(), 0xC400_0000, 1);
    assert!(matches!(first, Step::Finished(Err(BESLinkError::InvalidArgs))));
    let (_, first) = read_flash_data(Vec::new(), 0xC3FF_FFFF, 2);
    assert!(matches!(first, Step::Finished(Err(BESLinkError::InvalidArgs))));
    let (_, first) = read_flash_data(Vec::new(), 0, 0xC400_0001);
    assert!(matches!(first, Step::Finished(Err(BESLinkError::InvalidArgs))));
    let (_, first) = read_flash_data(Vec::new(), 0xC3FF_FFFF, 1);
    assert!(matches!(first, Step::Next(Action::Send(_))));
}

#[test]
fn failed_chunk_read_is_tried_again() {
    let mut rig = Rig::new();
    rig.headers_to_spoil = 10;
    let (mut reader, first) = read_flash_data(Vec::new(), 0, 0x4000);
    let content = run_read(&mut rig, &mut reader, first).unwrap();
    assert_eq!(content, flash_range(0x3C00_0000, 0x4000));
    assert_eq!(rig.read_requests(), vec![(0x3C00_0000, 0x4000); 11]);
}

#[test]
fn more_than_ten_failed_chunk_reads_end_the_read() {
    let mut rig = Rig::new();
    rig.headers_to_spoil = 11;
    let (mut reader, first) = read_flash_data(Vec::new(), 0, 0x4000);
    match run_read(&mut rig, &mut reader, first) {
        Err(BESLinkError::BadChecksumError { got, wanted, .. }) => {
            assert_eq!(got, 0x00);
            assert_eq!(wanted, 0x38);
        }
        other => panic!("unexpected {:?}", other),
    }
    assert_eq!(rig.read_requests().len(), 11);
    assert_eq!(rig.count(&get_device_reboot_message().to_vec()), 0);
    assert!(matches!(reader.step(Event::Done), Step::Finished(Err(BESLinkError::InvalidArgs))));
}

#[test]
fn failed_handshake_ends_the_read() {
    let mut rig = Rig::new();
    let (mut reader, first) = read_flash_data(Vec::new(), 0, 0x4000);
    assert!(matches!(first, Step::Next(Action::Send(_))));
    let failure = std::io::Error::new(std::io::ErrorKind::BrokenPipe, "unplugged");
    assert!(matches!(
        reader.step(Event::Failed(failure)),
        Step::Finished(Err(BESLinkError::IOError { .. }))
    ));
    assert!(rig.read_requests().is_empty());
    assert_eq!(reader.bursts_completed(), 0);
}

#[test]
fn unanswered_reboot_ends_the_read() {
    let mut rig = Rig::new();
    let (mut reader, first) = read_flash_data(Vec::new(), 0, 0x4000);
    let mut next = first;
    let result = loop {
        match next {
            Step::Next(action) => {
                let is_reboot = matches!(&action, Action::Send(b) if *b == get_device_reboot_message().to_vec());
                let event = if is_reboot {
                    rig.sent.push(get_device_reboot_message().to_vec());
                    Event::Done
                } else {
                    rig.perform(action)
                };
                next = reader.step(event);
            }
            Step::Finished(result) => break result,
        }
    };
    assert!(matches!(result, Err(BESLinkError::IOError { .. })));
    assert_eq!(reader.bursts_completed(), 0);
}
