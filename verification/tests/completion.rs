use mailbox_flash::ctrl::{FlashClient, MailboxFlashCtrl, PollOutcome};
use mailbox_flash::flash::{EmulatedFlashPage, FlashError, PAGE_SIZE};
use mailbox_flash::regs::{MailboxRegisters, PAGE_WORDS};

fn fresh_ctrl() -> MailboxFlashCtrl {
    MailboxFlashCtrl::new(MailboxRegisters::new())
}

/// A target-status value with the done bit set and the given status code.
fn done_status(code: u32) -> u32 {
    (1 << 4) | code
}

#[test]
fn polling_while_not_done_keeps_lock_and_fires_nothing() {
    let mut ctrl = fresh_ctrl();
    assert!(ctrl.erase_page(0).is_ok());
    // Status codes may change while the done bit stays clear.
    for status in [0u32, 2, 0xf] {
        ctrl.registers.target_status = status;
        assert!(matches!(ctrl.poll_mailbox_status(), PollOutcome::StillPolling));
        assert!(ctrl.mailbox_locked);
        assert_eq!(ctrl.registers.lock, 1);
        assert!(ctrl.pending_op.is_some());
        assert!(ctrl.deferred_call);
    }
}

#[test]
fn completion_fires_exactly_once() {
    let mut ctrl = fresh_ctrl();
    assert!(ctrl.erase_page(4).is_ok());
    for _ in 0..3 {
        ctrl.registers.target_status = 0;
        assert!(matches!(ctrl.poll_mailbox_status(), PollOutcome::StillPolling));
    }
    ctrl.registers.target_status = done_status(2);
    match ctrl.poll_mailbox_status() {
        PollOutcome::EraseComplete(result) => assert_eq!(result, Ok(())),
        _ => panic!("expected the erase completion"),
    }
    // The operation is gone: further polls deliver nothing.
    assert!(matches!(ctrl.poll_mailbox_status(), PollOutcome::Idle));
    assert!(matches!(ctrl.poll_mailbox_status(), PollOutcome::Idle));
    assert!(ctrl.pending_op.is_none());
    assert!(!ctrl.mailbox_locked);
}

#[test]
fn status_code_mapping_for_all_three_kinds() {
    // Erase: command-complete yields success, anything else a flash error.
    for code in [0u32, 1, 3, 0xf] {
        let mut ctrl = fresh_ctrl();
        assert!(ctrl.erase_page(1).is_ok());
        ctrl.registers.target_status = done_status(code);
        match ctrl.poll_mailbox_status() {
            PollOutcome::EraseComplete(result) => {
                assert_eq!(result, Err(FlashError::FlashError))
            }
            _ => panic!("expected the erase completion"),
        }
    }
    let mut ctrl = fresh_ctrl();
    assert!(ctrl.erase_page(1).is_ok());
    ctrl.registers.target_status = done_status(2);
    match ctrl.poll_mailbox_status() {
        PollOutcome::EraseComplete(result) => assert_eq!(result, Ok(())),
        _ => panic!("expected the erase completion"),
    }

    // Write: same mapping, and the buffer comes back either way.
    let mut ctrl = fresh_ctrl();
    assert!(ctrl.write_page(2, EmulatedFlashPage([0x5A; PAGE_SIZE])).is_ok());
    ctrl.registers.target_status = done_status(7);
    match ctrl.poll_mailbox_status() {
        PollOutcome::WriteComplete(buf, result) => {
            assert_eq!(result, Err(FlashError::FlashError));
            assert_eq!(buf.0, [0x5A; PAGE_SIZE]);
        }
        _ => panic!("expected the write completion"),
    }

    // Read: same mapping; a well-formed response is decoded either way.
    let mut ctrl = fresh_ctrl();
    assert!(ctrl.read_page(0, EmulatedFlashPage::default()).is_ok());
    ctrl.registers.dlen = PAGE_SIZE as u32;
    ctrl.registers.target_status = done_status(0);
    match ctrl.poll_mailbox_status() {
        PollOutcome::ReadComplete(_, result) => {
            assert_eq!(result, Err(FlashError::FlashError))
        }
        _ => panic!("expected the read completion"),
    }
}

#[test]
fn read_length_mismatch_reports_error_without_decoding() {
    let mut ctrl = fresh_ctrl();
    assert!(ctrl.read_page(3, EmulatedFlashPage([0x55; PAGE_SIZE])).is_ok());
    // Remote reports done and command-complete, but a wrong byte count.
    ctrl.registers.dlen = 100;
    ctrl.registers.target_status = done_status(2);
    match ctrl.poll_mailbox_status() {
        PollOutcome::ReadComplete(buf, result) => {
            assert_eq!(result, Err(FlashError::FlashError));
            // The frame was discarded: the buffer was not overwritten.
            assert_eq!(buf.0, [0x55; PAGE_SIZE]);
        }
        _ => panic!("expected the read completion"),
    }
    assert!(ctrl.pending_op.is_none());
    assert!(!ctrl.mailbox_locked);
    assert_eq!(ctrl.registers.lock, 0);
}

#[test]
fn write_end_to_end_returns_buffer_on_success() {
    let mut ctrl = fresh_ctrl();
    assert!(ctrl.write_page(5, EmulatedFlashPage([0xAA; PAGE_SIZE])).is_ok());
    assert_eq!(ctrl.registers.sram[0], 5);
    assert_eq!(ctrl.registers.sram[1], PAGE_SIZE as u32);
    for i in 0..PAGE_WORDS {
        assert_eq!(ctrl.registers.sram[2 + i], 0xAAAA_AAAA);
    }
    assert_eq!(ctrl.registers.execute & 1, 1);
    ctrl.registers.target_status = done_status(2);
    match ctrl.poll_mailbox_status() {
        PollOutcome::WriteComplete(buf, result) => {
            assert_eq!(result, Ok(()));
            assert_eq!(buf.0, [0xAA; PAGE_SIZE]);
        }
        _ => panic!("expected the write completion"),
    }
    assert!(ctrl.pending_op.is_none());
    assert!(!ctrl.mailbox_locked);
    assert_eq!(ctrl.registers.lock, 0);
}

#[test]
fn read_end_to_end_decodes_all_zero_payload() {
    let mut ctrl = fresh_ctrl();
    assert!(ctrl.read_page(0, EmulatedFlashPage([0xFF; PAGE_SIZE])).is_ok());
    // The remote side answers with a full page of zeroes.
    for i in 0..PAGE_WORDS {
        ctrl.registers.sram[i] = 0;
    }
    ctrl.registers.dlen = PAGE_SIZE as u32;
    ctrl.registers.target_status = done_status(2);
    match ctrl.poll_mailbox_status() {
        PollOutcome::ReadComplete(buf, result) => {
            assert_eq!(result, Ok(()));
            assert_eq!(buf.0, [0u8; PAGE_SIZE]);
        }
        _ => panic!("expected the read completion"),
    }
}

#[test]
fn packing_and_unpacking_round_trips_a_page() {
    // Encode a page through a write request, then feed the very words back
    // through a read completion: the decoded buffer equals the original.
    let mut pattern = [0u8; PAGE_SIZE];
    for (i, b) in pattern.iter_mut().enumerate() {
        *b = (i % 251) as u8;
    }
    let mut writer = fresh_ctrl();
    assert!(writer.write_page(1, EmulatedFlashPage(pattern)).is_ok());
    let mut words = [0u32; PAGE_WORDS];
    words.copy_from_slice(&writer.registers.sram[2..2 + PAGE_WORDS]);

    let mut reader = fresh_ctrl();
    assert!(reader.read_page(1, EmulatedFlashPage::default()).is_ok());
    for i in 0..PAGE_WORDS {
        reader.registers.sram[i] = words[i];
    }
    reader.registers.dlen = PAGE_SIZE as u32;
    reader.registers.target_status = done_status(2);
    match reader.poll_mailbox_status() {
        PollOutcome::ReadComplete(buf, result) => {
            assert_eq!(result, Ok(()));
            assert_eq!(buf.0, pattern);
        }
        _ => panic!("expected the read completion"),
    }
}

#[test]
fn little_endian_packing_within_each_word() {
    let mut pattern = [0u8; PAGE_SIZE];
    pattern[0] = 0x01;
    pattern[1] = 0x02;
    pattern[2] = 0x03;
    pattern[3] = 0x04;
    let mut ctrl = fresh_ctrl();
    assert!(ctrl.write_page(0, EmulatedFlashPage(pattern)).is_ok());
    assert_eq!(ctrl.registers.sram[2], 0x0403_0201);
}

struct CountingClient {
    reads: usize,
    writes: usize,
    erases: usize,
    last_result_ok: Option<bool>,
    last_buf: Option<EmulatedFlashPage>,
}

impl CountingClient {
    fn new() -> CountingClient {
        CountingClient { reads: 0, writes: 0, erases: 0, last_result_ok: None, last_buf: None }
    }
}

impl FlashClient for CountingClient {
    fn read_complete(&mut self, buf: EmulatedFlashPage, result: Result<(), FlashError>) {
        self.reads += 1;
        self.last_result_ok = Some(result.is_ok());
        self.last_buf = Some(buf);
    }

    fn write_complete(&mut self, buf: EmulatedFlashPage, result: Result<(), FlashError>) {
        self.writes += 1;
        self.last_result_ok = Some(result.is_ok());
        self.last_buf = Some(buf);
    }

    fn erase_complete(&mut self, result: Result<(), FlashError>) {
        self.erases += 1;
        self.last_result_ok = Some(result.is_ok());
    }
}

#[test]
fn deferred_calls_drive_the_client_exactly_once() {
    let mut ctrl = fresh_ctrl();
    let mut client = CountingClient::new();
    assert!(ctrl.erase_page(6).is_ok());
    // Several re-entries while the remote side is still working.
    for _ in 0..4 {
        assert!(ctrl.deferred_call);
        ctrl.handle_deferred_call(&mut client);
        assert_eq!(client.erases, 0);
        assert!(ctrl.mailbox_locked);
    }
    ctrl.registers.target_status = done_status(2);
    ctrl.handle_deferred_call(&mut client);
    assert_eq!(client.erases, 1);
    assert_eq!(client.last_result_ok, Some(true));
    assert!(!ctrl.mailbox_locked);
    assert!(!ctrl.deferred_call);
    // A stale extra re-entry does nothing.
    ctrl.deferred_call = true;
    ctrl.handle_deferred_call(&mut client);
    assert_eq!(client.erases, 1);
    assert_eq!(client.reads + client.writes, 0);
}

#[test]
fn client_callback_returns_the_written_buffer() {
    let mut ctrl = fresh_ctrl();
    let mut client = CountingClient::new();
    assert!(ctrl.write_page(8, EmulatedFlashPage([0xC3; PAGE_SIZE])).is_ok());
    ctrl.registers.target_status = done_status(2);
    ctrl.handle_deferred_call(&mut client);
    assert_eq!(client.writes, 1);
    assert_eq!(client.last_result_ok, Some(true));
    let buf = client.last_buf.take().expect("buffer handed back");
    assert_eq!(buf.0, [0xC3; PAGE_SIZE]);
}
