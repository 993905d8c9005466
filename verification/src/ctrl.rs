//! The mailbox-backed flash controller: request admission, lock
//! acquisition and frame encoding, and the completion-polling state
//! machine.

use vstd::prelude::*;
use crate::flash::{EmulatedFlashPage, ErrorCode, FlashError, FlashOperation, FLASH_MAX_PAGES, PAGE_SIZE};
use crate::frame::{byte_of_word, decode_words, page_word};
use crate::regs::{done_bit, status_code, MailboxRegisters, MBOX_SRAM_WORDS, PAGE_WORDS};

verus! {

/// What one invocation of the poll routine observed and, on completion,
/// what it hands back to the client.  Delivering the completion to the
/// client is the embedding's job (see `FlashClient` and
/// `handle_deferred_call`); the controller has already released the mailbox
/// by the time a completion is returned, so a client may issue a new
/// operation at once.
pub enum PollOutcome {
    /// Stale re-entry: no operation is in flight.
    Idle,
    /// The in-flight operation is not done yet; another deferred re-entry
    /// has been requested.
    StillPolling,
    /// A read finished: the page buffer and the operation's result.
    ReadComplete(EmulatedFlashPage, Result<(), FlashError>),
    /// A write finished: the page buffer and the operation's result.
    WriteComplete(EmulatedFlashPage, Result<(), FlashError>),
    /// An erase finished with this result.
    EraseComplete(Result<(), FlashError>),
}

impl PollOutcome {
    /// Whether this outcome delivers a completion callback.
    pub open spec fn is_completion(self) -> bool {
        match self {
            PollOutcome::Idle => false,
            PollOutcome::StillPolling => false,
            PollOutcome::ReadComplete(..) => true,
            PollOutcome::WriteComplete(..) => true,
            PollOutcome::EraseComplete(..) => true,
        }
    }
}

/// The result a completion reports: success exactly when the status code
/// is command-complete (2), a flash error for any other code.
pub open spec fn spec_status_result(target_status: u32) -> Result<(), FlashError> {
    if status_code(target_status) == 2 {
        Ok(())
    } else {
        Err(FlashError::FlashError)
    }
}

/// Whether one poll, entered with `pending` saying if an operation is in
/// flight, delivers a completion: only when one is in flight and the done
/// bit is set.
pub open spec fn poll_fires_callback(pending: bool, target_status: u32) -> bool {
    pending && done_bit(target_status) == 1
}

/// Whether an operation is still in flight after one poll: only when one
/// was in flight and the done bit was still clear.
pub open spec fn pending_after_poll(pending: bool, target_status: u32) -> bool {
    pending && done_bit(target_status) == 0
}

/// Identity of the remote receiver of every request.
pub const SOC_RECEIVER_AXI_USER: u32 = 1;

/// Byte length of the frame header: page number and page size, one word each.
pub const FRAME_HEADER_BYTES: usize = 8;

/// The mailbox flash controller.
///
/// At most one operation is in flight at a time: the local lock flag and
/// the pending-operation tag are set together when a request is accepted
/// and cleared together when its completion is observed.
pub struct MailboxFlashCtrl {
    /// The shared mailbox register bank.
    pub registers: MailboxRegisters,
    /// Buffer staged for an in-flight read, if any.
    pub read_buf: Option<EmulatedFlashPage>,
    /// Buffer staged for an in-flight write, if any.
    pub write_buf: Option<EmulatedFlashPage>,
    /// Kind of the in-flight operation, if any.
    pub pending_op: Option<FlashOperation>,
    /// Whether a deferred re-entry of the poll routine is requested.
    pub deferred_call: bool,
    /// Whether this controller currently owns the hardware mailbox.
    pub mailbox_locked: bool,
}

impl MailboxFlashCtrl {
    /// Well-formedness: the lock flag tracks the pending operation, and a
    /// buffer slot is full exactly while an operation of its kind is in
    /// flight, so a buffer is never held by both slots at once.
    pub open spec fn wf(self) -> bool {
        &&& self.mailbox_locked == self.pending_op.is_some()
        &&& self.read_buf.is_some() == (self.pending_op == Some(FlashOperation::ReadPage))
        &&& self.write_buf.is_some() == (self.pending_op == Some(FlashOperation::WritePage))
    }

    /// No operation in flight and the mailbox not locally held.
    pub open spec fn is_idle(self) -> bool {
        &&& self.pending_op.is_none()
        &&& !self.mailbox_locked
    }

    /// A fresh controller over the given register bank, idle and holding
    /// no buffers.
    pub fn new(registers: MailboxRegisters) -> (r: MailboxFlashCtrl)
        ensures
            r.registers == registers,
            r.read_buf.is_none(),
            r.write_buf.is_none(),
            r.pending_op.is_none(),
            !r.deferred_call,
            !r.mailbox_locked,
            r.wf(),
            r.is_idle(),
    {
        MailboxFlashCtrl {
            registers,
            read_buf: None,
            write_buf: None,
            pending_op: None,
            deferred_call: false,
            mailbox_locked: false,
        }
    }

    /// Prepare the mailbox for first use.
    pub fn init(&mut self)
        ensures
            final(self).registers.lock == 0,
            final(self).registers.execute == old(self).registers.execute & !1u32,
            final(self).registers.dlen == crate::regs::MBOX_SRAM_WORDS as u32 * 4,
            final(self).registers.cmd == old(self).registers.cmd,
            final(self).registers.target_user == old(self).registers.target_user,
            final(self).registers.target_user_valid == old(self).registers.target_user_valid,
            final(self).registers.target_status == old(self).registers.target_status,
            final(self).registers.sram == old(self).registers.sram,
            final(self).read_buf == old(self).read_buf,
            final(self).write_buf == old(self).write_buf,
            final(self).pending_op == old(self).pending_op,
            final(self).deferred_call == old(self).deferred_call,
            final(self).mailbox_locked == old(self).mailbox_locked,
    {
        self.reset_before_use();
    }

    /// Take the hardware lock long enough to stage a full-window length and
    /// drop the execute bit, leaving the mailbox released and quiescent.
    fn reset_before_use(&mut self)
        ensures
            final(self).registers.lock == 0,
            final(self).registers.execute == old(self).registers.execute & !1u32,
            final(self).registers.dlen == crate::regs::MBOX_SRAM_WORDS as u32 * 4,
            final(self).registers.cmd == old(self).registers.cmd,
            final(self).registers.target_user == old(self).registers.target_user,
            final(self).registers.target_user_valid == old(self).registers.target_user_valid,
            final(self).registers.target_status == old(self).registers.target_status,
            final(self).registers.sram == old(self).registers.sram,
            final(self).read_buf == old(self).read_buf,
            final(self).write_buf == old(self).write_buf,
            final(self).pending_op == old(self).pending_op,
            final(self).deferred_call == old(self).deferred_call,
            final(self).mailbox_locked == old(self).mailbox_locked,
    {
        let mbox_sram_size: u32 = crate::regs::MBOX_SRAM_WORDS as u32 * 4;
        // Acquire the lock so the window may be reconfigured.
        let _lock: u32 = self.registers.read_lock();
        self.registers.dlen = mbox_sram_size;
        // Clearing execute ends the transaction and releases the lock.
        self.registers.clear_execute();
    }

    /// Try to take the hardware mailbox: a nonzero lock register means some
    /// owner (possibly the remote side) already holds it.
    fn acquire_lock(&mut self) -> (r: Result<(), ErrorCode>)
        ensures
            old(self).registers.lock != 0 ==> r == Err::<(), ErrorCode>(ErrorCode::Busy)
                && *final(self) == *old(self),
            old(self).registers.lock == 0 ==> r == Ok::<(), ErrorCode>(())
                && final(self).registers.lock == 1
                && final(self).registers.dlen == old(self).registers.dlen
                && final(self).registers.cmd == old(self).registers.cmd
                && final(self).registers.target_user == old(self).registers.target_user
                && final(self).registers.target_user_valid == old(self).registers.target_user_valid
                && final(self).registers.execute == old(self).registers.execute
                && final(self).registers.target_status == old(self).registers.target_status
                && final(self).registers.sram == old(self).registers.sram
                && final(self).read_buf == old(self).read_buf
                && final(self).write_buf == old(self).write_buf
                && final(self).pending_op == old(self).pending_op
                && final(self).deferred_call == old(self).deferred_call
                && final(self).mailbox_locked == old(self).mailbox_locked,
    {
        if self.registers.read_lock() != 0 {
            return Err(ErrorCode::Busy);
        }
        Ok(())
    }

    /// Release the mailbox by clearing the execute bit; the hardware drops
    /// the lock with it.
    fn release_lock(&mut self)
        ensures
            final(self).registers.execute == old(self).registers.execute & !1u32,
            final(self).registers.lock == 0,
            final(self).registers.dlen == old(self).registers.dlen,
            final(self).registers.cmd == old(self).registers.cmd,
            final(self).registers.target_user == old(self).registers.target_user,
            final(self).registers.target_user_valid == old(self).registers.target_user_valid,
            final(self).registers.target_status == old(self).registers.target_status,
            final(self).registers.sram == old(self).registers.sram,
            final(self).read_buf == old(self).read_buf,
            final(self).write_buf == old(self).write_buf,
            final(self).pending_op == old(self).pending_op,
            final(self).deferred_call == old(self).deferred_call,
            final(self).mailbox_locked == old(self).mailbox_locked,
    {
        self.registers.clear_execute();
    }

    /// Start a mailbox operation: acquire the hardware lock, encode the
    /// request frame into the SRAM window, arm the execute bit, and request
    /// a deferred re-entry to begin polling.
    fn start_mailbox_op(&mut self, op: FlashOperation, page_number: usize) -> (r: Result<
        (),
        ErrorCode,
    >)
        requires
            old(self).pending_op.is_none(),
            !old(self).mailbox_locked,
            page_number < FLASH_MAX_PAGES,
            op == FlashOperation::ReadPage ==> old(self).read_buf.is_some()
                && old(self).write_buf.is_none(),
            op == FlashOperation::WritePage ==> old(self).read_buf.is_none(),
            op == FlashOperation::ErasePage ==> old(self).read_buf.is_none()
                && old(self).write_buf.is_none(),
        ensures
            old(self).registers.lock != 0 ==> r == Err::<(), ErrorCode>(ErrorCode::Busy)
                && *final(self) == *old(self),
            old(self).registers.lock == 0 && op == FlashOperation::WritePage
                && old(self).write_buf.is_none() ==> r == Err::<(), ErrorCode>(ErrorCode::Inval)
                && final(self).pending_op.is_none()
                && !final(self).mailbox_locked
                && final(self).read_buf == old(self).read_buf
                && final(self).write_buf == old(self).write_buf
                && final(self).deferred_call == old(self).deferred_call
                && final(self).registers.lock == 0
                && final(self).registers.execute == old(self).registers.execute & !1u32
                && final(self).registers.dlen == old(self).registers.dlen
                && final(self).registers.cmd == old(self).registers.cmd
                && final(self).registers.target_user == old(self).registers.target_user
                && final(self).registers.target_user_valid == old(
                    self,
                ).registers.target_user_valid
                && final(self).registers.target_status == old(self).registers.target_status
                && final(self).registers.sram@ == old(self).registers.sram@.update(
                    0,
                    page_number as u32,
                ).update(1, PAGE_SIZE as u32),
            old(self).registers.lock == 0 && (op == FlashOperation::WritePage ==> old(
                self,
            ).write_buf.is_some()) ==> r == Ok::<(), ErrorCode>(())
                && final(self).pending_op == Some(op)
                && final(self).mailbox_locked
                && final(self).deferred_call
                && final(self).read_buf == old(self).read_buf
                && final(self).write_buf == old(self).write_buf
                && final(self).wf()
                && final(self).registers.lock == 1
                && final(self).registers.dlen == spec_frame_dlen(op)
                && final(self).registers.cmd == op.spec_command_code()
                && final(self).registers.target_user == SOC_RECEIVER_AXI_USER
                && final(self).registers.target_user_valid == 1
                && final(self).registers.execute == old(self).registers.execute | 1u32
                && final(self).registers.target_status == old(self).registers.target_status
                && final(self).registers.sram@.len() == MBOX_SRAM_WORDS
                && final(self).registers.sram@[0] == page_number as u32
                && final(self).registers.sram@[1] == PAGE_SIZE as u32
                && (op == FlashOperation::WritePage ==> forall|i: int|
                    0 <= i < PAGE_WORDS ==> final(self).registers.sram@[2 + i] == page_word(
                        old(self).write_buf.unwrap()@,
                        i,
                    ))
                && (op != FlashOperation::WritePage ==> forall|k: int|
                    2 <= k < MBOX_SRAM_WORDS ==> final(self).registers.sram@[k] == old(
                        self,
                    ).registers.sram@[k]),
    {
        // Only proceed if no other owner holds the mailbox.
        match self.acquire_lock() {
            Err(e) => {
                return Err(e);
            },
            Ok(()) => {},
        }

        self.mailbox_locked = true;
        self.pending_op = Some(op);

        // Frame layout: word 0 = page number, word 1 = page size,
        // words 2.. = page data (for writes).
        self.registers.sram[0] = page_number as u32;
        self.registers.sram[1] = PAGE_SIZE as u32;
        assert(self.registers.sram@[0] == page_number as u32);
        assert(self.registers.sram@[1] == PAGE_SIZE as u32);

        if op == FlashOperation::WritePage {
            if self.write_buf.is_none() {
                // A write with no staged buffer breaks the caller's
                // contract: roll the acquisition back and reject it.
                self.release_lock();
                self.mailbox_locked = false;
                self.pending_op = None;
                return Err(ErrorCode::Inval);
            }
            let data = self.write_buf.take().unwrap();
            let ghost snap = *self;
            let mut i: usize = 0;
            while i < PAGE_WORDS
                invariant
                    0 <= i <= PAGE_WORDS,
                    self.registers.sram@.len() == MBOX_SRAM_WORDS,
                    forall|j: int| 0 <= j < i ==> self.registers.sram@[2 + j] == page_word(
                        data@,
                        j,
                    ),
                    forall|k: int| 0 <= k < 2 ==> self.registers.sram@[k] == snap.registers.sram@[k],
                    self.registers.lock == snap.registers.lock,
                    self.registers.dlen == snap.registers.dlen,
                    self.registers.cmd == snap.registers.cmd,
                    self.registers.target_user == snap.registers.target_user,
                    self.registers.target_user_valid == snap.registers.target_user_valid,
                    self.registers.execute == snap.registers.execute,
                    self.registers.target_status == snap.registers.target_status,
                    self.read_buf == snap.read_buf,
                    self.write_buf == snap.write_buf,
                    self.pending_op == snap.pending_op,
                    self.deferred_call == snap.deferred_call,
                    self.mailbox_locked == snap.mailbox_locked,
                decreases PAGE_WORDS - i,
            {
                let b0 = data.0[4 * i];
                let b1 = data.0[4 * i + 1];
                let b2 = data.0[4 * i + 2];
                let b3 = data.0[4 * i + 3];
                let word: u32 = (b0 as u32) | ((b1 as u32) << 8) | ((b2 as u32) << 16) | ((
                b3 as u32) << 24);
                self.registers.sram[2 + i] = word;
                i = i + 1;
            }
            // The buffer is not consumed at this stage: it goes back into
            // its slot until the completion callback hands it out.
            self.write_buf = Some(data);
        }

        let total_dlen: u32 = match op {
            FlashOperation::WritePage => (FRAME_HEADER_BYTES + PAGE_SIZE) as u32,
            _ => FRAME_HEADER_BYTES as u32,
        };
        self.registers.dlen = total_dlen;
        self.registers.cmd = op.command_code();
        self.registers.target_user = SOC_RECEIVER_AXI_USER;
        self.registers.target_user_valid = 1;
        // Arm the hardware transaction.
        self.registers.execute = self.registers.execute | 1;
        // Begin polling for completion at the next deferred re-entry.
        self.deferred_call = true;
        Ok(())
    }

    /// Request that a page be read from flash.
    ///
    /// Success means accepted and armed, not completed: the buffer is owned
    /// by the controller until a later poll observes completion and hands
    /// it back.  A rejected request returns the caller's buffer unchanged.
    pub fn read_page(&mut self, page_number: usize, buf: EmulatedFlashPage) -> (r: Result<
        (),
        (ErrorCode, EmulatedFlashPage),
    >)
        requires
            old(self).wf(),
        ensures
            final(self).wf(),
            page_number >= FLASH_MAX_PAGES ==> (r matches Err(e) && e.0 == ErrorCode::Inval
                && e.1 == buf) && *final(self) == *old(self),
            page_number < FLASH_MAX_PAGES && !old(self).is_idle() ==> (r matches Err(e)
                && e.0 == ErrorCode::Busy && e.1 == buf) && *final(self) == *old(self),
            page_number < FLASH_MAX_PAGES && old(self).is_idle() && old(self).registers.lock != 0
                ==> (r matches Err(e) && e.0 == ErrorCode::Busy && e.1 == buf) && *final(self)
                == *old(self),
            page_number < FLASH_MAX_PAGES && old(self).is_idle() && old(self).registers.lock == 0
                ==> r == Ok::<(), (ErrorCode, EmulatedFlashPage)>(())
                && final(self).pending_op == Some(FlashOperation::ReadPage)
                && final(self).mailbox_locked
                && final(self).deferred_call
                && final(self).read_buf == Some(buf)
                && final(self).write_buf.is_none()
                && final(self).registers.lock == 1
                && final(self).registers.dlen == spec_frame_dlen(FlashOperation::ReadPage)
                && final(self).registers.cmd == FlashOperation::ReadPage.spec_command_code()
                && final(self).registers.target_user == SOC_RECEIVER_AXI_USER
                && final(self).registers.target_user_valid == 1
                && final(self).registers.execute == old(self).registers.execute | 1u32
                && final(self).registers.target_status == old(self).registers.target_status
                && final(self).registers.sram@[0] == page_number as u32
                && final(self).registers.sram@[1] == PAGE_SIZE as u32
                && (forall|k: int| 2 <= k < MBOX_SRAM_WORDS ==> final(self).registers.sram@[k]
                    == old(self).registers.sram@[k]),
    {
        if page_number >= FLASH_MAX_PAGES {
            return Err((ErrorCode::Inval, buf));
        }
        if self.pending_op.is_some() || self.mailbox_locked {
            return Err((ErrorCode::Busy, buf));
        }
        // Stage the buffer first, so a failure during hardware setup can
        // still retrieve it and hand it back.
        self.read_buf = Some(buf);
        match self.start_mailbox_op(FlashOperation::ReadPage, page_number) {
            Ok(()) => Ok(()),
            Err(e) => {
                let b = self.read_buf.take().unwrap();
                Err((e, b))
            },
        }
    }

    /// Request that a page be written to flash.
    ///
    /// Success means accepted and armed: the page's bytes are already packed
    /// into the SRAM frame words, and the buffer stays with the controller
    /// until completion.  A rejected request returns the buffer unchanged.
    pub fn write_page(&mut self, page_number: usize, buf: EmulatedFlashPage) -> (r: Result<
        (),
        (ErrorCode, EmulatedFlashPage),
    >)
        requires
            old(self).wf(),
        ensures
            final(self).wf(),
            page_number >= FLASH_MAX_PAGES ==> (r matches Err(e) && e.0 == ErrorCode::Inval
                && e.1 == buf) && *final(self) == *old(self),
            page_number < FLASH_MAX_PAGES && !old(self).is_idle() ==> (r matches Err(e)
                && e.0 == ErrorCode::Busy && e.1 == buf) && *final(self) == *old(self),
            page_number < FLASH_MAX_PAGES && old(self).is_idle() && old(self).registers.lock != 0
                ==> (r matches Err(e) && e.0 == ErrorCode::Busy && e.1 == buf) && *final(self)
                == *old(self),
            page_number < FLASH_MAX_PAGES && old(self).is_idle() && old(self).registers.lock == 0
                ==> r == Ok::<(), (ErrorCode, EmulatedFlashPage)>(())
                && final(self).pending_op == Some(FlashOperation::WritePage)
                && final(self).mailbox_locked
                && final(self).deferred_call
                && final(self).write_buf == Some(buf)
                && final(self).read_buf.is_none()
                && final(self).registers.lock == 1
                && final(self).registers.dlen == spec_frame_dlen(FlashOperation::WritePage)
                && final(self).registers.cmd == FlashOperation::WritePage.spec_command_code()
                && final(self).registers.target_user == SOC_RECEIVER_AXI_USER
                && final(self).registers.target_user_valid == 1
                && final(self).registers.execute == old(self).registers.execute | 1u32
                && final(self).registers.target_status == old(self).registers.target_status
                && final(self).registers.sram@[0] == page_number as u32
                && final(self).registers.sram@[1] == PAGE_SIZE as u32
                && (forall|i: int| 0 <= i < PAGE_WORDS ==> final(self).registers.sram@[2 + i]
                    == page_word(buf@, i)),
    {
        if page_number >= FLASH_MAX_PAGES {
            return Err((ErrorCode::Inval, buf));
        }
        if self.pending_op.is_some() || self.mailbox_locked {
            return Err((ErrorCode::Busy, buf));
        }
        self.write_buf = Some(buf);
        match self.start_mailbox_op(FlashOperation::WritePage, page_number) {
            Ok(()) => {
                proof {
                    assert forall|i: int| 0 <= i < PAGE_WORDS implies self.registers.sram@[2 + i]
                        == page_word(buf@, i) by {
                        assert(self.registers.sram@[2 + i] == page_word(Some(buf).unwrap()@, i));
                    }
                }
                Ok(())
            },
            Err(e) => {
                let b = self.write_buf.take().unwrap();
                Err((e, b))
            },
        }
    }

    /// Request that a page be erased.  No buffer is involved; completion is
    /// reported through a later poll.
    pub fn erase_page(&mut self, page_number: usize) -> (r: Result<(), ErrorCode>)
        requires
            old(self).wf(),
        ensures
            final(self).wf(),
            page_number >= FLASH_MAX_PAGES ==> r == Err::<(), ErrorCode>(ErrorCode::Inval)
                && *final(self) == *old(self),
            page_number < FLASH_MAX_PAGES && !old(self).is_idle() ==> r == Err::<(), ErrorCode>(
                ErrorCode::Busy,
            ) && *final(self) == *old(self),
            page_number < FLASH_MAX_PAGES && old(self).is_idle() && old(self).registers.lock != 0
                ==> r == Err::<(), ErrorCode>(ErrorCode::Busy) && *final(self) == *old(self),
            page_number < FLASH_MAX_PAGES && old(self).is_idle() && old(self).registers.lock == 0
                ==> r == Ok::<(), ErrorCode>(())
                && final(self).pending_op == Some(FlashOperation::ErasePage)
                && final(self).mailbox_locked
                && final(self).deferred_call
                && final(self).read_buf.is_none()
                && final(self).write_buf.is_none()
                && final(self).registers.lock == 1
                && final(self).registers.dlen == spec_frame_dlen(FlashOperation::ErasePage)
                && final(self).registers.cmd == FlashOperation::ErasePage.spec_command_code()
                && final(self).registers.target_user == SOC_RECEIVER_AXI_USER
                && final(self).registers.target_user_valid == 1
                && final(self).registers.execute == old(self).registers.execute | 1u32
                && final(self).registers.target_status == old(self).registers.target_status
                && final(self).registers.sram@[0] == page_number as u32
                && final(self).registers.sram@[1] == PAGE_SIZE as u32
                && (forall|k: int| 2 <= k < MBOX_SRAM_WORDS ==> final(self).registers.sram@[k]
                    == old(self).registers.sram@[k]),
    {
        if page_number >= FLASH_MAX_PAGES {
            return Err(ErrorCode::Inval);
        }
        if self.pending_op.is_some() || self.mailbox_locked {
            return Err(ErrorCode::Busy);
        }
        match self.start_mailbox_op(FlashOperation::ErasePage, page_number) {
            Ok(()) => Ok(()),
            Err(e) => Err(e),
        }
    }

    /// Poll the mailbox for completion of the in-flight operation.
    ///
    /// A stale re-entry with nothing in flight is a no-op.  While the done
    /// bit is clear, the poll only re-requests a deferred re-entry: no
    /// completion is delivered and the mailbox stays held.  Once the done
    /// bit is set, the response is decoded (for reads), the mailbox is
    /// released, and the completion is delivered exactly once — the
    /// operation is no longer pending afterwards, so every later poll is a
    /// no-op until a new request is accepted.
    pub fn poll_mailbox_status(&mut self) -> (r: PollOutcome)
        requires
            old(self).wf(),
        ensures
            final(self).wf(),
            r.is_completion() == poll_fires_callback(
                old(self).pending_op.is_some(),
                old(self).registers.target_status,
            ),
            final(self).pending_op.is_some() == pending_after_poll(
                old(self).pending_op.is_some(),
                old(self).registers.target_status,
            ),
            old(self).pending_op.is_none() ==> r == PollOutcome::Idle && *final(self) == *old(
                self,
            ),
            old(self).pending_op.is_some() && done_bit(old(self).registers.target_status) == 0
                ==> r == PollOutcome::StillPolling
                && final(self).registers == old(self).registers
                && final(self).read_buf == old(self).read_buf
                && final(self).write_buf == old(self).write_buf
                && final(self).pending_op == old(self).pending_op
                && final(self).mailbox_locked == old(self).mailbox_locked
                && final(self).deferred_call,
            old(self).pending_op.is_some() && done_bit(old(self).registers.target_status) == 1
                ==> final(self).is_idle()
                && final(self).read_buf.is_none()
                && final(self).write_buf.is_none()
                && final(self).deferred_call == old(self).deferred_call
                && final(self).registers.lock == 0
                && final(self).registers.execute == old(self).registers.execute & !1u32
                && final(self).registers.dlen == old(self).registers.dlen
                && final(self).registers.cmd == old(self).registers.cmd
                && final(self).registers.target_user == old(self).registers.target_user
                && final(self).registers.target_user_valid == old(
                    self,
                ).registers.target_user_valid
                && final(self).registers.target_status == old(self).registers.target_status
                && final(self).registers.sram == old(self).registers.sram,
            old(self).pending_op == Some(FlashOperation::ErasePage) && done_bit(
                old(self).registers.target_status,
            ) == 1 ==> r == PollOutcome::EraseComplete(
                spec_status_result(old(self).registers.target_status),
            ),
            old(self).pending_op == Some(FlashOperation::WritePage) && done_bit(
                old(self).registers.target_status,
            ) == 1 ==> (r matches PollOutcome::WriteComplete(b, res) && Some(b) == old(
                self,
            ).write_buf && res == spec_status_result(old(self).registers.target_status)),
            old(self).pending_op == Some(FlashOperation::ReadPage) && done_bit(
                old(self).registers.target_status,
            ) == 1 && old(self).registers.dlen != PAGE_SIZE as u32 ==> (r matches
                PollOutcome::ReadComplete(b, res) && Some(b) == old(self).read_buf && res == Err::<
                (),
                FlashError,
            >(FlashError::FlashError)),
            old(self).pending_op == Some(FlashOperation::ReadPage) && done_bit(
                old(self).registers.target_status,
            ) == 1 && old(self).registers.dlen == PAGE_SIZE as u32 ==> (r matches
                PollOutcome::ReadComplete(b, res) && b@ == decode_words(
                old(self).registers.sram@.subrange(0, PAGE_WORDS as int),
            ) && res == spec_status_result(old(self).registers.target_status)),
    {
        if !self.mailbox_locked || self.pending_op.is_none() {
            return PollOutcome::Idle;
        }
        let target_status = self.registers.target_status;
        let done = (target_status >> 4) & 0x1;
        let status = target_status & 0xf;

        if done == 1 {
            // The operation is complete; its tag can only have been cleared
            // by this same branch, so it is present.
            let op = self.pending_op.take().unwrap();
            match op {
                FlashOperation::ReadPage => {
                    let mut buf = self.read_buf.take().unwrap();
                    // The response must carry exactly one page.
                    let dlen = self.registers.dlen;
                    if dlen != PAGE_SIZE as u32 {
                        // Protocol failure: discard the frame undecoded.
                        self.release_lock();
                        self.mailbox_locked = false;
                        return PollOutcome::ReadComplete(
                            buf,
                            Err(FlashError::FlashError),
                        );
                    }
                    // Unpack the response words into the page buffer.
                    let ghost snap = *self;
                    let mut i: usize = 0;
                    while i < PAGE_WORDS
                        invariant
                            i <= PAGE_WORDS,
                            *self == snap,
                            buf.0@.len() == PAGE_SIZE,
                            forall|k: int| 0 <= k < 4 * i ==> buf.0@[k] == byte_of_word(
                                snap.registers.sram@[k / 4],
                                k % 4,
                            ),
                        decreases PAGE_WORDS - i,
                    {
                        let word = self.registers.sram[i];
                        buf.0[4 * i] = (word & 0xff) as u8;
                        buf.0[4 * i + 1] = ((word >> 8) & 0xff) as u8;
                        buf.0[4 * i + 2] = ((word >> 16) & 0xff) as u8;
                        buf.0[4 * i + 3] = ((word >> 24) & 0xff) as u8;
                        i = i + 1;
                    }
                    proof {
                        let words = snap.registers.sram@.subrange(0, PAGE_WORDS as int);
                        assert forall|k: int| 0 <= k < PAGE_SIZE implies buf.0@[k]
                            == decode_words(words)[k] by {
                            assert(buf.0@[k] == byte_of_word(snap.registers.sram@[k / 4], k % 4));
                            assert(words[k / 4] == snap.registers.sram@[k / 4]);
                        }
                        assert(buf@ =~= decode_words(words));
                    }
                    // Release the mailbox before reporting completion, so a
                    // client callback may start another operation at once.
                    self.release_lock();
                    self.mailbox_locked = false;
                    if status == 2 {
                        PollOutcome::ReadComplete(buf, Ok(()))
                    } else {
                        PollOutcome::ReadComplete(buf, Err(FlashError::FlashError))
                    }
                },
                FlashOperation::WritePage => {
                    let buf = self.write_buf.take().unwrap();
                    self.release_lock();
                    self.mailbox_locked = false;
                    if status == 2 {
                        PollOutcome::WriteComplete(buf, Ok(()))
                    } else {
                        PollOutcome::WriteComplete(buf, Err(FlashError::FlashError))
                    }
                },
                FlashOperation::ErasePage => {
                    self.release_lock();
                    self.mailbox_locked = false;
                    if status == 2 {
                        PollOutcome::EraseComplete(Ok(()))
                    } else {
                        PollOutcome::EraseComplete(Err(FlashError::FlashError))
                    }
                },
            }
        } else {
            proof {
                let ts = target_status;
                assert((ts >> 4) & 1 == 0 || (ts >> 4) & 1 == 1) by (bit_vector);
            }
            // Not done yet: ask for another deferred re-entry.
            self.deferred_call = true;
            PollOutcome::StillPolling
        }
    }

    /// Run one deferred re-entry, if one was requested: poll the mailbox
    /// and deliver any completion to the client.  Requests for re-entry
    /// coalesce — however many were made, one poll runs.
    pub fn handle_deferred_call<C: FlashClient>(&mut self, client: &mut C)
        requires
            old(self).wf(),
        ensures
            final(self).wf(),
            !old(self).deferred_call ==> *final(self) == *old(self),
            old(self).deferred_call ==> final(self).pending_op.is_some() == pending_after_poll(
                old(self).pending_op.is_some(),
                old(self).registers.target_status,
            ),
            old(self).deferred_call ==> final(self).deferred_call == pending_after_poll(
                old(self).pending_op.is_some(),
                old(self).registers.target_status,
            ),
            old(self).deferred_call && old(self).pending_op.is_none() ==> final(self).is_idle()
                && final(self).registers == old(self).registers
                && final(self).read_buf == old(self).read_buf
                && final(self).write_buf == old(self).write_buf,
            old(self).deferred_call && old(self).pending_op.is_some() && done_bit(
                old(self).registers.target_status,
            ) == 0 ==> final(self).registers == old(self).registers
                && final(self).read_buf == old(self).read_buf
                && final(self).write_buf == old(self).write_buf
                && final(self).pending_op == old(self).pending_op
                && final(self).mailbox_locked == old(self).mailbox_locked,
            old(self).deferred_call && old(self).pending_op.is_some() && done_bit(
                old(self).registers.target_status,
            ) == 1 ==> final(self).is_idle()
                && final(self).read_buf.is_none()
                && final(self).write_buf.is_none()
                && final(self).registers.lock == 0
                && final(self).registers.execute == old(self).registers.execute & !1u32
                && final(self).registers.target_status == old(self).registers.target_status
                && final(self).registers.sram == old(self).registers.sram,
    {
        if !self.deferred_call {
            return;
        }
        self.deferred_call = false;
        proof {
            let ts = self.registers.target_status;
            assert((ts >> 4) & 1 == 0 || (ts >> 4) & 1 == 1) by (bit_vector);
        }
        let outcome = self.poll_mailbox_status();
        match outcome {
            PollOutcome::Idle => {},
            PollOutcome::StillPolling => {},
            PollOutcome::ReadComplete(buf, result) => client.read_complete(buf, result),
            PollOutcome::WriteComplete(buf, result) => client.write_complete(buf, result),
            PollOutcome::EraseComplete(result) => client.erase_complete(result),
        }
    }
}

/// The completion-callback capability a client supplies.  The controller
/// invokes exactly one of these methods for each accepted operation, from
/// within a deferred re-entry, after the mailbox has been released — so an
/// implementation may start the next operation from inside its callback.
pub trait FlashClient {
    /// A read finished; the page buffer comes back with the result.
    fn read_complete(&mut self, buf: EmulatedFlashPage, result: Result<(), FlashError>);

    /// A write finished; the page buffer comes back with the result.
    fn write_complete(&mut self, buf: EmulatedFlashPage, result: Result<(), FlashError>);

    /// An erase finished with this result.
    fn erase_complete(&mut self, result: Result<(), FlashError>);
}

/// Total byte length of the request frame: header only for reads and
/// erases, header plus one page of payload for writes.
pub open spec fn spec_frame_dlen(op: FlashOperation) -> u32 {
    if op == FlashOperation::WritePage {
        (FRAME_HEADER_BYTES + PAGE_SIZE) as u32
    } else {
        FRAME_HEADER_BYTES as u32
    }
}

} // verus!
