//! A model of the memory-mapped mailbox register bank shared with the
//! remote storage service.
//!
//! The hardware exposes a lock bit with read-to-acquire semantics, a
//! data-length field, a command field, target-selection fields, an execute
//! bit, a target-status field (done bit plus status code), and an SRAM word
//! window carrying request and response payloads.  This type holds those
//! fields as plain values; the two methods below model the hardware's own
//! side effects (acquisition on read, release on clearing the execute bit),
//! and a test or embedding stands in for the remote side by writing the
//! response fields directly.

use vstd::prelude::*;
use crate::flash::PAGE_SIZE;

verus! {

/// Number of payload words a page occupies in the SRAM window.
pub const PAGE_WORDS: usize = PAGE_SIZE / 4;

/// Number of words in the mailbox SRAM window: a frame header of two words
/// plus one page of payload.
pub const MBOX_SRAM_WORDS: usize = PAGE_WORDS + 2;

/// The mailbox register bank.
pub struct MailboxRegisters {
    /// Nonzero while some owner holds the mailbox; reading it acquires it.
    pub lock: u32,
    /// Total byte length of the current frame, direction-dependent.
    pub dlen: u32,
    /// Operation code of the current request.
    pub cmd: u32,
    /// Identity of the intended remote receiver.
    pub target_user: u32,
    /// Nonzero marks the target selector as valid.
    pub target_user_valid: u32,
    /// Bit 0 arms the hardware transaction.
    pub execute: u32,
    /// Bit 4 is the done flag; bits 0-3 carry the completion status code.
    pub target_status: u32,
    /// Shared payload window.
    pub sram: [u32; MBOX_SRAM_WORDS],
}

impl MailboxRegisters {
    /// A register bank in its reset state: everything zero.
    pub fn new() -> (r: MailboxRegisters)
        ensures
            r.lock == 0,
            r.dlen == 0,
            r.cmd == 0,
            r.target_user == 0,
            r.target_user_valid == 0,
            r.execute == 0,
            r.target_status == 0,
            r.sram@ == Seq::new(MBOX_SRAM_WORDS as nat, |i: int| 0u32),
    {
        let r = MailboxRegisters {
            lock: 0,
            dlen: 0,
            cmd: 0,
            target_user: 0,
            target_user_valid: 0,
            execute: 0,
            target_status: 0,
            sram: [0; MBOX_SRAM_WORDS],
        };
        proof {
            assert(r.sram@ =~= Seq::new(MBOX_SRAM_WORDS as nat, |i: int| 0u32));
        }
        r
    }

    /// Read the lock register.  The hardware grants the mailbox to a reader
    /// that observes zero, so a read that returns zero leaves the lock set;
    /// a read that observes the mailbox already held changes nothing.
    pub fn read_lock(&mut self) -> (r: u32)
        ensures
            r == old(self).lock,
            final(self).lock == (if old(self).lock == 0 { 1u32 } else { old(self).lock }),
            final(self).dlen == old(self).dlen,
            final(self).cmd == old(self).cmd,
            final(self).target_user == old(self).target_user,
            final(self).target_user_valid == old(self).target_user_valid,
            final(self).execute == old(self).execute,
            final(self).target_status == old(self).target_status,
            final(self).sram == old(self).sram,
    {
        let r = self.lock;
        if r == 0 {
            self.lock = 1;
        }
        r
    }

    /// Clear the execute bit.  The hardware treats this as the end of the
    /// transaction and drops the lock along with it, so the mailbox is free
    /// for the next owner.
    pub fn clear_execute(&mut self)
        ensures
            final(self).execute == old(self).execute & !1u32,
            final(self).lock == 0,
            final(self).dlen == old(self).dlen,
            final(self).cmd == old(self).cmd,
            final(self).target_user == old(self).target_user,
            final(self).target_user_valid == old(self).target_user_valid,
            final(self).target_status == old(self).target_status,
            final(self).sram == old(self).sram,
    {
        self.execute = self.execute & !1u32;
        self.lock = 0;
    }
}

/// The done flag of a target-status value: bit 4.
pub open spec fn done_bit(target_status: u32) -> u32 {
    (target_status >> 4) & 1
}

/// The completion status code of a target-status value: the low nibble.
pub open spec fn status_code(target_status: u32) -> u32 {
    target_status & 0xf
}

} // verus!
