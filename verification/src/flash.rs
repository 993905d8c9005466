//! Pages, operation kinds, and the error taxonomy of the flash interface.

use vstd::prelude::*;

verus! {

/// Size in bytes of one flash page, the unit of storage granularity.
pub const PAGE_SIZE: usize = 256;

/// Number of addressable pages: total capacity divided by the page size.
pub const FLASH_MAX_PAGES: usize = 64 * 1024 * 1024 / PAGE_SIZE;

/// Flash operations supported by the mailbox protocol.
#[derive(Debug, PartialEq, Eq, Structural, Clone, Copy)]
pub enum FlashOperation {
    ReadPage,
    WritePage,
    ErasePage,
}

impl FlashOperation {
    /// The command code this operation carries in the mailbox command register.
    pub open spec fn spec_command_code(self) -> u32 {
        match self {
            FlashOperation::ReadPage => 1,
            FlashOperation::WritePage => 2,
            FlashOperation::ErasePage => 3,
        }
    }

    /// Command code written to the command register when the request is armed.
    pub fn command_code(self) -> (r: u32)
        ensures
            r == self.spec_command_code(),
    {
        match self {
            FlashOperation::ReadPage => 1,
            FlashOperation::WritePage => 2,
            FlashOperation::ErasePage => 3,
        }
    }
}

/// Errors reported synchronously when a request is rejected at admission.
#[derive(Debug, PartialEq, Eq, Structural, Clone, Copy)]
pub enum ErrorCode {
    /// Page number out of range, or a write armed without a staged buffer.
    Inval,
    /// The mailbox is already held, either locally or on the hardware lock.
    Busy,
}

/// Error delivered through a completion callback when the remote side
/// reports anything but command-complete, or a read response is malformed.
#[derive(Debug, PartialEq, Eq, Structural, Clone, Copy)]
pub enum FlashError {
    FlashError,
}

/// One page of flash data.
pub struct EmulatedFlashPage(pub [u8; PAGE_SIZE]);

impl View for EmulatedFlashPage {
    type V = Seq<u8>;

    open spec fn view(&self) -> Seq<u8> {
        self.0@
    }
}

impl Default for EmulatedFlashPage {
    /// A page of all-zero bytes.
    fn default() -> (r: Self)
        ensures
            r@ == Seq::new(PAGE_SIZE as nat, |i: int| 0u8),
    {
        let r = EmulatedFlashPage([0; PAGE_SIZE]);
        proof {
            assert(r@ =~= Seq::new(PAGE_SIZE as nat, |i: int| 0u8));
        }
        r
    }
}

} // verus!
