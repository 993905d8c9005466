//! A page-oriented flash driver whose storage operations travel over a shared
//! memory-mapped mailbox to a remote storage service.
//!
//! The driver translates page-granular read/write/erase requests into a
//! request frame placed in the mailbox SRAM window, arms the hardware
//! execute bit, and then polls for completion cooperatively: each poll either
//! re-requests a deferred re-entry or, once the done bit is set, decodes the
//! response, releases the mailbox, and reports the completion exactly once.

pub mod flash;
pub mod regs;
pub mod frame;
pub mod ctrl;
pub mod laws;
