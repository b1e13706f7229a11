//! The rules of the on-chip flash: which ranges may be read, programmed and
//! erased, what is written to program a range, which pages an erase covers,
//! and what the status register says of an operation.
//!
//! Nothing here touches the hardware. Each operation is checked and laid out
//! as the steps to perform; whoever owns the registers performs them.

use vstd::prelude::*;
use crate::wire::{read_u32, u32_at};

verus! {

/// The bytes of flash behind the base address.
pub const FLASH_SIZE: usize = 0x3FFFF;

/// The address of the first byte of flash.
pub const FLASH_BASE: usize = 0x8000000;

/// The address of the first byte of flash.
pub const FLASH_START: usize = FLASH_BASE;

/// The address that no operation may reach beyond.
pub const FLASH_END: usize = FLASH_START + FLASH_SIZE;

/// The size of a page, the unit of erasure.
pub const PAGE_SIZE: usize = 2048;

/// The size of a double word, the unit of programming.
pub const WRITE_SIZE: usize = 8;

/// The first key of the unlock sequence.
pub const UNLOCK_KEY1: u32 = 0x4567_0123;

/// The second key of the unlock sequence.
pub const UNLOCK_KEY2: u32 = 0xCDEF_89AB;

/// Why a flash operation failed.
#[derive(Debug, Copy, Clone, PartialEq, Eq, Structural)]
pub enum Error {
    Prog,
    Size,
    Miss,
    Sequence,
    Protected,
    Unaligned,
}

/// The kind of a flash error, as storage layers tell them apart.
#[derive(Debug, Copy, Clone, PartialEq, Eq, Structural)]
pub enum ErrorKind {
    NotAligned,
    OutOfBounds,
    Other,
}

impl Error {
    /// The kind of the error: a range that does not fit is out of bounds, a
    /// misaligned one is not aligned, and every failure that the hardware
    /// reports counts as other.
    pub open spec fn spec_kind(&self) -> ErrorKind {
        match self {
            Error::Size => ErrorKind::OutOfBounds,
            Error::Unaligned => ErrorKind::NotAligned,
            _ => ErrorKind::Other,
        }
    }

    /// The kind of the error.
    #[verifier::when_used_as_spec(spec_kind)]
    pub fn kind(&self) -> (kind: ErrorKind)
        ensures
            kind == self.spec_kind(),
    {
        match self {
            Error::Size => ErrorKind::OutOfBounds,
            Error::Unaligned => ErrorKind::NotAligned,
            _ => ErrorKind::Other,
        }
    }
}

/// The flags of the status register that decide how an operation ended.
#[derive(Debug, Copy, Clone, PartialEq, Eq)]
pub struct Status {
    pub bsy: bool,
    pub progerr: bool,
    pub wrperr: bool,
    pub pgaerr: bool,
    pub sizerr: bool,
    pub miserr: bool,
    pub pgserr: bool,
}

impl Status {
    /// How the operation ended, for a status that is no longer busy: the
    /// first error that is flagged, in the order programming, write
    /// protection, alignment, size, missed data, sequence; success where none
    /// is.
    pub open spec fn verdict(self) -> Result<(), Error> {
        if self.progerr {
            Err(Error::Prog)
        } else if self.wrperr {
            Err(Error::Protected)
        } else if self.pgaerr {
            Err(Error::Unaligned)
        } else if self.sizerr {
            Err(Error::Size)
        } else if self.miserr {
            Err(Error::Miss)
        } else if self.pgserr {
            Err(Error::Sequence)
        } else {
            Ok(())
        }
    }
}

/// One 32-bit word to write to an address of flash.
#[derive(Debug, Copy, Clone, PartialEq, Eq)]
pub struct WordWrite {
    pub address: u32,
    pub value: u32,
}

/// Whether `len` bytes from the address `offset` on may be read.
pub open spec fn readable(offset: u32, len: nat) -> bool {
    offset < FLASH_END && offset + len <= FLASH_END
}

/// Why a range may not be programmed, if it may not: it must end within the
/// flash, and both its start and its length must be multiples of a double
/// word.
pub open spec fn write_check(offset: u32, len: nat) -> Result<(), Error> {
    if offset + len > FLASH_END {
        Err(Error::Size)
    } else if offset % 8 != 0 || len % 8 != 0 {
        Err(Error::Unaligned)
    } else {
        Ok(())
    }
}

/// Why a range may not be erased, if it may not: it must not end before it
/// starts nor beyond the flash, and both its ends must be multiples of a
/// page.
pub open spec fn erase_check(from: u32, to: u32) -> Result<(), Error> {
    if to < from || to > FLASH_END {
        Err(Error::Size)
    } else if from % 2048 != 0 || to % 2048 != 0 {
        Err(Error::Unaligned)
    } else {
        Ok(())
    }
}

/// The words that program `buf` at `offset`: each four bytes of `buf`, read
/// little-endian, go to the address at the same distance from `offset`.
pub open spec fn is_write_plan(plan: Seq<WordWrite>, offset: u32, buf: Seq<u8>) -> bool {
    &&& plan.len() == buf.len() / 4
    &&& forall|j: int|
        0 <= j < plan.len() ==> (#[trigger] plan[j]).address == offset + 4 * j && plan[j].value
            == u32_at(buf, 4 * j)
}

/// The number that selects the page at `address` for erasure. The field holds
/// eight bits.
pub open spec fn page_number(address: int) -> u8 {
    (address / 2048 % 256) as u8
}

/// The pages that an erase of `from..to` covers, in rising order.
pub open spec fn is_erase_plan(pages: Seq<u8>, from: u32, to: u32) -> bool {
    &&& pages.len() == (to - from) / 2048
    &&& forall|k: int| 0 <= k < pages.len() ==> #[trigger] pages[k] == page_number(from + 2048 * k)
}

/// The flash controller's rule book.
pub struct Flash {}

impl Flash {
    /// A handle on the flash, which is taken to be locked.
    pub fn new() -> (flash: Flash) {
        Flash {  }
    }

    /// A handle on the flash, and the two keys to write to the key register,
    /// in this order, to unlock it.
    pub fn unlock() -> (unlocked: (Flash, [u32; 2]))
        ensures
            unlocked.1@ == seq![UNLOCK_KEY1, UNLOCK_KEY2],
    {
        let keys: [u32; 2] = [UNLOCK_KEY1, UNLOCK_KEY2];
        assert(keys@ =~= seq![UNLOCK_KEY1, UNLOCK_KEY2]);
        (Flash {  }, keys)
    }

    /// The value to write to the lock bit of the control register when the
    /// handle is given up.
    pub fn lock(&mut self) -> (bit: bool)
        ensures
            !bit,
    {
        false
    }

    /// Checks a read of `len` bytes at `offset`: it fails with `Error::Size`
    /// unless the range starts and ends within the flash.
    pub fn blocking_read(&mut self, offset: u32, len: usize) -> (r: Result<(), Error>)
        ensures
            readable(offset, len as nat) ==> r == Ok::<(), Error>(()),
            !readable(offset, len as nat) ==> r == Err::<(), Error>(Error::Size),
    {
        if offset as usize >= FLASH_END || len > FLASH_END - offset as usize {
            return Err(Error::Size);
        }
        Ok(())
    }

    /// Lays out the programming of `buf` at `offset` as the words to write,
    /// in order. The owner of the registers sets the programming bit, writes
    /// the words two at a time, waits for the controller after each pair and
    /// stops at the first error, and clears the bit.
    pub fn blocking_write(&mut self, offset: u32, buf: &[u8]) -> (r: Result<Vec<WordWrite>, Error>)
        ensures
            match r {
                Ok(plan) => write_check(offset, buf@.len()) == Ok::<(), Error>(())
                    && is_write_plan(plan@, offset, buf@),
                Err(e) => write_check(offset, buf@.len()) == Err::<(), Error>(e),
            },
    {
        let len = buf.len();
        if len > FLASH_END || offset as usize > FLASH_END - len {
            return Err(Error::Size);
        }
        if offset % 8 != 0 || len % 8 != 0 {
            return Err(Error::Unaligned);
        }
        let words = len / 4;
        let mut plan: Vec<WordWrite> = Vec::new();
        let mut j: usize = 0;
        while j < words
            invariant
                j <= words,
                words == len / 4,
                len == buf@.len(),
                len % 8 == 0,
                offset + len <= FLASH_END,
                plan@.len() == j,
                forall|i: int|
                    0 <= i < j ==> (#[trigger] plan@[i]).address == offset + 4 * i
                        && plan@[i].value == u32_at(buf@, 4 * i),
            decreases words - j,
        {
            let at = 4 * j;
            let value = read_u32(buf, at);
            plan.push(WordWrite { address: offset + at as u32, value });
            j = j + 1;
        }
        Ok(plan)
    }

    /// Lays out the erasure of `from..to` as the numbers of the pages to
    /// erase, in order. The owner of the registers erases them one at a time,
    /// waits for the controller after each and stops at the first error.
    pub fn blocking_erase(&mut self, from: u32, to: u32) -> (r: Result<Vec<u8>, Error>)
        ensures
            match r {
                Ok(pages) => erase_check(from, to) == Ok::<(), Error>(()) && is_erase_plan(
                    pages@,
                    from,
                    to,
                ),
                Err(e) => erase_check(from, to) == Err::<(), Error>(e),
            },
    {
        if to < from || to as usize > FLASH_END {
            return Err(Error::Size);
        }
        if from % 2048 != 0 || to % 2048 != 0 {
            return Err(Error::Unaligned);
        }
        let count = (to - from) / 2048;
        let mut pages: Vec<u8> = Vec::new();
        let mut k: u32 = 0;
        while k < count
            invariant
                k <= count,
                count == (to - from) / 2048,
                from <= to,
                to <= FLASH_END,
                pages@.len() == k,
                forall|i: int| 0 <= i < k ==> #[trigger] pages@[i] == page_number(from + 2048 * i),
            decreases count - k,
        {
            let page = from + 2048 * k;
            pages.push((page / 2048 % 256) as u8);
            k = k + 1;
        }
        Ok(pages)
    }

    /// Reads one look at the status register: nothing while the controller is
    /// busy, and else how the operation ended.
    pub fn blocking_wait_ready(&self, status: Status) -> (done: Option<Result<(), Error>>)
        ensures
            status.bsy ==> done.is_none(),
            !status.bsy ==> done == Some(status.verdict()),
    {
        if status.bsy {
            return None;
        }
        if status.progerr {
            return Some(Err(Error::Prog));
        }
        if status.wrperr {
            return Some(Err(Error::Protected));
        }
        if status.pgaerr {
            return Some(Err(Error::Unaligned));
        }
        if status.sizerr {
            return Some(Err(Error::Size));
        }
        if status.miserr {
            return Some(Err(Error::Miss));
        }
        if status.pgserr {
            return Some(Err(Error::Sequence));
        }
        Some(Ok(()))
    }
}

} // verus!
