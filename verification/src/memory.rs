//! Accesses to supervisor memory that may fault.
//!
//! The access itself runs under a private trap vector, with machine status
//! bits set around it that [`access_flags`] gives. The functions here turn
//! what the access left behind into a value or a [`TrapInfo`]; none of them
//! fails in any other way.

use vstd::prelude::*;
use crate::trap::TrapInfo;

verus! {

/// Machine status bit that makes loads and stores use the translation of the
/// previous privilege mode.
pub const MSTATUS_MPRV: u64 = 0x2_0000;

/// Machine status bit that makes executable pages readable.
pub const MSTATUS_MXR: u64 = 0x8_0000;

/// What a guarded access left behind: whether the private trap vector was
/// entered, and the machine's cause and trap value registers read afterwards.
#[derive(Clone, Copy, Debug, PartialEq, Eq, Structural)]
pub struct Guarded {
    pub faulted: bool,
    pub cause: u64,
    pub tval: u64,
}

impl Guarded {
    /// The fault of the access, if it faulted.
    pub open spec fn fault(self) -> Option<TrapInfo> {
        if self.faulted {
            Some(TrapInfo { cause: self.cause, tval: self.tval })
        } else {
            None
        }
    }

    /// The result of an access that read `value`.
    pub open spec fn result<T>(self, value: T) -> Result<T, TrapInfo> {
        match self.fault() {
            Some(t) => Err(t),
            None => Ok(value),
        }
    }
}

/// The machine status bits to set around an access: supervisor translation,
/// and for a read of instruction memory also the bit that lets it read pages
/// that are only executable.
pub fn access_flags(fetch: bool) -> (r: u64)
    ensures
        r == if fetch {
            MSTATUS_MPRV | MSTATUS_MXR
        } else {
            MSTATUS_MPRV
        },
{
    if fetch {
        MSTATUS_MPRV | MSTATUS_MXR
    } else {
        MSTATUS_MPRV
    }
}

/// Result of reading sixteen bits of instruction memory into `raw`.
pub fn load_u16_exec(guard: Guarded, raw: u64) -> (r: Result<u16, TrapInfo>)
    ensures
        r == guard.result((raw & 0xffff) as u16),
{
    if guard.faulted {
        Err(TrapInfo { cause: guard.cause, tval: guard.tval })
    } else {
        assert(raw & 0xffff <= 0xffff) by (bit_vector);
        Ok((raw & 0xffff) as u16)
    }
}

/// Result of an aligned 32-bit load into `raw`.
pub fn load_u32(guard: Guarded, raw: u64) -> (r: Result<u32, TrapInfo>)
    ensures
        r == guard.result((raw & 0xffff_ffff) as u32),
{
    if guard.faulted {
        Err(TrapInfo { cause: guard.cause, tval: guard.tval })
    } else {
        assert(raw & 0xffff_ffff <= 0xffff_ffff) by (bit_vector);
        Ok((raw & 0xffff_ffff) as u32)
    }
}

/// Result of an aligned 64-bit load into `raw`.
pub fn load_u64(guard: Guarded, raw: u64) -> (r: Result<u64, TrapInfo>)
    ensures
        r == guard.result(raw),
{
    if guard.faulted {
        Err(TrapInfo { cause: guard.cause, tval: guard.tval })
    } else {
        Ok(raw)
    }
}

/// Result of an aligned load of a machine word into `raw`.
pub fn load_usize(guard: Guarded, raw: u64) -> (r: Result<u64, TrapInfo>)
    ensures
        r == guard.result(raw),
{
    load_u64(guard, raw)
}

/// Result of a byte-wise load into `buf`. `fetched` holds the bytes that were
/// read, which is all of them if the access did not fault; they replace the
/// front of `buf`. An empty buffer is loaded without any access, so that no
/// fault is reported for it.
pub fn load(buf: &mut Vec<u8>, fetched: &[u8], guard: Guarded) -> (r: Result<(), TrapInfo>)
    requires
        fetched@.len() <= old(buf)@.len(),
        !guard.faulted ==> fetched@.len() == old(buf)@.len(),
    ensures
        final(buf)@ == fetched@ + old(buf)@.subrange(fetched@.len() as int, old(buf)@.len() as int),
        old(buf)@.len() == 0 ==> r == Ok::<(), TrapInfo>(()),
        old(buf)@.len() > 0 ==> r == guard.result(()),
{
    if buf.len() == 0 {
        assert(buf@ =~= fetched@ + old(buf)@.subrange(
            fetched@.len() as int,
            old(buf)@.len() as int,
        ));
        return Ok(());
    }
    let mut i: usize = 0;
    while i < fetched.len()
        invariant
            i <= fetched@.len() <= buf@.len(),
            buf@.len() == old(buf)@.len(),
            buf@ == fetched@.subrange(0, i as int) + old(buf)@.subrange(
                i as int,
                old(buf)@.len() as int,
            ),
        decreases fetched@.len() - i,
    {
        buf[i] = fetched[i];
        i = i + 1;
        assert(buf@ =~= fetched@.subrange(0, i as int) + old(buf)@.subrange(
            i as int,
            old(buf)@.len() as int,
        ));
    }
    assert(fetched@.subrange(0, i as int) =~= fetched@);
    if guard.faulted {
        Err(TrapInfo { cause: guard.cause, tval: guard.tval })
    } else {
        Ok(())
    }
}

/// Result of an aligned 32-bit store.
pub fn store_u32(guard: Guarded) -> (r: Result<(), TrapInfo>)
    ensures
        r == guard.result(()),
{
    if guard.faulted {
        Err(TrapInfo { cause: guard.cause, tval: guard.tval })
    } else {
        Ok(())
    }
}

/// Result of an aligned 64-bit store.
pub fn store_u64(guard: Guarded) -> (r: Result<(), TrapInfo>)
    ensures
        r == guard.result(()),
{
    store_u32(guard)
}

/// Result of a byte-wise store of `len` bytes. Nothing is stored for an empty
/// buffer, so that no fault is reported for it.
pub fn store(len: usize, guard: Guarded) -> (r: Result<(), TrapInfo>)
    ensures
        len == 0 ==> r == Ok::<(), TrapInfo>(()),
        len > 0 ==> r == guard.result(()),
{
    if len == 0 {
        Ok(())
    } else {
        store_u32(guard)
    }
}

} // verus!
