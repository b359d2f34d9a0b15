//! Filling a buffer from a source that hands out its data in pieces.

use vstd::prelude::*;

verus! {

/// Why a buffer could not be filled.
#[derive(Clone, Copy, Debug, PartialEq, Eq, Structural)]
pub enum Error {
    /// The source ended before the buffer was full.
    EarlyEof,
}

/// What is left to read after a read returned `size` bytes into a buffer
/// with room for `remaining`: a read that returns nothing while room is left
/// means that the source has ended.
pub fn read_exact(remaining: usize, size: usize) -> (r: Result<usize, Error>)
    requires
        size <= remaining,
    ensures
        r == if remaining > 0 && size == 0 {
            Err::<usize, Error>(Error::EarlyEof)
        } else {
            Ok::<usize, Error>((remaining - size) as usize)
        },
{
    if remaining > 0 && size == 0 {
        Err(Error::EarlyEof)
    } else {
        Ok(remaining - size)
    }
}

/// As [`read_exact`] for a source that is read at an offset: also gives the
/// offset of the next read, or `None` for it if that lies beyond the range
/// of offsets.
pub fn read_exact_at(remaining: usize, offset: u64, size: usize) -> (r: Result<
    (usize, Option<u64>),
    Error,
>)
    requires
        size <= remaining,
    ensures
        r == if remaining > 0 && size == 0 {
            Err::<(usize, Option<u64>), Error>(Error::EarlyEof)
        } else {
            Ok::<(usize, Option<u64>), Error>(
                (
                    (remaining - size) as usize,
                    if offset + size <= u64::MAX {
                        Some((offset + size) as u64)
                    } else {
                        None
                    },
                ),
            )
        },
{
    if remaining > 0 && size == 0 {
        Err(Error::EarlyEof)
    } else {
        Ok((remaining - size, offset.checked_add(size as u64)))
    }
}

} // verus!
