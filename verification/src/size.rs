//! Sizes that the engine reports, and buffers made to measure.
//!
//! The engine reports every size as a signed 32-bit integer. Before a buffer is
//! handed to the engine for writing, the reported size is checked and the buffer
//! is given exactly that length.

use vstd::prelude::*;

verus! {

/// Why a reported size cannot be the length of a buffer.
#[derive(Clone, Copy, Debug, PartialEq, Eq, Structural)]
pub enum SizeError {
    /// The size is below zero.
    Negative,
    /// The size does not fit the address space, or the engine's length type.
    TooLarge,
}

/// The buffer length that stands for a mathematical size `n`.
pub open spec fn checked_len(n: int) -> Result<usize, SizeError> {
    if n < 0 {
        Err(SizeError::Negative)
    } else if n > usize::MAX {
        Err(SizeError::TooLarge)
    } else {
        Ok(n as usize)
    }
}

/// `s` cut or zero-extended to exactly `len` elements.
pub open spec fn fitted<T>(s: Seq<T>, len: nat, zero: T) -> Seq<T> {
    if len <= s.len() {
        s.take(len as int)
    } else {
        s + Seq::new((len - s.len()) as nat, |i: int| zero)
    }
}

/// The buffer length for a size that the engine reported.
pub fn len_from_size(size: i32) -> (r: Result<usize, SizeError>)
    ensures
        r == checked_len(size as int),
{
    if size < 0 {
        Err(SizeError::Negative)
    } else {
        Ok(size as usize)
    }
}

/// The buffer length for a frame of `width` by `height` pixels: their product.
pub fn len_from_dimensions(width: i32, height: i32) -> (r: Result<usize, SizeError>)
    ensures
        r == checked_len(width * height),
{
    assert(-0x4000_0000_0000_0000 <= width * height <= 0x4000_0000_0000_0000) by (nonlinear_arith)
        requires
            -0x8000_0000 <= width <= 0x7fff_ffff,
            -0x8000_0000 <= height <= 0x7fff_ffff,
    ;
    let area: i64 = (width as i64) * (height as i64);
    if area < 0 {
        Err(SizeError::Negative)
    } else if area as u64 > usize::MAX as u64 {
        Err(SizeError::TooLarge)
    } else {
        Ok(area as usize)
    }
}

/// The length as the engine's length type, for handing a buffer of `len`
/// elements to the engine.
pub fn size_from_len(len: usize) -> (r: Result<i32, SizeError>)
    ensures
        len <= i32::MAX ==> r == Ok::<i32, SizeError>(len as i32),
        len > i32::MAX ==> r == Err::<i32, SizeError>(SizeError::TooLarge),
{
    if len > i32::MAX as usize {
        Err(SizeError::TooLarge)
    } else {
        Ok(len as i32)
    }
}

/// Gives `buf` exactly `len` elements: what it held is kept as far as it fits,
/// and any new element is `zero`. Nothing beyond `len` is left behind.
pub fn fit<T: Copy>(buf: &mut Vec<T>, len: usize, zero: T)
    ensures
        final(buf)@ == fitted(old(buf)@, len as nat, zero),
        final(buf)@.len() == len,
{
    buf.truncate(len);
    let ghost kept = buf@;
    while buf.len() < len
        invariant
            kept.len() <= buf@.len() <= len,
            buf@ == kept + Seq::new((buf@.len() - kept.len()) as nat, |i: int| zero),
        decreases len - buf@.len(),
    {
        buf.push(zero);
        assert(buf@ =~= kept + Seq::new((buf@.len() - kept.len()) as nat, |i: int| zero));
    }
    assert(buf@ =~= fitted(old(buf)@, len as nat, zero));
}

} // verus!
