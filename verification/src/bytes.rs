//! Little-endian serialization of 32-bit words.
//!
//! The frame payloads are contracts with the shader: a fixed sequence of
//! 32-bit words written in a declared order. This module pins down how one
//! word becomes four bytes.

use vstd::prelude::*;

verus! {

/// The four bytes of `w`, least significant first.
pub open spec fn word_bytes(w: u32) -> Seq<u8> {
    seq![
        (w & 0xff) as u8,
        ((w >> 8u32) & 0xff) as u8,
        ((w >> 16u32) & 0xff) as u8,
        ((w >> 24u32) & 0xff) as u8,
    ]
}

/// Appends the four bytes of `w` to `out`, least significant first.
pub fn push_word(out: &mut Vec<u8>, w: u32)
    ensures
        final(out)@ == old(out)@ + word_bytes(w),
{
    out.push((w & 0xff) as u8);
    out.push(((w >> 8u32) & 0xff) as u8);
    out.push(((w >> 16u32) & 0xff) as u8);
    out.push(((w >> 24u32) & 0xff) as u8);
    proof {
        assert(out@ =~= old(out)@ + word_bytes(w));
    }
}

} // verus!
