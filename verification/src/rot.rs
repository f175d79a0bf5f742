//! Rotation ciphers over ASCII letters, such as rot13.
//!
//! A letter keeps its case and moves forward in its alphabet by the rotation,
//! going round from the last letter to the first. Every other byte stays as it
//! is.

use vstd::prelude::*;

verus! {

/// The number of letters in the alphabet.
pub const ALPHABET: u8 = 26;

/// The first letter of the alphabet that `b` belongs to: `A` for an upper
/// case letter, `a` otherwise.
pub open spec fn base_of(b: u8) -> u8 {
    if 0x41 <= b <= 0x5a {
        0x41
    } else {
        0x61
    }
}

/// Whether `b` is an ASCII letter.
pub open spec fn is_letter(b: u8) -> bool {
    0x41 <= b <= 0x5a || 0x61 <= b <= 0x7a
}

/// The byte that `b` becomes under a rotation by `rot`.
pub open spec fn rotated(b: u8, rot: u8) -> u8 {
    if is_letter(b) {
        ((b - base_of(b) + rot) % (ALPHABET as int) + base_of(b)) as u8
    } else {
        b
    }
}

/// Whether rotating `b` by `rot` stays within a byte while it is computed:
/// the position of a letter in its alphabet plus the rotation is at most 255.
pub open spec fn rotation_fits(b: u8, rot: u8) -> bool {
    is_letter(b) ==> b - base_of(b) + rot <= u8::MAX
}

/// A rotation of at most 230 fits every byte.
pub proof fn lemma_small_rotation_fits(b: u8, rot: u8)
    requires
        rot <= 230,
    ensures
        rotation_fits(b, rot),
{
}

/// A rotated letter is a letter of the same case, and any other byte is
/// itself.
pub proof fn lemma_rotated_keeps_class(b: u8, rot: u8)
    ensures
        is_letter(rotated(b, rot)) == is_letter(b),
        is_letter(b) ==> base_of(rotated(b, rot)) == base_of(b),
        !is_letter(b) ==> rotated(b, rot) == b,
{
}

/// Rotating by 13 twice gives every byte back.
pub proof fn lemma_rot13_involution(b: u8)
    ensures
        rotated(rotated(b, 13), 13) == b,
{
}

/// Rotates one byte.
pub fn rot_byte(b: u8, rot: u8) -> (out: u8)
    requires
        rotation_fits(b, rot),
    ensures
        out == rotated(b, rot),
{
    let upper = 0x41 <= b && b <= 0x5a;
    let lower = 0x61 <= b && b <= 0x7a;
    if upper || lower {
        let base: u8 = if upper {
            0x41
        } else {
            0x61
        };
        (b - base + rot) % ALPHABET + base
    } else {
        b
    }
}

/// Rotates every byte of the buffer in place.
pub fn rot_decode(buf: &mut [u8], rot: u8)
    requires
        forall|i: int| 0 <= i < old(buf)@.len() ==> rotation_fits(#[trigger] old(buf)@[i], rot),
    ensures
        final(buf)@.len() == old(buf)@.len(),
        forall|i: int|
            0 <= i < old(buf)@.len() ==> #[trigger] final(buf)@[i] == rotated(old(buf)@[i], rot),
{
    let n = buf.len();
    let mut i: usize = 0;
    while i < n
        invariant
            n == buf@.len(),
            n == old(buf)@.len(),
            i <= n,
            forall|k: int| 0 <= k < n ==> rotation_fits(#[trigger] old(buf)@[k], rot),
            forall|k: int| 0 <= k < i ==> #[trigger] buf@[k] == rotated(old(buf)@[k], rot),
            forall|k: int| i <= k < n ==> #[trigger] buf@[k] == old(buf)@[k],
        decreases n - i,
    {
        let b = buf[i];
        buf[i] = rot_byte(b, rot);
        i += 1;
    }
}

} // verus!
