//! Fixed-capacity text lines, held in heapless strings of 64 bytes.

use vstd::prelude::*;

verus! {

/// Capacity, in bytes, of a command line and of a response line.
pub const LINE_CAPACITY: usize = 64;

/// heapless::String, held opaque; the bytes it holds are named by `line_bytes`.
#[verifier::external_type_specification]
#[verifier::external_body]
pub struct ExHeaplessString<const N: usize>(heapless::String<N>);

/// The UTF-8 bytes held by a 64-byte heapless string.
pub uninterp spec fn line_bytes(s: heapless::String<64>) -> Seq<u8>;

/// UTF-8 encoding of the character whose code point is the byte `b`.
pub open spec fn char_bytes(b: u8) -> Seq<u8> {
    if b < 128 {
        seq![b]
    } else {
        seq![(0xC0 + b / 64) as u8, (0x80 + b % 64) as u8]
    }
}

/// The bytes held after pushing the characters of `rest`, one per byte, onto
/// a line holding `acc`, stopping at the first character that does not fit.
pub open spec fn fill(acc: Seq<u8>, rest: Seq<u8>) -> Seq<u8>
    decreases rest.len(),
{
    if rest.len() == 0 {
        acc
    } else if acc.len() + char_bytes(rest[0]).len() <= LINE_CAPACITY {
        fill(acc + char_bytes(rest[0]), rest.drop_first())
    } else {
        acc
    }
}

/// The bytes of a line filled from `s`: all of `s` when it is ASCII and fits.
pub open spec fn line_of(s: Seq<u8>) -> Seq<u8> {
    fill(Seq::empty(), s)
}

/// Relies on heapless::String::new: the new string is empty.
#[verifier::external_body]
pub(crate) fn line_new() -> (r: heapless::String<64>)
    ensures
        line_bytes(r) == Seq::<u8>::empty(),
{
    heapless::String::new()
}

/// Relies on heapless::String::push of `b as char`: the UTF-8 encoding is
/// appended when it fits in the capacity, else the string is left as it was.
#[verifier::external_body]
pub(crate) fn line_push(s: &mut heapless::String<64>, b: u8) -> (r: bool)
    ensures
        r == (line_bytes(*old(s)).len() + char_bytes(b).len() <= LINE_CAPACITY),
        r ==> line_bytes(*final(s)) == line_bytes(*old(s)) + char_bytes(b),
        !r ==> line_bytes(*final(s)) == line_bytes(*old(s)),
{
    s.push(b as char).is_ok()
}

/// Relies on heapless::String's `as_bytes` (through `Deref<Target = str>`):
/// the bytes held.
#[verifier::external_body]
pub(crate) fn line_as_bytes(s: &heapless::String<64>) -> (r: &[u8])
    ensures
        r@ == line_bytes(*s),
{
    s.as_bytes()
}

/// A line holding the characters of `bytes`, one per byte, up to the first
/// one that no longer fits in 64 bytes of UTF-8.
pub fn fill_line(bytes: &[u8]) -> (r: heapless::String<64>)
    ensures
        line_bytes(r) == line_of(bytes@),
{
    let mut line = line_new();
    let mut i: usize = 0;
    assert(bytes@.skip(0) == bytes@);
    while i < bytes.len()
        invariant
            0 <= i <= bytes@.len(),
            fill(line_bytes(line), bytes@.skip(i as int)) == line_of(bytes@),
        decreases bytes@.len() - i,
    {
        assert(bytes@.skip(i as int).drop_first() == bytes@.skip(i + 1));
        if !line_push(&mut line, bytes[i]) {
            return line;
        }
        i = i + 1;
    }
    assert(bytes@.skip(i as int).len() == 0);
    line
}

/// Whether every byte is ASCII.
pub open spec fn all_ascii(s: Seq<u8>) -> bool {
    forall|i: int| 0 <= i < s.len() ==> #[trigger] s[i] < 128
}

/// A line filled from bytes that are all ASCII and no more than the capacity
/// holds exactly those bytes.
pub proof fn lemma_ascii_line(s: Seq<u8>)
    requires
        s.len() <= LINE_CAPACITY,
        all_ascii(s),
    ensures
        line_of(s) == s,
{
    lemma_ascii_fill(Seq::empty(), s);
    assert(Seq::<u8>::empty() + s == s);
}

proof fn lemma_ascii_fill(acc: Seq<u8>, rest: Seq<u8>)
    requires
        acc.len() + rest.len() <= LINE_CAPACITY,
        forall|i: int| 0 <= i < rest.len() ==> rest[i] < 128,
    ensures
        fill(acc, rest) == acc + rest,
    decreases rest.len(),
{
    if rest.len() == 0 {
        assert(acc + rest == acc);
    } else {
        lemma_ascii_fill(acc + char_bytes(rest[0]), rest.drop_first());
        assert(acc + char_bytes(rest[0]) + rest.drop_first() == acc + rest);
    }
}

} // verus!
