//! Assembles received serial bytes into command lines.

use vstd::prelude::*;

use crate::text::{all_ascii, fill_line, lemma_ascii_line, line_bytes, line_of, LINE_CAPACITY};

verus! {

/// Carriage return.
pub const CR: u8 = 13;

/// Line feed.
pub const LF: u8 = 10;

/// Whether a byte ends a line.
pub open spec fn is_terminator(b: u8) -> bool {
    b == CR || b == LF
}

/// What receiving one byte produced.
pub enum LineEvent {
    /// The byte was buffered, or a terminator arrived with nothing before it.
    Pending,
    /// The buffer was already full: it was emptied and the byte dropped.
    Overflow,
    /// A terminator completed a line; the line is given without it.
    Line(heapless::String<64>),
}

/// Buffer of the bytes received since the last terminator.
pub struct LineAssembler {
    buf: Vec<u8>,
}

impl View for LineAssembler {
    type V = Seq<u8>;

    closed spec fn view(&self) -> Seq<u8> {
        self.buf@
    }
}

impl LineAssembler {
    /// An empty buffer.
    pub fn new() -> (r: Self)
        ensures
            r@ == Seq::<u8>::empty(),
    {
        LineAssembler { buf: Vec::new() }
    }

    /// Number of bytes buffered.
    pub fn len(&self) -> (r: usize)
        ensures
            r == self@.len(),
    {
        self.buf.len()
    }

    /// Takes one received byte. On a full buffer the buffer is emptied and the
    /// byte dropped. Otherwise a CR or LF ends the line: with bytes buffered
    /// before it, those bytes make the returned line; either way the buffer is
    /// emptied. Any other byte is appended.
    pub fn push_byte(&mut self, b: u8) -> (r: LineEvent)
        ensures
            old(self)@.len() >= LINE_CAPACITY ==> r is Overflow && final(self)@.len() == 0,
            old(self)@.len() < LINE_CAPACITY && is_terminator(b) && old(self)@.len() == 0 ==> r is Pending
                && final(self)@.len() == 0,
            old(self)@.len() < LINE_CAPACITY && is_terminator(b) && old(self)@.len() > 0 ==> (r matches LineEvent::Line(t)
                && line_bytes(t) == line_of(old(self)@) && (all_ascii(old(self)@) ==> line_bytes(t)
                == old(self)@)) && final(self)@.len() == 0,
            old(self)@.len() < LINE_CAPACITY && !is_terminator(b) ==> r is Pending && final(self)@ == old(
                self,
            )@.push(b),
            old(self)@.len() <= LINE_CAPACITY ==> final(self)@.len() <= LINE_CAPACITY,
    {
        if self.buf.len() >= LINE_CAPACITY {
            self.buf.clear();
            return LineEvent::Overflow;
        }
        if b == CR || b == LF {
            proof {
                if all_ascii(self@) {
                    lemma_ascii_line(self@);
                }
            }
            let event = if self.buf.len() > 0 {
                LineEvent::Line(fill_line(self.buf.as_slice()))
            } else {
                LineEvent::Pending
            };
            self.buf.clear();
            event
        } else {
            self.buf.push(b);
            LineEvent::Pending
        }
    }
}

} // verus!
