//! The shared screen state every styling operation acts on, and the context
//! that hands it to the facade.
//!
//! The screen state is the single logical output target. In the wider system
//! several subsystems hold it at once, so every mutation must run under an
//! exclusive, scoped acquisition; here that discipline is part of the model:
//! a ghost flag records whether exclusive access is currently held, a ghost
//! counter records how many acquisitions have completed, and every mutating
//! method demands that access is held. Backends acquire, perform exactly one
//! attribute mutation, and release on every path.

use vstd::prelude::*;

verus! {

/// The attribute word a freshly created screen starts with: white foreground
/// (low nibble) on black background (high nibble), the native console
/// default.
pub const DEFAULT_ATTRIBUTES: u16 = 7;

/// The mathematical view of a screen: the bytes emitted so far, the native
/// attribute word, and the state of the exclusive-access discipline.
pub ghost struct ScreenView {
    /// Every byte written to the output stream, in order.
    pub output: Seq<u8>,
    /// The native console attribute word: foreground color in the low
    /// nibble, background color in the next nibble.
    pub attributes: u16,
    /// Whether exclusive access is currently held.
    pub locked: bool,
    /// How many exclusive acquisitions have been made.
    pub lock_count: int,
}

/// The shared terminal/output target.
///
/// It owns an output byte stream, written by the escape-sequence backend, and
/// a native attribute word, set by the native-console backend. The ghost
/// fields model the serialized access path: mutation is only possible between
/// `acquire` and `release`.
pub struct ScreenManager {
    output: Vec<u8>,
    attributes: u16,
    locked: Ghost<bool>,
    lock_count: Ghost<int>,
}

impl View for ScreenManager {
    type V = ScreenView;

    closed spec fn view(&self) -> ScreenView {
        ScreenView {
            output: self.output@,
            attributes: self.attributes,
            locked: self.locked@,
            lock_count: self.lock_count@,
        }
    }
}

impl ScreenManager {
    /// A fresh screen: nothing written, default attributes, access not held.
    pub fn new() -> (s: ScreenManager)
        ensures
            s@.output == Seq::<u8>::empty(),
            s@.attributes == DEFAULT_ATTRIBUTES,
            !s@.locked,
            s@.lock_count == 0,
    {
        ScreenManager {
            output: Vec::new(),
            attributes: DEFAULT_ATTRIBUTES,
            locked: Ghost(false),
            lock_count: Ghost(0),
        }
    }

    /// Take exclusive access; one more acquisition is on record.
    pub fn acquire(&mut self)
        requires
            !old(self)@.locked,
        ensures
            final(self)@ == (ScreenView {
                locked: true,
                lock_count: old(self)@.lock_count + 1,
                ..old(self)@
            }),
    {
        proof {
            self.locked@ = true;
            self.lock_count@ = self.lock_count@ + 1;
        }
    }

    /// Give exclusive access back.
    pub fn release(&mut self)
        requires
            old(self)@.locked,
        ensures
            final(self)@ == (ScreenView { locked: false, ..old(self)@ }),
    {
        proof {
            self.locked@ = false;
        }
    }

    /// Append bytes to the output stream. Only the holder of exclusive
    /// access may write.
    pub fn write_bytes(&mut self, bytes: &Vec<u8>)
        requires
            old(self)@.locked,
        ensures
            final(self)@ == (ScreenView { output: old(self)@.output + bytes@, ..old(self)@ }),
    {
        let mut i: usize = 0;
        while i < bytes.len()
            invariant
                0 <= i <= bytes@.len(),
                self@ == (ScreenView {
                    output: old(self)@.output + bytes@.subrange(0, i as int),
                    ..old(self)@
                }),
            decreases bytes@.len() - i,
        {
            let b = bytes[i];
            self.output.push(b);
            proof {
                assert(old(self)@.output + bytes@.subrange(0, i + 1) =~= (old(self)@.output
                    + bytes@.subrange(0, i as int)).push(bytes@[i as int]));
            }
            i += 1;
        }
        proof {
            assert(bytes@.subrange(0, bytes@.len() as int) =~= bytes@);
        }
    }

    /// The current attribute word.
    pub fn attributes(&self) -> (a: u16)
        ensures
            a == self@.attributes,
    {
        self.attributes
    }

    /// Set the attribute word. Only the holder of exclusive access may set
    /// it.
    pub fn set_attributes(&mut self, attributes: u16)
        requires
            old(self)@.locked,
        ensures
            final(self)@ == (ScreenView { attributes: attributes, ..old(self)@ }),
    {
        self.attributes = attributes;
    }

    /// The bytes written so far, for inspection.
    pub fn output(&self) -> (o: &Vec<u8>)
        ensures
            o@ == self@.output,
    {
        &self.output
    }
}

} // verus!
