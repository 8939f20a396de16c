//! GPIO through the bit-band alias.
//!
//! A port's direction and data registers are logically one 32-bit word each,
//! one bit per pin. Writing such a word back after a read-modify-write could
//! clobber a sibling pin that an interrupt handler changed in between, so the
//! hardware maps every bit to a full word of its own in the bit-band alias
//! region, and a write there touches exactly one bit in one bus transaction.
//! The model keeps each register as the underlying 32-bit word and every
//! operation's contract says that only the addressed pin's bit moves.
//!
//! The direction a pin was put in is part of the handle's type: reading is
//! offered only after `input`, and the level writes only after `output`, so a
//! write to a pin never configured as an output is a compile-time error.

use vstd::prelude::*;
use core::marker::PhantomData;
use crate::port::PortName;

verus! {

/// Direction state of a fresh GPIO handle.
pub struct Uninitialized {}

/// Direction state of a handle whose pin was made an input.
pub struct Input {}

/// Direction state of a handle whose pin was made an output.
pub struct Output {}

/// `w` with pin `pin`'s bit set.
pub open spec fn set_word(w: u32, pin: usize) -> u32 {
    w | (1u32 << pin)
}

/// `w` with pin `pin`'s bit cleared.
pub open spec fn clear_word(w: u32, pin: usize) -> u32 {
    w & !(1u32 << pin)
}

/// `w` with pin `pin`'s bit flipped.
pub open spec fn toggle_word(w: u32, pin: usize) -> u32 {
    w ^ (1u32 << pin)
}

/// Pin `pin`'s bit of `w`, as 0 or 1.
pub open spec fn word_bit(w: u32, pin: usize) -> u32 {
    (w >> pin) & 1
}

/// One port's GPIO registers behind the bit-band alias: output levels,
/// directions, and the externally driven input levels.
pub struct GpioBitband {
    pub port: PortName,
    pub pdor: u32,
    pub pddr: u32,
    pub pdir: u32,
}

impl GpioBitband {
    /// The port's block with every level low and every pin an input.
    pub fn new(port: PortName) -> (r: GpioBitband)
        ensures
            r == (GpioBitband { port, pdor: 0, pddr: 0, pdir: 0 }),
    {
        GpioBitband { port, pdor: 0, pddr: 0, pdir: 0 }
    }
}

/// A handle on one pin of one port, already routed to the GPIO function; the
/// type parameter records which direction the pin was put in.
pub struct Gpio<State> {
    pub port: PortName,
    pub pin: usize,
    pub pcr: u32,
    pub _state: PhantomData<State>,
}

impl<State> Gpio<State> {
    /// The index stays on the port.
    pub open spec fn wf(self) -> bool {
        self.pin < 32
    }

    /// Switch the pin to input through its direction alias word: exactly one
    /// bit of the direction register moves.
    pub fn input(self, bank: &mut GpioBitband) -> (r: Gpio<Input>)
        requires
            self.wf(),
            old(bank).port == self.port,
        ensures
            *final(bank) == (GpioBitband {
                pddr: clear_word(old(bank).pddr, self.pin),
                ..*old(bank)
            }),
            r.port == self.port,
            r.pin == self.pin,
            r.pcr == self.pcr,
            r.wf(),
    {
        bank.pddr = bank.pddr & !(1u32 << self.pin);
        Gpio { port: self.port, pin: self.pin, pcr: self.pcr, _state: PhantomData }
    }

    /// Switch the pin to output through its direction alias word: exactly
    /// one bit of the direction register moves.
    pub fn output(self, bank: &mut GpioBitband) -> (r: Gpio<Output>)
        requires
            self.wf(),
            old(bank).port == self.port,
        ensures
            *final(bank) == (GpioBitband {
                pddr: set_word(old(bank).pddr, self.pin),
                ..*old(bank)
            }),
            r.port == self.port,
            r.pin == self.pin,
            r.pcr == self.pcr,
            r.wf(),
    {
        bank.pddr = bank.pddr | (1u32 << self.pin);
        Gpio { port: self.port, pin: self.pin, pcr: self.pcr, _state: PhantomData }
    }
}

impl Gpio<Uninitialized> {
    /// A fresh handle on one pin; the pin should already be routed to the
    /// GPIO function, which `Pin::make_gpio` takes care of.
    pub fn new(port: PortName, pin: usize) -> (r: Gpio<Uninitialized>)
        requires
            pin < 32,
        ensures
            r.port == port,
            r.pin == pin,
            r.pcr == 0,
            r.wf(),
    {
        Gpio { port, pin, pcr: 0, _state: PhantomData }
    }
}

impl Gpio<Input> {
    /// The pin's input level, 0 or 1, from its input alias word.
    pub fn read(&self, bank: &GpioBitband) -> (r: u32)
        requires
            self.wf(),
            bank.port == self.port,
        ensures
            r == word_bit(bank.pdir, self.pin),
    {
        (bank.pdir >> self.pin) & 1
    }
}

impl Gpio<Output> {
    /// Drive the pin high through its set alias word: exactly one bit of the
    /// output register moves.
    pub fn high(&mut self, bank: &mut GpioBitband)
        requires
            old(self).wf(),
            old(bank).port == old(self).port,
        ensures
            *final(self) == *old(self),
            *final(bank) == (GpioBitband {
                pdor: set_word(old(bank).pdor, old(self).pin),
                ..*old(bank)
            }),
    {
        bank.pdor = bank.pdor | (1u32 << self.pin);
    }

    /// Drive the pin low through its clear alias word: exactly one bit of
    /// the output register moves.
    pub fn low(&mut self, bank: &mut GpioBitband)
        requires
            old(self).wf(),
            old(bank).port == old(self).port,
        ensures
            *final(self) == *old(self),
            *final(bank) == (GpioBitband {
                pdor: clear_word(old(bank).pdor, old(self).pin),
                ..*old(bank)
            }),
    {
        bank.pdor = bank.pdor & !(1u32 << self.pin);
    }

    /// Flip the pin through its toggle alias word: exactly one bit of the
    /// output register moves.
    pub fn toggle(&mut self, bank: &mut GpioBitband)
        requires
            old(self).wf(),
            old(bank).port == old(self).port,
        ensures
            *final(self) == *old(self),
            *final(bank) == (GpioBitband {
                pdor: toggle_word(old(bank).pdor, old(self).pin),
                ..*old(bank)
            }),
    {
        bank.pdor = bank.pdor ^ (1u32 << self.pin);
    }
}

/// Race freedom of the bit-band writes: a set, clear or toggle of pin `b`
/// leaves pin `a`'s bit exactly as it was, and two toggles of distinct pins
/// land in the same word whichever order they happen in. Interleaving
/// operations on two pins of one port therefore leaves each pin's final state
/// independent of the other's traffic.
pub proof fn lemma_bitband_independent(w: u32, a: usize, b: usize)
    requires
        a < 32,
        b < 32,
        a != b,
    ensures
        word_bit(set_word(w, b), a) == word_bit(w, a),
        word_bit(clear_word(w, b), a) == word_bit(w, a),
        word_bit(toggle_word(w, b), a) == word_bit(w, a),
        toggle_word(toggle_word(w, a), b) == toggle_word(toggle_word(w, b), a),
{
    assert(word_bit(set_word(w, b), a) == word_bit(w, a) && word_bit(clear_word(w, b), a)
        == word_bit(w, a) && word_bit(toggle_word(w, b), a) == word_bit(w, a) && toggle_word(
        toggle_word(w, a),
        b,
    ) == toggle_word(toggle_word(w, b), a)) by (bit_vector)
        requires
            a < 32,
            b < 32,
            a != b,
    ;
}

/// A toggle flips exactly the toggled pin: its own bit inverts and, by
/// `lemma_bitband_independent`, every other bit stays.
pub proof fn lemma_toggle_flips(w: u32, a: usize)
    requires
        a < 32,
    ensures
        word_bit(toggle_word(w, a), a) == 1 - word_bit(w, a),
{
    assert(word_bit(toggle_word(w, a), a) == 1u32 - word_bit(w, a)) by (bit_vector)
        requires
            a < 32,
    ;
}

} // verus!
