//! Busy-wait delays calibrated against the current core frequency. Nothing
//! observable comes out of them; what is verified is that every loop
//! terminates, and the iteration counts mirror the calibrated spins.

use vstd::prelude::*;
use crate::CurrentFrequency;

verus! {

/// Spin for roughly `n` instructions: the calibrated loop body costs four
/// cycles per round.
pub fn delay(n: u64) {
    proof {
        vstd::arithmetic::div_mod::lemma_multiply_divide_lt(
            n as int,
            4,
            0x4000_0000_0000_0000,
        );
    }
    let mut i: u64 = n / 4 + 1;
    while i != 0
        decreases i,
    {
        i = i - 1;
    }
}

/// Sleep for the given number of microseconds by spinning; imprecise at low
/// core frequencies and unusable below 5 MHz.
pub fn sleep_us(microseconds: u32, freq: &CurrentFrequency) {
    let mut elapsed: u32 = 0;
    while elapsed < microseconds
        invariant
            elapsed <= microseconds,
        decreases microseconds - elapsed,
    {
        // This inner loop costs about five cycles per round.
        let mut inner: u32 = freq.hz / 5_000_000;
        while inner != 0
            decreases inner,
        {
            inner = inner - 1;
        }
        elapsed = elapsed + 1;
    }
}

/// Sleep for the given number of milliseconds by spinning; close to real
/// time as long as nothing interrupts the loop.
pub fn sleep_ms(milliseconds: u32, freq: &CurrentFrequency) {
    let mut elapsed: u32 = 0;
    while elapsed < milliseconds
        invariant
            elapsed <= milliseconds,
        decreases milliseconds - elapsed,
    {
        // This inner loop costs about ten cycles per round.
        let mut inner: u32 = freq.hz / 10_000;
        while inner != 0
            decreases inner,
        {
            inner = inner - 1;
        }
        elapsed = elapsed + 1;
    }
}

} // verus!
