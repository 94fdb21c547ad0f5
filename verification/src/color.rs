//! The frame counter and the clear color derived from it.

use vstd::prelude::*;
use vstd::arithmetic::div_mod::{lemma_add_mod_noop_right, lemma_mod_bound, lemma_small_mod};

verus! {

/// An RGB color with three 8-bit channels.
#[derive(Clone, Copy, Debug, PartialEq, Eq, Structural)]
pub struct Color {
    pub r: u8,
    pub g: u8,
    pub b: u8,
}

/// The counter value after one frame: one more, wrapping 255 back to 0.
pub open spec fn spec_next_counter(c: u8) -> u8 {
    ((c + 1) % 256) as u8
}

/// Advance the frame counter by one, wrapping modulo 256.
pub fn next_counter(c: u8) -> (r: u8)
    ensures
        r == spec_next_counter(c),
{
    c.wrapping_add(1)
}

/// The clear color for counter value `c`: red rises with the counter while
/// blue falls, green stays fixed at 64.
pub open spec fn spec_clear_color(c: u8) -> Color {
    Color { r: c, g: 64, b: (255 - c) as u8 }
}

/// Derive the clear color `(c, 64, 255 - c)` from the counter.
pub fn clear_color(c: u8) -> (col: Color)
    ensures
        col == spec_clear_color(c),
{
    Color { r: c, g: 64, b: 255 - c }
}

/// The counter value after `n` frames.
pub open spec fn counter_after(c: u8, n: nat) -> u8
    decreases n,
{
    if n == 0 {
        c
    } else {
        spec_next_counter(counter_after(c, (n - 1) as nat))
    }
}

/// After `n` frames the counter is the start plus `n`, modulo 256.
pub proof fn lemma_counter_after_mod(c: u8, n: nat)
    ensures
        counter_after(c, n) == (c + n) % 256,
    decreases n,
{
    if n > 0 {
        lemma_counter_after_mod(c, (n - 1) as nat);
        lemma_mod_bound(c + n - 1, 256);
        lemma_add_mod_noop_right(1, c + n - 1, 256);
    } else {
        lemma_small_mod(c as nat, 256);
    }
}

/// Peeling one frame off the front: `n` frames from `c` reach the same
/// counter as `n - 1` frames from the already advanced counter.
pub proof fn lemma_counter_after_front(c: u8, n: nat)
    requires
        n > 0,
    ensures
        counter_after(spec_next_counter(c), (n - 1) as nat) == counter_after(c, n),
{
    lemma_counter_after_mod(c, n);
    lemma_counter_after_mod(spec_next_counter(c), (n - 1) as nat);
    lemma_mod_bound(c + 1, 256);
    lemma_add_mod_noop_right(n - 1, c + 1, 256);
}

/// Incrementing the frame counter 256 times returns it to its starting
/// value, whatever that value was.
pub proof fn lemma_counter_wraparound(c: u8)
    ensures
        counter_after(c, 256) == c,
{
    lemma_counter_after_mod(c, 256);
}

} // verus!
