//! Integer pseudo-random streams and hashes: the game's xorshift64 stream,
//! the seed mixer that turns a clock reading into a seed, the spark stream
//! (xorshift32) and the skyline hash.
use vstd::prelude::*;

verus! {

/// 2^64, the modulus of wrapping `u64` arithmetic.
pub open spec fn modulus64() -> nat {
    0x1_0000_0000_0000_0000nat
}

/// 2^32, the modulus of wrapping `u32` arithmetic.
pub open spec fn modulus32() -> nat {
    0x1_0000_0000nat
}

/// One step of Marsaglia's xorshift64 (shifts 13, 7, 17).
pub open spec fn xorshift64(x: u64) -> u64 {
    let a = x ^ (x << 13u64);
    let b = a ^ (a >> 7u64);
    b ^ (b << 17u64)
}

/// One step of xorshift32 (shifts 13, 17, 5).
pub open spec fn xorshift32(x: u32) -> u32 {
    let a = x ^ (x << 13u32);
    let b = a ^ (a >> 17u32);
    b ^ (b << 5u32)
}

/// The splitmix64 finalizer applied to a clock reading in microseconds.
pub open spec fn mixed_seed(micros: u64) -> u64 {
    let z0 = ((micros as nat + 0x9E3779B97F4A7C15nat) % modulus64()) as u64;
    let z1 = (((z0 ^ (z0 >> 30u64)) as nat * 0xBF58476D1CE4E5B9nat) % modulus64()) as u64;
    let z2 = (((z1 ^ (z1 >> 27u64)) as nat * 0x94D049BB133111EBnat) % modulus64()) as u64;
    z2 ^ (z2 >> 31u64)
}

/// The integer hash behind the skyline layout: its low 16 bits after the
/// mixing rounds, taken from bit 8 up.
pub open spec fn skyline_hash(i: u32) -> u32 {
    let x0 = (((i as nat * 2654435761nat) % modulus32()) as u32) ^ 0x9e3779b9u32;
    let x1 = x0 ^ (x0 >> 15u32);
    let x2 = ((x1 as nat * 0x2c1b3c6dnat) % modulus32()) as u32;
    let x3 = x2 ^ (x2 >> 12u32);
    (x3 >> 8u32) & 0xffffu32
}

/// Advances the xorshift64 stream.
pub fn xorshift64_step(x: u64) -> (y: u64)
    ensures
        y == xorshift64(x),
{
    let mut v = x;
    v = v ^ (v << 13u64);
    v = v ^ (v >> 7u64);
    v = v ^ (v << 17u64);
    v
}

/// Turns a clock reading (microseconds) into a game seed (splitmix64
/// finalizer).
pub fn seed_now(micros: u64) -> (seed: u64)
    ensures
        seed == mixed_seed(micros),
{
    let mut z = micros.wrapping_add(0x9E3779B97F4A7C15u64);
    z = (z ^ (z >> 30u64)).wrapping_mul(0xBF58476D1CE4E5B9u64);
    z = (z ^ (z >> 27u64)).wrapping_mul(0x94D049BB133111EBu64);
    z ^ (z >> 31u64)
}

/// Skyline hash bits of `i`: a value in `0..=0xffff` that the renderer
/// divides by 65535 to place and size a fallback skyline tower.
pub fn hash_bits(i: u32) -> (h: u32)
    ensures
        h == skyline_hash(i),
        h <= 0xffff,
{
    let mut x = i.wrapping_mul(2654435761u32) ^ 0x9e3779b9u32;
    x = x ^ (x >> 15u32);
    x = x.wrapping_mul(0x2c1b3c6du32);
    x = x ^ (x >> 12u32);
    let h = (x >> 8u32) & 0xffffu32;
    assert(h <= 0xffff) by (bit_vector)
        requires
            h == (x >> 8u32) & 0xffffu32,
    ;
    h
}

/// The spark stream of the renderer: xorshift32 over a 32-bit state.
pub struct SparkRng {
    state: u32,
}

impl View for SparkRng {
    type V = u32;

    closed spec fn view(&self) -> u32 {
        self.state
    }
}

impl SparkRng {
    /// The stream with the renderer's fixed start state `0x9e3779b9`.
    pub fn new() -> (r: SparkRng)
        ensures
            r@ == 0x9e3779b9u32,
    {
        SparkRng { state: 0x9e3779b9u32 }
    }

    /// Advances the stream and returns the top 24 bits of the new state, so
    /// that dividing by 2^24 gives a value in `[0, 1)`.
    pub fn next_bits(&mut self) -> (bits: u32)
        ensures
            final(self)@ == xorshift32(old(self)@),
            bits == final(self)@ >> 8u32,
            bits < 0x100_0000,
    {
        let mut x = self.state;
        x = x ^ (x << 13u32);
        x = x ^ (x >> 17u32);
        x = x ^ (x << 5u32);
        self.state = x;
        let bits = x >> 8u32;
        assert(bits < 0x100_0000) by (bit_vector)
            requires
                bits == x >> 8u32,
        ;
        bits
    }
}

/// xorshift64 never reaches zero from a nonzero state: the game stream,
/// seeded with an odd number, stays nonzero forever.
pub proof fn lemma_xorshift64_nonzero(x: u64)
    requires
        x != 0,
    ensures
        xorshift64(x) != 0,
{
    let a = x ^ (x << 13u64);
    let b = a ^ (a >> 7u64);
    let c = b ^ (b << 17u64);
    assert(a != 0) by (bit_vector)
        requires
            x != 0,
            a == x ^ (x << 13u64),
    ;
    assert(b != 0) by (bit_vector)
        requires
            a != 0,
            b == a ^ (a >> 7u64),
    ;
    assert(c != 0) by (bit_vector)
        requires
            b != 0,
            c == b ^ (b << 17u64),
    ;
}

/// xorshift32 never reaches zero from a nonzero state: the spark stream,
/// started at a nonzero state, stays nonzero.
pub proof fn lemma_xorshift32_nonzero(x: u32)
    requires
        x != 0,
    ensures
        xorshift32(x) != 0,
{
    let a = x ^ (x << 13u32);
    let b = a ^ (a >> 17u32);
    let c = b ^ (b << 5u32);
    assert(a != 0) by (bit_vector)
        requires
            x != 0,
            a == x ^ (x << 13u32),
    ;
    assert(b != 0) by (bit_vector)
        requires
            a != 0,
            b == a ^ (a >> 17u32),
    ;
    assert(c != 0) by (bit_vector)
        requires
            b != 0,
            c == b ^ (b << 5u32),
    ;
}

} // verus!
