//! PCG32: a permuted congruential generator with 64-bit state and 32-bit output.
//!
//! The generator advances a linear congruential recurrence modulo 2^64 and
//! hides its linear structure behind an xorshift followed by a data-dependent
//! 32-bit rotation (the XSH-RR output function).

use vstd::prelude::*;

verus! {

use vstd::arithmetic::div_mod::lemma_add_mod_noop;

/// Multiplier of the linear congruential recurrence.
pub const PCG32_MULTIPLIER: u64 = 0x5851f42d4c957f2d;

/// State of the conventional default generator.
pub const PCG32_DEFAULT_STATE: u64 = 0x853c49e6748fea9b;

/// Stream (increment) of the conventional default generator.
pub const PCG32_DEFAULT_STREAM: u64 = 0xda3e39cb94b95bdb;

/// Exponent and sign bits of the `f32` value 1.0.
pub const F32_ONE_BITS: u32 = 0x3f800000;

/// Exponent and sign bits of the `f64` value 1.0.
pub const F64_ONE_BITS: u64 = 0x3ff0000000000000;

/// The abstract value of a generator: its state and its stream.
pub ghost struct PcgModel {
    pub state: u64,
    pub stream: u64,
}

impl PcgModel {
    /// The recurrence has full period only on an odd stream.
    pub open spec fn wf(self) -> bool {
        self.stream % 2 == 1
    }

    /// The model after one step of the recurrence.
    pub open spec fn advance(self) -> PcgModel {
        PcgModel { state: lcg_step(self.state, self.stream), stream: self.stream }
    }
}

/// One step of the recurrence: `state * multiplier + stream`, modulo 2^64.
#[verifier::opaque]
pub open spec fn lcg_step(state: u64, stream: u64) -> u64 {
    ((state as int * PCG32_MULTIPLIER as int + stream as int) % 0x1_0000_0000_0000_0000int) as u64
}

/// The odd stream selected by `sequence`: its bits shifted up by one, low bit set.
pub open spec fn stream_of(sequence: u64) -> u64 {
    (sequence << 1u64) | 1u64
}

/// The 32 bits that the output function draws from a state.
pub open spec fn xorshift_of(state: u64) -> u32 {
    (((state >> 18u64) ^ state) >> 27u64) as u32
}

/// The rotation amount that the output function takes from a state: its top five bits.
pub open spec fn rotation_of(state: u64) -> u32 {
    (state >> 59u64) as u32
}

/// Rotation of `x` to the right by `r` bit positions, for `r < 32`.
pub open spec fn rotate_right(x: u32, r: u32) -> u32
    recommends
        r < 32,
{
    if r == 0 {
        x
    } else {
        ((x >> r) | (x << (32 - r) as u32)) as u32
    }
}

/// The output that a generator in `state` yields before it steps.
#[verifier::opaque]
pub open spec fn output_of(state: u64) -> u32 {
    rotate_right(xorshift_of(state), rotation_of(state))
}

/// The generator that the seeded constructors build: from state zero on the
/// selected stream, one step, the seed added modulo 2^64, and one more step.
pub open spec fn seeded(initial_state: u64, sequence: u64) -> PcgModel {
    let stream = stream_of(sequence);
    let first = lcg_step(0, stream);
    let mixed = ((first as int + initial_state as int) % 0x1_0000_0000_0000_0000int) as u64;
    PcgModel { state: lcg_step(mixed, stream), stream }
}

/// The first `n` outputs of a generator that starts at `m`.
pub open spec fn outputs(m: PcgModel, n: nat) -> Seq<u32>
    decreases n,
{
    if n == 0 {
        Seq::empty()
    } else {
        seq![output_of(m.state)] + outputs(m.advance(), (n - 1) as nat)
    }
}

/// A PCG32 generator. Copying it gives an independent generator that yields
/// the same outputs.
#[derive(Copy, Clone, Debug, PartialEq, Eq)]
pub struct Pcg32 {
    state: u64,
    stream: u64,
}

impl View for Pcg32 {
    type V = PcgModel;

    closed spec fn view(&self) -> PcgModel {
        PcgModel { state: self.state, stream: self.stream }
    }
}

proof fn lemma_wrapping_step(state: u64, stream: u64)
    ensures
        vstd::wrapping::u64_specs::wrapping_add(
            vstd::wrapping::u64_specs::wrapping_mul(state, PCG32_MULTIPLIER),
            stream,
        ) == lcg_step(state, stream),
{
    reveal(lcg_step);
    let r: int = 0x1_0000_0000_0000_0000int;
    let p: int = state as int * PCG32_MULTIPLIER as int;
    lemma_add_mod_noop(p, stream as int, r);
    assert((p % r) % r == p % r) by {
        vstd::arithmetic::div_mod::lemma_mod_twice(p, r);
    }
    assert((stream as int) % r == stream as int);
}

impl Pcg32 {
    /// A generator on the stream selected by `sequence` (its top bit is
    /// dropped), seeded with `initial_state` through two warm-up steps.
    pub fn with_seed_and_sequence(initial_state: u64, sequence: u64) -> (r: Self)
        ensures
            r@ == seeded(initial_state, sequence),
            r@.stream == stream_of(sequence),
            r.wf(),
    {
        let mut g = Pcg32 { state: 0, stream: (sequence << 1) | 1 };
        proof {
            lemma_stream_odd(sequence);
        }
        g.next_u32();
        g.state = g.state.wrapping_add(initial_state);
        g.next_u32();
        g
    }

    /// The generator of `with_seed_and_sequence(initial_state, 1)`.
    pub fn with_seed(initial_state: u64) -> (r: Self)
        ensures
            r@ == seeded(initial_state, 1),
            r.wf(),
    {
        Self::with_seed_and_sequence(initial_state, 1)
    }

    /// The stream of a well-formed generator is odd.
    pub closed spec fn wf(&self) -> bool {
        self@.wf()
    }

    /// The XSH-RR output function: the 32 bits that a generator in `state`
    /// yields, an xorshift rotated right by the state's top five bits.
    pub fn output(state: u64) -> (r: u32)
        ensures
            r == output_of(state),
    {
        #[verifier::truncate]
        let xor_shifted: u32 = (((state >> 18u64) ^ state) >> 27u64) as u32;
        assert(state >> 59u64 < 32) by (bit_vector);
        let rot: u32 = (state >> 59u64) as u32;
        let back: u32 = (!rot).wrapping_add(1) & 31u32;
        assert(back == (32 - rot) % 32 && back < 32) by (bit_vector)
            requires
                rot < 32,
                back == (!rot).wrapping_add(1) & 31u32,
        ;
        let r = (xor_shifted >> rot) | (xor_shifted << back);
        assert(r == rotate_right(xor_shifted, rot)) by (bit_vector)
            requires
                rot < 32,
                back == (32 - rot) % 32,
                r == (xor_shifted >> rot) | (xor_shifted << back),
        ;
        proof {
            reveal(output_of);
        }
        r
    }

    /// Yields the output of the current state and steps the recurrence once.
    /// The stream is left as it was.
    pub fn next_u32(&mut self) -> (r: u32)
        ensures
            r == output_of(old(self)@.state),
            final(self)@ == old(self)@.advance(),
            forall|n: nat|
                #![trigger outputs(final(self)@, n)]
                outputs(old(self)@, n + 1) == seq![r] + outputs(final(self)@, n),
            final(self).wf() == old(self).wf(),
    {
        let old_state = self.state;
        proof {
            lemma_wrapping_step(old_state, self.stream);
        }
        self.state = old_state.wrapping_mul(PCG32_MULTIPLIER).wrapping_add(self.stream);
        Self::output(old_state)
    }

    /// The bit pattern of an `f32` in [1.0, 2.0): the sign and exponent of
    /// 1.0 with the top 23 bits of the next output as mantissa. Less 1.0, it is
    /// a draw from [0.0, 1.0).
    pub fn next_f32_bits(&mut self) -> (r: u32)
        ensures
            r == (output_of(old(self)@.state) >> 9u32) | F32_ONE_BITS,
            r >> 23u32 == F32_ONE_BITS >> 23u32,
            final(self)@ == old(self)@.advance(),
    {
        let x = self.next_u32();
        let r = (x >> 9u32) | F32_ONE_BITS;
        proof {
            lemma_f32_bits_exponent(x);
        }
        r
    }

    /// The bit pattern of an `f64` in [1.0, 2.0): the sign and exponent of
    /// 1.0 with the next output in the top 32 of the 52 mantissa bits, the
    /// rest zero. Less 1.0, it is a draw from [0.0, 1.0).
    pub fn next_f64_bits(&mut self) -> (r: u64)
        ensures
            r == ((output_of(old(self)@.state) as u64) << 20u64) | F64_ONE_BITS,
            r >> 52u64 == F64_ONE_BITS >> 52u64,
            final(self)@ == old(self)@.advance(),
    {
        let x = self.next_u32();
        let r = ((x as u64) << 20u64) | F64_ONE_BITS;
        proof {
            lemma_f64_bits_exponent(x);
        }
        r
    }
}

impl Default for Pcg32 {
    /// The conventional default generator: its state and stream are the two
    /// fixed constants, taken as they are, with no warm-up.
    fn default() -> (r: Self)
        ensures
            r@ == (PcgModel { state: PCG32_DEFAULT_STATE, stream: PCG32_DEFAULT_STREAM }),
            r.wf(),
    {
        Pcg32 { state: PCG32_DEFAULT_STATE, stream: PCG32_DEFAULT_STREAM }
    }
}

/// The stream selected by any sequence value is odd.
pub proof fn lemma_stream_odd(sequence: u64)
    ensures
        stream_of(sequence) % 2 == 1,
{
    assert(((sequence << 1u64) | 1u64) % 2 == 1) by (bit_vector);
}

/// Two generators built from the same seed and sequence yield the same
/// outputs, bit for bit, over any number of calls.
pub proof fn lemma_determinism(a: Pcg32, b: Pcg32, initial_state: u64, sequence: u64, n: nat)
    requires
        a@ == seeded(initial_state, sequence),
        b@ == seeded(initial_state, sequence),
    ensures
        outputs(a@, n) == outputs(b@, n),
{
}

/// The default generator, and every seeded one, are well formed: their
/// streams are odd, and stepping keeps them so.
pub proof fn lemma_constructed_wf(initial_state: u64, sequence: u64, m: PcgModel)
    requires
        m.wf(),
    ensures
        seeded(initial_state, sequence).wf(),
        (PcgModel { state: PCG32_DEFAULT_STATE, stream: PCG32_DEFAULT_STREAM }).wf(),
        m.advance().wf(),
{
    lemma_stream_odd(sequence);
}

/// When the top five bits of the state are zero, the rotation is a no-op:
/// the output is the xorshift as it stands.
pub proof fn lemma_rotation_zero(state: u64)
    requires
        state >> 59u64 == 0,
    ensures
        rotation_of(state) == 0,
        output_of(state) == xorshift_of(state),
{
    reveal(output_of);
}

/// Whatever the output, its `f32` bit pattern has a zero sign and the
/// exponent of 1.0, so it encodes a value in [1.0, 2.0).
pub proof fn lemma_f32_bits_exponent(x: u32)
    ensures
        ((x >> 9u32) | F32_ONE_BITS) >> 23u32 == F32_ONE_BITS >> 23u32,
        F32_ONE_BITS >> 23u32 == 0x7f,
{
    assert(((x >> 9u32) | 0x3f800000u32) >> 23u32 == 0x7fu32) by (bit_vector);
    assert(0x3f800000u32 >> 23u32 == 0x7fu32) by (bit_vector);
}

/// Whatever the output, its `f64` bit pattern has a zero sign and the
/// exponent of 1.0, so it encodes a value in [1.0, 2.0).
pub proof fn lemma_f64_bits_exponent(x: u32)
    ensures
        (((x as u64) << 20u64) | F64_ONE_BITS) >> 52u64 == F64_ONE_BITS >> 52u64,
        F64_ONE_BITS >> 52u64 == 0x3ff,
{
    let y: u64 = x as u64;
    assert(y < 0x1_0000_0000u64);
    assert(((y << 20u64) | 0x3ff0000000000000u64) >> 52u64 == 0x3ffu64) by (bit_vector)
        requires
            y < 0x1_0000_0000u64,
    ;
    assert(0x3ff0000000000000u64 >> 52u64 == 0x3ffu64) by (bit_vector);
}

} // verus!
