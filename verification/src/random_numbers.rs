//! A sample harness payload: the pre-test stage draws two unsigned 64-bit
//! and two signed 32-bit integers through the arbitrary generator, and the
//! test program fails whenever one of them is divisible by one of two
//! "unlucky" divisors.

use vstd::prelude::*;

verus! {

use crate::arbitrary_util::{
    GenerateArbitrary, decoder_total_from, generate_owned_arbitrary_data, generate_spec,
    i32_from_bits, initial_len_spec, le_bytes_val,
};
use crate::builder::{PreTestTrait, ProgramTrait};
use crate::stream::DeterministicStream;

/// The pre-test stage that draws the four sample values.
pub struct RandomNumbersPreTest<Suite> {
    _phantom: core::marker::PhantomData<Suite>,
}

impl<Suite> RandomNumbersPreTest<Suite> {
    /// A fresh pre-test stage.
    pub fn new() -> Self {
        Self { _phantom: core::marker::PhantomData }
    }
}

/// The four values the sample pre-test decodes from a stream in a given
/// state, together with the position the stream reaches: two unsigned 64-bit
/// and two signed 32-bit integers, each decoded from its own generated
/// buffer, in that order.
pub open spec fn sample_draws(seed: Seq<u8>, pos: int) -> ((u64, u64), (i32, i32), int) {
    let g1 = generate_spec::<u64>(seed, pos);
    let g2 = generate_spec::<u64>(seed, g1.1);
    let g3 = generate_spec::<i32>(seed, g2.1);
    let g4 = generate_spec::<i32>(seed, g3.1);
    (
        (le_bytes_val(g1.0->Ok_0, 0, 8) as u64, le_bytes_val(g2.0->Ok_0, 0, 8) as u64),
        (
            i32_from_bits(le_bytes_val(g3.0->Ok_0, 0, 4)) as i32,
            i32_from_bits(le_bytes_val(g4.0->Ok_0, 0, 4)) as i32,
        ),
        g4.1,
    )
}

/// The integer decoders accept any buffer, so generation for them is total.
proof fn lemma_int_decoders_total()
    ensures
        decoder_total_from::<u64>(8),
        decoder_total_from::<i32>(4),
        forall|d: int| #[trigger] initial_len_spec::<u64>(d) == 18,
        forall|d: int| #[trigger] initial_len_spec::<i32>(d) == 10,
{
}

/// The test state of the sample: the four drawn values.
pub struct RandomNumbersData {
    /// The two unsigned 64-bit draws.
    pub data: (u64, u64),
    /// The two signed 32-bit draws.
    pub data2: (i32, i32),
}

impl<Suite> PreTestTrait<Suite, RandomNumbersData> for RandomNumbersPreTest<Suite> {
    fn setup_test(&self, _suite: &Suite, stream: &mut DeterministicStream) -> (r:
        RandomNumbersData)
        ensures
            final(stream).seed() == old(stream).seed(),
            r.data == sample_draws(old(stream).seed(), old(stream).pos()).0,
            r.data2 == sample_draws(old(stream).seed(), old(stream).pos()).1,
            final(stream).pos() == sample_draws(old(stream).seed(), old(stream).pos()).2,
    {
        proof {
            lemma_int_decoders_total();
        }
        let first = generate_owned_arbitrary_data::<u64>(stream).unwrap().arbitrary::<
            u64,
        >().unwrap();
        let second = generate_owned_arbitrary_data::<u64>(stream).unwrap().arbitrary::<
            u64,
        >().unwrap();
        let third = generate_owned_arbitrary_data::<i32>(stream).unwrap().arbitrary::<
            i32,
        >().unwrap();
        let fourth = generate_owned_arbitrary_data::<i32>(stream).unwrap().arbitrary::<
            i32,
        >().unwrap();
        RandomNumbersData { data: (first, second), data2: (third, fourth) }
    }
}

/// An unsigned draw is unlucky when 1331 or 1771 divides it.
pub open spec fn is_unlucky_u64(n: u64) -> bool {
    n as int % 1331 == 0 || n as int % 1771 == 0
}

/// A signed draw is unlucky when 1331 or 1771 divides it.
pub open spec fn is_unlucky_i32(n: i32) -> bool {
    n as int % 1331 == 0 || n as int % 1771 == 0
}

/// The sample program passes exactly when none of the four draws is unlucky.
pub open spec fn sample_program_passes(data: RandomNumbersData) -> bool {
    &&& !is_unlucky_u64(data.data.0)
    &&& !is_unlucky_u64(data.data.1)
    &&& !is_unlucky_i32(data.data2.0)
    &&& !is_unlucky_i32(data.data2.1)
}

fn unlucky_u64(n: u64) -> (r: bool)
    ensures
        r == is_unlucky_u64(n),
{
    n % 1331 == 0 || n % 1771 == 0
}

fn unlucky_i32(n: i32) -> (r: bool)
    ensures
        r == is_unlucky_i32(n),
{
    let v: i64 = n as i64;
    let a: u64 = if v < 0 {
        (-v) as u64
    } else {
        v as u64
    };
    let r = a % 1331 == 0 || a % 1771 == 0;
    proof {
        if v < 0 {
            assert(a == -(n as int));
            assert(a as int % 1331 == 0 <==> n as int % 1331 == 0) by (nonlinear_arith)
                requires
                    a as int == -(n as int),
            ;
            assert(a as int % 1771 == 0 <==> n as int % 1771 == 0) by (nonlinear_arith)
                requires
                    a as int == -(n as int),
            ;
        }
    }
    r
}

/// The sample test program.
pub struct RandomNumbersAndCompareProgram {}

impl<Suite> ProgramTrait<Suite, RandomNumbersData> for RandomNumbersAndCompareProgram {
    fn run(&self, _suite: &Suite, test: &RandomNumbersData, _stream: DeterministicStream) -> (r:
        bool)
        ensures
            r == sample_program_passes(*test),
    {
        let ok = !unlucky_u64(test.data.0) && !unlucky_u64(test.data.1) && !unlucky_i32(
            test.data2.0,
        ) && !unlucky_i32(test.data2.1);
        ok
    }
}

} // verus!
