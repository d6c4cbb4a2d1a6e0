//! The adaptive arbitrary-value generator: it draws bytes from a
//! deterministic stream into an owned buffer and grows the buffer by doubling
//! until the target shape decodes from it, within a fixed retry ceiling.
//! The buffer is the reusable artifact: decoding it is a pure function of its
//! contents, so a buffer that decoded once can be decoded again without
//! drawing from the stream.

use vstd::prelude::*;

verus! {

use vstd::arithmetic::power2::{pow2, lemma_pow2_unfold, lemma2_to64};
use crate::stream::{DeterministicStream, chacha_fill, chacha_range};

/// Recursion depths for size hints are drawn below this bound.
pub const DEPTH_BOUND: usize = 10;

/// How often the buffer is grown before generation gives up.
pub const MAX_TRIES: usize = 20;

/// Ceiling on the initial buffer length a shape's size hint may ask for.
pub const MAX_INITIAL_LEN: usize = 0x1000_0000;

/// Why one decode attempt failed.
#[derive(Clone, Copy, PartialEq, Eq, Structural, Debug)]
pub enum ArbitraryFailure {
    /// The buffer is too short for the target shape; growing it may help.
    NotEnoughData,
    /// The buffer cannot encode the shape at all; retrying cannot help.
    Malformed,
}

/// Why generation failed.  Both cases signal a defect in the target shape's
/// decoder or its size hint, not a data-driven test failure.
#[derive(Clone, Copy, PartialEq, Eq, Structural, Debug)]
pub enum GenerateError {
    /// The retry ceiling was reached without a successful decode.
    Exhausted,
    /// The decoder reported a malformed buffer.
    Malformed,
}

/// Little-endian value of the bytes at indices `i` up to `i + n` of a buffer,
/// reading zero for every index past its end — the way a fuzzing decoder
/// reads a fixed-width integer from a buffer that may be too short.
pub open spec fn le_bytes_val(s: Seq<u8>, i: nat, n: nat) -> nat
    decreases n,
{
    if n == 0 {
        0
    } else {
        (if i < s.len() {
            s[i as int] as nat
        } else {
            0
        }) + 256 * le_bytes_val(s, i + 1, (n - 1) as nat)
    }
}

/// The signed 32-bit value whose two's-complement bits are `u`.
pub open spec fn i32_from_bits(u: nat) -> int {
    if u < 0x8000_0000 {
        u as int
    } else {
        u - 0x1_0000_0000
    }
}

/// A target shape that can be decoded from a byte buffer in the manner of a
/// fuzzer: the decoder may report that it ran out of data, and a size hint
/// guides the initial buffer length.
pub trait GenerateArbitrary: Sized {
    /// What decoding a buffer yields, as a function of the buffer alone.
    spec fn decode_spec(data: Seq<u8>) -> Result<Self, ArbitraryFailure>;

    /// The lower size hint of the shape at a recursion depth.
    spec fn lower_hint_spec(depth: int) -> nat;

    /// The upper size hint of the shape at a recursion depth, if any.
    spec fn upper_hint_spec(depth: int) -> Option<nat>;

    /// The size hint of the shape: how many bytes its decoder may need.
    fn size_hint(depth: usize) -> (r: (usize, Option<usize>))
        ensures
            r.0 as nat == Self::lower_hint_spec(depth as int),
            r.1 is Some <==> Self::upper_hint_spec(depth as int) is Some,
            r.1 is Some ==> r.1->0 as nat == Self::upper_hint_spec(depth as int)->0,
    ;

    /// Attempt to decode the shape from the buffer.
    fn try_decode(data: &Vec<u8>) -> (r: Result<Self, ArbitraryFailure>)
        ensures
            r == Self::decode_spec(data@),
    ;
}

/// A generated byte buffer.  Immutable once returned; decoding never mutates
/// it, so the same buffer can be decoded repeatedly with identical results.
pub struct OwnedArbitrary {
    buffer: Vec<u8>,
}

impl View for OwnedArbitrary {
    type V = Seq<u8>;

    closed spec fn view(&self) -> Seq<u8> {
        self.buffer@
    }
}

impl OwnedArbitrary {
    /// Decode the owned buffer into the target shape.  The result is a pure
    /// function of the buffer's contents.
    pub fn arbitrary<A: GenerateArbitrary>(&self) -> (r: Result<A, ArbitraryFailure>)
        ensures
            r == A::decode_spec(self@),
    {
        A::try_decode(&self.buffer)
    }
}

/// The initial buffer length for a shape at a recursion depth: twice one more
/// than the upper size hint, or than the lower hint (raised to at least one
/// byte) where no upper hint exists.
pub open spec fn initial_len_spec<A: GenerateArbitrary>(depth: int) -> nat {
    let lo = if A::lower_hint_spec(depth) < 1 {
        1nat
    } else {
        A::lower_hint_spec(depth)
    };
    let base = match A::upper_hint_spec(depth) {
        Some(u) => u,
        None => lo,
    };
    (base + 1) * 2
}

/// The grow-and-retry loop, as a function of the stream's seed and position:
/// decode the buffer; on success return it, on missing data append as many
/// freshly drawn bytes as the buffer already holds and retry, on anything
/// else give up.  The result pairs the outcome with the stream position
/// reached.
pub open spec fn grow_spec<A: GenerateArbitrary>(
    seed: Seq<u8>,
    pos: int,
    buf: Seq<u8>,
    tries: nat,
) -> (Result<Seq<u8>, GenerateError>, int)
    decreases tries,
{
    if tries == 0 {
        (Err(GenerateError::Exhausted), pos)
    } else {
        match A::decode_spec(buf) {
            Ok(_) => (Ok(buf), pos),
            Err(ArbitraryFailure::NotEnoughData) => {
                let step = chacha_fill(seed, pos, buf.len() as int);
                if step.0.len() == buf.len() {
                    grow_spec::<A>(seed, step.1, buf + step.0, (tries - 1) as nat)
                } else {
                    (Err(GenerateError::Exhausted), pos)
                }
            },
            Err(ArbitraryFailure::Malformed) => (Err(GenerateError::Malformed), pos),
        }
    }
}

/// What generation returns for a shape, and where it leaves the stream, as a
/// function of the stream's seed and position alone.  This function *is* the
/// determinism guarantee: two streams in the same state generate identical
/// buffers.
pub open spec fn generate_spec<A: GenerateArbitrary>(seed: Seq<u8>, pos: int) -> (
    Result<Seq<u8>, GenerateError>,
    int,
) {
    let d = chacha_range(seed, pos, DEPTH_BOUND as int);
    let len = initial_len_spec::<A>(d.0);
    let fill = chacha_fill(seed, d.1, len as int);
    if fill.0.len() == len {
        grow_spec::<A>(seed, fill.1, fill.0, MAX_TRIES as nat)
    } else {
        (Err(GenerateError::Exhausted), d.1)
    }
}

/// Determinism: what generation yields, and where it leaves the stream, is a
/// function of the stream's seed and position alone — so two independent
/// streams in the same state, in particular two runs that replay the same
/// seed from the start, generate byte-identical buffers.  The contract of
/// `generate_owned_arbitrary_data` ties every executed generation to this
/// function of its stream's state.
pub proof fn lemma_generate_deterministic<A: GenerateArbitrary>(
    seed1: Seq<u8>,
    pos1: int,
    seed2: Seq<u8>,
    pos2: int,
)
    requires
        seed1 == seed2,
        pos1 == pos2,
    ensures
        generate_spec::<A>(seed1, pos1) == generate_spec::<A>(seed2, pos2),
{
}

/// The decoder for a shape accepts every buffer of length at least `n`, and
/// never reports a malformed buffer.
pub open spec fn decoder_total_from<A: GenerateArbitrary>(n: nat) -> bool {
    &&& forall|b: Seq<u8>| b.len() >= n ==> (#[trigger] A::decode_spec(b)) is Ok
    &&& forall|b: Seq<u8>|
        (#[trigger] A::decode_spec(b)) != Err::<A, ArbitraryFailure>(ArbitraryFailure::Malformed)
}

fn zero_vec(n: usize) -> (r: Vec<u8>)
    ensures
        r@.len() == n,
{
    let mut v: Vec<u8> = Vec::new();
    let mut i: usize = 0;
    while i < n
        invariant
            i <= n,
            v@.len() == i,
        decreases n - i,
    {
        v.push(0);
        i = i + 1;
    }
    v
}

/// Generate an owned buffer from which the target shape decodes.  The result
/// and the stream position reached are functions of the stream's seed and
/// position alone, so a run replayed from the same seed generates
/// byte-identical buffers.  Where the shape's decoder accepts every buffer of
/// some length up to half a mebibyte and never reports a malformed buffer,
/// generation is guaranteed to succeed within the retry ceiling, and the
/// accepted buffer is either the initial allocation or shorter than twice
/// that length: the doubling bounds the number of attempts logarithmically in
/// the length the decoder needs.
pub fn generate_owned_arbitrary_data<A: GenerateArbitrary>(stream: &mut DeterministicStream) -> (r:
    Result<OwnedArbitrary, GenerateError>)
    requires
        forall|d: int| 0 <= d < DEPTH_BOUND as int ==> initial_len_spec::<A>(d) <= MAX_INITIAL_LEN as nat,
    ensures
        final(stream).seed() == old(stream).seed(),
        ({
            let g = generate_spec::<A>(old(stream).seed(), old(stream).pos());
            &&& (r is Ok <==> g.0 is Ok)
            &&& (r is Ok ==> r->Ok_0@ == g.0->Ok_0)
            &&& (r is Err ==> g.0 is Err && r->Err_0 == g.0->Err_0)
            &&& final(stream).pos() == g.1
        }),
        r is Ok ==> A::decode_spec(r->Ok_0@) is Ok,
        forall|n: nat|
            1 <= n <= 0x80000 && #[trigger] decoder_total_from::<A>(n) ==> r is Ok && (
            r->Ok_0@.len() == initial_len_spec::<A>(
                chacha_range(old(stream).seed(), old(stream).pos(), DEPTH_BOUND as int).0,
            ) || r->Ok_0@.len() < 2 * n),
{
    let ghost seed0 = stream.seed();
    let ghost pos0 = stream.pos();
    let depth = stream.random_below(DEPTH_BOUND);
    let (lower, upper) = A::size_hint(depth);
    let lower = if lower < 1 {
        1
    } else {
        lower
    };
    let base = match upper {
        Some(u) => u,
        None => lower,
    };
    assert((base + 1) * 2 == initial_len_spec::<A>(depth as int));
    let capacity = (base + 1) * 2;
    let mut buffer = zero_vec(capacity);
    stream.fill(&mut buffer);
    let ghost mut failed: Seq<u8> = Seq::empty();
    let mut attempt: usize = 0;
    proof {
        lemma2_to64();
    }
    while attempt < MAX_TRIES
        invariant
            seed0 == old(stream).seed(),
            pos0 == old(stream).pos(),
            stream.seed() == seed0,
            attempt <= MAX_TRIES,
            generate_spec::<A>(seed0, pos0) == grow_spec::<A>(
                seed0,
                stream.pos(),
                buffer@,
                (MAX_TRIES - attempt) as nat,
            ),
            buffer@.len() >= pow2(attempt as nat),
            attempt == 0 ==> buffer@.len() == initial_len_spec::<A>(
                chacha_range(seed0, pos0, DEPTH_BOUND as int).0,
            ),
            attempt >= 1 ==> A::decode_spec(failed) is Err && failed.len() >= pow2(
                (attempt - 1) as nat,
            ) && buffer@.len() == 2 * failed.len(),
        decreases MAX_TRIES - attempt,
    {
        match A::try_decode(&buffer) {
            Ok(_) => {
                proof {
                    assert forall|n: nat|
                        1 <= n <= 0x80000 && #[trigger] decoder_total_from::<A>(
                            n,
                        ) implies (buffer@.len() == initial_len_spec::<A>(
                        chacha_range(seed0, pos0, DEPTH_BOUND as int).0,
                    ) || buffer@.len() < 2 * n) by {
                        if attempt >= 1 && failed.len() >= n {
                            assert(A::decode_spec(failed) is Ok);
                        }
                    };
                }
                return Ok(OwnedArbitrary { buffer });
            },
            Err(ArbitraryFailure::NotEnoughData) => {
                proof {
                    failed = buffer@;
                }
                let mut ext = zero_vec(buffer.len());
                stream.fill(&mut ext);
                buffer.append(&mut ext);
                proof {
                    lemma_pow2_unfold((attempt + 1) as nat);
                }
                attempt = attempt + 1;
            },
            Err(ArbitraryFailure::Malformed) => {
                assert forall|n: nat|
                    1 <= n <= 0x80000 && #[trigger] decoder_total_from::<A>(
                        n,
                    ) implies false by {};
                return Err(GenerateError::Malformed);
            },
        }
    }
    proof {
        lemma2_to64();
        assert forall|n: nat|
            1 <= n <= 0x80000 && #[trigger] decoder_total_from::<A>(n) implies false by {
            assert(failed.len() >= pow2(19));
            assert(A::decode_spec(failed) is Ok);
        };
    }
    Err(GenerateError::Exhausted)
}

impl GenerateArbitrary for u64 {
    /// An unsigned 64-bit integer decodes from the first eight bytes of the
    /// buffer, little-endian, zero-padded past the buffer's end; it never
    /// fails.
    open spec fn decode_spec(data: Seq<u8>) -> Result<u64, ArbitraryFailure> {
        Ok(le_bytes_val(data, 0, 8) as u64)
    }

    open spec fn lower_hint_spec(depth: int) -> nat {
        8
    }

    open spec fn upper_hint_spec(depth: int) -> Option<nat> {
        Some(8nat)
    }

    fn size_hint(depth: usize) -> (r: (usize, Option<usize>)) {
        (8, Some(8))
    }

    fn try_decode(data: &Vec<u8>) -> (r: Result<u64, ArbitraryFailure>) {
        arb_decode_u64(data)
    }
}

/// Relies on the `Arbitrary` implementation for `u64` of the `arbitrary`
/// crate: it fills an eight-byte array from the front of the buffer,
/// zero-padding when the buffer runs out, reads it little-endian, and never
/// fails.
#[verifier::external_body]
fn arb_decode_u64(data: &Vec<u8>) -> (r: Result<u64, ArbitraryFailure>)
    ensures
        r is Ok,
        r->Ok_0 == le_bytes_val(data@, 0, 8) as u64,
{
    let mut unstructured = arbitrary::Unstructured::new(data.as_slice());
    match <u64 as arbitrary::Arbitrary>::arbitrary(&mut unstructured) {
        Ok(v) => Ok(v),
        Err(arbitrary::Error::NotEnoughData) => Err(ArbitraryFailure::NotEnoughData),
        Err(_) => Err(ArbitraryFailure::Malformed),
    }
}

/// Relies on the `Arbitrary` implementation for `i32` of the `arbitrary`
/// crate: it fills a four-byte array from the front of the buffer,
/// zero-padding when the buffer runs out, reads it little-endian two's
/// complement, and never fails.
#[verifier::external_body]
fn arb_decode_i32(data: &Vec<u8>) -> (r: Result<i32, ArbitraryFailure>)
    ensures
        r is Ok,
        r->Ok_0 == i32_from_bits(le_bytes_val(data@, 0, 4)) as i32,
{
    let mut unstructured = arbitrary::Unstructured::new(data.as_slice());
    match <i32 as arbitrary::Arbitrary>::arbitrary(&mut unstructured) {
        Ok(v) => Ok(v),
        Err(arbitrary::Error::NotEnoughData) => Err(ArbitraryFailure::NotEnoughData),
        Err(_) => Err(ArbitraryFailure::Malformed),
    }
}

impl GenerateArbitrary for i32 {
    /// A signed 32-bit integer decodes from the first four bytes of the
    /// buffer, little-endian two's complement, zero-padded past the buffer's
    /// end; it never fails.
    open spec fn decode_spec(data: Seq<u8>) -> Result<i32, ArbitraryFailure> {
        Ok(i32_from_bits(le_bytes_val(data, 0, 4)) as i32)
    }

    open spec fn lower_hint_spec(depth: int) -> nat {
        4
    }

    open spec fn upper_hint_spec(depth: int) -> Option<nat> {
        Some(4nat)
    }

    fn size_hint(depth: usize) -> (r: (usize, Option<usize>)) {
        (4, Some(4))
    }

    fn try_decode(data: &Vec<u8>) -> (r: Result<i32, ArbitraryFailure>) {
        arb_decode_i32(data)
    }
}

} // verus!
