//! Human-readable seed encoding: 32 raw bytes rendered as 64 lower-case hex
//! digits, most significant digit of each byte first.  Parsing ignores any
//! byte that is not a hex digit, so separators such as `-` are permitted, but
//! the filtered digit count must be exactly 64.

use vstd::prelude::*;

verus! {

use vstd::string::StringSliceAdditionalSpecFns;

/// True for the ASCII bytes `0-9`, `a-f` and `A-F`.
pub open spec fn is_hex_digit_byte(b: u8) -> bool {
    (48 <= b && b <= 57) || (97 <= b && b <= 102) || (65 <= b && b <= 70)
}

/// Numeric value of one hex digit byte (0 for anything else).
pub open spec fn hex_digit_val(b: u8) -> nat {
    if 48 <= b && b <= 57 {
        (b - 48) as nat
    } else if 97 <= b && b <= 102 {
        (b - 97 + 10) as nat
    } else if 65 <= b && b <= 70 {
        (b - 65 + 10) as nat
    } else {
        0
    }
}

/// The hex digits of a byte string, in order, with everything else dropped.
pub open spec fn hex_digits_of(s: Seq<u8>) -> Seq<u8> {
    s.filter(|b: u8| is_hex_digit_byte(b))
}

/// The byte encoded by a pair of hex digits, high nibble first.
pub open spec fn hex_pair_val(hi: u8, lo: u8) -> u8 {
    (hex_digit_val(hi) * 16 + hex_digit_val(lo)) as u8
}

/// Decode consecutive digit pairs into bytes, high nibble first.
pub open spec fn decode_hex_pairs(s: Seq<u8>) -> Seq<u8> {
    Seq::new(s.len() / 2, |i: int| hex_pair_val(s[2 * i], s[2 * i + 1]))
}

/// Lower-case hex digit byte for a nibble value.
pub open spec fn hex_digit_byte(v: nat) -> u8 {
    if v < 10 {
        (48 + v) as u8
    } else {
        (87 + v) as u8
    }
}

/// The lower-case hex encoding of a byte string, as ASCII bytes.
pub open spec fn hex_bytes_of(b: Seq<u8>) -> Seq<u8> {
    Seq::new(
        b.len() * 2,
        |i: int|
            if i % 2 == 0 {
                hex_digit_byte(b[i / 2] as nat / 16)
            } else {
                hex_digit_byte(b[i / 2] as nat % 16)
            },
    )
}

/// The lower-case hex encoding of a byte string, as characters.
pub open spec fn hex_string_of(b: Seq<u8>) -> Seq<char> {
    Seq::new(b.len() * 2, |i: int| hex_bytes_of(b)[i] as char)
}

/// A fixed 32-byte value that identifies one reproducible test case.
#[derive(Clone, Copy, Debug)]
pub struct SeedPhrase {
    data: [u8; 32],
}

impl View for SeedPhrase {
    type V = Seq<u8>;

    closed spec fn view(&self) -> Seq<u8> {
        self.data@
    }
}

fn is_hex_digit(b: u8) -> (r: bool)
    ensures
        r == is_hex_digit_byte(b),
{
    (48 <= b && b <= 57) || (97 <= b && b <= 102) || (65 <= b && b <= 70)
}

fn hex_val(b: u8) -> (r: u8)
    requires
        is_hex_digit_byte(b),
    ensures
        r == hex_digit_val(b),
        r < 16,
{
    if 48 <= b && b <= 57 {
        b - 48
    } else if 97 <= b && b <= 102 {
        b - 97 + 10
    } else {
        b - 65 + 10
    }
}

impl SeedPhrase {
    /// Parse a textual seed.  Every byte that is not a hex digit is ignored;
    /// the remaining digits must number exactly 64 and are decoded in pairs,
    /// high nibble first.
    pub fn parse(data: &str) -> (r: Result<SeedPhrase, &'static str>)
        ensures
            r is Ok <==> hex_digits_of(data.spec_bytes()).len() == 64,
            r is Ok ==> r->Ok_0@ == decode_hex_pairs(hex_digits_of(data.spec_bytes())),
            r is Err ==> r->Err_0@ == "Seed data must be 64 hex digits"@,
    {
        let bytes: &[u8] = data.as_bytes();
        let n = bytes.len();
        let mut digits: Vec<u8> = Vec::new();
        let mut i: usize = 0;
        while i < n
            invariant
                n == bytes@.len(),
                i <= n,
                digits@ == hex_digits_of(bytes@.take(i as int)),
            decreases n - i,
        {
            let b = bytes[i];
            proof {
                assert(bytes@.take(i + 1) == bytes@.take(i as int).push(bytes@[i as int]));
                bytes@.take(i as int).lemma_filter_push(
                    bytes@[i as int],
                    |x: u8| is_hex_digit_byte(x),
                );
            }
            if is_hex_digit(b) {
                digits.push(b);
            }
            i = i + 1;
        }
        proof {
            assert(bytes@.take(n as int) == bytes@);
        }
        if digits.len() != 64 {
            return Err("Seed data must be 64 hex digits");
        }
        let mut out: [u8; 32] = [0u8; 32];
        let mut j: usize = 0;
        while j < 32
            invariant
                j <= 32,
                digits@.len() == 64,
                digits@ == hex_digits_of(bytes@),
                bytes@ == data.spec_bytes(),
                forall|k: int|
                    0 <= k < j ==> out@[k] == decode_hex_pairs(digits@)[k],
            decreases 32 - j,
        {
            proof {
                bytes@.lemma_filter_pred(|x: u8| is_hex_digit_byte(x), 2 * j as int);
                bytes@.lemma_filter_pred(|x: u8| is_hex_digit_byte(x), 2 * j + 1);
            }
            let hi = hex_val(digits[2 * j]);
            let lo = hex_val(digits[2 * j + 1]);
            out[j] = hi * 16 + lo;
            j = j + 1;
        }
        assert(out@ =~= decode_hex_pairs(digits@));
        Ok(SeedPhrase { data: out })
    }

    /// Render the seed as 64 lower-case hex digits.
    pub fn to_string(&self) -> (r: String)
        ensures
            r@ == hex_string_of(self@),
            r@.len() == 64,
    {
        let mut buf: Vec<u8> = Vec::new();
        let mut i: usize = 0;
        while i < 32
            invariant
                i <= 32,
                self@.len() == 32,
                buf@.len() == 2 * i,
                forall|k: int| 0 <= k < 2 * i ==> buf@[k] == hex_bytes_of(self@)[k],
            decreases 32 - i,
        {
            let byte = self.data[i];
            buf.push(hex_digit_to_byte(byte / 16));
            buf.push(hex_digit_to_byte(byte % 16));
            i = i + 1;
        }
        proof {
            assert(buf@ =~= hex_bytes_of(self@));
        }
        let r = ascii_bytes_to_string(&buf);
        proof {
            assert(r@ =~= hex_string_of(self@));
        }
        r
    }

    /// Build a seed from exactly 32 raw bytes.
    pub fn from_bytes(bytes: &[u8]) -> (r: Result<SeedPhrase, &'static str>)
        ensures
            r is Ok <==> bytes@.len() == 32,
            r is Ok ==> r->Ok_0@ == bytes@,
            r is Err ==> r->Err_0@ == "Seed data must be 32 bytes"@,
    {
        if bytes.len() != 32 {
            return Err("Seed data must be 32 bytes");
        }
        let mut out: [u8; 32] = [0u8; 32];
        let mut i: usize = 0;
        while i < 32
            invariant
                i <= 32,
                bytes@.len() == 32,
                forall|k: int| 0 <= k < i ==> out@[k] == bytes@[k],
            decreases 32 - i,
        {
            out[i] = bytes[i];
            i = i + 1;
        }
        proof {
            assert(out@ =~= bytes@);
        }
        Ok(SeedPhrase { data: out })
    }

    /// The raw 32 bytes of the seed.
    pub fn into_bytes(self) -> (r: [u8; 32])
        ensures
            r@ == self@,
    {
        self.data
    }
}

fn hex_digit_to_byte(v: u8) -> (r: u8)
    requires
        v < 16,
    ensures
        r == hex_digit_byte(v as nat),
{
    if v < 10 {
        48 + v
    } else {
        87 + v
    }
}

/// Relies on `String::from_utf8`: bytes below 128 are valid UTF-8 and decode
/// to the code points with the same values.
#[verifier::external_body]
fn ascii_bytes_to_string(bytes: &Vec<u8>) -> (r: String)
    requires
        forall|i: int| 0 <= i < bytes@.len() ==> bytes@[i] < 128,
    ensures
        r@.len() == bytes@.len(),
        forall|i: int| 0 <= i < bytes@.len() ==> r@[i] == bytes@[i] as char,
{
    String::from_utf8(bytes.clone()).unwrap()
}

/// Filtering for hex digits keeps a string that is made of hex digits intact.
proof fn lemma_filter_of_all_hex(s: Seq<u8>)
    requires
        forall|i: int| 0 <= i < s.len() ==> is_hex_digit_byte(s[i]),
    ensures
        hex_digits_of(s) == s,
    decreases s.len(),
{
    reveal(Seq::filter);
    if s.len() > 0 {
        lemma_filter_of_all_hex(s.drop_last());
        assert(hex_digits_of(s) =~= s);
    } else {
        assert(hex_digits_of(s) =~= s);
    }
}

/// Every byte of a hex rendering is itself a hex digit.
proof fn lemma_hex_bytes_are_digits(b: Seq<u8>)
    ensures
        forall|i: int|
            0 <= i < hex_bytes_of(b).len() ==> is_hex_digit_byte(#[trigger] hex_bytes_of(b)[i]),
{
}

/// Round trip of one byte through its two hex digits.
proof fn lemma_hex_pair_round_trip(x: u8)
    ensures
        hex_pair_val(hex_digit_byte(x as nat / 16), hex_digit_byte(x as nat % 16)) == x,
{
}

/// Hex round-trip: the hex rendering of any 32-byte value filters to exactly
/// 64 digits, and decoding those digits gives the value back.  Together with
/// the contracts of `to_string` and `parse` this says that
/// `parse(s.to_string())` returns `s` for every seed `s`.
pub proof fn lemma_hex_round_trip(b: Seq<u8>)
    requires
        b.len() == 32,
    ensures
        hex_digits_of(hex_bytes_of(b)).len() == 64,
        decode_hex_pairs(hex_digits_of(hex_bytes_of(b))) == b,
        vstd::utf8::encode_utf8(hex_string_of(b)) == hex_bytes_of(b),
{
    lemma_hex_bytes_are_digits(b);
    lemma_filter_of_all_hex(hex_bytes_of(b));
    assert(decode_hex_pairs(hex_bytes_of(b)) =~= b) by {
        assert forall|i: int| 0 <= i < 32 implies decode_hex_pairs(hex_bytes_of(b))[i] == b[i] by {
            lemma_hex_pair_round_trip(b[i]);
        }
    }
    assert(vstd::utf8::is_ascii_chars(hex_string_of(b)));
    vstd::utf8::is_ascii_chars_encode_utf8(hex_string_of(b));
    assert(vstd::utf8::encode_utf8(hex_string_of(b)) =~= hex_bytes_of(b));
}

} // verus!
