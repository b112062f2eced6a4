//! Seeds: 32-bit integers packed big-endian from the leading bytes of a word.
use vstd::prelude::*;
use vstd::utf8::{decode_utf8, pop_first_scalar, valid_utf8};

verus! {

/// The byte at `i`, or zero past the end of `b`.
pub open spec fn padded_byte(b: Seq<u8>, i: int) -> u8 {
    if 0 <= i < b.len() {
        b[i]
    } else {
        0
    }
}

/// The seed packed big-endian from the first four bytes of `b`, zero-filled.
pub open spec fn seed_value(b: Seq<u8>) -> u32 {
    (padded_byte(b, 0) as int * 0x1000000 + padded_byte(b, 1) as int * 0x10000
        + padded_byte(b, 2) as int * 0x100 + padded_byte(b, 3) as int) as u32
}

/// The four bytes of `seed`, most significant first.
pub open spec fn seed_byte_seq(seed: u32) -> Seq<u8> {
    seq![
        (seed / 0x1000000) as u8,
        (seed / 0x10000 % 0x100) as u8,
        (seed / 0x100 % 0x100) as u8,
        (seed % 0x100) as u8,
    ]
}

fn byte_or_zero(bytes: &[u8], i: usize) -> (r: u8)
    ensures
        r == padded_byte(bytes@, i as int),
{
    if i < bytes.len() {
        bytes[i]
    } else {
        0
    }
}

/// Packs the first four bytes of `bytes` big-endian into a seed; missing
/// bytes count as zero and bytes past the fourth are ignored.
pub fn pack_seed(bytes: &[u8]) -> (r: u32)
    ensures
        r == seed_value(bytes@),
{
    let b0 = byte_or_zero(bytes, 0) as u32;
    let b1 = byte_or_zero(bytes, 1) as u32;
    let b2 = byte_or_zero(bytes, 2) as u32;
    let b3 = byte_or_zero(bytes, 3) as u32;
    b0 * 0x1000000 + b1 * 0x10000 + b2 * 0x100 + b3
}

/// The four bytes of `seed`, most significant first.
pub fn seed_bytes(seed: u32) -> (r: [u8; 4])
    ensures
        r@ == seed_byte_seq(seed),
{
    let r = [
        (seed / 0x1000000) as u8,
        (seed / 0x10000 % 0x100) as u8,
        (seed / 0x100 % 0x100) as u8,
        (seed % 0x100) as u8,
    ];
    assert(r@ =~= seed_byte_seq(seed));
    r
}

/// Unpacking a seed packed from four bytes gives those bytes back.
pub proof fn lemma_unpack_pack(b: Seq<u8>)
    requires
        b.len() == 4,
    ensures
        seed_byte_seq(seed_value(b)) == b,
{
    let (b0, b1, b2, b3) = (b[0] as int, b[1] as int, b[2] as int, b[3] as int);
    let v = b0 * 0x1000000 + b1 * 0x10000 + b2 * 0x100 + b3;
    assert(v / 0x1000000 == b0 && v / 0x10000 % 0x100 == b1 && v / 0x100 % 0x100 == b2
        && v % 0x100 == b3) by (nonlinear_arith)
        requires
            0 <= b0 < 256,
            0 <= b1 < 256,
            0 <= b2 < 256,
            0 <= b3 < 256,
            v == b0 * 0x1000000 + b1 * 0x10000 + b2 * 0x100 + b3,
    ;
    assert(seed_byte_seq(seed_value(b)) =~= b);
}

/// Packing the bytes of a seed gives the seed back.
pub proof fn lemma_pack_unpack(seed: u32)
    ensures
        seed_value(seed_byte_seq(seed)) == seed,
{
    let s = seed as int;
    assert(s / 0x1000000 * 0x1000000 + s / 0x10000 % 0x100 * 0x10000 + s / 0x100 % 0x100 * 0x100
        + s % 0x100 == s) by (nonlinear_arith)
        requires
            0 <= s < 0x100000000,
    ;
}

/// Relies on std::str::from_utf8: it succeeds exactly on valid UTF-8, and
/// then the text is the decoding of the bytes.
#[verifier::external_body]
fn utf8_text(bytes: &[u8]) -> (r: Option<String>)
    ensures
        r is Some <==> valid_utf8(bytes@),
        r matches Some(s) ==> s@ == decode_utf8(bytes@),
{
    match std::str::from_utf8(bytes) {
        Ok(s) => Some(s.to_string()),
        Err(_) => None,
    }
}

/// The seed's four bytes, most significant first, read as UTF-8 text; `None`
/// where they are not valid UTF-8.
pub fn seed_label(seed: u32) -> (r: Option<String>)
    ensures
        r is Some <==> valid_utf8(seed_byte_seq(seed)),
        r matches Some(s) ==> s@ == decode_utf8(seed_byte_seq(seed)),
{
    let bytes = seed_bytes(seed);
    utf8_text(bytes.as_slice())
}

/// Bytes below 0x80 are valid UTF-8, each decoding to the character of the
/// same value.
pub proof fn lemma_ascii_utf8(b: Seq<u8>)
    requires
        forall|i: int| 0 <= i < b.len() ==> #[trigger] b[i] < 0x80,
    ensures
        valid_utf8(b),
        decode_utf8(b) == b.map_values(|x: u8| x as char),
    decreases b.len(),
{
    if b.len() > 0 {
        let b0 = b[0];
        assert(b0 & 0x7f == b0) by (bit_vector)
            requires
                b0 < 0x80,
        ;
        let rest = pop_first_scalar(b);
        assert(rest =~= b.subrange(1, b.len() as int));
        lemma_ascii_utf8(rest);
        assert(decode_utf8(b) =~= b.map_values(|x: u8| x as char));
    } else {
        assert(decode_utf8(b) =~= b.map_values(|x: u8| x as char));
    }
}

/// A seed packed from four ASCII bytes reads back as exactly those four
/// characters.
pub proof fn lemma_ascii_seed_text(b: Seq<u8>)
    requires
        b.len() == 4,
        forall|i: int| 0 <= i < 4 ==> #[trigger] b[i] < 0x80,
    ensures
        valid_utf8(seed_byte_seq(seed_value(b))),
        decode_utf8(seed_byte_seq(seed_value(b))) == b.map_values(|x: u8| x as char),
{
    lemma_unpack_pack(b);
    lemma_ascii_utf8(b);
}

/// A seed whose bytes are ASCII and whose first byte is a lower-case letter,
/// as every seed packed from a generated word is.
pub open spec fn is_word_seed(seed: u32) -> bool {
    &&& 0x61 <= seed_byte_seq(seed)[0] <= 0x7a
    &&& forall|i: int| 0 <= i < 4 ==> #[trigger] seed_byte_seq(seed)[i] < 0x80
}

/// Relies on names::Generator: the default generator's `next` always returns
/// `Some` of "adjective-noun", both drawn at random from its word lists, whose
/// entries are non-empty, made of `a`-`z` and `-`, and start with a letter.
#[verifier::external_body]
fn random_word() -> (r: Vec<u8>)
    ensures
        r@.len() > 0,
        0x61 <= r@[0] <= 0x7a,
        forall|i: int| 0 <= i < r@.len() ==> (0x61 <= #[trigger] r@[i] <= 0x7a || r@[i] == 0x2d),
{
    names::Generator::default().next().unwrap().into_bytes()
}

/// A fresh seed packed from the leading bytes of a random word; its bytes
/// always read as text.
pub fn generate_seed() -> (r: u32)
    ensures
        is_word_seed(r),
        valid_utf8(seed_byte_seq(r)),
{
    let word = random_word();
    let r = pack_seed(word.as_slice());
    proof {
        let w = word@;
        let p = seq![padded_byte(w, 0), padded_byte(w, 1), padded_byte(w, 2), padded_byte(w, 3)];
        assert(seed_value(p) == r);
        lemma_unpack_pack(p);
        assert forall|i: int| 0 <= i < 4 implies #[trigger] p[i] < 0x80 by {
            if i < w.len() {
                assert(0x61 <= w[i] <= 0x7a || w[i] == 0x2d);
            }
        }
        lemma_ascii_utf8(p);
    }
    r
}

} // verus!
