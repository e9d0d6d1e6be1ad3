//! Colon-separated lowercase hexadecimal rendering of byte sequences into a
//! caller-supplied buffer, with no allocation.

use vstd::prelude::*;
use vstd::assert_seqs_equal;

verus! {

/// The ASCII byte of the lowercase hex digit for a nibble value.
pub open spec fn hex_digit(n: u8) -> u8
    recommends
        n < 16,
{
    if n < 10 {
        (0x30 + n) as u8
    } else {
        (0x57 + n) as u8
    }
}

/// The two hex digits of one byte, high nibble first.
pub open spec fn hex_pair(b: u8) -> Seq<u8> {
    seq![hex_digit(b / 16), hex_digit(b % 16)]
}

/// The colon-separated lowercase hex text of a byte sequence: two digits per
/// byte, with a single `:` before every byte except the first.
pub open spec fn hex_text(s: Seq<u8>) -> Seq<u8>
    decreases s.len(),
{
    if s.len() == 0 {
        Seq::empty()
    } else if s.len() == 1 {
        hex_pair(s[0])
    } else {
        hex_text(s.drop_last()) + seq![0x3au8] + hex_pair(s.last())
    }
}

/// The length of the hex text of `n` bytes: `2n` digits plus `n - 1`
/// separators, and nothing at all for an empty input.
pub open spec fn hex_text_len(n: nat) -> nat {
    if n == 0 {
        0
    } else {
        (3 * n - 1) as nat
    }
}

/// The hex text of `n` bytes is `hex_text_len(n)` bytes long.
pub proof fn lemma_hex_text_len(s: Seq<u8>)
    ensures
        hex_text(s).len() == hex_text_len(s.len()),
    decreases s.len(),
{
    if s.len() > 1 {
        lemma_hex_text_len(s.drop_last());
    }
}

/// The lowercase hex digit for a nibble value.
fn hex_digit_char(n: u8) -> (d: u8)
    requires
        n < 16,
    ensures
        d == hex_digit(n),
{
    if n < 10 {
        0x30 + n
    } else {
        0x57 + n
    }
}

/// Writes the colon-separated lowercase hex rendering of `bytes` into
/// `buffer` and returns the number of bytes written. The caller must supply
/// a buffer of at least `3 * bytes.len() - 1` bytes (`0` for an empty
/// input); bytes of the buffer beyond the written prefix are left unchanged.
pub fn to_hex_string(bytes: &[u8], buffer: &mut [u8]) -> (written: usize)
    requires
        old(buffer)@.len() >= hex_text_len(bytes@.len()),
    ensures
        written == hex_text_len(bytes@.len()),
        final(buffer)@.len() == old(buffer)@.len(),
        final(buffer)@.take(written as int) == hex_text(bytes@),
        forall|j: int|
            written <= j < final(buffer)@.len() ==> final(buffer)@[j] == old(buffer)@[j],
{
    let mut buffer_index: usize = 0;
    let mut i: usize = 0;
    while i < bytes.len()
        invariant
            i <= bytes@.len(),
            buffer_index == hex_text_len(i as nat),
            buffer@.len() == old(buffer)@.len(),
            buffer@.len() >= hex_text_len(bytes@.len()),
            buffer@.take(buffer_index as int) == hex_text(bytes@.take(i as int)),
            forall|j: int| buffer_index <= j < buffer@.len() ==> buffer@[j] == old(buffer)@[j],
        decreases bytes@.len() - i,
    {
        proof {
            lemma_hex_text_len(bytes@.take(i as int));
        }
        if i != 0 {
            buffer[buffer_index] = 0x3a;
            buffer_index = buffer_index + 1;
        }
        let byte = bytes[i];
        buffer[buffer_index] = hex_digit_char(byte / 16);
        buffer[buffer_index + 1] = hex_digit_char(byte % 16);
        buffer_index = buffer_index + 2;
        i = i + 1;
        proof {
            let done = bytes@.take(i as int);
            assert(done.drop_last() =~= bytes@.take(i - 1));
            assert(done.last() == bytes@[i - 1]);
            assert(buffer@.take(buffer_index as int) =~= hex_text(done));
        }
    }
    proof {
        assert(bytes@.take(i as int) =~= bytes@);
    }
    buffer_index
}

/// The nibble value of a lowercase hex digit (the inverse of `hex_digit`).
pub open spec fn nibble_of(d: u8) -> int {
    if d >= 0x61 {
        d - 0x57
    } else {
        d - 0x30
    }
}

/// The byte denoted by two hex digits, high nibble first.
pub open spec fn byte_of_pair(hi: u8, lo: u8) -> u8 {
    (16 * nibble_of(hi) + nibble_of(lo)) as u8
}

/// Decodes colon-separated hex text back to the byte sequence it denotes,
/// reading two digits per byte from the end and skipping one separator
/// between bytes; defined on text of the shape that `hex_text` produces.
pub open spec fn hex_parse(t: Seq<u8>) -> Seq<u8>
    decreases t.len(),
{
    if t.len() < 2 {
        Seq::empty()
    } else if t.len() == 2 {
        seq![byte_of_pair(t[0], t[1])]
    } else {
        hex_parse(t.take(t.len() - 3)) + seq![byte_of_pair(t[t.len() - 2], t[t.len() - 1])]
    }
}

/// Rendering one byte loses nothing: its two hex digits decode back to it.
proof fn lemma_byte_of_pair(b: u8)
    ensures
        byte_of_pair(hex_digit(b / 16), hex_digit(b % 16)) == b,
{
    assert(nibble_of(hex_digit(b / 16)) == b / 16);
    assert(nibble_of(hex_digit(b % 16)) == b % 16);
    assert(16 * (b / 16) + b % 16 == b) by (nonlinear_arith);
}

/// Hex rendering loses nothing: decoding the rendered text reproduces the
/// original byte sequence exactly.
pub proof fn lemma_hex_round_trip(s: Seq<u8>)
    ensures
        hex_parse(hex_text(s)) == s,
    decreases s.len(),
{
    if s.len() == 0 {
        assert(hex_parse(hex_text(s)) =~= s);
    } else if s.len() == 1 {
        lemma_byte_of_pair(s[0]);
        assert(hex_parse(hex_text(s)) =~= s);
    } else {
        let t = hex_text(s);
        lemma_hex_round_trip(s.drop_last());
        lemma_hex_text_len(s.drop_last());
        lemma_hex_text_len(s);
        lemma_byte_of_pair(s.last());
        assert(t.take(t.len() - 3) =~= hex_text(s.drop_last()));
        assert(t[t.len() - 2] == hex_digit(s.last() / 16));
        assert(t[t.len() - 1] == hex_digit(s.last() % 16));
        assert(hex_parse(t) =~= s);
    }
}

} // verus!
