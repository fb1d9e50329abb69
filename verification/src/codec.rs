//! The exact 32-byte image of a configuration: the flags word, the two delay
//! words, then the five reserved words, each stored least significant byte
//! first. Serializing and deserializing are inverse to each other, so a block
//! read from a device round-trips byte for byte.

use vstd::prelude::*;

use crate::config::Rs485Flags;
use crate::config::SerialRs485;

verus! {

/// The four bytes of `x`, least significant first.
pub open spec fn le_bytes(x: u32) -> Seq<u8> {
    seq![
        (x & 0xff) as u8,
        ((x >> 8) & 0xff) as u8,
        ((x >> 16) & 0xff) as u8,
        ((x >> 24) & 0xff) as u8,
    ]
}

/// The word stored least significant byte first at offset `i` of `b`.
pub open spec fn word_at(b: Seq<u8>, i: int) -> u32
    recommends
        0 <= i,
        i + 4 <= b.len(),
{
    (b[i] as u32) | ((b[i + 1] as u32) << 8) | ((b[i + 2] as u32) << 16) | ((b[i + 3] as u32)
        << 24)
}

/// The 32-byte image of `c`: flags, delay before send, delay after send,
/// then the reserved words, in layout order.
pub open spec fn spec_to_bytes(c: SerialRs485) -> Seq<u8> {
    le_bytes(c.flags.bits) + le_bytes(c.delay_rts_before_send) + le_bytes(c.delay_rts_after_send)
        + le_bytes(c.padding@[0]) + le_bytes(c.padding@[1]) + le_bytes(c.padding@[2]) + le_bytes(
        c.padding@[3],
    ) + le_bytes(c.padding@[4])
}

/// Reassembling the four bytes of a word gives the word back.
proof fn lemma_word_of_le(x: u32)
    ensures
        word_at(le_bytes(x), 0) == x,
{
    let b0: u8 = (x & 0xff) as u8;
    let b1: u8 = ((x >> 8) & 0xff) as u8;
    let b2: u8 = ((x >> 16) & 0xff) as u8;
    let b3: u8 = ((x >> 24) & 0xff) as u8;
    assert((b0 as u32) | ((b1 as u32) << 8) | ((b2 as u32) << 16) | ((b3 as u32) << 24) == x)
        by (bit_vector)
        requires
            b0 == (x & 0xff) as u8,
            b1 == ((x >> 8) & 0xff) as u8,
            b2 == ((x >> 16) & 0xff) as u8,
            b3 == ((x >> 24) & 0xff) as u8,
    ;
}

/// A word whose four bytes stand at offset `o` of `s` reads back from there.
proof fn lemma_word_at_of_bytes(s: Seq<u8>, x: u32, o: int)
    requires
        0 <= o,
        o + 4 <= s.len(),
        s[o] == le_bytes(x)[0],
        s[o + 1] == le_bytes(x)[1],
        s[o + 2] == le_bytes(x)[2],
        s[o + 3] == le_bytes(x)[3],
    ensures
        word_at(s, o) == x,
{
    lemma_word_of_le(x);
}

/// Splitting a word into bytes and reassembling them is the identity, so the
/// byte image determines every field: two configurations with the same image
/// are the same configuration. Together with the contract of
/// [`SerialRs485::from_bytes`] this is the round trip: deserializing the
/// serialized image of `a` yields `a` again, reserved words included.
pub proof fn lemma_to_bytes_injective(a: SerialRs485, b: SerialRs485)
    requires
        spec_to_bytes(a) == spec_to_bytes(b),
    ensures
        a == b,
{
    lemma_words_of_image(a);
    lemma_words_of_image(b);
    assert(a.padding@ =~= b.padding@);
    assert(a =~= b);
}

/// Each word of the image reads back as the field it encodes.
pub proof fn lemma_words_of_image(c: SerialRs485)
    ensures
        word_at(spec_to_bytes(c), 0) == c.flags.bits,
        word_at(spec_to_bytes(c), 4) == c.delay_rts_before_send,
        word_at(spec_to_bytes(c), 8) == c.delay_rts_after_send,
        forall|i: int| 0 <= i < 5 ==> word_at(spec_to_bytes(c), 12 + 4 * i) == c.padding@[i],
{
    let s = spec_to_bytes(c);
    lemma_word_at_of_bytes(s, c.flags.bits, 0);
    lemma_word_at_of_bytes(s, c.delay_rts_before_send, 4);
    lemma_word_at_of_bytes(s, c.delay_rts_after_send, 8);
    lemma_word_at_of_bytes(s, c.padding@[0], 12);
    lemma_word_at_of_bytes(s, c.padding@[1], 16);
    lemma_word_at_of_bytes(s, c.padding@[2], 20);
    lemma_word_at_of_bytes(s, c.padding@[3], 24);
    lemma_word_at_of_bytes(s, c.padding@[4], 28);
}

/// Append the four bytes of `x`, least significant first.
fn push_word(out: &mut Vec<u8>, x: u32)
    ensures
        final(out)@ == old(out)@ + le_bytes(x),
{
    out.push((x & 0xff) as u8);
    out.push(((x >> 8) & 0xff) as u8);
    out.push(((x >> 16) & 0xff) as u8);
    out.push(((x >> 24) & 0xff) as u8);
    assert(out@ =~= old(out)@ + le_bytes(x));
}

/// The word stored least significant byte first at offset `i`.
fn read_word(bytes: &[u8], i: usize) -> (r: u32)
    requires
        i + 4 <= bytes@.len(),
    ensures
        r == word_at(bytes@, i as int),
{
    (bytes[i] as u32) | ((bytes[i + 1] as u32) << 8) | ((bytes[i + 2] as u32) << 16) | ((bytes[i
        + 3] as u32) << 24)
}

impl SerialRs485 {
    /// Serialize to the 32-byte image the device-control call exchanges.
    pub fn to_bytes(&self) -> (r: Vec<u8>)
        ensures
            r@ == spec_to_bytes(*self),
            r@.len() == 32,
    {
        let mut out: Vec<u8> = Vec::new();
        push_word(&mut out, self.flags.bits);
        push_word(&mut out, self.delay_rts_before_send);
        push_word(&mut out, self.delay_rts_after_send);
        push_word(&mut out, self.padding[0]);
        push_word(&mut out, self.padding[1]);
        push_word(&mut out, self.padding[2]);
        push_word(&mut out, self.padding[3]);
        push_word(&mut out, self.padding[4]);
        assert(out@ =~= spec_to_bytes(*self));
        out
    }

    /// Rebuild a configuration from its 32-byte image.
    ///
    /// The result is exactly the value whose image is `bytes`: its fields
    /// are the words of `bytes`, and serializing it again gives `bytes`
    /// back, unrecognized flag bits and reserved words included.
    pub fn from_bytes(bytes: &[u8]) -> (r: SerialRs485)
        requires
            bytes@.len() == 32,
        ensures
            spec_to_bytes(r) == bytes@,
            r.flags.bits == word_at(bytes@, 0),
            r.delay_rts_before_send == word_at(bytes@, 4),
            r.delay_rts_after_send == word_at(bytes@, 8),
            forall|i: int| 0 <= i < 5 ==> r.padding@[i] == word_at(bytes@, 12 + 4 * i),
    {
        let r = SerialRs485 {
            flags: Rs485Flags { bits: read_word(bytes, 0) },
            delay_rts_before_send: read_word(bytes, 4),
            delay_rts_after_send: read_word(bytes, 8),
            padding: [
                read_word(bytes, 12),
                read_word(bytes, 16),
                read_word(bytes, 20),
                read_word(bytes, 24),
                read_word(bytes, 28),
            ],
        };
        proof {
            lemma_le_of_word(bytes@, 0);
            lemma_le_of_word(bytes@, 4);
            lemma_le_of_word(bytes@, 8);
            lemma_le_of_word(bytes@, 12);
            lemma_le_of_word(bytes@, 16);
            lemma_le_of_word(bytes@, 20);
            lemma_le_of_word(bytes@, 24);
            lemma_le_of_word(bytes@, 28);
            assert(spec_to_bytes(r) =~= bytes@);
        }
        r
    }
}

/// Splitting a word read from `b` back into bytes gives the bytes it was
/// read from.
proof fn lemma_le_of_word(b: Seq<u8>, o: int)
    requires
        0 <= o,
        o + 4 <= b.len(),
    ensures
        le_bytes(word_at(b, o))[0] == b[o],
        le_bytes(word_at(b, o))[1] == b[o + 1],
        le_bytes(word_at(b, o))[2] == b[o + 2],
        le_bytes(word_at(b, o))[3] == b[o + 3],
{
    let x: u32 = word_at(b, o);
    let b0: u8 = b[o];
    let b1: u8 = b[o + 1];
    let b2: u8 = b[o + 2];
    let b3: u8 = b[o + 3];
    assert((x & 0xff) as u8 == b0 && ((x >> 8) & 0xff) as u8 == b1 && ((x >> 16) & 0xff) as u8
        == b2 && ((x >> 24) & 0xff) as u8 == b3) by (bit_vector)
        requires
            x == (b0 as u32) | ((b1 as u32) << 8) | ((b2 as u32) << 16) | ((b3 as u32) << 24),
    ;
}

} // verus!
