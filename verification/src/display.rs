use vstd::prelude::*;
use vstd::endian::{endianness, Endian};

verus! {

/// Size of the drawable area in physical pixels, as the fragment shader
/// reads it from its first uniform block: two 32-bit words, `x` then `y`.
#[derive(Clone, Copy, Debug, PartialEq, Eq, Structural)]
pub struct Display {
    pub x: u32,
    pub y: u32,
}

/// Little-endian encoding of one word.
pub open spec fn word_le(v: u32) -> Seq<u8> {
    seq![
        (v % 0x100) as u8,
        ((v / 0x100) % 0x100) as u8,
        ((v / 0x1_0000) % 0x100) as u8,
        (v / 0x100_0000) as u8,
    ]
}

/// Big-endian encoding of one word.
pub open spec fn word_be(v: u32) -> Seq<u8> {
    seq![
        (v / 0x100_0000) as u8,
        ((v / 0x1_0000) % 0x100) as u8,
        ((v / 0x100) % 0x100) as u8,
        (v % 0x100) as u8,
    ]
}

/// The words laid out one after the other, each little-endian.
pub open spec fn words_le(words: Seq<u32>) -> Seq<u8>
    decreases words.len(),
{
    if words.len() == 0 {
        Seq::empty()
    } else {
        word_le(words[0]) + words_le(words.drop_first())
    }
}

/// The words laid out one after the other, each big-endian.
pub open spec fn words_be(words: Seq<u32>) -> Seq<u8>
    decreases words.len(),
{
    if words.len() == 0 {
        Seq::empty()
    } else {
        word_be(words[0]) + words_be(words.drop_first())
    }
}

/// Reads a word back from four little-endian bytes.
pub open spec fn read_le(b: Seq<u8>) -> int {
    b[0] + 0x100 * b[1] + 0x1_0000 * b[2] + 0x100_0000 * b[3]
}

/// Reads a word back from four big-endian bytes.
pub open spec fn read_be(b: Seq<u8>) -> int {
    b[3] + 0x100 * b[2] + 0x1_0000 * b[1] + 0x100_0000 * b[0]
}

/// The words laid out one after the other, each in the byte order of the
/// machine the code runs on.
pub open spec fn words_native(words: Seq<u32>) -> Seq<u8> {
    match endianness() {
        Endian::Little => words_le(words),
        Endian::Big => words_be(words),
    }
}

/// The bytes of `words` as they lie in memory: each word in the machine's
/// byte order, which is one and the same for every word and every call.
pub open spec fn in_memory(bytes: Seq<u8>, words: Seq<u32>) -> bool {
    bytes == words_native(words)
}

/// `bytemuck::cast_slice::<u32, u8>`: views the words as the bytes that hold
/// them in memory, four per word, in the machine's byte order (the cast
/// reinterprets the slice's memory; for `u8` targets it never fails). The
/// order is the one vstd's `endianness()` stands for; which one that is on
/// a given machine is not stated.
#[verifier::external_body]
fn cast_words_to_bytes(words: &[u32]) -> (bytes: Vec<u8>)
    ensures
        in_memory(bytes@, words@),
{
    bytemuck::cast_slice::<u32, u8>(words).to_vec()
}

impl Display {
    /// The uniform value for a drawable area of `width` by `height` pixels.
    pub fn new(width: u32, height: u32) -> (d: Display)
        ensures
            d.x == width,
            d.y == height,
    {
        Display { x: width, y: height }
    }

    /// The words of the uniform block, in the order the shader reads them.
    pub open spec fn words(self) -> Seq<u32> {
        seq![self.x, self.y]
    }

    /// The bytes to upload into the uniform buffer: `x` then `y`, each in
    /// the machine's byte order.
    pub fn uniform_bytes(&self) -> (bytes: Vec<u8>)
        ensures
            in_memory(bytes@, self.words()),
    {
        let words: Vec<u32> = vec![self.x, self.y];
        cast_words_to_bytes(words.as_slice())
    }
}

/// A word written in either byte order reads back as itself in that order.
pub proof fn lemma_word_round_trip(v: u32)
    ensures
        read_le(word_le(v)) == v,
        read_be(word_be(v)) == v,
{
    assert(v % 0x100 + 0x100 * ((v / 0x100) % 0x100) + 0x1_0000 * ((v / 0x1_0000) % 0x100)
        + 0x100_0000 * (v / 0x100_0000) == v) by (bit_vector);
}

/// Layout of the uniform block: the bytes uploaded for a `Display` are
/// eight, and reading them back in the machine's byte order gives `x` from
/// offset 0 and `y` from offset 4. The order is the machine's for every
/// display alike: on a little-endian machine every upload is little-endian.
pub proof fn lemma_uniform_layout(d: Display, bytes: Seq<u8>)
    requires
        in_memory(bytes, d.words()),
    ensures
        bytes.len() == 8,
        endianness() == Endian::Little ==> bytes == words_le(d.words()) && read_le(
            bytes.subrange(0, 4),
        ) == d.x && read_le(bytes.subrange(4, 8)) == d.y,
        endianness() == Endian::Big ==> bytes == words_be(d.words()) && read_be(
            bytes.subrange(0, 4),
        ) == d.x && read_be(bytes.subrange(4, 8)) == d.y,
{
    reveal_with_fuel(words_le, 3);
    reveal_with_fuel(words_be, 3);
    lemma_word_round_trip(d.x);
    lemma_word_round_trip(d.y);
    let w = d.words();
    assert(w.drop_first() =~= seq![d.y]);
    assert(w.drop_first().drop_first() =~= Seq::<u32>::empty());
    let le = words_le(w);
    let be = words_be(w);
    assert(le =~= word_le(d.x) + word_le(d.y));
    assert(be =~= word_be(d.x) + word_be(d.y));
    assert(le.subrange(0, 4) =~= word_le(d.x));
    assert(le.subrange(4, 8) =~= word_le(d.y));
    assert(be.subrange(0, 4) =~= word_be(d.x));
    assert(be.subrange(4, 8) =~= word_be(d.y));
}

/// Two uploads use the same byte order: on a little-endian machine both
/// are little-endian, on a big-endian machine both are big-endian.
pub proof fn lemma_uniform_order_is_shared(d1: Display, b1: Seq<u8>, d2: Display, b2: Seq<u8>)
    requires
        in_memory(b1, d1.words()),
        in_memory(b2, d2.words()),
    ensures
        (b1 == words_le(d1.words()) && b2 == words_le(d2.words())) || (b1 == words_be(d1.words())
            && b2 == words_be(d2.words())),
{
}

} // verus!
