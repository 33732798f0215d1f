use vstd::prelude::*;

verus! {

/// Number of 32-bit words in the model-view-projection matrix.
pub const MATRIX_WORDS: usize = 16;

/// Size in bytes of the uniform buffer that holds the matrix.
pub const UNIFORM_BYTES: usize = 64;

/// The four bytes of a word, least significant first.
pub open spec fn le_bytes(w: u32) -> Seq<u8> {
    seq![(w & 0xff) as u8, ((w >> 8u32) & 0xff) as u8, ((w >> 16u32) & 0xff) as u8, (w >> 24u32) as u8]
}

/// The word whose bytes, least significant first, are `b0` to `b3`.
pub open spec fn word_of(b0: u8, b1: u8, b2: u8, b3: u8) -> u32 {
    (b0 as u32) | ((b1 as u32) << 8u32) | ((b2 as u32) << 16u32) | ((b3 as u32) << 24u32)
}

/// Words laid out one after another, each as its four little-endian bytes.
pub open spec fn encode(words: Seq<u32>) -> Seq<u8> {
    Seq::new(4 * words.len(), |j: int| le_bytes(words[j / 4])[j % 4])
}

/// The words that a byte sequence holds, four little-endian bytes each.
pub open spec fn decode(bytes: Seq<u8>) -> Seq<u32> {
    Seq::new(bytes.len() / 4, |i: int| word_of(bytes[4 * i], bytes[4 * i + 1], bytes[4 * i + 2], bytes[4 * i + 3]))
}

proof fn lemma_word_bytes(w: u32)
    ensures
        word_of(
            (w & 0xff) as u8,
            ((w >> 8u32) & 0xff) as u8,
            ((w >> 16u32) & 0xff) as u8,
            (w >> 24u32) as u8,
        ) == w,
{
    assert(((((w & 0xff) as u8) as u32) | (((((w >> 8u32) & 0xff) as u8) as u32) << 8u32) | (
    ((((w >> 16u32) & 0xff) as u8) as u32) << 16u32) | ((((w >> 24u32) as u8) as u32) << 24u32))
        == w) by (bit_vector);
}

proof fn lemma_div4(i: int, k: int)
    requires
        0 <= k < 4,
    ensures
        (4 * i + k) / 4 == i,
        (4 * i + k) % 4 == k,
{
    assert((4 * i + k) / 4 == i && (4 * i + k) % 4 == k) by (nonlinear_arith)
        requires
            0 <= k < 4,
    ;
}

/// Decoding the encoding of a sequence of words gives the words back.
pub proof fn lemma_decode_encode(words: Seq<u32>)
    ensures
        encode(words).len() == 4 * words.len(),
        decode(encode(words)) == words,
{
    let e = encode(words);
    let d = decode(e);
    assert(d.len() == words.len());
    assert forall|i: int| 0 <= i < words.len() implies d[i] == words[i] by {
        lemma_div4(i, 0);
        lemma_div4(i, 1);
        lemma_div4(i, 2);
        lemma_div4(i, 3);
        assert(4 * i + 3 < 4 * words.len()) by (nonlinear_arith)
            requires
                0 <= i < words.len(),
        ;
        lemma_word_bytes(words[i]);
    }
    assert(d =~= words);
}

/// The bytes of a matrix given as sixteen column-major words.
pub fn matrix_bytes(words: &Vec<u32>) -> (r: Vec<u8>)
    requires
        words@.len() == MATRIX_WORDS,
    ensures
        r@ == encode(words@),
        r@.len() == UNIFORM_BYTES,
{
    let mut out: Vec<u8> = Vec::with_capacity(UNIFORM_BYTES);
    let mut i: usize = 0;
    while i < words.len()
        invariant
            i <= words@.len(),
            words@.len() == MATRIX_WORDS,
            out@.len() == 4 * i,
            forall|j: int| 0 <= j < 4 * i ==> out@[j] == encode(words@)[j],
        decreases words@.len() - i,
    {
        let w = words[i];
        out.push((w & 0xff) as u8);
        out.push(((w >> 8u32) & 0xff) as u8);
        out.push(((w >> 16u32) & 0xff) as u8);
        out.push((w >> 24u32) as u8);
        proof {
            assert forall|j: int| 4 * i <= j < 4 * i + 4 implies out@[j] == encode(words@)[j] by {
                lemma_div4(i as int, j - 4 * i);
            }
        }
        i = i + 1;
    }
    assert(out@ =~= encode(words@));
    out
}

/// The words held by a buffer's bytes, four little-endian bytes each.
pub fn bytes_to_words(bytes: &Vec<u8>) -> (r: Vec<u32>)
    ensures
        r@ == decode(bytes@),
{
    let len: usize = bytes.len();
    let n: usize = len / 4;
    let mut out: Vec<u32> = Vec::with_capacity(n);
    let mut i: usize = 0;
    while i < n
        invariant
            len == bytes@.len(),
            n == len / 4,
            i <= n,
            out@.len() == i,
            forall|j: int| 0 <= j < i ==> out@[j] == decode(bytes@)[j],
        decreases n - i,
    {
        assert(4 * i + 3 < len) by (nonlinear_arith)
            requires
                i < n,
                n == len / 4,
        ;
        let b0 = bytes[4 * i];
        let b1 = bytes[4 * i + 1];
        let b2 = bytes[4 * i + 2];
        let b3 = bytes[4 * i + 3];
        out.push((b0 as u32) | ((b1 as u32) << 8u32) | ((b2 as u32) << 16u32) | ((b3 as u32) << 24u32));
        i = i + 1;
    }
    assert(out@ =~= decode(bytes@));
    out
}

/// A host-side record of what the uniform buffer holds: 64 bytes, zero at
/// creation, replaced whole by each matrix written.
#[derive(Clone, Debug, PartialEq)]
pub struct UniformBuffer {
    bytes: Vec<u8>,
}

impl View for UniformBuffer {
    type V = Seq<u8>;

    closed spec fn view(&self) -> Seq<u8> {
        self.bytes@
    }
}

impl UniformBuffer {
    pub open spec fn wf(&self) -> bool {
        self@.len() == UNIFORM_BYTES
    }

    /// A buffer of 64 zero bytes.
    pub fn new() -> (r: UniformBuffer)
        ensures
            r.wf(),
            r@ == Seq::new(UNIFORM_BYTES as nat, |i: int| 0u8),
    {
        let mut bytes: Vec<u8> = Vec::with_capacity(UNIFORM_BYTES);
        let mut i: usize = 0;
        while i < UNIFORM_BYTES
            invariant
                i <= UNIFORM_BYTES,
                bytes@.len() == i,
                forall|j: int| 0 <= j < i ==> bytes@[j] == 0u8,
            decreases UNIFORM_BYTES - i,
        {
            bytes.push(0u8);
            i = i + 1;
        }
        let r = UniformBuffer { bytes };
        assert(r@ =~= Seq::new(UNIFORM_BYTES as nat, |i: int| 0u8));
        r
    }

    /// Writes a matrix, given as sixteen column-major words, at offset zero
    /// and returns the bytes written.
    pub fn write_matrix(&mut self, words: &Vec<u32>) -> (r: Vec<u8>)
        requires
            words@.len() == MATRIX_WORDS,
        ensures
            r@ == encode(words@),
            final(self)@ == encode(words@),
            final(self).wf(),
    {
        let b = matrix_bytes(words);
        self.bytes = b.clone();
        b
    }

    /// The bytes the buffer holds.
    pub fn contents(&self) -> (r: Vec<u8>)
        ensures
            r@ == self@,
    {
        self.bytes.clone()
    }

    /// The matrix words the buffer holds.
    pub fn read_matrix(&self) -> (r: Vec<u32>)
        ensures
            r@ == decode(self@),
    {
        bytes_to_words(&self.bytes)
    }
}

/// A matrix written into the uniform buffer reads back as the same bytes,
/// and those bytes hold the same sixteen words in the same order.
pub proof fn lemma_uniform_round_trip(words: Seq<u32>, written: Seq<u8>)
    requires
        words.len() == MATRIX_WORDS,
        written == encode(words),
    ensures
        written.len() == UNIFORM_BYTES,
        decode(written) == words,
{
    lemma_decode_encode(words);
}

} // verus!
