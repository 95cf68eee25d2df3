use vstd::prelude::*;

verus! {

/// Number of 32-bit words in the packed uniform record.
pub const LOWERED_SCENE_WORDS: usize = 36;

/// Number of bytes in the packed uniform record.
pub const LOWERED_SCENE_BYTES: usize = 144;

/// Alignment, in bytes, that the packed record's size is a multiple of.
pub const UNIFORM_ALIGNMENT: usize = 16;

/// The per-frame uniform record: a model-view matrix and a projection matrix
/// (sixteen values each, column-major), and the elapsed time. Each value is
/// held as the bit pattern of a 32-bit float. The record is followed by three
/// words of zero padding when packed.
#[derive(Clone, Copy, Debug)]
pub struct LoweredScene {
    pub mv: [u32; 16],
    pub proj: [u32; 16],
    pub time: u32,
}

impl LoweredScene {
    /// The packed words: model-view, projection, time, then three zero words.
    pub open spec fn words(self) -> Seq<u32> {
        self.mv@ + self.proj@ + seq![self.time, 0u32, 0u32, 0u32]
    }

    /// A record with every value zero.
    pub open spec fn is_zeroed(self) -> bool {
        (forall|i: int| 0 <= i < 16 ==> self.mv@[i] == 0) && (forall|i: int|
            0 <= i < 16 ==> self.proj@[i] == 0) && self.time == 0
    }

    /// Builds the record from the two matrices (sixteen bit patterns each,
    /// column-major) and the time's bit pattern.
    pub fn from_parts(mv: &[u32], proj: &[u32], time: u32) -> (r: LoweredScene)
        requires
            mv@.len() == 16,
            proj@.len() == 16,
        ensures
            r.mv@ == mv@,
            r.proj@ == proj@,
            r.time == time,
    {
        LoweredScene { mv: slice_to_array(mv), proj: slice_to_array(proj), time }
    }

    /// The packed words, in layout order.
    pub fn to_words(&self) -> (r: Vec<u32>)
        ensures
            r@ == self.words(),
            r@.len() == LOWERED_SCENE_WORDS,
    {
        let mut out: Vec<u32> = Vec::with_capacity(LOWERED_SCENE_WORDS);
        let mut i: usize = 0;
        while i < 16
            invariant
                i <= 16,
                out@ == self.mv@.subrange(0, i as int),
            decreases 16 - i,
        {
            out.push(self.mv[i]);
            i = i + 1;
        }
        assert(out@ == self.mv@);
        let mut j: usize = 0;
        while j < 16
            invariant
                j <= 16,
                out@ == self.mv@ + self.proj@.subrange(0, j as int),
            decreases 16 - j,
        {
            out.push(self.proj[j]);
            assert(self.proj@.subrange(0, j + 1) == self.proj@.subrange(0, j as int).push(self.proj@[j as int]));
            j = j + 1;
        }
        assert(self.proj@.subrange(0, 16) == self.proj@);
        out.push(self.time);
        out.push(0);
        out.push(0);
        out.push(0);
        assert(out@ == self.words());
        out
    }

    /// The packed bytes that are uploaded to the uniform buffer: each word's
    /// four bytes in memory order, at four times the word's place.
    pub fn to_bytes(&self) -> (r: Vec<u8>)
        ensures
            r@.len() == 4 * self.words().len(),
            r@.len() == LOWERED_SCENE_BYTES,
            r@.len() % UNIFORM_ALIGNMENT as nat == 0,
            word_bytes_match(self.words(), r@),
            self.is_zeroed() ==> forall|k: int| 0 <= k < r@.len() ==> r@[k] == 0,
    {
        let words = self.to_words();
        bytes_of_words(&words)
    }
}

impl Default for LoweredScene {
    fn default() -> (r: LoweredScene)
        ensures
            r.is_zeroed(),
    {
        LoweredScene { mv: [0u32; 16], proj: [0u32; 16], time: 0 }
    }
}

/// The four bytes at word place `i`.
pub open spec fn word_at(bytes: Seq<u8>, i: int) -> Seq<u8> {
    bytes.subrange(4 * i, 4 * i + 4)
}

/// `bytes` holds each word's own four bytes at four times its place: two
/// places hold equal bytes exactly when their words are equal, and a zero
/// word is four zero bytes.
pub open spec fn word_bytes_match(words: Seq<u32>, bytes: Seq<u8>) -> bool {
    &&& bytes.len() == 4 * words.len()
    &&& forall|i: int, j: int|
        0 <= i < words.len() && 0 <= j < words.len() ==> (words[i] == words[j] <==> word_at(
            bytes,
            i,
        ) == word_at(bytes, j))
    &&& forall|i: int|
        0 <= i < words.len() && words[i] == 0 ==> word_at(bytes, i) == seq![0u8, 0u8, 0u8, 0u8]
}

/// Relies on bytemuck::cast_slice from `u32` to `u8`: the words' memory,
/// four bytes per word (no alignment or size error is possible for this
/// pair of types). Each word is its own four bytes, which determine the
/// word; zero is four zero bytes.
#[verifier::external_body]
fn bytes_of_words(words: &Vec<u32>) -> (r: Vec<u8>)
    ensures
        r@.len() == 4 * words@.len(),
        forall|i: int, j: int|
            0 <= i < words@.len() && 0 <= j < words@.len() ==> (words@[i] == words@[j]
                <==> r@.subrange(4 * i, 4 * i + 4) == r@.subrange(4 * j, 4 * j + 4)),
        forall|i: int|
            0 <= i < words@.len() && words@[i] == 0 ==> r@.subrange(4 * i, 4 * i + 4) == seq![
                0u8,
                0u8,
                0u8,
                0u8,
            ],
        (forall|i: int| 0 <= i < words@.len() ==> words@[i] == 0) ==> (forall|k: int|
            0 <= k < r@.len() ==> r@[k] == 0),
{
    bytemuck::cast_slice::<u32, u8>(words.as_slice()).to_vec()
}

/// Copies a slice of exactly `N` values into an array.
pub fn slice_to_array<const N: usize>(s: &[u32]) -> (out: [u32; N])
    requires
        s@.len() == N,
    ensures
        out@ == s@,
{
    let mut out: [u32; N] = [0u32; N];
    let mut i: usize = 0;
    while i < N
        invariant
            i <= N,
            s@.len() == N,
            out@.len() == N,
            forall|j: int| 0 <= j < i ==> out@[j] == s@[j],
        decreases N - i,
    {
        out[i] = s[i];
        i = i + 1;
    }
    assert(out@ == s@);
    out
}

/// Whatever the record holds, it packs to the same number of words and bytes,
/// a multiple of the uniform alignment, with the matrices, the time and the
/// zero padding at fixed places.
pub proof fn lemma_layout_fixed(a: LoweredScene, b: LoweredScene)
    ensures
        a.words().len() == b.words().len(),
        a.words().len() == LOWERED_SCENE_WORDS,
        4 * a.words().len() == LOWERED_SCENE_BYTES,
        LOWERED_SCENE_BYTES % UNIFORM_ALIGNMENT == 0,
        a.words().subrange(0, 16) == a.mv@,
        a.words().subrange(16, 32) == a.proj@,
        a.words()[32] == a.time,
        a.words()[33] == 0 && a.words()[34] == 0 && a.words()[35] == 0,
{
    assert(a.words().subrange(0, 16) =~= a.mv@);
    assert(a.words().subrange(16, 32) =~= a.proj@);
}

/// In the packed bytes of any record, the padding (bytes 132 to 144) is zero,
/// and each of the first 33 words' bytes stand at four times its place:
/// the model-view matrix in bytes 0 to 64, the projection in 64 to 128, the
/// time in 128 to 132.
pub proof fn lemma_packed_padding_zero(s: LoweredScene, bytes: Seq<u8>)
    requires
        word_bytes_match(s.words(), bytes),
    ensures
        bytes.len() == LOWERED_SCENE_BYTES,
        forall|k: int| 132 <= k < 144 ==> bytes[k] == 0,
        forall|i: int, j: int| 0 <= i < 16 && 0 <= j < 16 ==> (s.mv@[i] == s.proj@[j] <==> word_at(bytes, i) == word_at(bytes, 16 + j)),
        forall|i: int| 0 <= i < 32 ==> (s.words()[i] == s.time <==> word_at(bytes, i) == word_at(bytes, 32)),
{
    let w = s.words();
    assert(w[33] == 0 && w[34] == 0 && w[35] == 0);
    assert(word_at(bytes, 33) == seq![0u8, 0u8, 0u8, 0u8]);
    assert(word_at(bytes, 34) == seq![0u8, 0u8, 0u8, 0u8]);
    assert(word_at(bytes, 35) == seq![0u8, 0u8, 0u8, 0u8]);
    assert forall|k: int| 132 <= k < 144 implies bytes[k] == 0 by {
        let i = k / 4;
        assert(33 <= i < 36);
        assert(word_at(bytes, i)[k - 4 * i] == bytes[k]);
    }
    assert forall|i: int, j: int| 0 <= i < 16 && 0 <= j < 16 implies (s.mv@[i] == s.proj@[j]
        <==> word_at(bytes, i) == word_at(bytes, 16 + j)) by {
        assert(w[i] == s.mv@[i]);
        assert(w[16 + j] == s.proj@[j]);
    }
    assert(w[32] == s.time);
}

} // verus!
