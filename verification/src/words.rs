//! Laying out 16-bit and 32-bit words as the bytes of a GPU buffer, least
//! significant byte first.

use vstd::prelude::*;

verus! {

/// The four bytes of a word, least significant first.
pub open spec fn word_bytes(word: u32) -> Seq<u8> {
    seq![
        (word & 0xff) as u8,
        ((word >> 8) & 0xff) as u8,
        ((word >> 16) & 0xff) as u8,
        ((word >> 24) & 0xff) as u8,
    ]
}

/// The word whose four bytes, least significant first, are the bytes of
/// `bytes` from `at` on.
pub open spec fn word_at(bytes: Seq<u8>, at: int) -> u32 {
    (bytes[at] as u32) | (bytes[at + 1] as u32) << 8 | (bytes[at + 2] as u32) << 16 | (bytes[at
        + 3] as u32) << 24
}

/// The bytes of the words of `words`, in order.
pub open spec fn words_bytes(words: Seq<u32>) -> Seq<u8>
    decreases words.len(),
{
    if words.len() == 0 {
        Seq::empty()
    } else {
        words_bytes(words.drop_last()) + word_bytes(words.last())
    }
}

/// The two bytes of a half word, least significant first.
pub open spec fn half_bytes(half: u16) -> Seq<u8> {
    seq![(half & 0xff) as u8, ((half >> 8) & 0xff) as u8]
}

/// The bytes of the half words of `halves`, in order.
pub open spec fn halves_bytes(halves: Seq<u16>) -> Seq<u8>
    decreases halves.len(),
{
    if halves.len() == 0 {
        Seq::empty()
    } else {
        halves_bytes(halves.drop_last()) + half_bytes(halves.last())
    }
}

/// A word is read back from its bytes.
pub proof fn lemma_word_round_trip(word: u32)
    ensures
        word_at(word_bytes(word), 0) == word,
{
    let b0 = (word & 0xff) as u8;
    let b1 = ((word >> 8) & 0xff) as u8;
    let b2 = ((word >> 16) & 0xff) as u8;
    let b3 = ((word >> 24) & 0xff) as u8;
    assert((b0 as u32) | (b1 as u32) << 8 | (b2 as u32) << 16 | (b3 as u32) << 24 == word)
        by (bit_vector)
        requires
            b0 == (word & 0xff) as u8,
            b1 == ((word >> 8) & 0xff) as u8,
            b2 == ((word >> 16) & 0xff) as u8,
            b3 == ((word >> 24) & 0xff) as u8,
    ;
}

/// Words take four bytes each, and the word at position `k` lies at the
/// bytes from `4 * k` on.
pub proof fn lemma_words_bytes(words: Seq<u32>, k: int)
    requires
        0 <= k < words.len(),
    ensures
        words_bytes(words).len() == 4 * words.len(),
        words_bytes(words).subrange(4 * k, 4 * k + 4) == word_bytes(words[k]),
        word_at(words_bytes(words), 4 * k) == words[k],
    decreases words.len(),
{
    lemma_words_bytes_len(words);
    let all = words_bytes(words);
    let before = words_bytes(words.drop_last());
    lemma_words_bytes_len(words.drop_last());
    if k == words.len() - 1 {
        assert(all.subrange(4 * k, 4 * k + 4) =~= word_bytes(words[k]));
    } else {
        lemma_words_bytes(words.drop_last(), k);
        assert(all.subrange(4 * k, 4 * k + 4) =~= before.subrange(4 * k, 4 * k + 4));
    }
    let four = all.subrange(4 * k, 4 * k + 4);
    assert(four[0] == all[4 * k] && four[1] == all[4 * k + 1] && four[2] == all[4 * k + 2]
        && four[3] == all[4 * k + 3]);
    lemma_word_round_trip(words[k]);
}

/// Words take four bytes each.
pub proof fn lemma_words_bytes_len(words: Seq<u32>)
    ensures
        words_bytes(words).len() == 4 * words.len(),
    decreases words.len(),
{
    if words.len() > 0 {
        lemma_words_bytes_len(words.drop_last());
    }
}

/// The bytes of two runs of words are those of the first followed by those
/// of the second.
pub proof fn lemma_words_bytes_concat(a: Seq<u32>, b: Seq<u32>)
    ensures
        words_bytes(a + b) == words_bytes(a) + words_bytes(b),
    decreases b.len(),
{
    if b.len() == 0 {
        assert(a + b =~= a);
        assert(words_bytes(a) + words_bytes(b) =~= words_bytes(a));
    } else {
        assert((a + b).drop_last() =~= a + b.drop_last());
        lemma_words_bytes_concat(a, b.drop_last());
        assert(words_bytes(a + b) =~= words_bytes(a) + words_bytes(b));
    }
}

/// The bytes of a run of words with one more word are those of the run
/// followed by those of the word.
pub proof fn lemma_words_bytes_push(words: Seq<u32>, word: u32)
    ensures
        words_bytes(words.push(word)) == words_bytes(words) + word_bytes(word),
{
    assert(words.push(word).drop_last() =~= words);
}

/// The bytes of a single word.
pub proof fn lemma_words_bytes_single(word: u32)
    ensures
        words_bytes(seq![word]) == word_bytes(word),
{
    lemma_words_bytes_push(Seq::empty(), word);
    assert(Seq::<u32>::empty().push(word) =~= seq![word]);
    assert(words_bytes(Seq::empty()) + word_bytes(word) =~= word_bytes(word));
}

/// Half words take two bytes each.
pub proof fn lemma_halves_bytes_len(halves: Seq<u16>)
    ensures
        halves_bytes(halves).len() == 2 * halves.len(),
    decreases halves.len(),
{
    if halves.len() > 0 {
        lemma_halves_bytes_len(halves.drop_last());
    }
}

/// Appends the bytes of `word`.
pub fn push_word(bytes: &mut Vec<u8>, word: u32)
    ensures
        final(bytes)@ == old(bytes)@ + word_bytes(word),
{
    bytes.push((word & 0xff) as u8);
    bytes.push(((word >> 8) & 0xff) as u8);
    bytes.push(((word >> 16) & 0xff) as u8);
    bytes.push(((word >> 24) & 0xff) as u8);
    assert(bytes@ =~= old(bytes)@ + word_bytes(word));
}

/// Appends the bytes of the words of `words`.
pub fn push_words(bytes: &mut Vec<u8>, words: &[u32])
    ensures
        final(bytes)@ == old(bytes)@ + words_bytes(words@),
{
    let mut k: usize = 0;
    while k < words.len()
        invariant
            k <= words@.len(),
            bytes@ == old(bytes)@ + words_bytes(words@.take(k as int)),
        decreases words@.len() - k,
    {
        push_word(bytes, words[k]);
        proof {
            let next = words@.take(k + 1);
            assert(next.drop_last() =~= words@.take(k as int));
            assert(next.last() == words@[k as int]);
            assert(bytes@ =~= old(bytes)@ + words_bytes(next));
        }
        k = k + 1;
    }
    assert(words@.take(words@.len() as int) =~= words@);
}

/// The bytes of the words of `words`.
pub fn words_to_bytes(words: &[u32]) -> (bytes: Vec<u8>)
    ensures
        bytes@ == words_bytes(words@),
        bytes@.len() == 4 * words@.len(),
{
    let mut bytes: Vec<u8> = Vec::new();
    push_words(&mut bytes, words);
    proof {
        lemma_words_bytes_len(words@);
        assert(bytes@ =~= words_bytes(words@));
    }
    bytes
}

/// The bytes of the half words of `halves`.
pub fn halves_to_bytes(halves: &[u16]) -> (bytes: Vec<u8>)
    ensures
        bytes@ == halves_bytes(halves@),
        bytes@.len() == 2 * halves@.len(),
{
    let mut bytes: Vec<u8> = Vec::new();
    let mut k: usize = 0;
    while k < halves.len()
        invariant
            k <= halves@.len(),
            bytes@ == halves_bytes(halves@.take(k as int)),
        decreases halves@.len() - k,
    {
        let half = halves[k];
        bytes.push((half & 0xff) as u8);
        bytes.push(((half >> 8) & 0xff) as u8);
        proof {
            let next = halves@.take(k + 1);
            assert(next.drop_last() =~= halves@.take(k as int));
            assert(next.last() == half);
            assert(bytes@ =~= halves_bytes(next));
        }
        k = k + 1;
    }
    proof {
        assert(halves@.take(halves@.len() as int) =~= halves@);
        lemma_halves_bytes_len(halves@);
    }
    bytes
}

} // verus!
