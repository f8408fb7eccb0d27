//! The bytes of the small records that a data-parallel backend reads beside
//! the cells: the tick's number, and the size of the forest.

use vstd::prelude::*;

verus! {

/// The four bytes of a word, lowest first.
pub open spec fn le_bytes(word: u32) -> Seq<u8> {
    seq![
        (word & 0xff) as u8,
        ((word >> 8) & 0xff) as u8,
        ((word >> 16) & 0xff) as u8,
        ((word >> 24) & 0xff) as u8,
    ]
}

/// The four bytes of a word, highest first.
pub open spec fn be_bytes(word: u32) -> Seq<u8> {
    seq![
        ((word >> 24) & 0xff) as u8,
        ((word >> 16) & 0xff) as u8,
        ((word >> 8) & 0xff) as u8,
        (word & 0xff) as u8,
    ]
}

/// The bytes of a run of words, each lowest byte first.
pub open spec fn le_image(words: Seq<u32>) -> Seq<u8> {
    Seq::new(4 * words.len(), |i: int| le_bytes(words[i / 4])[i % 4])
}

/// The bytes of a run of words, each highest byte first.
pub open spec fn be_image(words: Seq<u32>) -> Seq<u8> {
    Seq::new(4 * words.len(), |i: int| be_bytes(words[i / 4])[i % 4])
}

/// Calls `bytemuck::bytes_of` on a `u32` and copies what it returns: the
/// four bytes that the word occupies in memory. Which byte comes first is the
/// machine's choice, so the contract allows both orders and no other bytes.
#[verifier::external_body]
fn word_bytes(word: u32) -> (bytes: Vec<u8>)
    ensures
        bytes@ == le_bytes(word) || bytes@ == be_bytes(word),
{
    bytemuck::bytes_of(&word).to_vec()
}

/// Calls `bytemuck::cast_slice` from `u32` to `u8` and copies what it
/// returns: the bytes that the words occupy in memory, word after word. The
/// cast cannot fail, since a byte needs no alignment and four of them make a
/// word. Which byte of a word comes first is the machine's choice, the same
/// for every word.
#[verifier::external_body]
pub(crate) fn words_bytes(words: &Vec<u32>) -> (bytes: Vec<u8>)
    ensures
        bytes@ == le_image(words@) || bytes@ == be_image(words@),
{
    bytemuck::cast_slice::<u32, u8>(words.as_slice()).to_vec()
}

/// Calls `bytemuck::try_cast_slice` from `u8` to `u32` and copies the words
/// where it succeeds. It fails where the bytes are not a whole number of
/// words, and where they happen to lie at an address that is no multiple of
/// a word's alignment, which is for the allocator to decide; so the contract
/// promises no success. Where words come back, the bytes are the words' image
/// in the machine's byte order.
#[verifier::external_body]
pub(crate) fn bytes_words(bytes: &Vec<u8>) -> (words: Option<Vec<u32>>)
    ensures
        bytes@.len() % 4 != 0 ==> words is None,
        words matches Some(w) ==> bytes@ == le_image(w@) || bytes@ == be_image(w@),
{
    bytemuck::try_cast_slice::<u8, u32>(bytes.as_slice()).ok().map(|w| w.to_vec())
}

/// The record that tells a tick its number: the four bytes of `step` as the
/// machine lays them out.
pub fn step_uniform(step: u32) -> (bytes: Vec<u8>)
    ensures
        bytes@ == le_bytes(step) || bytes@ == be_bytes(step),
        bytes@.len() == 4,
{
    word_bytes(step)
}

/// The record that tells the size of the forest: the bytes of the width,
/// then those of the height, as the machine lays them out.
pub fn dimensions_uniform(width: u32, height: u32) -> (bytes: Vec<u8>)
    ensures
        bytes@ == le_bytes(width) + le_bytes(height) || bytes@ == be_bytes(width) + be_bytes(height),
        bytes@.len() == 8,
{
    let mut words: Vec<u32> = Vec::new();
    words.push(width);
    words.push(height);
    let bytes = words_bytes(&words);
    proof {
        assert(words@ =~= seq![width, height]);
        assert(le_image(words@) =~= le_bytes(width) + le_bytes(height));
        assert(be_image(words@) =~= be_bytes(width) + be_bytes(height));
    }
    bytes
}

} // verus!
