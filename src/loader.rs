//! Program images: a big-endian origin word, then big-endian words to be
//! placed in memory from the origin up.

use vstd::prelude::*;

use byteorder::{BigEndian, ByteOrder};

use crate::memory::{MEMORY_SIZE, Memory};

verus! {

/// The word of two bytes, most significant first.
pub open spec fn be_word(hi: u8, lo: u8) -> u16 {
    (hi as int * 256 + lo as int) as u16
}

/// The words of a byte sequence of even length, two bytes each, most
/// significant first.
pub open spec fn be_words(bytes: Seq<u8>) -> Seq<u16> {
    Seq::new(bytes.len() / 2, |i: int| be_word(bytes[2 * i], bytes[2 * i + 1]))
}

/// A parsed program image.
#[derive(Debug, Clone, PartialEq, Eq)]
pub struct Image {
    /// The address of the first word.
    pub origin: u16,
    /// The words, in address order.
    pub words: Vec<u16>,
}

/// Why an image cannot be loaded.
#[derive(Debug, Clone, Copy, PartialEq, Eq, Structural)]
pub enum LoadError {
    /// Fewer than two bytes: no origin.
    MissingOrigin,
    /// The bytes after the origin are odd in number.
    OddLength,
    /// The words do not fit between the origin and the end of memory.
    TooLarge,
}

/// `mem` with `words` placed from `origin` up; every other cell unchanged.
pub open spec fn loaded(mem: Seq<u16>, origin: int, words: Seq<u16>) -> Seq<u16> {
    Seq::new(
        mem.len(),
        |a: int|
            if origin <= a < origin + words.len() {
                words[a - origin]
            } else {
                mem[a]
            },
    )
}

/// The outcome of parsing `bytes` as an image.
pub open spec fn parse_spec(bytes: Seq<u8>) -> Result<(u16, Seq<u16>), LoadError> {
    if bytes.len() < 2 {
        Err(LoadError::MissingOrigin)
    } else if (bytes.len() - 2) % 2 != 0 {
        Err(LoadError::OddLength)
    } else {
        let origin = be_word(bytes[0], bytes[1]);
        let words = be_words(bytes.skip(2));
        if origin + words.len() > MEMORY_SIZE {
            Err(LoadError::TooLarge)
        } else {
            Ok((origin, words))
        }
    }
}

/// Relies on byteorder's `BigEndian::read_u16`: the first two bytes of
/// `buf`, most significant first (it panics on fewer than two).
#[verifier::external_body]
fn read_be_u16(buf: &[u8]) -> (r: u16)
    requires
        buf@.len() >= 2,
    ensures
        r == be_word(buf@[0], buf@[1]),
{
    BigEndian::read_u16(buf)
}

/// Relies on byteorder's `BigEndian::read_u16_into`: each pair of bytes of
/// `src`, most significant first, into the word of `dst` at the same place
/// (it panics unless `src` has twice as many bytes as `dst` has words).
#[verifier::external_body]
fn read_be_u16_into(src: &[u8], dst: &mut [u16])
    requires
        src@.len() == 2 * old(dst)@.len(),
    ensures
        final(dst)@ == be_words(src@),
{
    BigEndian::read_u16_into(src, dst)
}

/// Parses a program image: the origin, then the words.
pub fn parse_image(bytes: &[u8]) -> (r: Result<Image, LoadError>)
    ensures
        match (r, parse_spec(bytes@)) {
            (Ok(image), Ok((origin, words))) => image.origin == origin && image.words@ == words,
            (Err(e), Err(f)) => e == f,
            _ => false,
        },
{
    if bytes.len() < 2 {
        return Err(LoadError::MissingOrigin);
    }
    let origin = read_be_u16(bytes);
    let (_, payload) = bytes.split_at(2);
    assert(payload@ =~= bytes@.skip(2));
    if payload.len() % 2 != 0 {
        return Err(LoadError::OddLength);
    }
    let num_words = payload.len() / 2;
    if origin as usize + num_words > MEMORY_SIZE {
        return Err(LoadError::TooLarge);
    }
    let mut words: Vec<u16> = vec![0u16; num_words];
    read_be_u16_into(payload, words.as_mut_slice());
    Ok(Image { origin, words })
}

impl Memory {
    /// Places the image's words from its origin up; every other cell keeps
    /// its value.
    pub fn load(&mut self, image: &Image)
        requires
            image.origin + image.words@.len() <= MEMORY_SIZE,
        ensures
            final(self)@ == loaded(old(self)@, image.origin as int, image.words@),
    {
        proof {
            old(self).lemma_size();
        }
        let origin = image.origin as usize;
        let mut i: usize = 0;
        while i < image.words.len()
            invariant
                origin == image.origin,
                origin + image.words@.len() <= MEMORY_SIZE,
                i <= image.words@.len(),
                self@.len() == MEMORY_SIZE,
                self@ == loaded(old(self)@, origin as int, image.words@.take(i as int)),
            decreases image.words@.len() - i,
        {
            self.write(origin + i, image.words[i]);
            i = i + 1;
            assert(self@ =~= loaded(old(self)@, origin as int, image.words@.take(i as int)));
        }
        assert(image.words@.take(i as int) =~= image.words@);
    }
}

} // verus!
