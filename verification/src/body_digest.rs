//! The SHA-256 digest of a body file's contents, fed block by block and written as
//! lower-case hexadecimal text.
use vstd::prelude::*;
use sha2::Digest;
use sha2::Sha256;
use crate::ids::hex_digit;
use crate::store::push_char;

verus! {

/// A `sha2::Sha256` hasher. Verus does not take a declaration of `Sha256`, an alias of a
/// wrapper whose type arguments are bounded by outside traits, so the hasher is held here,
/// out of Verus's sight.
#[verifier::external_body]
pub struct Sha256Hasher {
    hasher: Sha256,
}

/// The SHA-256 digest of a byte sequence, as `sha2::Sha256` computes it.
pub uninterp spec fn sha256_digest(bytes: Seq<u8>) -> Seq<u8>;

/// The bytes a `sha2::Sha256` hasher has been fed since it was created.
pub uninterp spec fn sha256_consumed(hasher: Sha256Hasher) -> Seq<u8>;

/// Calls `sha2::Sha256::new` (the `Digest::new` of the hasher).
///
/// Claims: a new hasher has been fed nothing.
#[verifier::external_body]
fn sha256_start() -> (hasher: Sha256Hasher)
    ensures
        sha256_consumed(hasher) == Seq::<u8>::empty(),
{
    Sha256Hasher { hasher: Sha256::new() }
}

/// Calls `Digest::update` on a `sha2::Sha256` hasher.
///
/// Claims: the chunk is appended to what the hasher has been fed.
#[verifier::external_body]
fn sha256_feed(hasher: &mut Sha256Hasher, chunk: &[u8])
    ensures
        sha256_consumed(*final(hasher)) == sha256_consumed(*old(hasher)) + chunk@,
{
    hasher.hasher.update(chunk);
}

/// Calls `Digest::finalize` on a `sha2::Sha256` hasher and copies the output bytes.
///
/// Claims: the bytes are `sha256_digest` of everything the hasher was fed, and there are 32
/// of them (the hasher's output size); the digest depends on those bytes alone.
#[verifier::external_body]
fn sha256_finish(hasher: Sha256Hasher) -> (digest: Vec<u8>)
    ensures
        digest@ == sha256_digest(sha256_consumed(hasher)),
        digest@.len() == 32,
{
    hasher.hasher.finalize().to_vec()
}

/// The lower-case hexadecimal text of bytes, two digits per byte, high digit first.
pub open spec fn lower_hex_text(bytes: Seq<u8>) -> Seq<char> {
    Seq::new(
        2 * bytes.len(),
        |i: int|
            if i % 2 == 0 {
                hex_digit((bytes[i / 2] / 16) as int)
            } else {
                hex_digit((bytes[i / 2] % 16) as int)
            },
    )
}

/// The hexadecimal digit of a value below 16.
fn hex_char(nibble: u8) -> (c: char)
    requires
        nibble < 16,
    ensures
        c == hex_digit(nibble as int),
{
    if nibble < 10 {
        (48u8 + nibble) as char
    } else {
        (87u8 + nibble) as char
    }
}

/// Writes bytes as lower-case hexadecimal text.
pub fn lower_hex(bytes: &Vec<u8>) -> (text: String)
    requires
        2 * bytes.len() <= usize::MAX,
    ensures
        text@ == lower_hex_text(bytes@),
{
    let mut text = String::new();
    let mut i: usize = 0;
    while i < bytes.len()
        invariant
            i <= bytes.len(),
            text@ == lower_hex_text(bytes@.take(i as int)),
        decreases bytes.len() - i,
    {
        let byte = bytes[i];
        let ghost before = text@;
        push_char(&mut text, hex_char(byte / 16));
        push_char(&mut text, hex_char(byte % 16));
        proof {
            let next = bytes@.take(i + 1);
            assert forall|k: int| 0 <= k < 2 * i implies #[trigger] lower_hex_text(next)[k]
                == lower_hex_text(bytes@.take(i as int))[k] by {
                assert(next[k / 2] == bytes@.take(i as int)[k / 2]);
            }
            assert(text@ =~= lower_hex_text(next));
        }
        i = i + 1;
    }
    assert(bytes@.take(bytes.len() as int) =~= bytes@);
    text
}

/// A SHA-256 digest being computed over a body file's contents.
pub struct ContentDigest {
    hasher: Sha256Hasher,
}

impl ContentDigest {
    /// The bytes fed so far.
    pub closed spec fn consumed(&self) -> Seq<u8> {
        sha256_consumed(self.hasher)
    }

    /// A digest that has been fed nothing.
    pub fn new() -> (digest: ContentDigest)
        ensures
            digest.consumed() == Seq::<u8>::empty(),
    {
        ContentDigest { hasher: sha256_start() }
    }

    /// Feeds the next block of the contents.
    pub fn update(&mut self, chunk: &[u8])
        ensures
            final(self).consumed() == old(self).consumed() + chunk@,
    {
        sha256_feed(&mut self.hasher, chunk);
    }

    /// The lower-case hexadecimal SHA-256 of everything fed.
    pub fn finish_hex(self) -> (text: String)
        ensures
            text@ == lower_hex_text(sha256_digest(self.consumed())),
            text@.len() == 64,
    {
        let digest = sha256_finish(self.hasher);
        lower_hex(&digest)
    }
}

} // verus!
