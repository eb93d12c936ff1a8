//! The identifier: twenty bytes, and their canonical text form.

use vstd::prelude::*;
use crate::base16::{
    canonical, decode, decoded, encode, encoded, lemma_decode_encoded, lemma_encode_decoded,
    well_formed,
};
use crate::digest::{sha1, sha1_of};

verus! {

/// Number of bytes in an identifier.
pub const HASH_LEN: usize = 20;

/// Why a piece of text is not an identifier.
#[derive(Clone, Copy, Debug, PartialEq, Eq, Structural)]
pub enum HashError {
    /// The text has an odd number of characters, or one of them is not a
    /// hexadecimal digit.
    Decoding,
    /// The text decodes, but not to exactly twenty bytes.
    Length,
}

/// A content identifier: the 160 bits of a SHA-1 digest.
#[derive(Debug)]
pub struct Hash(pub [u8; 20]);

impl Clone for Hash {
    fn clone(&self) -> (copy: Hash)
        ensures
            copy == *self,
    {
        Hash(self.0)
    }
}

impl View for Hash {
    type V = Seq<u8>;

    open spec fn view(&self) -> Seq<u8> {
        self.0@
    }
}

/// The first twenty bytes of a vector as an array, if it has exactly twenty.
fn array_of(bytes: &Vec<u8>) -> (r: Option<[u8; 20]>)
    ensures
        r is Some <==> bytes@.len() == HASH_LEN,
        r matches Some(a) ==> a@ == bytes@,
{
    if bytes.len() != HASH_LEN {
        return None;
    }
    let mut out = [0u8; 20];
    let mut i: usize = 0;
    while i < HASH_LEN
        invariant
            i <= HASH_LEN,
            bytes@.len() == HASH_LEN,
            forall|k: int| 0 <= k < i ==> out@[k] == bytes@[k],
        decreases HASH_LEN - i,
    {
        out[i] = bytes[i];
        i += 1;
    }
    assert(out@ =~= bytes@);
    Some(out)
}

impl Hash {
    /// What a piece of text means as an identifier: the bytes it decodes
    /// to, or the reason why it is refused.
    pub open spec fn parse(text: Seq<char>) -> Result<Seq<u8>, HashError> {
        if !well_formed(text) {
            Err(HashError::Decoding)
        } else if decoded(text).len() != HASH_LEN {
            Err(HashError::Length)
        } else {
            Ok(decoded(text))
        }
    }

    /// Reads an identifier from its text form. Digits of either case are
    /// accepted.
    pub fn from_hex(text: &str) -> (r: Result<Hash, HashError>)
        ensures
            r is Ok <==> well_formed(text@) && text@.len() == 2 * HASH_LEN,
            match r {
                Ok(hash) => Self::parse(text@) == Ok::<Seq<u8>, HashError>(hash@),
                Err(e) => Self::parse(text@) == Err::<Seq<u8>, HashError>(e),
            },
    {
        match decode(text) {
            Err(_) => Err(HashError::Decoding),
            Ok(bytes) => match array_of(&bytes) {
                Some(array) => Ok(Hash(array)),
                None => Err(HashError::Length),
            },
        }
    }

    /// The canonical text form: forty lowercase hexadecimal digits.
    pub fn to_string(&self) -> (text: String)
        ensures
            text@ == encoded(self@),
            text@.len() == 2 * HASH_LEN,
    {
        encode(&self.0)
    }

    /// The identifier of a byte sequence: its SHA-1 digest.
    pub fn digest(data: &[u8]) -> (hash: Hash)
        ensures
            hash@ == sha1(data@),
    {
        Hash(sha1_of(data))
    }
}

impl PartialEq for Hash {
    fn eq(&self, other: &Hash) -> (r: bool) {
        let mut i: usize = 0;
        while i < HASH_LEN
            invariant
                i <= HASH_LEN,
                forall|k: int| 0 <= k < i ==> self@[k] == other@[k],
            decreases HASH_LEN - i,
        {
            if self.0[i] != other.0[i] {
                return false;
            }
            i += 1;
        }
        assert(self@ =~= other@);
        true
    }
}

impl vstd::std_specs::cmp::PartialEqSpecImpl for Hash {
    open spec fn obeys_eq_spec() -> bool {
        true
    }

    open spec fn eq_spec(&self, other: &Hash) -> bool {
        self@ == other@
    }
}

impl Eq for Hash {
}

impl From<[u8; 20]> for Hash {
    fn from(bytes: [u8; 20]) -> (hash: Hash) {
        Hash(bytes)
    }
}

impl vstd::std_specs::convert::FromSpecImpl<[u8; 20]> for Hash {
    open spec fn obeys_from_spec() -> bool {
        true
    }

    open spec fn from_spec(bytes: [u8; 20]) -> Hash {
        Hash(bytes)
    }
}

impl core::ops::Deref for Hash {
    type Target = [u8; 20];

    fn deref(&self) -> (bytes: &[u8; 20])
        ensures
            bytes@ == self@,
    {
        &self.0
    }
}

/// The text form of any twenty bytes reads back as those bytes.
pub proof fn lemma_text_round_trip(bytes: Seq<u8>)
    requires
        bytes.len() == HASH_LEN,
    ensures
        Hash::parse(encoded(bytes)) == Ok::<Seq<u8>, HashError>(bytes),
{
    lemma_decode_encoded(bytes);
}

/// Forty lowercase hexadecimal digits read as an identifier whose text form
/// is those same forty digits.
pub proof fn lemma_canonical_text_round_trip(text: Seq<char>)
    requires
        canonical(text),
        text.len() == 2 * HASH_LEN,
    ensures
        Hash::parse(text) == Ok::<Seq<u8>, HashError>(decoded(text)),
        encoded(decoded(text)) == text,
{
    lemma_encode_decoded(text);
}

/// Text of hexadecimal digits is read as an identifier exactly when it has
/// forty of them; with any other even count its length is at fault.
pub proof fn lemma_length_decides(text: Seq<char>)
    requires
        well_formed(text),
    ensures
        text.len() == 2 * HASH_LEN ==> Hash::parse(text) is Ok,
        text.len() != 2 * HASH_LEN ==> Hash::parse(text) == Err::<Seq<u8>, HashError>(
            HashError::Length,
        ),
{
}

} // verus!
