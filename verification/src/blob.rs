//! The content object: a byte buffer bound to the digest of its bytes.

use vstd::prelude::*;
use vstd::std_specs::cmp::PartialEqSpec;
use vstd::string::StringExecFns;
use crate::base16::encoded;
use crate::digest::sha1;
use crate::hash::HashError;

verus! {

/// Content held in memory together with its identifier.
pub struct Blob {
    hash: crate::hash::Hash,
    data: Vec<u8>,
}

/// What a blob is: its identifier and its content.
pub struct BlobView {
    pub hash: Seq<u8>,
    pub data: Seq<u8>,
}

impl View for Blob {
    type V = BlobView;

    closed spec fn view(&self) -> BlobView {
        BlobView { hash: self.hash@, data: self.data@ }
    }
}

impl Blob {
    /// The identifier is the digest of the content.
    #[verifier::type_invariant]
    pub open spec fn wf(&self) -> bool {
        self@.hash == sha1(self@.data)
    }

    /// Binds the content to its identifier, computed here from all of it.
    pub fn from_bytes(data: Vec<u8>) -> (blob: Blob)
        ensures
            blob@.data == data@,
            blob@.hash == sha1(data@),
            blob.wf(),
    {
        let hash = crate::hash::Hash::digest(data.as_slice());
        Blob { hash, data }
    }

    /// The identifier of the content.
    pub fn hash(&self) -> (hash: &crate::hash::Hash)
        ensures
            hash@ == self@.hash,
            hash@ == sha1(self@.data),
    {
        proof {
            use_type_invariant(self);
        }
        &self.hash
    }

    /// The content.
    pub fn data(&self) -> (data: &Vec<u8>)
        ensures
            data@ == self@.data,
    {
        &self.data
    }

    /// What comparing an identifier with a piece of text gives: whether the
    /// text decodes to that identifier, or why it does not decode.
    pub open spec fn matches_text(hash: Seq<u8>, text: Seq<char>) -> Result<bool, HashError> {
        match crate::hash::Hash::parse(text) {
            Ok(bytes) => Ok(bytes == hash),
            Err(e) => Err(e),
        }
    }

    /// Compares the blob's identifier with one given as text.
    pub fn eq_hex(&self, text: &str) -> (r: Result<bool, HashError>)
        ensures
            r == Self::matches_text(self@.hash, text@),
    {
        match crate::hash::Hash::from_hex(text) {
            Ok(other) => Ok(other == self.hash),
            Err(e) => Err(e),
        }
    }

    /// The diagnostic form of a blob with the given identifier: the type's
    /// name and the identifier's text, never the content.
    pub open spec fn debug_text(hash: Seq<u8>) -> Seq<char> {
        "Blob { hash: \""@ + encoded(hash) + "\" }"@
    }

    /// A diagnostic rendering that shows the identifier and leaves the
    /// content out.
    pub fn debug_string(&self) -> (text: String)
        ensures
            text@ == Self::debug_text(self@.hash),
    {
        let hex = self.hash.to_string();
        let mut text = String::from_str("Blob { hash: \"");
        text.append(hex.as_str());
        text.append("\" }");
        text
    }
}

impl PartialEq for Blob {
    fn eq(&self, other: &Blob) -> (r: bool) {
        self.hash == other.hash
    }
}

impl vstd::std_specs::cmp::PartialEqSpecImpl for Blob {
    open spec fn obeys_eq_spec() -> bool {
        true
    }

    open spec fn eq_spec(&self, other: &Blob) -> bool {
        self@.hash == other@.hash
    }
}

/// Blobs made of the same content have the same identifier and compare
/// equal.
pub proof fn lemma_same_content_equal(a: Blob, b: Blob)
    requires
        a.wf(),
        b.wf(),
        a@.data == b@.data,
    ensures
        a@.hash == b@.hash,
        a.eq_spec(&b),
{
}

/// Blobs whose contents have different digests compare unequal, and only
/// blobs of different content can do so.
pub proof fn lemma_distinct_digest_unequal(a: Blob, b: Blob)
    requires
        a.wf(),
        b.wf(),
        sha1(a@.data) != sha1(b@.data),
    ensures
        !a.eq_spec(&b),
        a@.data != b@.data,
{
}

} // verus!
